//! The tools that each role is offered.

use vstd::prelude::*;

use crate::mcp::args::McpCall;
use crate::mcp::{HintClass, McpRole};
use crate::text::{concat, same_text};

verus! {

/// A tool as it is offered. The schema of its arguments is that of the call it makes.
#[derive(Debug)]
pub struct ToolEntry {
    pub name: &'static str,
    pub description: &'static str,
    pub hints: HintClass,
}

#[verifier::ext_equal]
pub struct ToolModel {
    pub name: Seq<char>,
    pub description: Seq<char>,
    pub hints: HintClass,
}

impl ToolEntry {
    pub open spec fn model(self) -> ToolModel {
        ToolModel { name: self.name@, description: self.description@, hints: self.hints }
    }
}

pub open spec fn tool_models(tools: Seq<ToolEntry>) -> Seq<ToolModel> {
    Seq::new(tools.len(), |i: int| tools[i].model())
}

/// The tools for agents and workspaces.
pub open spec fn agent_workspace_tools_models() -> Seq<ToolModel> {
    seq![
        ToolModel { name: "agent_list"@, description: "List agents in the current workspace."@, hints: HintClass::ReadOnly },
        ToolModel { name: "agent_send"@, description: "Send a targeted request to a ready agent."@, hints: HintClass::Additive },
        ToolModel { name: "workspace_list"@, description: "List accessible workspaces one bounded page at a time."@, hints: HintClass::ReadOnly },
        ToolModel { name: "workspace_join"@, description: "Join an accessible workspace."@, hints: HintClass::Additive },
        ToolModel { name: "workspace_leave"@, description: "Leave the current workspace."@, hints: HintClass::Destructive },
        ToolModel { name: "workspace_members"@, description: "List current workspace members."@, hints: HintClass::ReadOnly },
        ToolModel { name: "workspace_post"@, description: "Post explicit text to the current workspace."@, hints: HintClass::Additive },
        ToolModel { name: "workspace_history"@, description: "Read one bounded page of workspace history."@, hints: HintClass::ReadOnly },
    ]
}

fn agent_workspace_tools() -> (tools: Vec<ToolEntry>)
    ensures
        tool_models(tools@) == agent_workspace_tools_models(),
{
    let tools: Vec<ToolEntry> = vec![
        ToolEntry { name: "agent_list", description: "List agents in the current workspace.", hints: HintClass::ReadOnly },
        ToolEntry { name: "agent_send", description: "Send a targeted request to a ready agent.", hints: HintClass::Additive },
        ToolEntry { name: "workspace_list", description: "List accessible workspaces one bounded page at a time.", hints: HintClass::ReadOnly },
        ToolEntry { name: "workspace_join", description: "Join an accessible workspace.", hints: HintClass::Additive },
        ToolEntry { name: "workspace_leave", description: "Leave the current workspace.", hints: HintClass::Destructive },
        ToolEntry { name: "workspace_members", description: "List current workspace members.", hints: HintClass::ReadOnly },
        ToolEntry { name: "workspace_post", description: "Post explicit text to the current workspace.", hints: HintClass::Additive },
        ToolEntry { name: "workspace_history", description: "Read one bounded page of workspace history.", hints: HintClass::ReadOnly },
    ];
    assert(tool_models(tools@) =~= agent_workspace_tools_models());
    tools
}

/// The tools for tasks.
pub open spec fn task_tools_models() -> Seq<ToolModel> {
    seq![
        ToolModel { name: "task_list"@, description: "List one bounded page of native tasks."@, hints: HintClass::ReadOnly },
        ToolModel { name: "task_get"@, description: "Read current native task state."@, hints: HintClass::ReadOnly },
        ToolModel { name: "task_history"@, description: "Read one bounded page of task history."@, hints: HintClass::ReadOnly },
        ToolModel { name: "task_create"@, description: "Create a native task."@, hints: HintClass::Additive },
        ToolModel { name: "task_edit"@, description: "Edit native task title or description using its expected version."@, hints: HintClass::Destructive },
        ToolModel { name: "task_assign"@, description: "Assign or unassign a native task. Assignment does not start execution."@, hints: HintClass::Destructive },
        ToolModel { name: "task_note"@, description: "Append a native task note."@, hints: HintClass::Additive },
        ToolModel { name: "task_begin"@, description: "Begin an assigned requested task using the current work request and checkpoint fence."@, hints: HintClass::Destructive },
        ToolModel { name: "task_checkpoint"@, description: "Record progress for the exact running attempt."@, hints: HintClass::Additive },
        ToolModel { name: "task_pause"@, description: "Pause or block the exact running attempt with a checkpoint."@, hints: HintClass::Destructive },
        ToolModel { name: "task_complete"@, description: "Complete the exact running attempt with a result."@, hints: HintClass::Destructive },
        ToolModel { name: "task_cancel"@, description: "Cancel a native task using its expected version."@, hints: HintClass::Destructive },
        ToolModel { name: "task_reopen"@, description: "Reopen a native task using its expected version."@, hints: HintClass::Destructive },
        ToolModel { name: "task_request"@, description: "Request execution from the explicitly assigned agent. This is routed work and does not begin the task."@, hints: HintClass::OpenWorldAdditive },
    ]
}

fn task_tools() -> (tools: Vec<ToolEntry>)
    ensures
        tool_models(tools@) == task_tools_models(),
{
    let tools: Vec<ToolEntry> = vec![
        ToolEntry { name: "task_list", description: "List one bounded page of native tasks.", hints: HintClass::ReadOnly },
        ToolEntry { name: "task_get", description: "Read current native task state.", hints: HintClass::ReadOnly },
        ToolEntry { name: "task_history", description: "Read one bounded page of task history.", hints: HintClass::ReadOnly },
        ToolEntry { name: "task_create", description: "Create a native task.", hints: HintClass::Additive },
        ToolEntry { name: "task_edit", description: "Edit native task title or description using its expected version.", hints: HintClass::Destructive },
        ToolEntry { name: "task_assign", description: "Assign or unassign a native task. Assignment does not start execution.", hints: HintClass::Destructive },
        ToolEntry { name: "task_note", description: "Append a native task note.", hints: HintClass::Additive },
        ToolEntry { name: "task_begin", description: "Begin an assigned requested task using the current work request and checkpoint fence.", hints: HintClass::Destructive },
        ToolEntry { name: "task_checkpoint", description: "Record progress for the exact running attempt.", hints: HintClass::Additive },
        ToolEntry { name: "task_pause", description: "Pause or block the exact running attempt with a checkpoint.", hints: HintClass::Destructive },
        ToolEntry { name: "task_complete", description: "Complete the exact running attempt with a result.", hints: HintClass::Destructive },
        ToolEntry { name: "task_cancel", description: "Cancel a native task using its expected version.", hints: HintClass::Destructive },
        ToolEntry { name: "task_reopen", description: "Reopen a native task using its expected version.", hints: HintClass::Destructive },
        ToolEntry { name: "task_request", description: "Request execution from the explicitly assigned agent. This is routed work and does not begin the task.", hints: HintClass::OpenWorldAdditive },
    ];
    assert(tool_models(tools@) =~= task_tools_models());
    tools
}

/// The tools for external trackers.
pub open spec fn integration_tools_models() -> Seq<ToolModel> {
    seq![
        ToolModel { name: "integration_list"@, description: "List public integration metadata without contacting an external API."@, hints: HintClass::ReadOnly },
        ToolModel { name: "task_import"@, description: "Explicitly import selected external issue text into a new native task."@, hints: HintClass::OpenWorldAdditive },
        ToolModel { name: "task_link"@, description: "Link or explicitly replace a task's selected external issue reference."@, hints: HintClass::OpenWorldDestructive },
        ToolModel { name: "task_publish"@, description: "Explicitly publish a selected issue or immutable report through a configured project integration."@, hints: HintClass::OpenWorldAdditive },
        ToolModel { name: "task_external_status"@, description: "Read stored external operation status without contacting the external API."@, hints: HintClass::ReadOnly },
    ]
}

fn integration_tools() -> (tools: Vec<ToolEntry>)
    ensures
        tool_models(tools@) == integration_tools_models(),
{
    let tools: Vec<ToolEntry> = vec![
        ToolEntry { name: "integration_list", description: "List public integration metadata without contacting an external API.", hints: HintClass::ReadOnly },
        ToolEntry { name: "task_import", description: "Explicitly import selected external issue text into a new native task.", hints: HintClass::OpenWorldAdditive },
        ToolEntry { name: "task_link", description: "Link or explicitly replace a task's selected external issue reference.", hints: HintClass::OpenWorldDestructive },
        ToolEntry { name: "task_publish", description: "Explicitly publish a selected issue or immutable report through a configured project integration.", hints: HintClass::OpenWorldAdditive },
        ToolEntry { name: "task_external_status", description: "Read stored external operation status without contacting the external API.", hints: HintClass::ReadOnly },
    ];
    assert(tool_models(tools@) =~= integration_tools_models());
    tools
}

/// The tools that every role is offered.
pub open spec fn common_models() -> Seq<ToolModel> {
    agent_workspace_tools_models() + task_tools_models() + integration_tools_models()
}

/// The tool that waits for work.
pub open spec fn wait_model() -> ToolModel {
    ToolModel {
        name: "agent_wait"@,
        description: "Wait for one targeted work request. Requires workspace membership and does not poll chat."@,
        hints: HintClass::Additive,
    }
}

/// The tool that answers work.
pub open spec fn reply_model() -> ToolModel {
    ToolModel {
        name: "agent_reply"@,
        description: "Reply exactly once to the current targeted request. A reply does not complete a task."@,
        hints: HintClass::Additive,
    }
}

/// The tools that a role is offered, in order.
pub open spec fn catalog_models(role: McpRole) -> Seq<ToolModel> {
    match role {
        McpRole::Delegate => common_models(),
        McpRole::CodexCli => common_models().push(wait_model()).push(reply_model()),
        _ => common_models().push(reply_model()),
    }
}

/// Whether a tool of that name is among some tools.
pub open spec fn names_tool(tools: Seq<ToolModel>, name: Seq<char>) -> bool {
    exists|i: int| 0 <= i < tools.len() && #[trigger] tools[i].name == name
}

fn common_catalog() -> (tools: Vec<ToolEntry>)
    ensures
        tool_models(tools@) == common_models(),
{
    let mut tools = agent_workspace_tools();
    let mut tasks = task_tools();
    let mut integrations = integration_tools();
    let ghost first = tools@;
    let ghost second = tasks@;
    let ghost third = integrations@;
    tools.append(&mut tasks);
    tools.append(&mut integrations);
    assert(tools@ == first + second + third);
    assert(tool_models(tools@) =~= tool_models(first) + tool_models(second) + tool_models(third));
    tools
}

/// The tools that a role is offered.
pub fn catalog(role: McpRole) -> (tools: Vec<ToolEntry>)
    ensures
        tool_models(tools@) == catalog_models(role),
{
    let mut tools = common_catalog();
    if role.can_wait() {
        let ghost before = tools@;
        let entry = ToolEntry {
            name: "agent_wait",
            description: "Wait for one targeted work request. Requires workspace membership and does not poll chat.",
            hints: HintClass::Additive,
        };
        assert(entry.model() == wait_model());
        tools.push(entry);
        assert(tool_models(tools@) =~= tool_models(before).push(wait_model()));
    }
    if role.can_reply() {
        let ghost before = tools@;
        let entry = ToolEntry {
            name: "agent_reply",
            description: "Reply exactly once to the current targeted request. A reply does not complete a task.",
            hints: HintClass::Additive,
        };
        assert(entry.model() == reply_model());
        tools.push(entry);
        assert(tool_models(tools@) =~= tool_models(before).push(reply_model()));
    }
    tools
}

/// The name by which the client of a role knows a tool.
pub open spec fn client_name(role: McpRole, tool: Seq<char>) -> Seq<char> {
    if role is ClaudeChannel {
        "mcp__agent_session_router__"@ + tool
    } else {
        tool
    }
}

/// The names by which the client of a role knows its tools.
pub fn enabled_tool_names(role: McpRole) -> (names: Vec<String>)
    ensures
        names@.len() == catalog_models(role).len(),
        forall|i: int|
            0 <= i < names@.len() ==> #[trigger] names@[i]@ == client_name(
                role,
                catalog_models(role)[i].name,
            ),
{
    let tools = catalog(role);
    let mut names: Vec<String> = Vec::new();
    let mut i: usize = 0;
    assert(tool_models(tools@).len() == tools@.len());
    while i < tools.len()
        invariant
            i <= tools@.len(),
            names@.len() == i,
            tool_models(tools@) == catalog_models(role),
            forall|j: int|
                0 <= j < i ==> #[trigger] names@[j]@ == client_name(
                    role,
                    catalog_models(role)[j].name,
                ),
        decreases tools.len() - i,
    {
        assert(tool_models(tools@)[i as int] == tools@[i as int].model());
        let name = match role {
            McpRole::ClaudeChannel => concat("mcp__agent_session_router__", tools[i].name),
            _ => tools[i].name.to_owned(),
        };
        names.push(name);
        i += 1;
    }
    names
}

/// The place of the first tool of a name among some tools.
fn find_tool(tools: &Vec<ToolEntry>, name: &str) -> (place: Option<usize>)
    ensures
        match place {
            Some(place) => place < tools@.len() && tools@[place as int].name@ == name@ && forall|
                i: int,
            |
                0 <= i < place ==> #[trigger] tools@[i].name@ != name@,
            None => forall|i: int| 0 <= i < tools@.len() ==> #[trigger] tools@[i].name@ != name@,
        },
{
    let mut i: usize = 0;
    while i < tools.len()
        invariant
            i <= tools@.len(),
            forall|j: int| 0 <= j < i ==> #[trigger] tools@[j].name@ != name@,
        decreases tools.len() - i,
    {
        if same_text(tools[i].name, name) {
            return Some(i);
        }
        i += 1;
    }
    None
}

/// Whether a role may call the tool of that name.
pub fn tool_visible(role: McpRole, name: &str) -> (visible: bool)
    ensures
        visible == names_tool(catalog_models(role), name@),
{
    let tools = common_catalog();
    let found = find_tool(&tools, name);
    let visible = found.is_some() || (role.can_wait() && same_text(name, "agent_wait")) || (
    role.can_reply() && same_text(name, "agent_reply"));
    proof {
        let all = catalog_models(role);
        let common = common_models();
        assert(forall|i: int| 0 <= i < common.len() ==> tools@[i].model() == #[trigger] common[i]);
        assert(tools@.len() == common.len());
        if let Some(place) = found {
            assert(all[place as int].name == name@);
        }
        if role is CodexCli {
            assert(all[common.len() as int].name == "agent_wait"@);
            assert(all[common.len() as int + 1].name == "agent_reply"@);
        } else if !(role is Delegate) {
            assert(all[common.len() as int].name == "agent_reply"@);
        }
        if names_tool(all, name@) {
            let i = choose|i: int| 0 <= i < all.len() && #[trigger] all[i].name == name@;
            if i < common.len() {
                assert(common[i] == all[i]);
                assert(tools@[i].name@ == name@);
            }
        }
    }
    visible
}

/// The tool of that name, if the role is offered one.
pub fn get_tool(role: McpRole, name: &str) -> (tool: Option<ToolEntry>)
    ensures
        match tool {
            Some(tool) => tool.name@ == name@ && catalog_models(role).contains(tool.model()),
            None => !names_tool(catalog_models(role), name@),
        },
{
    let mut tools = catalog(role);
    assert(tool_models(tools@).len() == tools@.len());
    match find_tool(&tools, name) {
        Some(place) => {
            assert(tool_models(tools@)[place as int] == tools@[place as int].model());
            Some(tools.remove(place))
        },
        None => {
            proof {
                if names_tool(catalog_models(role), name@) {
                    let i = choose|i: int|
                        0 <= i < catalog_models(role).len() && #[trigger] catalog_models(
                            role,
                        )[i].name == name@;
                    assert(tool_models(tools@)[i] == tools@[i].model());
                }
            }
            None
        },
    }
}

/// Why a call is refused before it is made.
#[derive(Clone, Copy, Debug, PartialEq, Eq, Structural)]
pub enum CatalogError {
    ToolNotAvailable,
    InvalidArguments,
    InvalidWait,
}

/// The text of such a refusal.
pub open spec fn catalog_error_text(error: CatalogError) -> Seq<char> {
    match error {
        CatalogError::ToolNotAvailable => "tool_not_available"@,
        CatalogError::InvalidArguments => "invalid_tool_arguments"@,
        CatalogError::InvalidWait => "invalid_wait_ms"@,
    }
}

impl CatalogError {
    pub fn as_str(self) -> (text: &'static str)
        ensures
            text@ == catalog_error_text(self),
    {
        match self {
            CatalogError::ToolNotAvailable => "tool_not_available",
            CatalogError::InvalidArguments => "invalid_tool_arguments",
            CatalogError::InvalidWait => "invalid_wait_ms",
        }
    }
}

/// How long a wait lasts where the call does not say.
pub const DEFAULT_WAIT_MS: u64 = 30_000;

/// The longest wait.
pub const MAX_WAIT_MS: u64 = 60_000;

/// How long a call waits.
pub open spec fn wait_of(wait_ms: Option<u64>) -> u64 {
    match wait_ms {
        Some(wait) => wait,
        None => DEFAULT_WAIT_MS,
    }
}

/// How long a call waits, in milliseconds.
pub fn wait_time(wait_ms: Option<u64>) -> (wait: u64)
    ensures
        wait == wait_of(wait_ms),
{
    match wait_ms {
        Some(wait) => wait,
        None => DEFAULT_WAIT_MS,
    }
}

/// Why a call is refused before it is made: the role must be offered the tool, the
/// arguments must have been those of the tool, and a wait has its range.
pub open spec fn tool_call_fault(role: McpRole, name: Seq<char>, decoded: Option<McpCall>) -> Option<
    CatalogError,
> {
    if !names_tool(catalog_models(role), name) {
        Some(CatalogError::ToolNotAvailable)
    } else {
        match decoded {
            None => Some(CatalogError::InvalidArguments),
            Some(call) => if call.tool() != name {
                Some(CatalogError::InvalidArguments)
            } else {
                match call {
                    McpCall::AgentWait(args) => if 1 <= wait_of(args.wait_ms) <= MAX_WAIT_MS {
                        None
                    } else {
                        Some(CatalogError::InvalidWait)
                    },
                    _ => None,
                }
            },
        }
    }
}

/// The call that a request makes. `decoded` is what the request's arguments are as those
/// of the named tool, if they are any; arguments of another tool count as none.
pub fn validate_tool_call(role: McpRole, name: &str, decoded: Option<McpCall>) -> (call: Result<
    McpCall,
    CatalogError,
>)
    ensures
        match tool_call_fault(role, name@, decoded) {
            Some(fault) => call == Err::<McpCall, CatalogError>(fault),
            None => decoded is Some && call == Ok::<McpCall, CatalogError>(decoded->0),
        },
{
    if !tool_visible(role, name) {
        return Err(CatalogError::ToolNotAvailable);
    }
    match decoded {
        None => Err(CatalogError::InvalidArguments),
        Some(call) => {
            if !same_text(call.name(), name) {
                return Err(CatalogError::InvalidArguments);
            }
            if let McpCall::AgentWait(args) = &call {
                let wait = wait_time(args.wait_ms);
                if !(1 <= wait && wait <= MAX_WAIT_MS) {
                    return Err(CatalogError::InvalidWait);
                }
            }
            Ok(call)
        },
    }
}

/// A number by which the names of the tools differ.
spec fn tool_print(name: Seq<char>) -> int {
    1000000 * name.len() + 1000 * (name[name.len() - 1] as int) + name[name.len() - 4] as int
}

/// The numbers of the tools, in order.
spec fn tool_prints() -> Seq<int> {
    seq![10116108, 10100115, 14116108, 14110106, 15101101, 17115098, 14116112, 17121116, 9116108, 8116095, 12121116, 11101101, 9116101, 11110115, 9101110, 10110101, 15116111, 10101097, 13101108, 11108110, 11110111, 12116117, 16116108, 11116112, 9107108, 12104108, 20115097, 10116119, 11121101]
}

/// The number of each tool's name is the one at its place.
#[verifier::rlimit(50)]
proof fn tools_printed(place: int)
    requires
        0 <= place < 29,
    ensures
        tool_print(catalog_models(McpRole::CodexCli)[place].name) == tool_prints()[place],
{
    reveal_strlit("agent_list");
    reveal_strlit("agent_send");
    reveal_strlit("workspace_list");
    reveal_strlit("workspace_join");
    reveal_strlit("workspace_leave");
    reveal_strlit("workspace_members");
    reveal_strlit("workspace_post");
    reveal_strlit("workspace_history");
    reveal_strlit("task_list");
    reveal_strlit("task_get");
    reveal_strlit("task_history");
    reveal_strlit("task_create");
    reveal_strlit("task_edit");
    reveal_strlit("task_assign");
    reveal_strlit("task_note");
    reveal_strlit("task_begin");
    reveal_strlit("task_checkpoint");
    reveal_strlit("task_pause");
    reveal_strlit("task_complete");
    reveal_strlit("task_cancel");
    reveal_strlit("task_reopen");
    reveal_strlit("task_request");
    reveal_strlit("integration_list");
    reveal_strlit("task_import");
    reveal_strlit("task_link");
    reveal_strlit("task_publish");
    reveal_strlit("task_external_status");
    reveal_strlit("agent_wait");
    reveal_strlit("agent_reply");
    let all = catalog_models(McpRole::CodexCli);
    let common = common_models();
    if place < 8 {
        assert(all[place] == agent_workspace_tools_models()[place]);
    } else if place < 22 {
        assert(all[place] == task_tools_models()[place - 8]);
    } else if place < 27 {
        assert(all[place] == integration_tools_models()[place - 22]);
    } else if place == 27 {
        assert(all[place] == wait_model());
    } else {
        assert(all[place] == reply_model());
    }
}

/// No role is offered two tools of the same name.
pub proof fn tool_names_are_distinct(role: McpRole, i: int, j: int)
    requires
        0 <= i < catalog_models(role).len(),
        0 <= j < catalog_models(role).len(),
        catalog_models(role)[i].name == catalog_models(role)[j].name,
    ensures
        i == j,
{
    assert(common_models().len() == 27);
    let at = |k: int| if !(role is CodexCli) && k == 27 { 28int } else { k };
    tools_printed(at(i));
    tools_printed(at(j));
    assert(catalog_models(McpRole::CodexCli)[at(i)] == catalog_models(role)[i]);
    assert(catalog_models(McpRole::CodexCli)[at(j)] == catalog_models(role)[j]);
    assert(tool_prints()[at(i)] == tool_prints()[at(j)]);
    assert(forall|a: int, b: int|
        0 <= a < b < 29 ==> #[trigger] tool_prints()[a] != #[trigger] tool_prints()[b]);
}

/// Every role may call the tools that all roles have; only a client that pulls its work
/// may wait for it, and a delegate, which is given none, may not answer any.
pub proof fn roles_differ_in_work_alone(role: McpRole, name: Seq<char>)
    ensures
        names_tool(common_models(), name) ==> names_tool(catalog_models(role), name),
        names_tool(catalog_models(role), name) ==> names_tool(common_models(), name) || (name
            == "agent_wait"@ && role is CodexCli) || (name == "agent_reply"@ && !(role is Delegate)),
        names_tool(catalog_models(role), "agent_wait"@) == (role is CodexCli),
        names_tool(catalog_models(role), "agent_reply"@) == !(role is Delegate),
{
    let all = catalog_models(role);
    let common = common_models();
    assert(common.len() == 27);
    if names_tool(common, name) {
        let i = choose|i: int| 0 <= i < common.len() && #[trigger] common[i].name == name;
        assert(all[i].name == name);
    }
    if names_tool(all, name) {
        let i = choose|i: int| 0 <= i < all.len() && #[trigger] all[i].name == name;
        if i < 27 {
            assert(common[i] == all[i]);
        }
    }
    if role is CodexCli {
        assert(all[27].name == "agent_wait"@);
        assert(all[28].name == "agent_reply"@);
    } else if !(role is Delegate) {
        assert(all[27].name == "agent_reply"@);
    }
    let widest = catalog_models(McpRole::CodexCli);
    assert(widest[27] == wait_model());
    assert(widest[28] == reply_model());
    if names_tool(all, "agent_wait"@) && !(role is CodexCli) {
        let i = choose|i: int| 0 <= i < all.len() && #[trigger] all[i].name == "agent_wait"@;
        let k = if i == 27 { 28int } else { i };
        assert(widest[k] == all[i]);
        tool_names_are_distinct(McpRole::CodexCli, k, 27);
    }
    if names_tool(all, "agent_reply"@) && role is Delegate {
        let i = choose|i: int| 0 <= i < all.len() && #[trigger] all[i].name == "agent_reply"@;
        assert(widest[i] == all[i]);
        tool_names_are_distinct(McpRole::CodexCli, i, 28);
    }
}

/// Every call is one of a tool that some role is offered.
pub proof fn every_call_has_a_tool(call: McpCall)
    ensures
        names_tool(catalog_models(McpRole::CodexCli), call.tool()),
{
    let all = catalog_models(McpRole::CodexCli);
    let common = common_models();
    assert(common.len() == 27);
    let place: int = match call {
        McpCall::AgentList(_) => 0,
        McpCall::AgentSend(_) => 1,
        McpCall::WorkspaceList(_) => 2,
        McpCall::WorkspaceJoin(_) => 3,
        McpCall::WorkspaceLeave(_) => 4,
        McpCall::WorkspaceMembers(_) => 5,
        McpCall::WorkspacePost(_) => 6,
        McpCall::WorkspaceHistory(_) => 7,
        McpCall::TaskList(_) => 8,
        McpCall::TaskGet(_) => 9,
        McpCall::TaskHistory(_) => 10,
        McpCall::TaskCreate(_) => 11,
        McpCall::TaskEdit(_) => 12,
        McpCall::TaskAssign(_) => 13,
        McpCall::TaskNote(_) => 14,
        McpCall::TaskBegin(_) => 15,
        McpCall::TaskCheckpoint(_) => 16,
        McpCall::TaskPause(_) => 17,
        McpCall::TaskComplete(_) => 18,
        McpCall::TaskCancel(_) => 19,
        McpCall::TaskReopen(_) => 20,
        McpCall::TaskRequest(_) => 21,
        McpCall::IntegrationList(_) => 22,
        McpCall::TaskImport(_) => 23,
        McpCall::TaskLink(_) => 24,
        McpCall::TaskPublish(_) => 25,
        McpCall::TaskExternalStatus(_) => 26,
        McpCall::AgentWait(_) => 27,
        McpCall::AgentReply(_) => 28,
    };
    if place < 8 {
        assert(all[place] == agent_workspace_tools_models()[place]);
    } else if place < 22 {
        assert(all[place] == task_tools_models()[place - 8]);
    } else if place < 27 {
        assert(all[place] == integration_tools_models()[place - 22]);
    } else if place == 27 {
        assert(all[place] == wait_model());
    } else {
        assert(all[place] == reply_model());
    }
    assert(all[place].name == call.tool());
}

} // verus!
