//! The prompt that carries an invitation: what it says, and the script that it holds.

use vstd::prelude::*;
use vstd::string::*;

use crate::ids::{hyphenated_text, uuid_text};
use crate::net::{replace_path, url_with_path};
use crate::onboarding::{
    artifacts_fault, artifacts_fault_before, no_artifact_fault, no_route_fault, provider_text,
    routes_fault, routes_fault_before, target_text, ticket_fault, BootstrapArtifact,
    OnboardingProvider, OnboardingRoute, OnboardingTicket, RouteKind, TicketError, TicketVerdicts,
    MAX_TICKET_BYTES,
};
use crate::shell::{quote_literal, shell_literal};
use crate::text::{
    byte_len, byte_length, chars_of, decimal, decimal_text, kebab, kebab_case, opt_text, respell,
    respelled, same_text, text_between, texts,
};

verus! {

/// How the prompt begins.
pub const HEADING: &'static str = "# ASR workspace onboarding\n\n";

/// What the invitation is, up to its expiry.
pub const INVITATION: &'static str = "This prompt contains a **one-time invitation valid for 10 minutes from issuance**. Its \
    server-authoritative expiry is `";

/// What the invitation is, from its expiry on.
pub const INVITATION_RULES: &'static str = "` (Unix milliseconds). The invitation remains in this conversation: anyone who obtains it \
    before expiry can take it over first. Use it only for one device and one provider identity; \
    another device/provider needs a new invitation. The prompt contains no long-lived \
    credential, private key, or administrator token.\n\n";

/// What has to be permitted first.
pub const PERMISSION: &'static str = "Before running anything, confirm that the user trusts this prompt and the server operator \
    who supplied it. Obtain OS shell execution permission through the current provider's normal \
    approval procedure. Do not bypass approvals, use sudo, install system packages, change \
    provider logins, alter Tailscale/firewalls, or invent a public download URL. If permission \
    is unavailable, report `host_permission_required` and ask the user to grant it normally.\n\n";

/// How the provider is chosen, up to the first value.
pub const PROVIDER_CHOICE: &'static str = "Choose the provider from **the host running this conversation**, never by counting or \
    inspecting which provider executables happen to be installed. Install only that host. Set \
    the shell environment variable `ASR_PROVIDER` to exactly one value: `";

/// How the provider is chosen, between the first value and what it stands for.
pub const PROVIDER_VALUE: &'static str = "` for ";

/// How the provider is chosen, from the first value on.
pub const PROVIDER_VALUES: &'static str = ", `codex-cli` for Codex CLI, or `omp` for OMP. For example, in an OMP conversation use \
    `export ASR_PROVIDER=omp` in the same approved shell before the block below. This variable \
    contains only the provider name, never an invitation or credential.\n\n";

/// That only one provider may be set up, up to its name.
pub const RESTRICTION: &'static str = "**Provider restriction: `";

/// That only one provider may be set up, from its name on.
pub const RESTRICTION_RULES: &'static str = "` only.** If this conversation is in another host, stop and request a new prompt; do not \
    set a false provider value. The shell also rejects any nonmatching `ASR_PROVIDER`.\n\n";

/// That only the invited workspace may be used.
pub const WORKSPACE_RULES: &'static str = "Use only the invited workspace. Workspace assignment and creation belong to the server \
    administrator; request a new server-issued prompt rather than attempting an authority \
    bypass.\n\n";

/// What stands before the targets.
pub const TARGET_HEADING: &'static str = "This server supplies these targets (only these can be installed):\n";

/// What the machine has to bring.
pub const PREREQUISITES: &'static str = "\nWindows, unsupported architectures, and a missing current-provider CLI are prerequisites \
    to resolve manually, not a reason to auto-install packages or build from source. Linux \
    binaries target GNU/Linux. The shell requires POSIX `sh`, `uname`, `curl`, `mktemp`, \
    `chmod`, `wc`, `rm`, and either `sha256sum` or `shasum`.\n\n";

/// That the invitation is for this machine alone.
pub const LOCAL_WARNING: &'static str = "**LOCAL-ONLY WARNING:** this invitation points at loopback on the same machine as the \
    server. Do not distribute it to a remote client. The verified native installer must still \
    compare the persistent server ID so a different local router cannot receive the \
    invitation.\n\n";

/// How the script is run.
pub const EXECUTION: &'static str = "Review and execute the following fixed POSIX shell block with tracing/verbose logging off. \
    Feed the script to `sh` on stdin as shown, not as a `sh -c` argument. Do not copy the \
    ticket into command arguments, environment variables, URLs, or diagnostic output, and do \
    not read or print credential/profile/journal files into this conversation. The raw \
    executable is downloaded without a token and must match both its pinned size and SHA-256 \
    before execution. Only supplied routes are tried, in Tailnet → LAN → public order; a \
    trust/hash failure is final, not permission to bypass TLS. Public CA certificates, if \
    supplied, are written privately for this download. The native installer separately \
    validates server identity, Tailscale/TLS, the manifest and archive before enrollment. \
    Existing PATH executables and shell startup files must not be replaced.\n\n";

/// What stands before the script.
pub const SCRIPT_BEGIN: &'static str = "```sh\nsh <<'ASR_BOOTSTRAP_SCRIPT'\n";

/// What stands behind the script.
pub const SCRIPT_END: &'static str = "ASR_BOOTSTRAP_SCRIPT\n```\n\n";

/// What is reported at the end, up to the word on channels.
pub const REPORT: &'static str = "After the installer returns, report its real result and reproduce its `nextAction` command \
    exactly. A successful installation/registration is **not** proof that this current \
    conversation is connected. Respect `restart_required` or `not_checked`; if MCP tools are \
    unavailable, follow the reported normal restart/reload procedure and then check in the new \
    provider session. Do not use an operator CLI connection to impersonate the provider. Only \
    report connected after this host's actual MCP `workspace_list` and `workspace_members` \
    confirm this provider identity in the invited workspace. ";

/// What is reported at the end, from the word on channels on.
pub const REPORT_CHANNEL: &'static str = " push/automatic execution additionally requires its normal organization policy and \
    development Channel opt-in; do not bypass either. If anything fails, report the redacted \
    error and required prerequisite, not a false installation or connection success.\n";

/// The first artifact for a target.
pub open spec fn artifact_for(artifacts: Seq<BootstrapArtifact>, target: Seq<char>, n: int) -> Option<
    int,
>
    decreases n,
{
    if n <= 0 {
        None
    } else {
        match artifact_for(artifacts, target, n - 1) {
            Some(i) => Some(i),
            None => if artifacts[n - 1].target@ == target {
                Some(n - 1)
            } else {
                None
            },
        }
    }
}

/// The digest of the binary for the target at a place, empty where there is none.
pub open spec fn digest_at(artifacts: Seq<BootstrapArtifact>, k: int) -> Seq<char> {
    match artifact_for(artifacts, target_text(k), artifacts.len() as int) {
        Some(i) => artifacts[i].binary_sha256@,
        None => Seq::empty(),
    }
}

/// The size of the binary for the target at a place, zero where there is none.
pub open spec fn size_at(artifacts: Seq<BootstrapArtifact>, k: int) -> Seq<char> {
    match artifact_for(artifacts, target_text(k), artifacts.len() as int) {
        Some(i) => decimal_text(artifacts[i].binary_bytes as nat),
        None => "0"@,
    }
}

/// The first route of a kind among the first `n`.
pub open spec fn route_of_kind(routes: Seq<OnboardingRoute>, kind: RouteKind, n: int) -> Option<int>
    decreases n,
{
    if n <= 0 {
        None
    } else {
        match route_of_kind(routes, kind, n - 1) {
            Some(i) => Some(i),
            None => if routes[n - 1].kind == kind {
                Some(n - 1)
            } else {
                None
            },
        }
    }
}

/// The kind that is tried at a place.
pub open spec fn kind_at(k: int) -> RouteKind {
    if k == 0 {
        RouteKind::Tailnet
    } else if k == 1 {
        RouteKind::Lan
    } else if k == 2 {
        RouteKind::Public
    } else {
        RouteKind::Local
    }
}

/// The places of the routes in the order in which they are tried, as far as the first `n`
/// kinds go: the tailnet, then the LAN, then the public internet, then the machine itself.
pub open spec fn tried_order(routes: Seq<OnboardingRoute>, n: int) -> Seq<int>
    decreases n,
{
    if n <= 0 {
        Seq::empty()
    } else {
        match route_of_kind(routes, kind_at(n - 1), routes.len() as int) {
            Some(i) => tried_order(routes, n - 1).push(i),
            None => tried_order(routes, n - 1),
        }
    }
}

/// The path that the files of the onboarding are fetched from.
pub const FILES_PATH: &'static str = "/onboarding/files/";

/// Where the router that is reached at a URL tells of itself, none where that URL leads to no
/// such address.
#[derive(PartialEq)]
pub struct InfoAddress {
    pub router_url: String,
    pub info_url: Option<String>,
}

/// Where the router behind a URL tells of itself, as the first entry for it says.
pub open spec fn info_url(urls: Seq<InfoAddress>, router_url: Seq<char>) -> Option<Seq<char>>
    decreases urls.len(),
{
    if urls.len() == 0 {
        None
    } else if urls[0].router_url@ == router_url {
        opt_text(urls[0].info_url)
    } else {
        info_url(urls.drop_first(), router_url)
    }
}

/// The address that the files of a route are fetched from: the one where the router behind
/// the route tells of itself, with the path of the files. There is none where that one is
/// none.
pub open spec fn files_url(urls: Seq<InfoAddress>, router_url: Seq<char>) -> Option<Seq<char>> {
    match info_url(urls, router_url) {
        Some(info_url) => url_with_path(info_url, FILES_PATH@),
        None => None,
    }
}

fn files_url_of(urls: &Vec<InfoAddress>, router_url: &str) -> (url: Option<String>)
    ensures
        opt_text(url) == files_url(urls@, router_url@),
{
    let mut i: usize = 0;
    assert(urls@.skip(0) =~= urls@);
    while i < urls.len()
        invariant
            i <= urls@.len(),
            info_url(urls@, router_url@) == info_url(urls@.skip(i as int), router_url@),
        decreases urls.len() - i,
    {
        assert(urls@.skip(i as int)[0] == urls@[i as int]);
        assert(urls@.skip(i as int).drop_first() =~= urls@.skip(i + 1));
        if same_text(urls[i].router_url.as_str(), router_url) {
            return match &urls[i].info_url {
                Some(info_url) => replace_path(info_url.as_str(), FILES_PATH),
                None => None,
            };
        }
        i += 1;
    }
    None
}

/// The address of the route that is tried at a place, empty where there is none.
pub open spec fn route_at(
    routes: Seq<OnboardingRoute>,
    urls: Seq<InfoAddress>,
    k: int,
) -> Seq<char> {
    let order = tried_order(routes, 4);
    if 0 <= k < order.len() && files_url(urls, routes[order[k]].router_url@) is Some {
        files_url(urls, routes[order[k]].router_url@)->0
    } else {
        Seq::empty()
    }
}

/// The certificate bundle of the route that is tried at a place, empty where there is
/// none.
pub open spec fn ca_at(routes: Seq<OnboardingRoute>, k: int) -> Seq<char> {
    let order = tried_order(routes, 4);
    if 0 <= k < order.len() && routes[order[k]].ca_pem is Some {
        opt_text(routes[order[k]].ca_pem)->0
    } else {
        Seq::empty()
    }
}

/// The name of the provider that a ticket is restricted to, empty where it is not.
pub open spec fn pinned_provider(provider: Option<OnboardingProvider>) -> Seq<char> {
    match provider {
        Some(provider) => provider_text(provider),
        None => Seq::empty(),
    }
}

/// What stands for a name between marks, before it is quoted.
pub open spec fn variable(name: Seq<char>, ticket: OnboardingTicket, urls: Seq<InfoAddress>) -> Option<
    Seq<char>,
> {
    if name == "PINNED_PROVIDER"@ {
        Some(pinned_provider(ticket.provider))
    } else if name == "DARWIN_ARM64_SHA256"@ {
        Some(digest_at(ticket.artifacts@, 0))
    } else if name == "DARWIN_ARM64_BYTES"@ {
        Some(size_at(ticket.artifacts@, 0))
    } else if name == "DARWIN_X64_SHA256"@ {
        Some(digest_at(ticket.artifacts@, 1))
    } else if name == "DARWIN_X64_BYTES"@ {
        Some(size_at(ticket.artifacts@, 1))
    } else if name == "LINUX_ARM64_SHA256"@ {
        Some(digest_at(ticket.artifacts@, 2))
    } else if name == "LINUX_ARM64_BYTES"@ {
        Some(size_at(ticket.artifacts@, 2))
    } else if name == "LINUX_X64_SHA256"@ {
        Some(digest_at(ticket.artifacts@, 3))
    } else if name == "LINUX_X64_BYTES"@ {
        Some(size_at(ticket.artifacts@, 3))
    } else if name == "ROUTE_1"@ {
        Some(route_at(ticket.routes@, urls, 0))
    } else if name == "CA_1"@ {
        Some(ca_at(ticket.routes@, 0))
    } else if name == "ROUTE_2"@ {
        Some(route_at(ticket.routes@, urls, 1))
    } else if name == "CA_2"@ {
        Some(ca_at(ticket.routes@, 1))
    } else if name == "ROUTE_3"@ {
        Some(route_at(ticket.routes@, urls, 2))
    } else if name == "CA_3"@ {
        Some(ca_at(ticket.routes@, 2))
    } else if name == "ROUTE_4"@ {
        Some(route_at(ticket.routes@, urls, 3))
    } else if name == "CA_4"@ {
        Some(ca_at(ticket.routes@, 3))
    } else {
        None
    }
}

/// What stands for a name between marks: the ticket as it is, anything else as a literal
/// of the shell.
pub open spec fn placeholder(
    name: Seq<char>,
    ticket: OnboardingTicket,
    json: Seq<char>,
    urls: Seq<InfoAddress>,
) -> Option<Seq<char>> {
    if name == "TICKET_JSON"@ {
        Some(json)
    } else {
        match variable(name, ticket, urls) {
            Some(value) => Some(shell_literal(value)),
            None => None,
        }
    }
}

/// The place of the first mark `@@` at or behind a place, the length where there is none.
pub open spec fn mark_place(text: Seq<char>, from: int) -> int
    decreases text.len() - from,
{
    if from + 1 >= text.len() {
        text.len() as int
    } else if text[from] == '@' && text[from + 1] == '@' {
        from
    } else {
        mark_place(text, from + 1)
    }
}

/// A mark is found behind where it is looked for, and is complete.
pub proof fn mark_in_range(text: Seq<char>, from: int)
    requires
        0 <= from <= text.len(),
    ensures
        from <= mark_place(text, from) <= text.len(),
        mark_place(text, from) < text.len() ==> mark_place(text, from) + 2 <= text.len(),
    decreases text.len() - from,
{
    if from + 1 < text.len() && !(text[from] == '@' && text[from + 1] == '@') {
        mark_in_range(text, from + 1);
    }
}

/// The pieces of a text between its marks, from a place on.
pub open spec fn pieces_from(text: Seq<char>, from: int) -> Seq<Seq<char>>
    decreases text.len() - from,
    when 0 <= from <= text.len()
{
    let at = mark_place(text, from);
    proof {
        mark_in_range(text, from);
    }
    if at < text.len() {
        seq![text.subrange(from, at)] + pieces_from(text, at + 2)
    } else {
        seq![text.subrange(from, text.len() as int)]
    }
}

/// A piece of the script: every other one is a name between marks.
pub open spec fn filled(
    pieces: Seq<Seq<char>>,
    i: int,
    ticket: OnboardingTicket,
    json: Seq<char>,
    urls: Seq<InfoAddress>,
) -> Option<Seq<char>> {
    if i % 2 == 0 {
        Some(pieces[i])
    } else {
        placeholder(pieces[i], ticket, json, urls)
    }
}

/// The first `n` pieces of the script with what stands for the names in them, nothing
/// where a name is unknown.
pub open spec fn script_of(
    pieces: Seq<Seq<char>>,
    n: int,
    ticket: OnboardingTicket,
    json: Seq<char>,
    urls: Seq<InfoAddress>,
) -> Option<Seq<char>>
    decreases n,
{
    if n <= 0 {
        Some(Seq::empty())
    } else {
        match (script_of(pieces, n - 1, ticket, json, urls), filled(pieces, n - 1, ticket, json, urls)) {
            (Some(before), Some(piece)) => Some(before + piece),
            _ => None,
        }
    }
}

/// The script of a template.
pub open spec fn script_text(
    template: Seq<char>,
    ticket: OnboardingTicket,
    json: Seq<char>,
    urls: Seq<InfoAddress>,
) -> Option<Seq<char>> {
    let pieces = pieces_from(template, 0);
    script_of(pieces, pieces.len() as int, ticket, json, urls)
}

/// The lines of the targets among the first `n` that the ticket has an artifact for.
pub open spec fn target_lines(artifacts: Seq<BootstrapArtifact>, n: int) -> Seq<char>
    decreases n,
{
    if n <= 0 {
        Seq::empty()
    } else if artifact_for(artifacts, target_text(n - 1), artifacts.len() as int) is Some {
        target_lines(artifacts, n - 1) + "- `"@ + target_text(n - 1) + "`\n"@
    } else {
        target_lines(artifacts, n - 1)
    }
}

/// What the prompt says before the script.
pub open spec fn prompt_head(ticket: OnboardingTicket) -> Seq<char> {
    let first = HEADING@ + "Server: `"@ + hyphenated_text(ticket.server_id.value)
        + "`\nProfile: `"@ + ticket.profile_name@ + "`\nWorkspace: `"@ + ticket.workspace@
        + "`\n\n"@ + INVITATION@ + decimal_text(ticket.expires_at as nat) + INVITATION_RULES@
        + PERMISSION@ + PROVIDER_CHOICE@ + kebab_case("claude_code"@) + PROVIDER_VALUE@
        + respelled("Claude_Code"@, ' ') + PROVIDER_VALUES@;
    let second = match ticket.provider {
        Some(provider) => first + RESTRICTION@ + provider_text(provider) + RESTRICTION_RULES@,
        None => first,
    };
    let third = second + WORKSPACE_RULES@ + TARGET_HEADING@ + target_lines(ticket.artifacts@, 4)
        + PREREQUISITES@;
    let fourth = if ticket.routes@[0].kind is Local {
        third + LOCAL_WARNING@
    } else {
        third
    };
    fourth + EXECUTION@ + SCRIPT_BEGIN@
}

/// The prompt of a ticket with its script.
pub open spec fn prompt_text(ticket: OnboardingTicket, script: Seq<char>) -> Seq<char> {
    prompt_head(ticket) + script + SCRIPT_END@ + REPORT@ + respelled("Claude_Channel"@, ' ')
        + REPORT_CHANNEL@
}

/// What keeps a prompt from being written, if anything.
pub open spec fn prompt_fault(
    ticket: OnboardingTicket,
    verdicts: TicketVerdicts,
    json: Seq<char>,
    urls: Seq<InfoAddress>,
    template: Seq<char>,
) -> Option<TicketError> {
    if ticket_fault(ticket, verdicts) is Some {
        ticket_fault(ticket, verdicts)
    } else if byte_length(json) > MAX_TICKET_BYTES {
        Some(TicketError::Invalid)
    } else if exists|i: int|
        0 <= i < ticket.routes@.len() && files_url(
            urls,
            (#[trigger] ticket.routes@[i]).router_url@,
        ) is None {
        Some(TicketError::InvalidRoute)
    } else if script_text(template, ticket, json, urls) is None {
        Some(TicketError::Invalid)
    } else {
        None
    }
}

fn find_artifact(artifacts: &Vec<BootstrapArtifact>, target: &str) -> (found: Option<usize>)
    ensures
        (match found {
            Some(i) => Some(i as int),
            None => None,
        }) == artifact_for(artifacts@, target@, artifacts@.len() as int),
        found matches Some(i) ==> i < artifacts@.len(),
{
    let mut found: Option<usize> = None;
    let mut i: usize = 0;
    while i < artifacts.len()
        invariant
            i <= artifacts@.len(),
            (match found {
                Some(k) => Some(k as int),
                None => None,
            }) == artifact_for(artifacts@, target@, i as int),
            found matches Some(k) ==> k < i,
        decreases artifacts.len() - i,
    {
        if found.is_none() && same_text(artifacts[i].target.as_str(), target) {
            found = Some(i);
        }
        i += 1;
    }
    found
}

fn find_route(routes: &Vec<OnboardingRoute>, kind: RouteKind) -> (found: Option<usize>)
    ensures
        (match found {
            Some(i) => Some(i as int),
            None => None,
        }) == route_of_kind(routes@, kind, routes@.len() as int),
        found matches Some(i) ==> i < routes@.len(),
{
    let mut found: Option<usize> = None;
    let mut i: usize = 0;
    while i < routes.len()
        invariant
            i <= routes@.len(),
            (match found {
                Some(k) => Some(k as int),
                None => None,
            }) == route_of_kind(routes@, kind, i as int),
            found matches Some(k) ==> k < i,
        decreases routes.len() - i,
    {
        if found.is_none() && routes[i].kind == kind {
            found = Some(i);
        }
        i += 1;
    }
    found
}

fn kind_of_place(k: usize) -> (kind: RouteKind)
    ensures
        kind == kind_at(k as int),
{
    if k == 0 {
        RouteKind::Tailnet
    } else if k == 1 {
        RouteKind::Lan
    } else if k == 2 {
        RouteKind::Public
    } else {
        RouteKind::Local
    }
}

fn target_of_place(k: usize) -> (target: &'static str)
    ensures
        target@ == target_text(k as int),
{
    if k == 0 {
        "aarch64-apple-darwin"
    } else if k == 1 {
        "x86_64-apple-darwin"
    } else if k == 2 {
        "aarch64-unknown-linux-gnu"
    } else {
        "x86_64-unknown-linux-gnu"
    }
}

/// The places of the routes in the order in which they are tried.
fn order_routes(routes: &Vec<OnboardingRoute>) -> (order: Vec<usize>)
    ensures
        order@.map_values(|i: usize| i as int) == tried_order(routes@, 4),
        forall|k: int| 0 <= k < order@.len() ==> (#[trigger] order@[k]) < routes@.len(),
{
    let mut order: Vec<usize> = Vec::new();
    let mut k: usize = 0;
    assert(order@.map_values(|i: usize| i as int) =~= tried_order(routes@, 0));
    while k < 4
        invariant
            k <= 4,
            order@.map_values(|i: usize| i as int) == tried_order(routes@, k as int),
            forall|j: int| 0 <= j < order@.len() ==> (#[trigger] order@[j]) < routes@.len(),
        decreases 4 - k,
    {
        let ghost before = order@;
        if let Some(i) = find_route(routes, kind_of_place(k)) {
            order.push(i);
            assert(order@.map_values(|i: usize| i as int) =~= before.map_values(
                |i: usize| i as int,
            ).push(i as int));
        }
        k += 1;
    }
    order
}

fn digest_of(artifacts: &Vec<BootstrapArtifact>, k: usize) -> (digest: String)
    ensures
        digest@ == digest_at(artifacts@, k as int),
{
    match find_artifact(artifacts, target_of_place(k)) {
        Some(i) => artifacts[i].binary_sha256.clone(),
        None => String::new(),
    }
}

fn size_of(artifacts: &Vec<BootstrapArtifact>, k: usize) -> (size: String)
    ensures
        size@ == size_at(artifacts@, k as int),
{
    match find_artifact(artifacts, target_of_place(k)) {
        Some(i) => decimal(artifacts[i].binary_bytes),
        None => "0".to_owned(),
    }
}

fn route_of(routes: &Vec<OnboardingRoute>, urls: &Vec<InfoAddress>, k: usize) -> (url: String)
    ensures
        url@ == route_at(routes@, urls@, k as int),
{
    let order = order_routes(routes);
    let ghost places = order@.map_values(|i: usize| i as int);
    if k < order.len() {
        let i = order[k];
        assert(places[k as int] == i);
        if let Some(url) = files_url_of(urls, routes[i].router_url.as_str()) {
            return url;
        }
    }
    String::new()
}

fn ca_of(routes: &Vec<OnboardingRoute>, k: usize) -> (pem: String)
    ensures
        pem@ == ca_at(routes@, k as int),
{
    let order = order_routes(routes);
    let ghost places = order@.map_values(|i: usize| i as int);
    if k < order.len() {
        let i = order[k];
        assert(places[k as int] == i);
        if let Some(pem) = &routes[i].ca_pem {
            return pem.clone();
        }
    }
    String::new()
}

fn variable_of(name: &str, ticket: &OnboardingTicket, urls: &Vec<InfoAddress>) -> (value: Option<
    String,
>)
    ensures
        opt_text(value) == variable(name@, *ticket, urls@),
{
    if same_text(name, "PINNED_PROVIDER") {
        match ticket.provider {
            Some(provider) => Some(provider.as_str()),
            None => Some(String::new()),
        }
    } else if same_text(name, "DARWIN_ARM64_SHA256") {
        Some(digest_of(&ticket.artifacts, 0))
    } else if same_text(name, "DARWIN_ARM64_BYTES") {
        Some(size_of(&ticket.artifacts, 0))
    } else if same_text(name, "DARWIN_X64_SHA256") {
        Some(digest_of(&ticket.artifacts, 1))
    } else if same_text(name, "DARWIN_X64_BYTES") {
        Some(size_of(&ticket.artifacts, 1))
    } else if same_text(name, "LINUX_ARM64_SHA256") {
        Some(digest_of(&ticket.artifacts, 2))
    } else if same_text(name, "LINUX_ARM64_BYTES") {
        Some(size_of(&ticket.artifacts, 2))
    } else if same_text(name, "LINUX_X64_SHA256") {
        Some(digest_of(&ticket.artifacts, 3))
    } else if same_text(name, "LINUX_X64_BYTES") {
        Some(size_of(&ticket.artifacts, 3))
    } else if same_text(name, "ROUTE_1") {
        Some(route_of(&ticket.routes, urls, 0))
    } else if same_text(name, "CA_1") {
        Some(ca_of(&ticket.routes, 0))
    } else if same_text(name, "ROUTE_2") {
        Some(route_of(&ticket.routes, urls, 1))
    } else if same_text(name, "CA_2") {
        Some(ca_of(&ticket.routes, 1))
    } else if same_text(name, "ROUTE_3") {
        Some(route_of(&ticket.routes, urls, 2))
    } else if same_text(name, "CA_3") {
        Some(ca_of(&ticket.routes, 2))
    } else if same_text(name, "ROUTE_4") {
        Some(route_of(&ticket.routes, urls, 3))
    } else if same_text(name, "CA_4") {
        Some(ca_of(&ticket.routes, 3))
    } else {
        None
    }
}

fn placeholder_of(
    name: &str,
    ticket: &OnboardingTicket,
    json: &str,
    urls: &Vec<InfoAddress>,
) -> (value: Option<String>)
    ensures
        opt_text(value) == placeholder(name@, *ticket, json@, urls@),
{
    if same_text(name, "TICKET_JSON") {
        return Some(json.to_owned());
    }
    match variable_of(name, ticket, urls) {
        Some(value) => Some(quote_literal(value.as_str())),
        None => None,
    }
}

/// The pieces of a text between its marks.
fn split_pieces(text: &str) -> (pieces: Vec<String>)
    ensures
        texts(pieces@) == pieces_from(text@, 0),
{
    let chars = chars_of(text);
    let mut pieces: Vec<String> = Vec::new();
    let mut from: usize = 0;
    let mut i: usize = 0;
    assert(texts(pieces@) + pieces_from(text@, 0) =~= pieces_from(text@, 0));
    while i < chars.len() && chars.len() - i > 1
        invariant
            chars@ == text@,
            from <= i <= chars@.len(),
            mark_place(text@, from as int) == mark_place(text@, i as int),
            texts(pieces@) + pieces_from(text@, from as int) == pieces_from(text@, 0),
        decreases chars.len() - i,
    {
        if chars[i] == '@' && chars[i + 1] == '@' {
            let ghost before = pieces@;
            let piece = text_between(&chars, from, i);
            pieces.push(piece);
            proof {
                let rest = pieces_from(text@, i + 2);
                assert(pieces_from(text@, from as int) == seq![text@.subrange(from as int, i as int)]
                    + rest);
                assert(texts(pieces@) =~= texts(before).push(text@.subrange(from as int, i as int)));
                assert(texts(pieces@) + rest =~= texts(before) + (seq![
                    text@.subrange(from as int, i as int),
                ] + rest));
            }
            from = i + 2;
            i = i + 2;
        } else {
            i += 1;
        }
    }
    let ghost before = pieces@;
    let last = text_between(&chars, from, chars.len());
    pieces.push(last);
    proof {
        assert(mark_place(text@, i as int) == text@.len());
        assert(texts(pieces@) =~= texts(before) + pieces_from(text@, from as int));
    }
    pieces
}

proof fn unknown_name_spoils_script(
    pieces: Seq<Seq<char>>,
    n: int,
    m: int,
    ticket: OnboardingTicket,
    json: Seq<char>,
    urls: Seq<InfoAddress>,
)
    requires
        0 <= n <= m,
        script_of(pieces, n, ticket, json, urls) is None,
    ensures
        script_of(pieces, m, ticket, json, urls) is None,
    decreases m - n,
{
    if n < m {
        unknown_name_spoils_script(pieces, n, m - 1, ticket, json, urls);
    }
}

/// The script of a template, nothing where a name in it is unknown.
fn fill_script(
    template: &str,
    ticket: &OnboardingTicket,
    json: &str,
    urls: &Vec<InfoAddress>,
) -> (script: Option<String>)
    ensures
        opt_text(script) == script_text(template@, *ticket, json@, urls@),
{
    let pieces = split_pieces(template);
    let ghost all = texts(pieces@);
    let mut script = String::new();
    let mut i: usize = 0;
    while i < pieces.len()
        invariant
            i <= pieces@.len(),
            all == texts(pieces@),
            all == pieces_from(template@, 0),
            script_of(all, i as int, *ticket, json@, urls@) == Some(script@),
        decreases pieces.len() - i,
    {
        assert(all[i as int] == pieces@[i as int]@);
        if i % 2 == 0 {
            script.append(pieces[i].as_str());
        } else {
            match placeholder_of(pieces[i].as_str(), ticket, json, urls) {
                Some(value) => script.append(value.as_str()),
                None => {
                    proof {
                        assert(script_of(all, i + 1, *ticket, json@, urls@) is None);
                        unknown_name_spoils_script(
                            all,
                            i + 1,
                            all.len() as int,
                            *ticket,
                            json@,
                            urls@,
                        );
                    }
                    return None;
                },
            }
        }
        i += 1;
    }
    Some(script)
}

fn list_targets(artifacts: &Vec<BootstrapArtifact>) -> (lines: String)
    ensures
        lines@ == target_lines(artifacts@, 4),
{
    let mut lines = String::new();
    let mut k: usize = 0;
    while k < 4
        invariant
            k <= 4,
            lines@ == target_lines(artifacts@, k as int),
        decreases 4 - k,
    {
        let target = target_of_place(k);
        if find_artifact(artifacts, target).is_some() {
            lines.append("- `");
            lines.append(target);
            lines.append("`\n");
        }
        k += 1;
    }
    lines
}

fn write_head(ticket: &OnboardingTicket) -> (head: String)
    requires
        ticket.expires_at > 0,
        ticket.routes@.len() > 0,
    ensures
        head@ == prompt_head(*ticket),
{
    let mut head = HEADING.to_owned();
    head.append("Server: `");
    head.append(uuid_text(ticket.server_id).as_str());
    head.append("`\nProfile: `");
    head.append(ticket.profile_name.as_str());
    head.append("`\nWorkspace: `");
    head.append(ticket.workspace.as_str());
    head.append("`\n\n");
    head.append(INVITATION);
    head.append(decimal(ticket.expires_at as u64).as_str());
    head.append(INVITATION_RULES);
    head.append(PERMISSION);
    head.append(PROVIDER_CHOICE);
    head.append(kebab("claude_code").as_str());
    head.append(PROVIDER_VALUE);
    head.append(respell("Claude_Code", ' ').as_str());
    head.append(PROVIDER_VALUES);
    if let Some(provider) = ticket.provider {
        head.append(RESTRICTION);
        head.append(provider.as_str().as_str());
        head.append(RESTRICTION_RULES);
    }
    head.append(WORKSPACE_RULES);
    head.append(TARGET_HEADING);
    head.append(list_targets(&ticket.artifacts).as_str());
    head.append(PREREQUISITES);
    if matches!(ticket.routes[0].kind, RouteKind::Local) {
        head.append(LOCAL_WARNING);
    }
    head.append(EXECUTION);
    head.append(SCRIPT_BEGIN);
    head
}

fn all_reachable(routes: &Vec<OnboardingRoute>, urls: &Vec<InfoAddress>) -> (yes: bool)
    ensures
        yes == !(exists|i: int|
            0 <= i < routes@.len() && files_url(urls@, (#[trigger] routes@[i]).router_url@) is None),
{
    let mut i: usize = 0;
    while i < routes.len()
        invariant
            i <= routes@.len(),
            forall|j: int|
                0 <= j < i ==> files_url(urls@, (#[trigger] routes@[j]).router_url@) is Some,
        decreases routes.len() - i,
    {
        if files_url_of(urls, routes[i].router_url.as_str()).is_none() {
            assert(files_url(urls@, routes@[i as int].router_url@) is None);
            return false;
        }
        i += 1;
    }
    true
}

/// The prompt that carries an invitation. It bears the invitation's secret: it is for the
/// invited user, not for diagnostics or logs. `json` is the ticket's text, `urls` holds the
/// addresses where the routers behind the ticket's routes tell of themselves, and `template`
/// is the script with names between marks.
pub fn render_prompt(
    ticket: &OnboardingTicket,
    verdicts: TicketVerdicts,
    json: &str,
    urls: &Vec<InfoAddress>,
    template: &str,
) -> (prompt: Result<String, TicketError>)
    ensures
        match prompt {
            Ok(text) => prompt_fault(*ticket, verdicts, json@, urls@, template@) is None && text@
                == prompt_text(*ticket, script_text(template@, *ticket, json@, urls@)->0),
            Err(error) => prompt_fault(*ticket, verdicts, json@, urls@, template@) == Some(error),
        },
{
    if let Err(error) = ticket.validate(verdicts) {
        return Err(error);
    }
    if byte_len(json) > MAX_TICKET_BYTES {
        return Err(TicketError::Invalid);
    }
    if !all_reachable(&ticket.routes, urls) {
        return Err(TicketError::InvalidRoute);
    }
    let script = match fill_script(template, ticket, json, urls) {
        Some(script) => script,
        None => return Err(TicketError::Invalid),
    };
    let mut prompt = write_head(ticket);
    prompt.append(script.as_str());
    prompt.append(SCRIPT_END);
    prompt.append(REPORT);
    prompt.append(respell("Claude_Channel", ' ').as_str());
    prompt.append(REPORT_CHANNEL);
    Ok(prompt)
}

/// A local route stands alone; where there is none, the routes are tried in the order
/// tailnet, LAN, public: of two routes of a ticket the one with the earlier kind is tried
/// first.
pub proof fn routes_are_tried_in_order(routes: Seq<OnboardingRoute>, n: int, a: int, b: int)
    requires
        0 <= n <= 4,
        0 <= a < b < tried_order(routes, n).len(),
    ensures
        exists|j: int, k: int|
            0 <= j < k < n && routes[tried_order(routes, n)[a]].kind == kind_at(j)
                && routes[tried_order(routes, n)[b]].kind == kind_at(k),
    decreases n,
{
    let order = tried_order(routes, n);
    let last = route_of_kind(routes, kind_at(n - 1), routes.len() as int);
    let before = tried_order(routes, n - 1);
    if last is Some && b == before.len() {
        found_route_has_kind(routes, kind_at(n - 1), routes.len() as int);
        tried_kind_is_early(routes, n - 1, a);
        let j = choose|j: int| 0 <= j < n - 1 && routes[before[a]].kind == kind_at(j);
        assert(order[a] == before[a]);
        assert(0 <= j < n - 1 < n && routes[order[a]].kind == kind_at(j) && routes[order[b]].kind
            == kind_at(n - 1));
    } else {
        routes_are_tried_in_order(routes, n - 1, a, b);
        assert(order[a] == before[a] && order[b] == before[b]);
        let (j, k) = choose|j: int, k: int|
            0 <= j < k < n - 1 && routes[before[a]].kind == kind_at(j) && routes[before[b]].kind
                == kind_at(k);
        assert(0 <= j < k < n && routes[order[a]].kind == kind_at(j) && routes[order[b]].kind
            == kind_at(k));
    }
}

proof fn found_route_has_kind(routes: Seq<OnboardingRoute>, kind: RouteKind, n: int)
    requires
        route_of_kind(routes, kind, n) is Some,
    ensures
        0 <= route_of_kind(routes, kind, n)->0 < n,
        routes[route_of_kind(routes, kind, n)->0].kind == kind,
    decreases n,
{
    if route_of_kind(routes, kind, n - 1) is Some {
        found_route_has_kind(routes, kind, n - 1);
    }
}

proof fn tried_kind_is_early(routes: Seq<OnboardingRoute>, n: int, a: int)
    requires
        0 <= a < tried_order(routes, n).len(),
    ensures
        exists|j: int| 0 <= j < n && routes[tried_order(routes, n)[a]].kind == kind_at(j),
    decreases n,
{
    let before = tried_order(routes, n - 1);
    let last = route_of_kind(routes, kind_at(n - 1), routes.len() as int);
    if last is Some && a == before.len() {
        found_route_has_kind(routes, kind_at(n - 1), routes.len() as int);
        assert(0 <= n - 1 < n && routes[tried_order(routes, n)[a]].kind == kind_at(n - 1));
    } else {
        tried_kind_is_early(routes, n - 1, a);
        let j = choose|j: int| 0 <= j < n - 1 && routes[before[a]].kind == kind_at(j);
        assert(0 <= j < n && routes[tried_order(routes, n)[a]].kind == kind_at(j));
    }
}

/// A list of places that holds every one of `n` places once.
pub open spec fn reorders(places: Seq<int>, n: int) -> bool {
    &&& places.len() == n
    &&& forall|i: int| 0 <= i < n ==> 0 <= #[trigger] places[i] < n
    &&& forall|i: int, j: int| 0 <= i < j < n ==> #[trigger] places[i] != #[trigger] places[j]
    &&& forall|k: int| 0 <= k < n ==> #[trigger] places.contains(k)
}

/// The second list of routes is the first one in another order.
pub open spec fn reordered_routes(
    a: Seq<OnboardingRoute>,
    b: Seq<OnboardingRoute>,
    places: Seq<int>,
) -> bool {
    &&& reorders(places, a.len() as int)
    &&& a.len() == b.len()
    &&& forall|i: int| 0 <= i < b.len() ==> (#[trigger] b[i]).same(a[places[i]])
}

/// The second list of artifacts is the first one in another order.
pub open spec fn reordered_artifacts(
    a: Seq<BootstrapArtifact>,
    b: Seq<BootstrapArtifact>,
    places: Seq<int>,
) -> bool {
    &&& reorders(places, a.len() as int)
    &&& a.len() == b.len()
    &&& forall|i: int| 0 <= i < b.len() ==> (#[trigger] b[i]).same(a[places[i]])
}

/// The second ticket is the first one with its routes and artifacts in another order.
pub open spec fn reordered_tickets(
    a: OnboardingTicket,
    b: OnboardingTicket,
    route_places: Seq<int>,
    artifact_places: Seq<int>,
) -> bool {
    &&& a.version == b.version
    &&& a.server_id == b.server_id
    &&& a.invite_id == b.invite_id
    &&& a.invite_token@ == b.invite_token@
    &&& a.expires_at == b.expires_at
    &&& a.profile_name@ == b.profile_name@
    &&& a.workspace@ == b.workspace@
    &&& a.provider == b.provider
    &&& a.manifest_sha256@ == b.manifest_sha256@
    &&& reordered_routes(a.routes@, b.routes@, route_places)
    &&& reordered_artifacts(a.artifacts@, b.artifacts@, artifact_places)
}

proof fn no_kind_stands_twice(routes: Seq<OnboardingRoute>, i: int, j: int)
    requires
        routes_fault(routes) is None,
        0 <= i < routes.len(),
        0 <= j < routes.len(),
        routes[i].kind == routes[j].kind,
    ensures
        i == j,
{
    no_route_fault(routes, routes.len() as int, i);
    no_route_fault(routes, routes.len() as int, j);
}

proof fn no_target_stands_twice(artifacts: Seq<BootstrapArtifact>, i: int, j: int)
    requires
        artifacts_fault(artifacts) is None,
        0 <= i < artifacts.len(),
        0 <= j < artifacts.len(),
        artifacts[i].target@ == artifacts[j].target@,
    ensures
        i == j,
{
    no_artifact_fault(artifacts, artifacts.len() as int, i);
    no_artifact_fault(artifacts, artifacts.len() as int, j);
}

proof fn reordered_routes_are_valid(
    a: Seq<OnboardingRoute>,
    b: Seq<OnboardingRoute>,
    places: Seq<int>,
    n: int,
)
    requires
        routes_fault(a) is None,
        reordered_routes(a, b, places),
        0 <= n <= b.len(),
    ensures
        routes_fault_before(b, n) is None,
    decreases n,
{
    if n > 0 {
        let i = n - 1;
        reordered_routes_are_valid(a, b, places, i);
        assert(b[i].same(a[places[i]]));
        no_route_fault(a, a.len() as int, places[i]);
        if exists|j: int| 0 <= j < i && (#[trigger] b[j]).kind == b[i].kind {
            let j = choose|j: int| 0 <= j < i && (#[trigger] b[j]).kind == b[i].kind;
            assert(b[j].same(a[places[j]]));
            no_kind_stands_twice(a, places[j], places[i]);
        }
    }
}

proof fn reordered_artifacts_are_valid(
    a: Seq<BootstrapArtifact>,
    b: Seq<BootstrapArtifact>,
    places: Seq<int>,
    n: int,
)
    requires
        artifacts_fault(a) is None,
        reordered_artifacts(a, b, places),
        0 <= n <= b.len(),
    ensures
        artifacts_fault_before(b, n) is None,
    decreases n,
{
    if n > 0 {
        let i = n - 1;
        reordered_artifacts_are_valid(a, b, places, i);
        assert(b[i].same(a[places[i]]));
        no_artifact_fault(a, a.len() as int, places[i]);
        if exists|j: int| 0 <= j < i && (#[trigger] b[j]).target@ == b[i].target@ {
            let j = choose|j: int| 0 <= j < i && (#[trigger] b[j]).target@ == b[i].target@;
            assert(b[j].same(a[places[j]]));
            no_target_stands_twice(a, places[j], places[i]);
        }
    }
}

proof fn missing_kind_is_nowhere(routes: Seq<OnboardingRoute>, kind: RouteKind, n: int, i: int)
    requires
        route_of_kind(routes, kind, n) is None,
        0 <= i < n,
    ensures
        routes[i].kind != kind,
    decreases n,
{
    if i < n - 1 {
        missing_kind_is_nowhere(routes, kind, n - 1, i);
    }
}

proof fn found_artifact_has_target(artifacts: Seq<BootstrapArtifact>, target: Seq<char>, n: int)
    requires
        artifact_for(artifacts, target, n) is Some,
    ensures
        0 <= artifact_for(artifacts, target, n)->0 < n,
        artifacts[artifact_for(artifacts, target, n)->0].target@ == target,
    decreases n,
{
    if artifact_for(artifacts, target, n - 1) is Some {
        found_artifact_has_target(artifacts, target, n - 1);
    }
}

proof fn missing_target_is_nowhere(
    artifacts: Seq<BootstrapArtifact>,
    target: Seq<char>,
    n: int,
    i: int,
)
    requires
        artifact_for(artifacts, target, n) is None,
        0 <= i < n,
    ensures
        artifacts[i].target@ != target,
    decreases n,
{
    if i < n - 1 {
        missing_target_is_nowhere(artifacts, target, n - 1, i);
    }
}

/// Of a kind there is the same route in any order.
proof fn kinds_keep_their_route(
    a: Seq<OnboardingRoute>,
    b: Seq<OnboardingRoute>,
    places: Seq<int>,
    kind: RouteKind,
)
    requires
        routes_fault(a) is None,
        reordered_routes(a, b, places),
    ensures
        match route_of_kind(b, kind, b.len() as int) {
            Some(i) => 0 <= i < b.len() && route_of_kind(a, kind, a.len() as int) == Some(
                places[i],
            ),
            None => route_of_kind(a, kind, a.len() as int) is None,
        },
{
    let n = a.len() as int;
    let there = route_of_kind(b, kind, n);
    let here = route_of_kind(a, kind, n);
    if there is Some {
        let i = there->0;
        found_route_has_kind(b, kind, n);
        assert(b[i].same(a[places[i]]));
        if here is None {
            missing_kind_is_nowhere(a, kind, n, places[i]);
        } else {
            found_route_has_kind(a, kind, n);
            no_kind_stands_twice(a, here->0, places[i]);
        }
    } else if here is Some {
        found_route_has_kind(a, kind, n);
        assert(places.contains(here->0));
        let i = choose|i: int| 0 <= i < places.len() && places[i] == here->0;
        assert(b[i].same(a[places[i]]));
        missing_kind_is_nowhere(b, kind, n, i);
    }
}

/// For a target there is the same artifact in any order.
proof fn targets_keep_their_artifact(
    a: Seq<BootstrapArtifact>,
    b: Seq<BootstrapArtifact>,
    places: Seq<int>,
    target: Seq<char>,
)
    requires
        artifacts_fault(a) is None,
        reordered_artifacts(a, b, places),
    ensures
        match artifact_for(b, target, b.len() as int) {
            Some(i) => 0 <= i < b.len() && artifact_for(a, target, a.len() as int) == Some(
                places[i],
            ),
            None => artifact_for(a, target, a.len() as int) is None,
        },
{
    let n = a.len() as int;
    let there = artifact_for(b, target, n);
    let here = artifact_for(a, target, n);
    if there is Some {
        let i = there->0;
        found_artifact_has_target(b, target, n);
        assert(b[i].same(a[places[i]]));
        if here is None {
            missing_target_is_nowhere(a, target, n, places[i]);
        } else {
            found_artifact_has_target(a, target, n);
            no_target_stands_twice(a, here->0, places[i]);
        }
    } else if here is Some {
        found_artifact_has_target(a, target, n);
        assert(places.contains(here->0));
        let i = choose|i: int| 0 <= i < places.len() && places[i] == here->0;
        assert(b[i].same(a[places[i]]));
        missing_target_is_nowhere(b, target, n, i);
    }
}

proof fn same_routes_are_tried(
    a: Seq<OnboardingRoute>,
    b: Seq<OnboardingRoute>,
    places: Seq<int>,
    n: int,
)
    requires
        routes_fault(a) is None,
        reordered_routes(a, b, places),
    ensures
        tried_order(a, n).len() == tried_order(b, n).len(),
        forall|k: int|
            0 <= k < tried_order(b, n).len() ==> 0 <= #[trigger] tried_order(b, n)[k] < b.len()
                && tried_order(a, n)[k] == places[tried_order(b, n)[k]],
    decreases n,
{
    if n > 0 {
        same_routes_are_tried(a, b, places, n - 1);
        kinds_keep_their_route(a, b, places, kind_at(n - 1));
    }
}

proof fn slots_are_filled_alike(
    a: OnboardingTicket,
    b: OnboardingTicket,
    urls: Seq<InfoAddress>,
    route_places: Seq<int>,
    artifact_places: Seq<int>,
    k: int,
)
    requires
        routes_fault(a.routes@) is None,
        artifacts_fault(a.artifacts@) is None,
        reordered_tickets(a, b, route_places, artifact_places),
    ensures
        route_at(a.routes@, urls, k) == route_at(b.routes@, urls, k),
        ca_at(a.routes@, k) == ca_at(b.routes@, k),
        digest_at(a.artifacts@, k) == digest_at(b.artifacts@, k),
        size_at(a.artifacts@, k) == size_at(b.artifacts@, k),
{
    same_routes_are_tried(a.routes@, b.routes@, route_places, 4);
    let order = tried_order(b.routes@, 4);
    if 0 <= k < order.len() {
        let i = order[k];
        assert(b.routes@[i].same(a.routes@[route_places[i]]));
    }
    targets_keep_their_artifact(a.artifacts@, b.artifacts@, artifact_places, target_text(k));
    let found = artifact_for(b.artifacts@, target_text(k), b.artifacts@.len() as int);
    if found is Some {
        let i = found->0;
        assert(b.artifacts@[i].same(a.artifacts@[artifact_places[i]]));
    }
}

proof fn same_targets_are_listed(
    a: Seq<BootstrapArtifact>,
    b: Seq<BootstrapArtifact>,
    places: Seq<int>,
    n: int,
)
    requires
        artifacts_fault(a) is None,
        reordered_artifacts(a, b, places),
    ensures
        target_lines(a, n) == target_lines(b, n),
    decreases n,
{
    if n > 0 {
        same_targets_are_listed(a, b, places, n - 1);
        targets_keep_their_artifact(a, b, places, target_text(n - 1));
    }
}

proof fn scripts_follow_their_variables(
    pieces: Seq<Seq<char>>,
    n: int,
    a: OnboardingTicket,
    b: OnboardingTicket,
    json: Seq<char>,
    urls: Seq<InfoAddress>,
)
    requires
        forall|name: Seq<char>| #[trigger] variable(name, a, urls) == variable(name, b, urls),
    ensures
        script_of(pieces, n, a, json, urls) == script_of(pieces, n, b, json, urls),
    decreases n,
{
    if n > 0 {
        scripts_follow_their_variables(pieces, n - 1, a, b, json, urls);
        assert(variable(pieces[n - 1], a, urls) == variable(pieces[n - 1], b, urls));
    }
}

/// Whether a script can be filled does not depend on what stands for the ticket.
proof fn json_spoils_no_script(
    pieces: Seq<Seq<char>>,
    n: int,
    ticket: OnboardingTicket,
    one: Seq<char>,
    other: Seq<char>,
    urls: Seq<InfoAddress>,
)
    ensures
        (script_of(pieces, n, ticket, one, urls) is None) == (script_of(
            pieces,
            n,
            ticket,
            other,
            urls,
        ) is None),
    decreases n,
{
    if n > 0 {
        json_spoils_no_script(pieces, n - 1, ticket, one, other, urls);
    }
}

/// The order of a ticket's routes and artifacts does not show in its prompt but in the
/// ticket's own text: a valid ticket and the same one in another order are both rendered or
/// are both refused, for the same reason, and their prompts agree but for what stands for
/// the ticket. Download routes fill their slots by kind, and each target keeps its own
/// digest and size. `route_places` and `artifact_places` say where what stands at a place
/// of the second ticket stands in the first one; the texts of the two tickets both fit
/// into a prompt, or neither does.
pub proof fn prompts_do_not_depend_on_order(
    a: OnboardingTicket,
    b: OnboardingTicket,
    verdicts: TicketVerdicts,
    json_a: Seq<char>,
    json_b: Seq<char>,
    urls: Seq<InfoAddress>,
    template: Seq<char>,
    route_places: Seq<int>,
    artifact_places: Seq<int>,
)
    requires
        ticket_fault(a, verdicts) is None,
        reordered_tickets(a, b, route_places, artifact_places),
        byte_length(json_a) <= MAX_TICKET_BYTES <==> byte_length(json_b) <= MAX_TICKET_BYTES,
    ensures
        ticket_fault(b, verdicts) is None,
        prompt_fault(a, verdicts, json_a, urls, template) == prompt_fault(
            b,
            verdicts,
            json_b,
            urls,
            template,
        ),
        forall|json: Seq<char>| #[trigger]
            script_text(template, a, json, urls) == script_text(template, b, json, urls),
        forall|script: Seq<char>| #[trigger] prompt_text(a, script) == prompt_text(b, script),
{
    reordered_routes_are_valid(a.routes@, b.routes@, route_places, b.routes@.len() as int);
    reordered_artifacts_are_valid(
        a.artifacts@,
        b.artifacts@,
        artifact_places,
        b.artifacts@.len() as int,
    );
    slots_are_filled_alike(a, b, urls, route_places, artifact_places, 0);
    slots_are_filled_alike(a, b, urls, route_places, artifact_places, 1);
    slots_are_filled_alike(a, b, urls, route_places, artifact_places, 2);
    slots_are_filled_alike(a, b, urls, route_places, artifact_places, 3);
    assert(forall|name: Seq<char>| #[trigger]
        variable(name, a, urls) == variable(name, b, urls));
    let pieces = pieces_from(template, 0);
    let n = pieces.len() as int;
    assert forall|json: Seq<char>| #[trigger]
        script_text(template, a, json, urls) == script_text(template, b, json, urls) by {
        scripts_follow_their_variables(pieces, n, a, b, json, urls);
    }
    json_spoils_no_script(pieces, n, b, json_a, json_b, urls);
    assert(script_text(template, a, json_a, urls) == script_text(template, b, json_a, urls));
    same_targets_are_listed(a.artifacts@, b.artifacts@, artifact_places, 4);
    assert((a.routes@[0].kind is Local) == (b.routes@[0].kind is Local)) by {
        no_route_fault(a.routes@, a.routes@.len() as int, 0);
        no_route_fault(b.routes@, b.routes@.len() as int, 0);
        if a.routes@.len() == 1 {
            assert(b.routes@[0].same(a.routes@[route_places[0]]));
        }
    }
    assert(prompt_head(a) == prompt_head(b));
    if exists|i: int|
        0 <= i < a.routes@.len() && files_url(urls, (#[trigger] a.routes@[i]).router_url@) is None {
        let i = choose|i: int|
            0 <= i < a.routes@.len() && files_url(urls, (#[trigger] a.routes@[i]).router_url@)
                is None;
        assert(route_places.contains(i));
        let j = choose|j: int| 0 <= j < route_places.len() && route_places[j] == i;
        assert(b.routes@[j].same(a.routes@[i]));
        assert(files_url(urls, b.routes@[j].router_url@) is None);
    }
    if exists|i: int|
        0 <= i < b.routes@.len() && files_url(urls, (#[trigger] b.routes@[i]).router_url@) is None {
        let i = choose|i: int|
            0 <= i < b.routes@.len() && files_url(urls, (#[trigger] b.routes@[i]).router_url@)
                is None;
        assert(b.routes@[i].same(a.routes@[route_places[i]]));
        assert(files_url(urls, a.routes@[route_places[i]].router_url@) is None);
    }
}

/// How far a kind of route is from the machine that is to be set up: a tailnet is tried before
/// a LAN, and a LAN before the public internet.
pub open spec fn distance(kind: RouteKind) -> int {
    match kind {
        RouteKind::Tailnet => 0,
        RouteKind::Lan => 1,
        RouteKind::Public => 2,
        RouteKind::Local => 3,
    }
}

proof fn tried_routes_are_near(routes: Seq<OnboardingRoute>, n: int, a: int)
    requires
        0 <= n <= 4,
        0 <= a < tried_order(routes, n).len(),
    ensures
        0 <= tried_order(routes, n)[a] < routes.len(),
        distance(routes[tried_order(routes, n)[a]].kind) < n,
    decreases n,
{
    let before = tried_order(routes, n - 1);
    let last = route_of_kind(routes, kind_at(n - 1), routes.len() as int);
    if last is Some && a == before.len() {
        found_route_has_kind(routes, kind_at(n - 1), routes.len() as int);
    } else {
        tried_routes_are_near(routes, n - 1, a);
    }
}

/// Of two routes that are tried, the nearer one is tried first: a tailnet before a LAN and
/// before the public internet, a LAN before the public internet.
pub proof fn near_routes_are_tried_first(routes: Seq<OnboardingRoute>, n: int, a: int, b: int)
    requires
        0 <= n <= 4,
        0 <= a < tried_order(routes, n).len(),
        0 <= b < tried_order(routes, n).len(),
    ensures
        ({
            let first = routes[tried_order(routes, n)[a]].kind;
            let second = routes[tried_order(routes, n)[b]].kind;
            &&& a < b <==> distance(first) < distance(second)
            &&& first is Tailnet && (second is Lan || second is Public) ==> a < b
            &&& first is Lan && second is Public ==> a < b
        }),
    decreases n,
{
    let before = tried_order(routes, n - 1);
    let last = route_of_kind(routes, kind_at(n - 1), routes.len() as int);
    if last is Some {
        found_route_has_kind(routes, kind_at(n - 1), routes.len() as int);
    }
    if a < before.len() {
        tried_routes_are_near(routes, n - 1, a);
    }
    if b < before.len() {
        tried_routes_are_near(routes, n - 1, b);
    }
    if a < before.len() && b < before.len() {
        near_routes_are_tried_first(routes, n - 1, a, b);
    }
}

proof fn kinds_are_tried(routes: Seq<OnboardingRoute>, n: int, i: int)
    requires
        routes_fault(routes) is None,
        0 <= i < routes.len(),
        distance(routes[i].kind) < n <= 4,
    ensures
        tried_order(routes, n).contains(i),
    decreases n,
{
    let before = tried_order(routes, n - 1);
    let last = route_of_kind(routes, kind_at(n - 1), routes.len() as int);
    if distance(routes[i].kind) < n - 1 {
        kinds_are_tried(routes, n - 1, i);
        let a = choose|a: int| 0 <= a < before.len() && before[a] == i;
        assert(tried_order(routes, n)[a] == i);
    } else if last is Some {
        found_route_has_kind(routes, kind_at(n - 1), routes.len() as int);
        no_kind_stands_twice(routes, i, last->0);
        assert(tried_order(routes, n)[before.len() as int] == i);
    } else {
        missing_kind_is_nowhere(routes, kind_at(n - 1), routes.len() as int, i);
    }
}

/// Every route of a ticket is tried, and none twice.
pub proof fn every_route_is_tried(routes: Seq<OnboardingRoute>, i: int)
    requires
        routes_fault(routes) is None,
        0 <= i < routes.len(),
    ensures
        tried_order(routes, 4).contains(i),
        forall|a: int, b: int|
            0 <= a < b < tried_order(routes, 4).len() ==> #[trigger] tried_order(routes, 4)[a]
                != #[trigger] tried_order(routes, 4)[b],
{
    kinds_are_tried(routes, 4, i);
    assert forall|a: int, b: int|
        0 <= a < b < tried_order(routes, 4).len() implies #[trigger] tried_order(routes, 4)[a]
        != #[trigger] tried_order(routes, 4)[b] by {
        near_routes_are_tried_first(routes, 4, a, b);
    }
}

/// Whether a ticket has a route of a kind.
pub open spec fn has_kind(routes: Seq<OnboardingRoute>, kind: RouteKind) -> bool {
    exists|i: int| 0 <= i < routes.len() && (#[trigger] routes[i]).kind == kind
}

proof fn kind_is_found_or_not(routes: Seq<OnboardingRoute>, kind: RouteKind)
    ensures
        has_kind(routes, kind) <==> route_of_kind(routes, kind, routes.len() as int) is Some,
{
    if route_of_kind(routes, kind, routes.len() as int) is Some {
        found_route_has_kind(routes, kind, routes.len() as int);
        let i = route_of_kind(routes, kind, routes.len() as int)->0;
        assert(routes[i].kind == kind);
    } else if has_kind(routes, kind) {
        let i = choose|i: int| 0 <= i < routes.len() && (#[trigger] routes[i]).kind == kind;
        missing_kind_is_nowhere(routes, kind, routes.len() as int, i);
    }
}

/// What the slots of the script hold: the route of the tailnet is the first one, that of the
/// LAN comes behind it, that of the public internet behind both, and with a route stands its
/// certificate bundle. Where there is nothing behind, the slots are empty.
pub proof fn routes_fill_their_slots(ticket: OnboardingTicket, urls: Seq<InfoAddress>, i: int)
    requires
        routes_fault(ticket.routes@) is None,
        0 <= i < ticket.routes@.len(),
        files_url(urls, ticket.routes@[i].router_url@) is Some,
    ensures
        ({
            let routes = ticket.routes@;
            let route = Some(files_url(urls, routes[i].router_url@)->0);
            let ca = match opt_text(routes[i].ca_pem) {
                Some(pem) => Some(pem),
                None => Some(Seq::<char>::empty()),
            };
            let first = variable("ROUTE_1"@, ticket, urls) == route && variable(
                "CA_1"@,
                ticket,
                urls,
            ) == ca;
            let second = variable("ROUTE_2"@, ticket, urls) == route && variable(
                "CA_2"@,
                ticket,
                urls,
            ) == ca;
            let third = variable("ROUTE_3"@, ticket, urls) == route && variable(
                "CA_3"@,
                ticket,
                urls,
            ) == ca;
            let tailnet = has_kind(routes, RouteKind::Tailnet);
            let lan = has_kind(routes, RouteKind::Lan);
            &&& routes[i].kind is Tailnet ==> first
            &&& routes[i].kind is Lan && !tailnet ==> first
            &&& routes[i].kind is Lan && tailnet ==> second
            &&& routes[i].kind is Public && !tailnet && !lan ==> first
            &&& routes[i].kind is Public && (tailnet != lan) ==> second
            &&& routes[i].kind is Public && tailnet && lan ==> third
            &&& routes[i].kind is Local && routes.len() == 1 ==> first
            &&& routes.len() == 1 ==> variable("ROUTE_2"@, ticket, urls) == Some(
                Seq::<char>::empty(),
            ) && variable("CA_2"@, ticket, urls) == Some(Seq::<char>::empty())
        }),
{
    let routes = ticket.routes@;
    names_of_slots_differ();
    kind_is_found_or_not(routes, RouteKind::Tailnet);
    kind_is_found_or_not(routes, RouteKind::Lan);
    kind_is_found_or_not(routes, RouteKind::Public);
    kind_is_found_or_not(routes, RouteKind::Local);
    let n = routes.len() as int;
    if route_of_kind(routes, routes[i].kind, n) is None {
        missing_kind_is_nowhere(routes, routes[i].kind, n, i);
    }
    found_route_has_kind(routes, routes[i].kind, n);
    no_kind_stands_twice(routes, i, route_of_kind(routes, routes[i].kind, n)->0);
    reveal_with_fuel(tried_order, 5);
    if n == 1 {
        if has_kind(routes, RouteKind::Tailnet) {
            let j = choose|j: int|
                0 <= j < routes.len() && (#[trigger] routes[j]).kind == RouteKind::Tailnet;
            assert(j == 0);
        }
        if has_kind(routes, RouteKind::Lan) {
            let j = choose|j: int|
                0 <= j < routes.len() && (#[trigger] routes[j]).kind == RouteKind::Lan;
            assert(j == 0);
        }
        if has_kind(routes, RouteKind::Public) {
            let j = choose|j: int|
                0 <= j < routes.len() && (#[trigger] routes[j]).kind == RouteKind::Public;
            assert(j == 0);
        }
        if has_kind(routes, RouteKind::Local) {
            let j = choose|j: int|
                0 <= j < routes.len() && (#[trigger] routes[j]).kind == RouteKind::Local;
            assert(j == 0);
        }
    }
}

proof fn names_of_slots_differ()
    ensures
        forall|ticket: OnboardingTicket, urls: Seq<InfoAddress>| #[trigger]
            variable("ROUTE_1"@, ticket, urls) == Some(route_at(ticket.routes@, urls, 0)),
        forall|ticket: OnboardingTicket, urls: Seq<InfoAddress>| #[trigger]
            variable("ROUTE_2"@, ticket, urls) == Some(route_at(ticket.routes@, urls, 1)),
        forall|ticket: OnboardingTicket, urls: Seq<InfoAddress>| #[trigger]
            variable("ROUTE_3"@, ticket, urls) == Some(route_at(ticket.routes@, urls, 2)),
        forall|ticket: OnboardingTicket, urls: Seq<InfoAddress>| #[trigger]
            variable("CA_1"@, ticket, urls) == Some(ca_at(ticket.routes@, 0)),
        forall|ticket: OnboardingTicket, urls: Seq<InfoAddress>| #[trigger]
            variable("CA_2"@, ticket, urls) == Some(ca_at(ticket.routes@, 1)),
        forall|ticket: OnboardingTicket, urls: Seq<InfoAddress>| #[trigger]
            variable("CA_3"@, ticket, urls) == Some(ca_at(ticket.routes@, 2)),
        forall|ticket: OnboardingTicket, urls: Seq<InfoAddress>| #[trigger]
            variable("DARWIN_ARM64_SHA256"@, ticket, urls) == Some(
                digest_at(ticket.artifacts@, 0),
            ),
        forall|ticket: OnboardingTicket, urls: Seq<InfoAddress>| #[trigger]
            variable("DARWIN_X64_SHA256"@, ticket, urls) == Some(digest_at(ticket.artifacts@, 1)),
        forall|ticket: OnboardingTicket, urls: Seq<InfoAddress>| #[trigger]
            variable("LINUX_ARM64_SHA256"@, ticket, urls) == Some(
                digest_at(ticket.artifacts@, 2),
            ),
        forall|ticket: OnboardingTicket, urls: Seq<InfoAddress>| #[trigger]
            variable("LINUX_X64_SHA256"@, ticket, urls) == Some(digest_at(ticket.artifacts@, 3)),
        forall|ticket: OnboardingTicket, urls: Seq<InfoAddress>| #[trigger]
            variable("DARWIN_ARM64_BYTES"@, ticket, urls) == Some(size_at(ticket.artifacts@, 0)),
        forall|ticket: OnboardingTicket, urls: Seq<InfoAddress>| #[trigger]
            variable("DARWIN_X64_BYTES"@, ticket, urls) == Some(size_at(ticket.artifacts@, 1)),
        forall|ticket: OnboardingTicket, urls: Seq<InfoAddress>| #[trigger]
            variable("LINUX_ARM64_BYTES"@, ticket, urls) == Some(size_at(ticket.artifacts@, 2)),
        forall|ticket: OnboardingTicket, urls: Seq<InfoAddress>| #[trigger]
            variable("LINUX_X64_BYTES"@, ticket, urls) == Some(size_at(ticket.artifacts@, 3)),
{
    reveal_strlit("PINNED_PROVIDER");
    reveal_strlit("DARWIN_ARM64_SHA256");
    reveal_strlit("DARWIN_ARM64_BYTES");
    reveal_strlit("DARWIN_X64_SHA256");
    reveal_strlit("DARWIN_X64_BYTES");
    reveal_strlit("LINUX_ARM64_SHA256");
    reveal_strlit("LINUX_ARM64_BYTES");
    reveal_strlit("LINUX_X64_SHA256");
    reveal_strlit("LINUX_X64_BYTES");
    reveal_strlit("ROUTE_1");
    reveal_strlit("ROUTE_2");
    reveal_strlit("ROUTE_3");
    reveal_strlit("ROUTE_4");
    reveal_strlit("CA_1");
    reveal_strlit("CA_2");
    reveal_strlit("CA_3");
    reveal_strlit("CA_4");
    assert("PINNED_PROVIDER"@.len() == 15 && "PINNED_PROVIDER"@[0] == 'P');
    assert("DARWIN_ARM64_SHA256"@.len() == 19 && "DARWIN_ARM64_SHA256"@[0] == 'D');
    assert("DARWIN_ARM64_BYTES"@.len() == 18 && "DARWIN_ARM64_BYTES"@[0] == 'D'
        && "DARWIN_ARM64_BYTES"@[7] == 'A');
    assert("DARWIN_X64_SHA256"@.len() == 17 && "DARWIN_X64_SHA256"@[0] == 'D');
    assert("DARWIN_X64_BYTES"@.len() == 16 && "DARWIN_X64_BYTES"@[0] == 'D');
    assert("LINUX_ARM64_SHA256"@.len() == 18 && "LINUX_ARM64_SHA256"@[0] == 'L');
    assert("LINUX_ARM64_BYTES"@.len() == 17 && "LINUX_ARM64_BYTES"@[0] == 'L');
    assert("LINUX_X64_SHA256"@.len() == 16 && "LINUX_X64_SHA256"@[0] == 'L');
    assert("LINUX_X64_BYTES"@.len() == 15 && "LINUX_X64_BYTES"@[0] == 'L');
    assert("ROUTE_1"@.len() == 7 && "ROUTE_1"@[6] == '1');
    assert("ROUTE_2"@.len() == 7 && "ROUTE_2"@[6] == '2');
    assert("ROUTE_3"@.len() == 7 && "ROUTE_3"@[6] == '3');
    assert("ROUTE_4"@.len() == 7 && "ROUTE_4"@[6] == '4');
    assert("CA_1"@.len() == 4 && "CA_1"@[3] == '1');
    assert("CA_2"@.len() == 4 && "CA_2"@[3] == '2');
    assert("CA_3"@.len() == 4 && "CA_3"@[3] == '3');
    assert("CA_4"@.len() == 4 && "CA_4"@[3] == '4');
}

/// What the slots of a target hold: the digest and the size of the artifact for exactly that
/// target, and nothing of a size of zero where there is none.
pub proof fn artifacts_fill_their_slots(ticket: OnboardingTicket, urls: Seq<InfoAddress>, i: int)
    requires
        artifacts_fault(ticket.artifacts@) is None,
        0 <= i < ticket.artifacts@.len(),
    ensures
        ({
            let artifact = ticket.artifacts@[i];
            let digest = Some(artifact.binary_sha256@);
            let size = Some(decimal_text(artifact.binary_bytes as nat));
            &&& artifact.target@ == "aarch64-apple-darwin"@ ==> variable(
                "DARWIN_ARM64_SHA256"@,
                ticket,
                urls,
            ) == digest && variable("DARWIN_ARM64_BYTES"@, ticket, urls) == size
            &&& artifact.target@ == "x86_64-apple-darwin"@ ==> variable(
                "DARWIN_X64_SHA256"@,
                ticket,
                urls,
            ) == digest && variable("DARWIN_X64_BYTES"@, ticket, urls) == size
            &&& artifact.target@ == "aarch64-unknown-linux-gnu"@ ==> variable(
                "LINUX_ARM64_SHA256"@,
                ticket,
                urls,
            ) == digest && variable("LINUX_ARM64_BYTES"@, ticket, urls) == size
            &&& artifact.target@ == "x86_64-unknown-linux-gnu"@ ==> variable(
                "LINUX_X64_SHA256"@,
                ticket,
                urls,
            ) == digest && variable("LINUX_X64_BYTES"@, ticket, urls) == size
        }),
{
    let artifacts = ticket.artifacts@;
    let n = artifacts.len() as int;
    let target = artifacts[i].target@;
    names_of_slots_differ();
    if artifact_for(artifacts, target, n) is None {
        missing_target_is_nowhere(artifacts, target, n, i);
    }
    found_artifact_has_target(artifacts, target, n);
    no_target_stands_twice(artifacts, i, artifact_for(artifacts, target, n)->0);
}

/// A target without an artifact has an empty digest and a size of zero.
pub proof fn missing_artifacts_leave_their_slots_empty(
    ticket: OnboardingTicket,
    urls: Seq<InfoAddress>,
)
    requires
        forall|i: int|
            0 <= i < ticket.artifacts@.len() ==> (#[trigger] ticket.artifacts@[i]).target@
                != "aarch64-apple-darwin"@,
    ensures
        variable("DARWIN_ARM64_SHA256"@, ticket, urls) == Some(Seq::<char>::empty()),
        variable("DARWIN_ARM64_BYTES"@, ticket, urls) == Some("0"@),
{
    let artifacts = ticket.artifacts@;
    let n = artifacts.len() as int;
    names_of_slots_differ();
    if artifact_for(artifacts, "aarch64-apple-darwin"@, n) is Some {
        found_artifact_has_target(artifacts, "aarch64-apple-darwin"@, n);
    }
}

/// Where the files of a route are fetched from: at the address where the router of the route
/// tells of itself, under the path of the files. The first address for a router counts.
pub proof fn files_are_fetched_from_the_router(
    urls: Seq<InfoAddress>,
    k: int,
    router_url: Seq<char>,
)
    requires
        0 <= k < urls.len(),
        urls[k].router_url@ == router_url,
        forall|j: int| 0 <= j < k ==> (#[trigger] urls[j]).router_url@ != router_url,
    ensures
        files_url(urls, router_url) == (match opt_text(urls[k].info_url) {
            Some(info_url) => url_with_path(info_url, "/onboarding/files/"@),
            None => None,
        }),
    decreases urls.len(),
{
    if k > 0 {
        assert(urls[0].router_url@ != router_url);
        let rest = urls.drop_first();
        assert(rest[k - 1] == urls[k]);
        assert forall|j: int| 0 <= j < k - 1 implies (#[trigger] rest[j]).router_url@
            != router_url by {
            assert(rest[j] == urls[j + 1]);
        }
        files_are_fetched_from_the_router(rest, k - 1, router_url);
    }
}

} // verus!
