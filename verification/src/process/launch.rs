//! What is launched: the program, its arguments and its environment.

use vstd::prelude::*;

use crate::paths::{absolute, is_absolute, is_same_path, join, joined, same_path};
use crate::process::EnvEntry;
use crate::text::{concat, kebab, kebab_case, opt_text, same_text, same_texts, texts};

verus! {

#[derive(Clone, Copy, Debug, PartialEq, Eq, Structural)]
pub enum LaunchMode {
    /// Replace the calling process, so that the provider owns the foreground terminal.
    ReplaceForeground,
    /// Run a finite helper and map its exit status after it returns.
    Wait,
}

#[derive(Debug)]
pub struct LaunchPlan {
    pub program: String,
    pub arguments: Vec<String>,
    pub caller_cwd: String,
    pub environment: Vec<EnvEntry>,
    pub mode: LaunchMode,
}

/// Whether two plans are one: the directory may be spelled in two ways.
pub open spec fn same_plan(a: LaunchPlan, b: LaunchPlan) -> bool {
    &&& a.program@ == b.program@
    &&& texts(a.arguments@) == texts(b.arguments@)
    &&& same_path(a.caller_cwd@, b.caller_cwd@)
    &&& a.environment@.len() == b.environment@.len()
    &&& forall|i: int|
        0 <= i < a.environment@.len() ==> (#[trigger] a.environment@[i]).key@
            == b.environment@[i].key@ && a.environment@[i].value@ == b.environment@[i].value@
    &&& a.mode == b.mode
}

impl PartialEq for LaunchPlan {
    fn eq(&self, other: &Self) -> (same: bool) {
        if !same_text(self.program.as_str(), other.program.as_str()) || !same_texts(
            &self.arguments,
            &other.arguments,
        ) || !is_same_path(self.caller_cwd.as_str(), other.caller_cwd.as_str())
            || self.environment.len() != other.environment.len() || self.mode != other.mode {
            return false;
        }
        let mut i: usize = 0;
        while i < self.environment.len()
            invariant
                i <= self.environment@.len() == other.environment@.len(),
                forall|j: int|
                    0 <= j < i ==> (#[trigger] self.environment@[j]).key@
                        == other.environment@[j].key@ && self.environment@[j].value@
                        == other.environment@[j].value@,
            decreases self.environment.len() - i,
        {
            let mine = &self.environment[i];
            let theirs = &other.environment[i];
            if !same_text(mine.key.as_str(), theirs.key.as_str()) || !same_text(
                mine.value.as_str(),
                theirs.value.as_str(),
            ) {
                assert(self.environment@[i as int] == *mine);
                return false;
            }
            i += 1;
        }
        true
    }
}

impl vstd::std_specs::cmp::PartialEqSpecImpl for LaunchPlan {
    open spec fn obeys_eq_spec() -> bool {
        true
    }

    open spec fn eq_spec(&self, other: &Self) -> bool {
        same_plan(*self, *other)
    }
}

#[derive(Debug, PartialEq)]
pub enum LaunchError {
    /// The plan cannot be carried out, with the reason.
    InvalidPlan(String),
    /// The process could not be started, with the system's reason.
    Spawn(String),
}

impl LaunchError {
    /// The text of this error.
    pub fn message(&self) -> (text: String)
        ensures
            text@ == (match *self {
                LaunchError::InvalidPlan(reason) => reason@,
                LaunchError::Spawn(reason) => "process launch failed: "@ + reason@,
            }),
    {
        match self {
            LaunchError::InvalidPlan(reason) => reason.clone(),
            LaunchError::Spawn(reason) => concat(
                "process launch failed: ",
                reason.as_str(),
            ),
        }
    }
}

/// What is wrong with a plan, if anything.
pub open spec fn plan_fault(plan: LaunchPlan) -> Option<Seq<char>> {
    if plan.program@.len() == 0 {
        Some("process program must not be empty"@)
    } else if !absolute(plan.caller_cwd@) {
        Some("caller cwd must be absolute"@)
    } else if exists|i: int|
        0 <= i < plan.environment@.len() && (#[trigger] plan.environment@[i]).key@.len() == 0 {
        Some("environment variable name must not be empty"@)
    } else {
        None
    }
}

impl LaunchPlan {
    /// A program with its arguments as they are.
    pub fn passthrough(program: String, caller_cwd: String, arguments: Vec<String>) -> (plan:
        LaunchPlan)
        ensures
            plan.program == program,
            plan.caller_cwd == caller_cwd,
            plan.arguments == arguments,
            plan.environment@.len() == 0,
            plan.mode is ReplaceForeground,
    {
        LaunchPlan {
            program,
            arguments,
            caller_cwd,
            environment: Vec::new(),
            mode: LaunchMode::ReplaceForeground,
        }
    }

    /// Codex as it is installed: the caller's directory is handed to it as an argument.
    pub fn stock_codex(program: String, caller_cwd: String, arguments: Vec<String>) -> (plan:
        LaunchPlan)
        ensures
            plan.program == program,
            plan.caller_cwd == caller_cwd,
            texts(plan.arguments@) == seq!["-C"@, caller_cwd@] + texts(arguments@),
            plan.environment@.len() == 0,
            plan.mode is ReplaceForeground,
    {
        let mut arguments = arguments;
        let ghost given = arguments@;
        let mut planned: Vec<String> = Vec::new();
        planned.push("-C".to_owned());
        planned.push(caller_cwd.clone());
        let ghost head = planned@;
        planned.append(&mut arguments);
        assert(planned@ == head + given);
        assert(texts(planned@) =~= seq!["-C"@, caller_cwd@] + texts(given));
        LaunchPlan {
            program,
            arguments: planned,
            caller_cwd,
            environment: Vec::new(),
            mode: LaunchMode::ReplaceForeground,
        }
    }

    /// A Codex App Server of the router's own: it learns its directory, the configured one
    /// or else the caller's, from its environment.
    pub fn owned_codex(
        program: String,
        caller_cwd: String,
        configured_codex_cwd: Option<String>,
        arguments: Vec<String>,
    ) -> (plan: LaunchPlan)
        ensures
            plan.program == program,
            plan.caller_cwd == caller_cwd,
            plan.arguments == arguments,
            plan.environment@.len() == 1,
            plan.environment@[0].key@ == "CODEX_CWD"@,
            plan.environment@[0].value@ == (match configured_codex_cwd {
                Some(cwd) => cwd@,
                None => caller_cwd@,
            }),
            plan.mode is ReplaceForeground,
    {
        let codex_cwd = match configured_codex_cwd {
            Some(cwd) => cwd,
            None => caller_cwd.clone(),
        };
        let mut environment: Vec<EnvEntry> = Vec::new();
        environment.push(EnvEntry { key: "CODEX_CWD".to_owned(), value: codex_cwd });
        LaunchPlan {
            program,
            arguments,
            caller_cwd,
            environment,
            mode: LaunchMode::ReplaceForeground,
        }
    }

    /// The registration of the project's channel with an absolute executable.
    pub fn setup_claude(claude_program: String, caller_cwd: String, current_exe: String) -> (plan:
        Result<LaunchPlan, LaunchError>)
        ensures
            match plan {
                Ok(plan) => {
                    &&& absolute(current_exe@)
                    &&& plan.program == claude_program
                    &&& plan.caller_cwd == caller_cwd
                    &&& texts(plan.arguments@) == seq![
                        "mcp"@,
                        "add"@,
                        "--transport"@,
                        "stdio"@,
                        "--scope"@,
                        "local"@,
                        "agent-session-router-channel"@,
                        "--"@,
                        current_exe@,
                        "mcp"@,
                        kebab_case("claude_channel"@),
                    ]
                    &&& plan.environment@.len() == 0
                    &&& plan.mode is Wait
                },
                Err(error) => !absolute(current_exe@) && (error matches LaunchError::InvalidPlan(
                    reason,
                ) && reason@ == kebab_case("setup_claude"@)
                    + " requires an absolute current executable"@),
            },
    {
        if !is_absolute(current_exe.as_str()) {
            return Err(
                LaunchError::InvalidPlan(
                    concat(
                        kebab("setup_claude").as_str(),
                        " requires an absolute current executable",
                    ),
                ),
            );
        }
        let ghost exe = current_exe@;
        let arguments: Vec<String> = vec![
            "mcp".to_owned(),
            "add".to_owned(),
            "--transport".to_owned(),
            "stdio".to_owned(),
            "--scope".to_owned(),
            "local".to_owned(),
            "agent-session-router-channel".to_owned(),
            "--".to_owned(),
            current_exe,
            "mcp".to_owned(),
            kebab("claude_channel"),
        ];
        assert(texts(arguments@) =~= seq![
            "mcp"@,
            "add"@,
            "--transport"@,
            "stdio"@,
            "--scope"@,
            "local"@,
            "agent-session-router-channel"@,
            "--"@,
            exe,
            "mcp"@,
            kebab_case("claude_channel"@),
        ]);
        Ok(
            LaunchPlan {
                program: claude_program,
                arguments,
                caller_cwd,
                environment: Vec::new(),
                mode: LaunchMode::Wait,
            },
        )
    }

    /// The plan with one more variable in its environment.
    pub fn with_environment(self, key: String, value: String) -> (plan: LaunchPlan)
        ensures
            plan.program == self.program,
            plan.arguments == self.arguments,
            plan.caller_cwd == self.caller_cwd,
            plan.environment@ == self.environment@.push(EnvEntry { key, value }),
            plan.mode == self.mode,
    {
        let mut plan = self;
        plan.environment.push(EnvEntry { key, value });
        plan
    }

    /// The plan with another mode.
    pub fn with_mode(self, mode: LaunchMode) -> (plan: LaunchPlan)
        ensures
            plan == (LaunchPlan { mode, ..self }),
    {
        let mut plan = self;
        plan.mode = mode;
        plan
    }

    /// Refuses a plan that cannot be carried out.
    pub fn validate(&self) -> (verdict: Result<(), LaunchError>)
        ensures
            (match verdict {
                Ok(()) => None,
                Err(LaunchError::InvalidPlan(reason)) => Some(reason@),
                Err(LaunchError::Spawn(_)) => Some(Seq::empty()),
            }) == plan_fault(*self),
            !(verdict matches Err(LaunchError::Spawn(_))),
    {
        if self.program.as_str().is_empty() {
            return Err(LaunchError::InvalidPlan("process program must not be empty".to_owned()));
        }
        if !is_absolute(self.caller_cwd.as_str()) {
            return Err(LaunchError::InvalidPlan("caller cwd must be absolute".to_owned()));
        }
        let mut i: usize = 0;
        while i < self.environment.len()
            invariant
                i <= self.environment@.len(),
                self.program@.len() > 0,
                absolute(self.caller_cwd@),
                forall|j: int| 0 <= j < i ==> (#[trigger] self.environment@[j]).key@.len() > 0,
            decreases self.environment.len() - i,
        {
            if self.environment[i].key.as_str().is_empty() {
                return Err(
                    LaunchError::InvalidPlan(
                        "environment variable name must not be empty".to_owned(),
                    ),
                );
            }
            i += 1;
        }
        Ok(())
    }
}

/// The exit code that stands for how a process ended: its own code where it fits a byte,
/// 130 after an interrupt, 1 otherwise.
pub open spec fn exit_code(code: Option<i32>, signal: Option<i32>) -> i32 {
    match code {
        Some(code) => if 0 <= code <= 255 {
            code
        } else {
            1
        },
        None => if signal == Some(2i32) {
            130
        } else {
            1
        },
    }
}

/// The exit code that stands for how a process ended: with a code, or by a signal.
pub fn map_exit_status(code: Option<i32>, signal: Option<i32>) -> (mapped: i32)
    ensures
        mapped == exit_code(code, signal),
        0 <= mapped <= 255,
{
    match code {
        Some(code) => if 0 <= code && code <= 255 {
            code
        } else {
            1
        },
        None => match signal {
            Some(2) => 130,
            _ => 1,
        },
    }
}

/// Where the bootstrap assets lie: the configured directory, else the one among the
/// router's data, read against the working directory.
pub open spec fn assets_directory(
    data_dir: Seq<char>,
    cwd: Seq<char>,
    configured: Option<Seq<char>>,
) -> Seq<char> {
    let path = match configured {
        Some(path) => if path.len() > 0 {
            path
        } else {
            joined(data_dir, "bootstrap"@)
        },
        None => joined(data_dir, "bootstrap"@),
    };
    if absolute(path) {
        path
    } else {
        joined(cwd, path)
    }
}

/// Where the bootstrap assets lie.
pub fn bootstrap_assets_directory(data_dir: &str, cwd: &str, configured: Option<String>) -> (path:
    String)
    ensures
        path@ == assets_directory(data_dir@, cwd@, opt_text(configured)),
{
    let path = match configured {
        Some(path) => if path.as_str().is_empty() {
            join(data_dir, "bootstrap")
        } else {
            path
        },
        None => join(data_dir, "bootstrap"),
    };
    if is_absolute(path.as_str()) {
        path
    } else {
        join(cwd, path.as_str())
    }
}

} // verus!
