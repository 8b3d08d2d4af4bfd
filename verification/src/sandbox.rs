//! Dry runs: every action is tried here before it may be suggested or run.

use vstd::prelude::*;
use std::path::PathBuf;
use crate::text::{clone_option, join2, option_text};
use crate::types::{Action, ActionType, Confidence, RiskCategory};

verus! {

/// A path of the file system, as std holds it. Its contents are not read here.
#[verifier::external_type_specification]
#[verifier::external_body]
pub struct ExPathBuf(std::path::PathBuf);

/// The path that std's `PathBuf::from` makes of `text`. Nothing is claimed of
/// it.
#[verifier::external_body]
fn path_from(text: &str) -> PathBuf {
    PathBuf::from(text)
}

/// What a dry run found.
#[derive(Debug)]
pub struct SandboxResult {
    pub success: bool,
    pub error_message: Option<String>,
    pub execution_time_ms: u64,
    pub diff_log: Option<String>,
}

/// What a dry run's result holds.
pub struct SandboxResultView {
    pub success: bool,
    pub error_message: Option<Seq<char>>,
    pub execution_time_ms: u64,
    pub diff_log: Option<Seq<char>>,
}

impl View for SandboxResult {
    type V = SandboxResultView;

    open spec fn view(&self) -> SandboxResultView {
        SandboxResultView {
            success: self.success,
            error_message: option_text(self.error_message),
            execution_time_ms: self.execution_time_ms,
            diff_log: option_text(self.diff_log),
        }
    }
}

impl Clone for SandboxResult {
    fn clone(&self) -> (r: Self)
        ensures
            r == *self,
    {
        SandboxResult {
            success: self.success,
            error_message: clone_option(&self.error_message),
            execution_time_ms: self.execution_time_ms,
            diff_log: clone_option(&self.diff_log),
        }
    }
}

/// Whether a dry run of `action` succeeds: a macro must carry no more than low
/// risk, and every other kind of action passes.
pub open spec fn passes_sandbox(action: Action) -> bool {
    action.action_type == ActionType::AutomationMacro ==> action.risk.rank()
        <= RiskCategory::Low.rank()
}

/// The result of a dry run of `action`.
pub open spec fn sandbox_outcome(action: Action) -> SandboxResultView {
    if action.action_type == ActionType::AutomationMacro {
        SandboxResultView {
            success: passes_sandbox(action),
            error_message: if passes_sandbox(action) {
                None
            } else {
                Some("High risk action requires manual approval"@)
            },
            execution_time_ms: 100,
            diff_log: Some("Would execute: "@ + action.description@),
        }
    } else {
        SandboxResultView {
            success: true,
            error_message: None,
            execution_time_ms: 50,
            diff_log: Some("Tested: "@ + action.description@),
        }
    }
}

/// The text that says how to undo `action`.
pub open spec fn undo_text(action: Action) -> Seq<char> {
    "Undo action: "@ + action.description@
}

/// Whether `action` may run unattended: only with high confidence and no risk
/// at all.
pub open spec fn safe_to_auto_execute(action: Action) -> bool {
    action.confidence == Confidence::High && action.risk == RiskCategory::NoRisk
}

/// Unattended execution is stricter than the dry run: whatever may run
/// unattended also passes the dry run.
pub proof fn lemma_safe_passes_sandbox(action: Action)
    requires
        safe_to_auto_execute(action),
    ensures
        passes_sandbox(action),
        sandbox_outcome(action).success,
{
}

/// Runs automations in isolation. It holds only the directory to work in.
pub struct SandboxRunner {
    sandbox_dir: PathBuf,
}

impl SandboxRunner {
    /// The directory this runner works in.
    pub closed spec fn dir(&self) -> PathBuf {
        self.sandbox_dir
    }

    /// A runner that works in `sandbox_dir`.
    pub fn new(sandbox_dir: PathBuf) -> (r: Self)
        ensures
            r.dir() == sandbox_dir,
    {
        SandboxRunner { sandbox_dir }
    }

    /// The directory this runner works in.
    pub fn sandbox_dir(&self) -> (r: &PathBuf)
        ensures
            *r == self.dir(),
    {
        &self.sandbox_dir
    }

    /// Tries `action` without carrying it out, and says what would be done.
    pub fn test_automation(&self, action: &Action) -> (r: SandboxResult)
        ensures
            r@ == sandbox_outcome(*action),
    {
        match action.action_type {
            ActionType::AutomationMacro => {
                let passes = action.risk.level() <= RiskCategory::Low.level();
                SandboxResult {
                    success: passes,
                    error_message: if passes {
                        None
                    } else {
                        Some("High risk action requires manual approval".to_string())
                    },
                    execution_time_ms: 100,
                    diff_log: Some(join2("Would execute: ", action.description.as_str())),
                }
            },
            _ => SandboxResult {
                success: true,
                error_message: None,
                execution_time_ms: 50,
                diff_log: Some(join2("Tested: ", action.description.as_str())),
            },
        }
    }

    /// The text that says how to undo `action`.
    pub fn generate_undo(&self, action: &Action) -> (r: String)
        ensures
            r@ == undo_text(*action),
    {
        join2("Undo action: ", action.description.as_str())
    }

    /// Whether `action` may run unattended.
    pub fn is_safe_to_auto_execute(&self, action: &Action) -> (r: bool)
        ensures
            r == safe_to_auto_execute(*action),
            r <==> action.confidence == Confidence::High && action.risk == RiskCategory::NoRisk,
    {
        action.confidence.level() >= Confidence::High.level() && action.risk.level()
            == RiskCategory::NoRisk.level()
    }
}

impl Default for SandboxRunner {
    fn default() -> (r: Self) {
        SandboxRunner::new(path_from("./sandbox"))
    }
}

} // verus!
