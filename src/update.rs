use vstd::prelude::*;
use vstd::string::StringExecFns;
use crate::runner::{views, CommandResult, RunError};

verus! {

/// Exit code of a package-update check that reports updates waiting.
pub const UPDATES_AVAILABLE_CODE: i32 = 100;

/// `p` occurs in `s` as a run of consecutive characters.
pub open spec fn has_substring(s: Seq<char>, p: Seq<char>) -> bool {
    exists|i: int| 0 <= i && i + p.len() <= s.len() && #[trigger] s.subrange(i, i + p.len()) == p
}

/// Relies on `str::contains` with a string pattern: whether `p` occurs in `s`.
#[verifier::external_body]
fn text_contains(s: &str, p: &str) -> (r: bool)
    ensures
        r == has_substring(s@, p@),
{
    s.contains(p)
}

/// The text with leading and trailing whitespace removed.
pub uninterp spec fn trimmed(s: Seq<char>) -> Seq<char>;

/// The text in lower case.
pub uninterp spec fn lowercased(s: Seq<char>) -> Seq<char>;

/// Relies on `str::trim`: the text without leading and trailing whitespace,
/// which depends on the characters alone.
#[verifier::external_body]
pub(crate) fn trim_text(s: &str) -> (r: String)
    ensures
        r@ == trimmed(s@),
{
    s.trim().to_string()
}

/// Relies on `str::to_lowercase`: the lower-case text, which depends on the
/// characters alone.
#[verifier::external_body]
fn lowercase_text(s: &str) -> (r: String)
    ensures
        r@ == lowercased(s@),
{
    s.to_lowercase()
}

/// Why an update step did not succeed.
#[derive(Debug, PartialEq, Eq)]
pub enum UpdateError {
    /// The command could not be run at all.
    Run(RunError),
    /// The container-app update exited unsuccessfully.
    FlatpakFailed,
    /// The system package tool is not installed.
    DnfNotFound,
    /// The immediate system upgrade exited unsuccessfully.
    DnfUpgradeFailed,
    /// Preparing the offline system upgrade exited unsuccessfully.
    DnfOfflineFailed,
    /// The user's choice of upgrade mode could not be read.
    Prompt,
}

impl UpdateError {
    /// A one-line description for the user.
    pub fn message(&self) -> (r: &'static str)
        ensures
            *self == UpdateError::FlatpakFailed ==> r@ == "Flatpak update failed"@,
            *self == UpdateError::DnfNotFound ==> r@ == "DNF5 not found"@,
            *self == UpdateError::DnfUpgradeFailed ==> r@ == "DNF5 update failed"@,
            *self == UpdateError::DnfOfflineFailed ==> r@
                == "DNF5 offline update preparation failed"@,
            *self is Run ==> r@ == "command could not be run"@,
            *self == UpdateError::Prompt ==> r@ == "could not read the answer"@,
    {
        match self {
            UpdateError::Run(_) => "command could not be run",
            UpdateError::FlatpakFailed => "Flatpak update failed",
            UpdateError::DnfNotFound => "DNF5 not found",
            UpdateError::DnfUpgradeFailed => "DNF5 update failed",
            UpdateError::DnfOfflineFailed => "DNF5 offline update preparation failed",
            UpdateError::Prompt => "could not read the answer",
        }
    }
}

/// The output line by which the container-app updater says it had nothing
/// to update.
pub open spec fn nothing_to_do() -> Seq<char> {
    "Nothing to do"@
}

/// The outcome of a container-app update run: a failure when it did not
/// succeed, else whether anything was updated.
pub open spec fn flatpak_outcome_of(success: bool, output: Seq<char>) -> Result<bool, UpdateError> {
    if !success {
        Err(UpdateError::FlatpakFailed)
    } else {
        Ok(!has_substring(output, nothing_to_do()))
    }
}

pub fn flatpak_outcome(result: &CommandResult) -> (r: Result<bool, UpdateError>)
    ensures
        r == flatpak_outcome_of(result.success, result.output@),
{
    if !result.success {
        Err(UpdateError::FlatpakFailed)
    } else {
        Ok(!text_contains(result.output.as_str(), "Nothing to do"))
    }
}

/// Whether an update check reported updates waiting, by its exit code.
pub fn updates_available(result: &CommandResult) -> (r: bool)
    ensures
        r == (result.exit_code == Some(UPDATES_AVAILABLE_CODE)),
{
    match result.exit_code {
        Some(code) => code == UPDATES_AVAILABLE_CODE,
        None => false,
    }
}

/// How the system packages are upgraded.
#[derive(Clone, Copy, Debug, PartialEq, Eq, Structural)]
pub enum UpdateMode {
    /// Upgrade now.
    Immediate,
    /// Prepare the upgrade, to be applied on the next boot.
    Offline,
}

pub open spec fn mode_of(normalized: Seq<char>) -> UpdateMode {
    if normalized == "now"@ {
        UpdateMode::Immediate
    } else {
        UpdateMode::Offline
    }
}

/// The mode chosen by an answer already trimmed and lower-cased: "now"
/// means an immediate upgrade, anything else an offline one.
pub fn mode_for_answer(normalized: &str) -> (r: UpdateMode)
    ensures
        r == mode_of(normalized@),
{
    if String::from_str(normalized) == String::from_str("now") {
        UpdateMode::Immediate
    } else {
        UpdateMode::Offline
    }
}

/// The upgrade mode: immediate unless interactive, else as the user's
/// answer says, read without surrounding whitespace and regardless of case.
pub fn choose_mode(interactive: bool, answer: &str) -> (r: UpdateMode)
    ensures
        r == if interactive {
            mode_of(lowercased(trimmed(answer@)))
        } else {
            UpdateMode::Immediate
        },
{
    if interactive {
        let t = trim_text(answer);
        let l = lowercase_text(t.as_str());
        mode_for_answer(l.as_str())
    } else {
        UpdateMode::Immediate
    }
}

/// The arguments of the system package tool's upgrade in `mode`.
pub fn upgrade_args(mode: UpdateMode) -> (r: Vec<String>)
    ensures
        mode == UpdateMode::Immediate ==> views(r@) == seq!["upgrade"@, "-y"@],
        mode == UpdateMode::Offline ==> views(r@) == seq!["upgrade"@, "--offline"@, "-y"@],
{
    let mut r: Vec<String> = Vec::new();
    r.push(String::from_str("upgrade"));
    if mode == UpdateMode::Offline {
        r.push(String::from_str("--offline"));
    }
    r.push(String::from_str("-y"));
    proof {
        if mode == UpdateMode::Immediate {
            assert(views(r@) =~= seq!["upgrade"@, "-y"@]);
        } else {
            assert(views(r@) =~= seq!["upgrade"@, "--offline"@, "-y"@]);
        }
    }
    r
}

/// The outcome of an upgrade run in `mode`.
pub open spec fn upgrade_outcome_of(mode: UpdateMode, success: bool) -> Result<(), UpdateError> {
    if success {
        Ok(())
    } else if mode == UpdateMode::Immediate {
        Err(UpdateError::DnfUpgradeFailed)
    } else {
        Err(UpdateError::DnfOfflineFailed)
    }
}

pub fn upgrade_outcome(mode: UpdateMode, result: &CommandResult) -> (r: Result<(), UpdateError>)
    ensures
        r == upgrade_outcome_of(mode, result.success),
{
    if result.success {
        Ok(())
    } else {
        match mode {
            UpdateMode::Immediate => Err(UpdateError::DnfUpgradeFailed),
            UpdateMode::Offline => Err(UpdateError::DnfOfflineFailed),
        }
    }
}

/// How a whole run ended.
#[derive(Clone, Copy, Debug, PartialEq, Eq, Structural)]
pub enum Summary {
    /// Both steps succeeded and at least one installed updates.
    Updated,
    /// Both steps succeeded with nothing to install.
    UpToDate,
    /// The container-app step failed, the system step succeeded.
    FlatpakFailed,
    /// The system step failed, the container-app step succeeded.
    DnfFailed,
    /// Both steps failed.
    AllFailed,
}

pub open spec fn summary_of(flatpak: Result<bool, UpdateError>, dnf: Result<bool, UpdateError>) -> Summary {
    match (flatpak, dnf) {
        (Ok(a), Ok(b)) => if a || b {
            Summary::Updated
        } else {
            Summary::UpToDate
        },
        (Err(_), Ok(_)) => Summary::FlatpakFailed,
        (Ok(_), Err(_)) => Summary::DnfFailed,
        (Err(_), Err(_)) => Summary::AllFailed,
    }
}

/// Combines the outcomes of the two update steps.
pub fn summarize(flatpak: &Result<bool, UpdateError>, dnf: &Result<bool, UpdateError>) -> (r: Summary)
    ensures
        r == summary_of(*flatpak, *dnf),
{
    match (flatpak, dnf) {
        (Ok(a), Ok(b)) => if *a || *b {
            Summary::Updated
        } else {
            Summary::UpToDate
        },
        (Err(_), Ok(_)) => Summary::FlatpakFailed,
        (Ok(_), Err(_)) => Summary::DnfFailed,
        (Err(_), Err(_)) => Summary::AllFailed,
    }
}

} // verus!
