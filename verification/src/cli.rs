use vstd::prelude::*;
use crate::shell_type::ShellType;

verus! {

/// The settings the user gives on the command line.
pub struct Cli {
    /// Print what will be done, but don't actually execute any commands.
    pub dry_run: bool,
    /// Create aliases in this shell's format instead of the detected one.
    pub override_shell_type: Option<ShellType>,
    /// Install the programs under this user instead of the detected one.
    pub override_user: Option<String>,
    /// Skip the automatic check for a linker.
    pub skip_linker_check: bool,
    /// Go on with the other recipes when a step of one fails.
    pub continue_after_failure: bool,
}

/// Whether the wizard may start.
#[derive(Clone, Copy, Debug, PartialEq, Eq, Structural)]
pub enum StartupVerdict {
    /// It runs as a plain user; it must run through sudo.
    NeedsSudo,
    /// No linker was found and the check was not skipped.
    NeedsLinker,
    /// All is well.
    Proceed,
}

/// The wizard must run through sudo, and needs a linker unless the check
/// for one is skipped.
pub open spec fn startup_verdict_spec(skip_linker_check: bool, running_as_plain_user: bool, linker_found: bool) -> StartupVerdict {
    if running_as_plain_user {
        StartupVerdict::NeedsSudo
    } else if !skip_linker_check && !linker_found {
        StartupVerdict::NeedsLinker
    } else {
        StartupVerdict::Proceed
    }
}

/// Why the user to install for is not known.
#[derive(Clone, Copy, Debug, PartialEq, Eq, Structural)]
pub enum UserError {
    /// `$SUDO_USER` is not set.
    SudoUserUnset,
    /// `$SUDO_USER` is not valid text.
    SudoUserNotText,
}

/// The user the programs are installed for: the one given on the command
/// line, else the one `$SUDO_USER` names.
pub open spec fn real_user_spec(override_user: Option<Seq<char>>, sudo_user: Option<Result<Seq<char>, ()>>) -> Result<Seq<char>, UserError> {
    match override_user {
        Some(user) => Ok(user),
        None => match sudo_user {
            None => Err(UserError::SudoUserUnset),
            Some(Err(())) => Err(UserError::SudoUserNotText),
            Some(Ok(user)) => Ok(user),
        },
    }
}

impl StartupVerdict {
    /// What to tell the user.
    pub fn message(&self) -> (text: &'static str)
        ensures
            text@ == (match *self {
                StartupVerdict::NeedsSudo => "Please run devpack-for-rust through sudo."@,
                StartupVerdict::NeedsLinker => "You do not appear to have a linker installed!\nPlease install a linker before continuing.\n(You can skip this check with `--skip-cc-check`)"@,
                StartupVerdict::Proceed => "Welcome to devpack-for-rust! Run with --help for more information."@,
            }),
    {
        match self {
            StartupVerdict::NeedsSudo => "Please run devpack-for-rust through sudo.",
            StartupVerdict::NeedsLinker => "You do not appear to have a linker installed!\nPlease install a linker before continuing.\n(You can skip this check with `--skip-cc-check`)",
            StartupVerdict::Proceed => "Welcome to devpack-for-rust! Run with --help for more information.",
        }
    }
}

impl UserError {
    /// A sentence describing the error.
    pub fn message(&self) -> (text: &'static str)
        ensures
            text@ == (match *self {
                UserError::SudoUserUnset => "$SUDO_USER was not set (are you running this via sudo?)"@,
                UserError::SudoUserNotText => "could not convert $SUDO_USER to a string"@,
            }),
    {
        match self {
            UserError::SudoUserUnset => "$SUDO_USER was not set (are you running this via sudo?)",
            UserError::SudoUserNotText => "could not convert $SUDO_USER to a string",
        }
    }
}

/// The characters of an optional string that may not be text.
pub open spec fn optional_text_result(s: Option<Result<String, ()>>) -> Option<Result<Seq<char>, ()>> {
    match s {
        Some(Ok(t)) => Some(Ok(t@)),
        Some(Err(())) => Some(Err(())),
        None => None,
    }
}

impl Cli {
    /// Whether the wizard may start, given whether it runs as a plain user
    /// (not through sudo) and whether a linker (`cc`) was found.
    pub fn startup_verdict(&self, running_as_plain_user: bool, linker_found: bool) -> (verdict: StartupVerdict)
        ensures
            verdict == startup_verdict_spec(self.skip_linker_check, running_as_plain_user, linker_found),
    {
        if running_as_plain_user {
            StartupVerdict::NeedsSudo
        } else if !self.skip_linker_check && !linker_found {
            StartupVerdict::NeedsLinker
        } else {
            StartupVerdict::Proceed
        }
    }

    /// The user the programs are installed for, given the value of
    /// `$SUDO_USER` (`Err` when it is not valid text).
    pub fn real_user(&self, sudo_user: Option<Result<String, ()>>) -> (user: Result<String, UserError>)
        ensures
            match user {
                Ok(u) => real_user_spec(
                    crate::shell_type::optional_text(self.override_user),
                    optional_text_result(sudo_user),
                ) == Ok::<Seq<char>, UserError>(u@),
                Err(e) => real_user_spec(
                    crate::shell_type::optional_text(self.override_user),
                    optional_text_result(sudo_user),
                ) == Err::<Seq<char>, UserError>(e),
            },
    {
        match &self.override_user {
            Some(user) => Ok(user.clone()),
            None => match sudo_user {
                None => Err(UserError::SudoUserUnset),
                Some(Err(())) => Err(UserError::SudoUserNotText),
                Some(Ok(user)) => Ok(user),
            },
        }
    }
}

// ---------------------------------------------------------------------------
// Laws

/// The wizard must run through sudo whatever the other settings: running as
/// a plain user always refuses to start, and that is the only reason to ask
/// for sudo. Skipping the linker check, or finding a linker, lets a wizard
/// running through sudo start; otherwise it asks for a linker.
pub proof fn lemma_startup_needs_sudo_first(skip_linker_check: bool, running_as_plain_user: bool, linker_found: bool)
    ensures
        running_as_plain_user ==> startup_verdict_spec(skip_linker_check, running_as_plain_user, linker_found)
            == StartupVerdict::NeedsSudo,
        startup_verdict_spec(skip_linker_check, running_as_plain_user, linker_found)
            == StartupVerdict::NeedsSudo ==> running_as_plain_user,
        !running_as_plain_user && (skip_linker_check || linker_found) ==> startup_verdict_spec(
            skip_linker_check,
            running_as_plain_user,
            linker_found,
        ) == StartupVerdict::Proceed,
        !running_as_plain_user && !skip_linker_check && !linker_found ==> startup_verdict_spec(
            skip_linker_check,
            running_as_plain_user,
            linker_found,
        ) == StartupVerdict::NeedsLinker,
{
}

/// A user given on the command line is the one installed for, whatever
/// `$SUDO_USER` holds; without one, `$SUDO_USER` decides, and its absence or
/// invalid text are the only failures.
pub proof fn lemma_real_user_prefers_override(
    override_user: Option<Seq<char>>,
    sudo_user: Option<Result<Seq<char>, ()>>,
)
    ensures
        override_user matches Some(u) ==> real_user_spec(override_user, sudo_user) == Ok::<
            Seq<char>,
            UserError,
        >(u),
        override_user is None ==> real_user_spec(override_user, sudo_user) == match sudo_user {
            Some(Ok(u)) => Ok(u),
            Some(Err(())) => Err(UserError::SudoUserNotText),
            None => Err(UserError::SudoUserUnset),
        },
{
}

} // verus!
