use vstd::prelude::*;
use crate::cli::Cli;
use crate::recipe::{InstallStep, StepModel};
use crate::shell_type::{ShellType, alias_text, comment_sigil_of, config_location_of, optional_text};

verus! {

/// A command to run, with the user it runs as (`None`: as the current,
/// privileged user).
pub struct CommandSpec {
    pub program: String,
    pub args: Vec<String>,
    pub run_as: Option<String>,
}

/// How a command that was asked for went.
pub enum CommandReport {
    /// It ran and exited; `status` describes the exit status.
    Exited { success: bool, status: String },
    /// It could not be run; the text says why.
    NotStarted(String),
}

/// What the caller reports after carrying out a [`StepAction`].
pub enum StepEvent {
    /// The command of a `Run` action went as described.
    Ran(CommandReport),
    /// The command of a `Show` action was shown (and not run).
    Shown,
    /// The home directory of the user of a `FindHome` action, if they have one.
    Home(Option<String>),
    /// The alias file of an `OpenAliasFile` action is open and has its header.
    AliasFileOpened,
    /// The line of a `WriteAliasLine` action is written.
    AliasLineWritten,
    /// Carrying out the action failed; the text says why.
    Failed(String),
}

/// Why an install step failed.
pub enum StepError {
    /// `rustup default` ran and failed with this status.
    RustupStatus(String),
    /// `rustup` would not run even after its snap was installed.
    RustupMissing,
    /// `cargo install` failed with this status.
    CargoStatus(String),
    /// `snap install` failed with this status.
    SnapStatus(String),
    /// An alias was asked for but the shell is not known.
    ShellUnknown { name: String, command: String },
    /// The user has no home directory to write aliases in.
    NoHomeDirectory,
    /// An `Apt` step, for this package, was asked for: no installer handles
    /// packages of the distribution's archive, so every such step ends with
    /// this error (and, unless the user asked to continue after failures,
    /// stops the install).
    NoAptInstaller(String),
    /// Carrying out an action failed.
    Outside(String),
    /// An event came that the step was not waiting for.
    UnexpectedEvent,
}

/// What the caller does next for the current install step.
pub enum StepAction {
    /// Run this command and report `Ran`.
    Run(CommandSpec),
    /// Dry run: show this command without running it, and report `Shown`.
    Show(CommandSpec),
    /// Look up the home directory of this user and report `Home`.
    FindHome(String),
    /// Open (creating it if need be, for appending) the file at `location`
    /// under `home`, write the line `header`, and report `AliasFileOpened`.
    OpenAliasFile { home: String, location: String, header: String },
    /// Write this line to the open alias file and report `AliasLineWritten`.
    WriteAliasLine(String),
    /// The step is over, with this outcome.
    Finished(Result<(), StepError>),
}

/// Where the current install step stands: which answer it waits for.
pub enum StepPhase {
    /// No step is under way.
    Idle,
    /// Waiting for `rustup default` of this channel.
    RustupDefault(String),
    /// Waiting for the snap of rustup to install, before trying this channel again.
    RustupSnapInstall(String),
    /// Waiting for `rustup default` once more.
    RustupRetry,
    /// Waiting for `cargo install`.
    CargoInstall,
    /// Waiting for `snap install`.
    SnapInstall,
    /// Waiting for the home directory, to alias `name` to `command`.
    AliasHome { name: String, command: String, shell: ShellType },
    /// Waiting for the alias file to open, to write `line` in it.
    AliasOpen(String),
    /// Waiting for the alias line to be written.
    AliasWrite,
}

/// Carries out install steps through the caller, who runs commands and
/// touches files as the actions it hands out say.
pub struct InstallWizard {
    pub dry_run: bool,
    pub continue_after_failure: bool,
    pub shell_type: Result<ShellType, ()>,
    pub real_user: String,
    /// Whether the alias file has been opened and given its header.
    alias_file_open: bool,
    phase: StepPhase,
}

// ---------------------------------------------------------------------------
// Models

/// A command as plain values.
pub struct CommandModel {
    pub program: Seq<char>,
    pub args: Seq<Seq<char>>,
    pub run_as: Option<Seq<char>>,
}

/// A command report as plain values.
pub enum ReportModel {
    Exited { success: bool, status: Seq<char> },
    NotStarted(Seq<char>),
}

/// A step event as plain values.
pub enum EventModel {
    Ran(ReportModel),
    Shown,
    Home(Option<Seq<char>>),
    AliasFileOpened,
    AliasLineWritten,
    Failed(Seq<char>),
}

/// A step error as plain values.
pub enum ErrorModel {
    RustupStatus(Seq<char>),
    RustupMissing,
    CargoStatus(Seq<char>),
    SnapStatus(Seq<char>),
    ShellUnknown { name: Seq<char>, command: Seq<char> },
    NoHomeDirectory,
    NoAptInstaller(Seq<char>),
    Outside(Seq<char>),
    UnexpectedEvent,
}

/// A step action as plain values.
pub enum ActionModel {
    Run(CommandModel),
    Show(CommandModel),
    FindHome(Seq<char>),
    OpenAliasFile { home: Seq<char>, location: Seq<char>, header: Seq<char> },
    WriteAliasLine(Seq<char>),
    Finished(Result<(), ErrorModel>),
}

/// A step phase as plain values.
pub enum PhaseModel {
    Idle,
    RustupDefault(Seq<char>),
    RustupSnapInstall(Seq<char>),
    RustupRetry,
    CargoInstall,
    SnapInstall,
    AliasHome { name: Seq<char>, command: Seq<char>, shell: ShellType },
    AliasOpen(Seq<char>),
    AliasWrite,
}

/// The state of a wizard as plain values.
pub struct WizardModel {
    pub dry_run: bool,
    pub continue_after_failure: bool,
    pub shell_type: Result<ShellType, ()>,
    pub real_user: Seq<char>,
    pub alias_file_open: bool,
    pub phase: PhaseModel,
}

impl View for CommandSpec {
    type V = CommandModel;

    open spec fn view(&self) -> CommandModel {
        CommandModel {
            program: self.program@,
            args: self.args.deep_view(),
            run_as: optional_text(self.run_as),
        }
    }
}

impl View for CommandReport {
    type V = ReportModel;

    open spec fn view(&self) -> ReportModel {
        match self {
            CommandReport::Exited { success, status } => ReportModel::Exited {
                success: *success,
                status: status@,
            },
            CommandReport::NotStarted(why) => ReportModel::NotStarted(why@),
        }
    }
}

impl View for StepEvent {
    type V = EventModel;

    open spec fn view(&self) -> EventModel {
        match self {
            StepEvent::Ran(report) => EventModel::Ran(report@),
            StepEvent::Shown => EventModel::Shown,
            StepEvent::Home(home) => EventModel::Home(optional_text(*home)),
            StepEvent::AliasFileOpened => EventModel::AliasFileOpened,
            StepEvent::AliasLineWritten => EventModel::AliasLineWritten,
            StepEvent::Failed(why) => EventModel::Failed(why@),
        }
    }
}

impl View for StepError {
    type V = ErrorModel;

    open spec fn view(&self) -> ErrorModel {
        match self {
            StepError::RustupStatus(s) => ErrorModel::RustupStatus(s@),
            StepError::RustupMissing => ErrorModel::RustupMissing,
            StepError::CargoStatus(s) => ErrorModel::CargoStatus(s@),
            StepError::SnapStatus(s) => ErrorModel::SnapStatus(s@),
            StepError::ShellUnknown { name, command } => ErrorModel::ShellUnknown {
                name: name@,
                command: command@,
            },
            StepError::NoHomeDirectory => ErrorModel::NoHomeDirectory,
            StepError::NoAptInstaller(p) => ErrorModel::NoAptInstaller(p@),
            StepError::Outside(why) => ErrorModel::Outside(why@),
            StepError::UnexpectedEvent => ErrorModel::UnexpectedEvent,
        }
    }
}

impl View for StepAction {
    type V = ActionModel;

    open spec fn view(&self) -> ActionModel {
        match self {
            StepAction::Run(c) => ActionModel::Run(c@),
            StepAction::Show(c) => ActionModel::Show(c@),
            StepAction::FindHome(user) => ActionModel::FindHome(user@),
            StepAction::OpenAliasFile { home, location, header } => ActionModel::OpenAliasFile {
                home: home@,
                location: location@,
                header: header@,
            },
            StepAction::WriteAliasLine(line) => ActionModel::WriteAliasLine(line@),
            StepAction::Finished(Ok(())) => ActionModel::Finished(Ok(())),
            StepAction::Finished(Err(e)) => ActionModel::Finished(Err(e@)),
        }
    }
}

impl View for StepPhase {
    type V = PhaseModel;

    open spec fn view(&self) -> PhaseModel {
        match self {
            StepPhase::Idle => PhaseModel::Idle,
            StepPhase::RustupDefault(c) => PhaseModel::RustupDefault(c@),
            StepPhase::RustupSnapInstall(c) => PhaseModel::RustupSnapInstall(c@),
            StepPhase::RustupRetry => PhaseModel::RustupRetry,
            StepPhase::CargoInstall => PhaseModel::CargoInstall,
            StepPhase::SnapInstall => PhaseModel::SnapInstall,
            StepPhase::AliasHome { name, command, shell } => PhaseModel::AliasHome {
                name: name@,
                command: command@,
                shell: *shell,
            },
            StepPhase::AliasOpen(line) => PhaseModel::AliasOpen(line@),
            StepPhase::AliasWrite => PhaseModel::AliasWrite,
        }
    }
}

impl View for InstallWizard {
    type V = WizardModel;

    closed spec fn view(&self) -> WizardModel {
        WizardModel {
            dry_run: self.dry_run,
            continue_after_failure: self.continue_after_failure,
            shell_type: self.shell_type,
            real_user: self.real_user@,
            alias_file_open: self.alias_file_open,
            phase: self.phase@,
        }
    }
}


// ---------------------------------------------------------------------------
// The protocol of an install step

/// `rustup default <channel>`, run as the real user.
pub open spec fn rustup_default_command(channel: Seq<char>, user: Seq<char>) -> CommandModel {
    CommandModel { program: "rustup"@, args: seq!["default"@, channel], run_as: Some(user) }
}

/// `cargo install --locked <package>`, run as the real user.
pub open spec fn cargo_install_command(package: Seq<char>, user: Seq<char>) -> CommandModel {
    CommandModel {
        program: "cargo"@,
        args: seq!["install"@, "--locked"@, package],
        run_as: Some(user),
    }
}

/// `snap install <package>`, with `--classic` for classic confinement, run
/// with the wizard's own privileges.
pub open spec fn snap_install_command(package: Seq<char>, classic_confinement: bool) -> CommandModel {
    CommandModel {
        program: "snap"@,
        args: if classic_confinement {
            seq!["install"@, package, "--classic"@]
        } else {
            seq!["install"@, package]
        },
        run_as: None,
    }
}

/// The line written once above the aliases in a shell's alias file.
pub open spec fn alias_file_header(shell: ShellType) -> Seq<char> {
    "\n\n"@ + comment_sigil_of(shell) + "devpack-for-rust aliases"@
}

/// A command is run, or, in a dry run, only shown.
pub open spec fn command_action(w: WizardModel, command: CommandModel) -> ActionModel {
    if w.dry_run {
        ActionModel::Show(command)
    } else {
        ActionModel::Run(command)
    }
}

/// The wizard in another phase.
pub open spec fn in_phase(w: WizardModel, phase: PhaseModel) -> WizardModel {
    WizardModel { phase, ..w }
}

/// The step ends with this outcome and the wizard is idle again.
pub open spec fn finish(w: WizardModel, outcome: Result<(), ErrorModel>) -> (WizardModel, ActionModel) {
    (in_phase(w, PhaseModel::Idle), ActionModel::Finished(outcome))
}

/// How the first move of an install step goes.
pub open spec fn start_spec(w: WizardModel, step: StepModel) -> (WizardModel, ActionModel) {
    match step {
        StepModel::NoOp => finish(w, Ok(())),
        StepModel::RustChannel(channel) => (
            in_phase(w, PhaseModel::RustupDefault(channel)),
            command_action(w, rustup_default_command(channel, w.real_user)),
        ),
        StepModel::Apt(package) => finish(w, Err(ErrorModel::NoAptInstaller(package))),
        StepModel::CargoInstall(package) => (
            in_phase(w, PhaseModel::CargoInstall),
            command_action(w, cargo_install_command(package, w.real_user)),
        ),
        StepModel::Snap { package_name, classic_confinement } => (
            in_phase(w, PhaseModel::SnapInstall),
            command_action(w, snap_install_command(package_name, classic_confinement)),
        ),
        StepModel::MakeAlias { name, command } => match w.shell_type {
            Err(()) => finish(w, Err(ErrorModel::ShellUnknown { name, command })),
            Ok(shell) => (
                in_phase(w, PhaseModel::AliasHome { name, command, shell }),
                ActionModel::FindHome(w.real_user),
            ),
        },
    }
}

/// How a command went, as far as a step cares.
pub enum CommandOutcome {
    Succeeded,
    ExitedWith(Seq<char>),
    NotStarted(Seq<char>),
    NotACommandReport,
}

/// The outcome an event reports for a command; a command that was only
/// shown counts as one that succeeded.
pub open spec fn command_outcome(e: EventModel) -> CommandOutcome {
    match e {
        EventModel::Shown => CommandOutcome::Succeeded,
        EventModel::Ran(ReportModel::Exited { success, status }) => if success {
            CommandOutcome::Succeeded
        } else {
            CommandOutcome::ExitedWith(status)
        },
        EventModel::Ran(ReportModel::NotStarted(why)) => CommandOutcome::NotStarted(why),
        _ => CommandOutcome::NotACommandReport,
    }
}

/// How a step that waits for a command goes on: `on_success` once it
/// succeeded, or `on_exit(status)` as an error when it failed; a command
/// that could not start ends the step with that reason.
pub open spec fn after_command(
    w: WizardModel,
    e: EventModel,
    on_success: (WizardModel, ActionModel),
    on_exit: spec_fn(Seq<char>) -> ErrorModel,
) -> (WizardModel, ActionModel) {
    match command_outcome(e) {
        CommandOutcome::Succeeded => on_success,
        CommandOutcome::ExitedWith(status) => finish(w, Err(on_exit(status))),
        CommandOutcome::NotStarted(why) => finish(w, Err(ErrorModel::Outside(why))),
        CommandOutcome::NotACommandReport => finish(w, Err(ErrorModel::UnexpectedEvent)),
    }
}

/// How an install step goes on after an event.
pub open spec fn advance_spec(w: WizardModel, e: EventModel) -> (WizardModel, ActionModel) {
    if (w.phase !is Idle) && (e is Failed) {
        finish(w, Err(ErrorModel::Outside(e->Failed_0)))
    } else {
        match w.phase {
            PhaseModel::Idle => finish(w, Err(ErrorModel::UnexpectedEvent)),
            PhaseModel::RustupDefault(channel) => match command_outcome(e) {
                CommandOutcome::Succeeded => finish(w, Ok(())),
                CommandOutcome::ExitedWith(status) => finish(w, Err(ErrorModel::RustupStatus(status))),
                // rustup could not be run: install it with snap, unless this is a dry run
                CommandOutcome::NotStarted(_) => if w.dry_run {
                    finish(w, Ok(()))
                } else {
                    (
                        in_phase(w, PhaseModel::RustupSnapInstall(channel)),
                        ActionModel::Run(snap_install_command("rustup"@, true)),
                    )
                },
                CommandOutcome::NotACommandReport => finish(w, Err(ErrorModel::UnexpectedEvent)),
            },
            PhaseModel::RustupSnapInstall(channel) => after_command(
                w,
                e,
                (
                    in_phase(w, PhaseModel::RustupRetry),
                    command_action(w, rustup_default_command(channel, w.real_user)),
                ),
                |status: Seq<char>| ErrorModel::SnapStatus(status),
            ),
            PhaseModel::RustupRetry => after_command(
                w,
                e,
                finish(w, Ok(())),
                |status: Seq<char>| ErrorModel::RustupMissing,
            ),
            PhaseModel::CargoInstall => after_command(
                w,
                e,
                finish(w, Ok(())),
                |status: Seq<char>| ErrorModel::CargoStatus(status),
            ),
            PhaseModel::SnapInstall => after_command(
                w,
                e,
                finish(w, Ok(())),
                |status: Seq<char>| ErrorModel::SnapStatus(status),
            ),
            PhaseModel::AliasHome { name, command, shell } => match e {
                EventModel::Home(None) => finish(w, Err(ErrorModel::NoHomeDirectory)),
                EventModel::Home(Some(home)) => {
                    let line = alias_text(shell, name, command);
                    if w.dry_run {
                        finish(w, Ok(()))
                    } else if w.alias_file_open {
                        (in_phase(w, PhaseModel::AliasWrite), ActionModel::WriteAliasLine(line))
                    } else {
                        (
                            in_phase(w, PhaseModel::AliasOpen(line)),
                            ActionModel::OpenAliasFile {
                                home,
                                location: config_location_of(shell),
                                header: alias_file_header(shell),
                            },
                        )
                    }
                },
                _ => finish(w, Err(ErrorModel::UnexpectedEvent)),
            },
            PhaseModel::AliasOpen(line) => match e {
                EventModel::AliasFileOpened => (
                    WizardModel { alias_file_open: true, phase: PhaseModel::AliasWrite, ..w },
                    ActionModel::WriteAliasLine(line),
                ),
                _ => finish(w, Err(ErrorModel::UnexpectedEvent)),
            },
            PhaseModel::AliasWrite => match e {
                EventModel::AliasLineWritten => finish(w, Ok(())),
                _ => finish(w, Err(ErrorModel::UnexpectedEvent)),
            },
        }
    }
}


/// The sentence that describes a step error.
pub open spec fn error_message(e: ErrorModel) -> Seq<char> {
    match e {
        ErrorModel::RustupStatus(status) => "bad status code "@ + status + " when invoking rustup"@,
        ErrorModel::RustupMissing => "could not snap run rustup even after snap installing it"@,
        ErrorModel::CargoStatus(status) => "cargo install invocation failed with error code "@ + status,
        ErrorModel::SnapStatus(status) => "snap invocation failed with error code "@ + status,
        ErrorModel::ShellUnknown { name, command } => "couldn't make alias "@ + name + "="@ + command
            + " because the shell type was not known"@,
        ErrorModel::NoHomeDirectory => "the given user did not have a home directory?"@,
        ErrorModel::NoAptInstaller(package) => "no installer is known for the apt package "@ + package,
        ErrorModel::Outside(why) => why,
        ErrorModel::UnexpectedEvent => "the install step got an event it was not waiting for"@,
    }
}

impl StepError {
    /// A sentence describing the error.
    pub fn message(&self) -> (text: String)
        ensures
            text@ == error_message(self@),
    {
        match self {
            StepError::RustupStatus(status) => {
                let mut t = String::from_str("bad status code ");
                t.append(status.as_str());
                t.append(" when invoking rustup");
                t
            },
            StepError::RustupMissing => String::from_str(
                "could not snap run rustup even after snap installing it",
            ),
            StepError::CargoStatus(status) => {
                let mut t = String::from_str("cargo install invocation failed with error code ");
                t.append(status.as_str());
                t
            },
            StepError::SnapStatus(status) => {
                let mut t = String::from_str("snap invocation failed with error code ");
                t.append(status.as_str());
                t
            },
            StepError::ShellUnknown { name, command } => {
                let mut t = String::from_str("couldn't make alias ");
                t.append(name.as_str());
                t.append("=");
                t.append(command.as_str());
                t.append(" because the shell type was not known");
                t
            },
            StepError::NoHomeDirectory => String::from_str(
                "the given user did not have a home directory?",
            ),
            StepError::NoAptInstaller(package) => {
                let mut t = String::from_str("no installer is known for the apt package ");
                t.append(package.as_str());
                t
            },
            StepError::Outside(why) => why.clone(),
            StepError::UnexpectedEvent => String::from_str(
                "the install step got an event it was not waiting for",
            ),
        }
    }
}

// ---------------------------------------------------------------------------
// Carrying out the protocol

/// How a command went, as an executable value.
enum ReportedOutcome {
    Succeeded,
    ExitedWith(String),
    NotStarted(String),
    NotACommandReport,
}

impl View for ReportedOutcome {
    type V = CommandOutcome;

    closed spec fn view(&self) -> CommandOutcome {
        match self {
            ReportedOutcome::Succeeded => CommandOutcome::Succeeded,
            ReportedOutcome::ExitedWith(status) => CommandOutcome::ExitedWith(status@),
            ReportedOutcome::NotStarted(why) => CommandOutcome::NotStarted(why@),
            ReportedOutcome::NotACommandReport => CommandOutcome::NotACommandReport,
        }
    }
}

/// What an event reports of the command a step waits for.
fn reported_outcome(event: StepEvent) -> (outcome: ReportedOutcome)
    ensures
        outcome@ == command_outcome(event@),
{
    match event {
        StepEvent::Shown => ReportedOutcome::Succeeded,
        StepEvent::Ran(CommandReport::Exited { success, status }) => if success {
            ReportedOutcome::Succeeded
        } else {
            ReportedOutcome::ExitedWith(status)
        },
        StepEvent::Ran(CommandReport::NotStarted(why)) => ReportedOutcome::NotStarted(why),
        _ => ReportedOutcome::NotACommandReport,
    }
}

/// A `String` holding `s`.
fn text(s: &str) -> (t: String)
    ensures
        t@ == s@,
{
    String::from_str(s)
}

/// `rustup default <channel>` for `user`.
fn rustup_default(channel: &str, user: &str) -> (command: CommandSpec)
    ensures
        command@ == rustup_default_command(channel@, user@),
{
    let command = CommandSpec {
        program: text("rustup"),
        args: vec![text("default"), text(channel)],
        run_as: Some(text(user)),
    };
    assert(command@.args =~= seq!["default"@, channel@]);
    command
}

/// `cargo install --locked <package>` for `user`.
fn cargo_install(package: &str, user: &str) -> (command: CommandSpec)
    ensures
        command@ == cargo_install_command(package@, user@),
{
    let command = CommandSpec {
        program: text("cargo"),
        args: vec![text("install"), text("--locked"), text(package)],
        run_as: Some(text(user)),
    };
    assert(command@.args =~= seq!["install"@, "--locked"@, package@]);
    command
}

/// `snap install <package>`, classic if asked.
fn snap_install(package: &str, classic_confinement: bool) -> (command: CommandSpec)
    ensures
        command@ == snap_install_command(package@, classic_confinement),
{
    let mut args = vec![text("install"), text(package)];
    if classic_confinement {
        args.push(text("--classic"));
    }
    let command = CommandSpec { program: text("snap"), args, run_as: None };
    assert(command@.args =~= snap_install_command(package@, classic_confinement).args);
    command
}

impl InstallWizard {
    /// Initialize the driver from the CLI args.
    pub fn new(settings: Cli, shell_type: Result<ShellType, ()>, real_user: String) -> (wizard: InstallWizard)
        ensures
            wizard@ == (WizardModel {
                dry_run: settings.dry_run,
                continue_after_failure: settings.continue_after_failure,
                shell_type,
                real_user: real_user@,
                alias_file_open: false,
                phase: PhaseModel::Idle,
            }),
            wizard_consistent(wizard@),
    {
        InstallWizard {
            dry_run: settings.dry_run,
            continue_after_failure: settings.continue_after_failure,
            shell_type,
            real_user,
            alias_file_open: false,
            phase: StepPhase::Idle,
        }
    }

    /// Run the command, or only show it in a dry run.
    fn command_step(&self, command: CommandSpec) -> (action: StepAction)
        ensures
            action@ == command_action(self@, command@),
    {
        if self.dry_run {
            StepAction::Show(command)
        } else {
            StepAction::Run(command)
        }
    }

    /// The first move of carrying out `step`.
    pub fn start_step(&mut self, step: &InstallStep) -> (action: StepAction)
        ensures
            (final(self)@, action@) == start_spec(old(self)@, step@),
    {
        match step {
            InstallStep::NoOp => {
                // that was easy
                self.phase = StepPhase::Idle;
                StepAction::Finished(Ok(()))
            },
            InstallStep::RustChannel(channel) => {
                let command = rustup_default(channel.as_str(), self.real_user.as_str());
                let action = self.command_step(command);
                self.phase = StepPhase::RustupDefault(channel.clone());
                action
            },
            InstallStep::Apt(package) => {
                self.phase = StepPhase::Idle;
                StepAction::Finished(Err(StepError::NoAptInstaller(package.clone())))
            },
            InstallStep::CargoInstall(package) => {
                // --locked makes sure it uses *exactly* the versions listed
                // in the crate's Cargo.lock, ie exactly what the dev tested with
                let command = cargo_install(package.as_str(), self.real_user.as_str());
                let action = self.command_step(command);
                self.phase = StepPhase::CargoInstall;
                action
            },
            InstallStep::Snap { package_name, classic_confinement } => {
                let command = snap_install(package_name.as_str(), *classic_confinement);
                let action = self.command_step(command);
                self.phase = StepPhase::SnapInstall;
                action
            },
            InstallStep::MakeAlias { name, command } => match self.shell_type {
                Err(()) => {
                    self.phase = StepPhase::Idle;
                    StepAction::Finished(
                        Err(StepError::ShellUnknown { name: name.clone(), command: command.clone() }),
                    )
                },
                Ok(shell) => {
                    self.phase = StepPhase::AliasHome {
                        name: name.clone(),
                        command: command.clone(),
                        shell,
                    };
                    StepAction::FindHome(self.real_user.clone())
                },
            },
        }
    }

    /// The next move of the current step, after `event`.
    pub fn advance(&mut self, event: StepEvent) -> (action: StepAction)
        ensures
            (final(self)@, action@) == advance_spec(old(self)@, event@),
    {
        let mut phase = StepPhase::Idle;
        std::mem::swap(&mut phase, &mut self.phase);
        let waiting = match phase {
            StepPhase::Idle => false,
            _ => true,
        };
        if waiting {
            if let StepEvent::Failed(why) = event {
                return StepAction::Finished(Err(StepError::Outside(why)));
            }
        }
        match phase {
            StepPhase::Idle => StepAction::Finished(Err(StepError::UnexpectedEvent)),
            StepPhase::RustupDefault(channel) => match reported_outcome(event) {
                ReportedOutcome::Succeeded => StepAction::Finished(Ok(())),
                ReportedOutcome::ExitedWith(status) => StepAction::Finished(
                    Err(StepError::RustupStatus(status)),
                ),
                ReportedOutcome::NotStarted(_) => if self.dry_run {
                    // rustup is missing, but we are dry-running, so it's okay
                    StepAction::Finished(Ok(()))
                } else {
                    // rustup is missing: install it with snap, then try again
                    self.phase = StepPhase::RustupSnapInstall(channel);
                    StepAction::Run(snap_install("rustup", true))
                },
                ReportedOutcome::NotACommandReport => StepAction::Finished(
                    Err(StepError::UnexpectedEvent),
                ),
            },
            StepPhase::RustupSnapInstall(channel) => match reported_outcome(event) {
                ReportedOutcome::Succeeded => {
                    let command = rustup_default(channel.as_str(), self.real_user.as_str());
                    let action = self.command_step(command);
                    self.phase = StepPhase::RustupRetry;
                    action
                },
                ReportedOutcome::ExitedWith(status) => StepAction::Finished(
                    Err(StepError::SnapStatus(status)),
                ),
                ReportedOutcome::NotStarted(why) => StepAction::Finished(Err(StepError::Outside(why))),
                ReportedOutcome::NotACommandReport => StepAction::Finished(
                    Err(StepError::UnexpectedEvent),
                ),
            },
            StepPhase::RustupRetry => match reported_outcome(event) {
                ReportedOutcome::Succeeded => StepAction::Finished(Ok(())),
                ReportedOutcome::ExitedWith(_) => StepAction::Finished(Err(StepError::RustupMissing)),
                ReportedOutcome::NotStarted(why) => StepAction::Finished(Err(StepError::Outside(why))),
                ReportedOutcome::NotACommandReport => StepAction::Finished(
                    Err(StepError::UnexpectedEvent),
                ),
            },
            StepPhase::CargoInstall => match reported_outcome(event) {
                ReportedOutcome::Succeeded => StepAction::Finished(Ok(())),
                ReportedOutcome::ExitedWith(status) => StepAction::Finished(
                    Err(StepError::CargoStatus(status)),
                ),
                ReportedOutcome::NotStarted(why) => StepAction::Finished(Err(StepError::Outside(why))),
                ReportedOutcome::NotACommandReport => StepAction::Finished(
                    Err(StepError::UnexpectedEvent),
                ),
            },
            StepPhase::SnapInstall => match reported_outcome(event) {
                ReportedOutcome::Succeeded => StepAction::Finished(Ok(())),
                ReportedOutcome::ExitedWith(status) => StepAction::Finished(
                    Err(StepError::SnapStatus(status)),
                ),
                ReportedOutcome::NotStarted(why) => StepAction::Finished(Err(StepError::Outside(why))),
                ReportedOutcome::NotACommandReport => StepAction::Finished(
                    Err(StepError::UnexpectedEvent),
                ),
            },
            StepPhase::AliasHome { name, command, shell } => match event {
                StepEvent::Home(None) => StepAction::Finished(Err(StepError::NoHomeDirectory)),
                StepEvent::Home(Some(home)) => {
                    let line = shell.format_alias(name.as_str(), command.as_str());
                    if self.dry_run {
                        StepAction::Finished(Ok(()))
                    } else if self.alias_file_open {
                        self.phase = StepPhase::AliasWrite;
                        StepAction::WriteAliasLine(line)
                    } else {
                        let mut header = text("\n\n");
                        header.append(shell.comment_sigil());
                        header.append("devpack-for-rust aliases");
                        self.phase = StepPhase::AliasOpen(line);
                        StepAction::OpenAliasFile {
                            home,
                            location: text(shell.config_file_location()),
                            header,
                        }
                    }
                },
                _ => StepAction::Finished(Err(StepError::UnexpectedEvent)),
            },
            StepPhase::AliasOpen(line) => match event {
                StepEvent::AliasFileOpened => {
                    self.alias_file_open = true;
                    self.phase = StepPhase::AliasWrite;
                    StepAction::WriteAliasLine(line)
                },
                _ => StepAction::Finished(Err(StepError::UnexpectedEvent)),
            },
            StepPhase::AliasWrite => match event {
                StepEvent::AliasLineWritten => StepAction::Finished(Ok(())),
                _ => StepAction::Finished(Err(StepError::UnexpectedEvent)),
            },
        }
    }
}

// ---------------------------------------------------------------------------
// Laws of the protocol

/// How many more answers a step in this phase waits for, at most.
pub open spec fn phase_rank(phase: PhaseModel) -> nat {
    match phase {
        PhaseModel::Idle => 0,
        PhaseModel::RustupRetry | PhaseModel::CargoInstall | PhaseModel::SnapInstall
        | PhaseModel::AliasWrite => 1,
        PhaseModel::RustupSnapInstall(_) | PhaseModel::AliasOpen(_) => 2,
        PhaseModel::RustupDefault(_) | PhaseModel::AliasHome { .. } => 3,
    }
}

/// Whether carrying out an action changes the system: runs a command or
/// writes a file.
pub open spec fn touches_system(action: ActionModel) -> bool {
    action is Run || action is OpenAliasFile || action is WriteAliasLine
}

/// Whether two wizards have the same settings.
pub open spec fn same_settings(a: WizardModel, b: WizardModel) -> bool {
    &&& a.dry_run == b.dry_run
    &&& a.continue_after_failure == b.continue_after_failure
    &&& a.shell_type == b.shell_type
    &&& a.real_user == b.real_user
}

/// Every install step is over after at most four actions: its first action
/// leaves it at most three answers from the end, and each answer either
/// finishes it or brings it strictly closer; it is idle exactly when the
/// last action says it finished.
pub proof fn lemma_every_step_finishes(w: WizardModel, step: StepModel, e: EventModel)
    ensures
        ({
            let (w2, a) = start_spec(w, step);
            &&& phase_rank(w2.phase) <= 3
            &&& (a is Finished <==> w2.phase is Idle)
        }),
        ({
            let (w2, a) = advance_spec(w, e);
            &&& a is Finished <==> w2.phase is Idle
            &&& !(a is Finished) ==> phase_rank(w2.phase) < phase_rank(w.phase)
        }),
{
}

/// In a dry run nothing is run and no file is written: commands are only
/// shown.
pub proof fn lemma_dry_run_changes_nothing(w: WizardModel, step: StepModel, e: EventModel)
    requires
        wizard_consistent(w),
        w.dry_run,
    ensures
        !touches_system(start_spec(w, step).1),
        !touches_system(advance_spec(w, e).1),
{
}

/// What holds of every wizard: a dry run never gets to the phases that
/// follow a command that really ran or a file that was really opened.
pub open spec fn wizard_consistent(w: WizardModel) -> bool {
    w.dry_run ==> {
        &&& !w.alias_file_open
        &&& !(w.phase is RustupSnapInstall)
        &&& !(w.phase is RustupRetry)
        &&& !(w.phase is AliasOpen)
        &&& !(w.phase is AliasWrite)
    }
}

/// Every move keeps the wizard consistent.
pub proof fn lemma_consistency_is_kept(w: WizardModel, step: StepModel, e: EventModel)
    requires
        wizard_consistent(w),
    ensures
        wizard_consistent(start_spec(w, step).0),
        wizard_consistent(advance_spec(w, e).0),
{
}

/// Carrying out steps never changes the wizard's settings.
pub proof fn lemma_settings_are_kept(w: WizardModel, step: StepModel, e: EventModel)
    ensures
        same_settings(w, start_spec(w, step).0),
        same_settings(w, advance_spec(w, e).0),
{
}

/// The alias file is opened, and given its header, once: once open it stays
/// open and is not opened again, and it becomes open only when the caller
/// reports that it opened it.
pub proof fn lemma_alias_file_opened_once(w: WizardModel, step: StepModel, e: EventModel)
    ensures
        start_spec(w, step).0.alias_file_open == w.alias_file_open,
        !(start_spec(w, step).1 is OpenAliasFile),
        w.alias_file_open ==> advance_spec(w, e).0.alias_file_open,
        w.alias_file_open ==> !(advance_spec(w, e).1 is OpenAliasFile),
        advance_spec(w, e).0.alias_file_open != w.alias_file_open ==> (w.phase is AliasOpen
            && e is AliasFileOpened),
{
}

/// Whether a command runs with the right privileges: snap as the wizard's
/// own (privileged) user, every other program as the real user.
pub open spec fn runs_as_expected(w: WizardModel, c: CommandModel) -> bool {
    if c.program == "snap"@ {
        c.run_as is None
    } else {
        c.run_as == Some(w.real_user)
    }
}

/// Whether every command in an action runs with the right privileges.
pub open spec fn action_runs_as_expected(w: WizardModel, a: ActionModel) -> bool {
    match a {
        ActionModel::Run(c) => runs_as_expected(w, c),
        ActionModel::Show(c) => runs_as_expected(w, c),
        _ => true,
    }
}

/// Installers that act for the user (rustup, cargo) run as the real user;
/// snap runs with the wizard's own privileges.
pub proof fn lemma_commands_run_as_expected(w: WizardModel, step: StepModel, e: EventModel)
    ensures
        action_runs_as_expected(w, start_spec(w, step).1),
        action_runs_as_expected(w, advance_spec(w, e).1),
{
    reveal_strlit("snap");
    reveal_strlit("rustup");
    reveal_strlit("cargo");
    assert("rustup"@.len() != "snap"@.len());
    assert("cargo"@[0] != "snap"@[0]);
}

/// The answer a caller gives when an action goes well: the command ran and
/// succeeded (or was shown), the user's home is `home`, the alias file
/// opened, the line was written.
pub open spec fn answer_when_well(a: ActionModel, home: Seq<char>) -> EventModel {
    match a {
        ActionModel::Run(_) => EventModel::Ran(ReportModel::Exited { success: true, status: "exit status: 0"@ }),
        ActionModel::Show(_) => EventModel::Shown,
        ActionModel::FindHome(_) => EventModel::Home(Some(home)),
        ActionModel::OpenAliasFile { .. } => EventModel::AliasFileOpened,
        ActionModel::WriteAliasLine(_) => EventModel::AliasLineWritten,
        ActionModel::Finished(_) => EventModel::Shown,
    }
}

/// The lines that carrying out an action appends to the alias file.
pub open spec fn written_by(a: ActionModel) -> Seq<Seq<char>> {
    match a {
        ActionModel::OpenAliasFile { header, .. } => seq![header],
        ActionModel::WriteAliasLine(line) => seq![line],
        _ => seq![],
    }
}

/// Carries a step on from action `a`, answering every action as going well,
/// for at most `fuel` more actions: the wizard after, the last action, and
/// the lines appended to the alias file on the way.
pub open spec fn carry_on_well(w: WizardModel, a: ActionModel, home: Seq<char>, fuel: nat) -> (
    WizardModel,
    ActionModel,
    Seq<Seq<char>>,
)
    decreases fuel,
{
    if fuel == 0 || a is Finished {
        (w, a, seq![])
    } else {
        let (w2, a2) = advance_spec(w, answer_when_well(a, home));
        let (w3, a3, lines) = carry_on_well(w2, a2, home, (fuel - 1) as nat);
        (w3, a3, written_by(a) + lines)
    }
}

/// Carries out one alias step per `(name, command)` pair, in order, each
/// action going well: the wizard after, whether every step finished
/// successfully, and the lines appended to the alias file.
pub open spec fn make_aliases(w: WizardModel, aliases: Seq<(Seq<char>, Seq<char>)>, home: Seq<char>) -> (
    WizardModel,
    bool,
    Seq<Seq<char>>,
)
    decreases aliases.len(),
{
    if aliases.len() == 0 {
        (w, true, seq![])
    } else {
        let (w1, a1) = start_spec(
            w,
            StepModel::MakeAlias { name: aliases[0].0, command: aliases[0].1 },
        );
        let (w2, a2, lines) = carry_on_well(w1, a1, home, 4);
        let (w3, all_ok, more) = make_aliases(w2, aliases.drop_first(), home);
        (w3, a2 == ActionModel::Finished(Ok(())) && all_ok, lines + more)
    }
}

/// The alias lines, in the given shell, of the given pairs.
pub open spec fn alias_lines(shell: ShellType, aliases: Seq<(Seq<char>, Seq<char>)>) -> Seq<Seq<char>> {
    aliases.map_values(|p: (Seq<char>, Seq<char>)| alias_text(shell, p.0, p.1))
}

/// With the alias file already open, each alias step appends its line and
/// nothing else, and succeeds.
proof fn lemma_aliases_into_open_file(w: WizardModel, shell: ShellType, aliases: Seq<(Seq<char>, Seq<char>)>, home: Seq<char>)
    requires
        !w.dry_run,
        w.shell_type == Ok::<ShellType, ()>(shell),
        w.phase is Idle,
        w.alias_file_open,
    ensures
        ({
            let (w2, all_ok, lines) = make_aliases(w, aliases, home);
            &&& all_ok
            &&& lines == alias_lines(shell, aliases)
            &&& same_settings(w, w2)
            &&& w2.phase is Idle
            &&& w2.alias_file_open
        }),
    decreases aliases.len(),
{
    if aliases.len() > 0 {
        let (name, command) = aliases[0];
        let line = alias_text(shell, name, command);
        let (w1, a1) = start_spec(w, StepModel::MakeAlias { name, command });
        let (w2, a2) = advance_spec(w1, EventModel::Home(Some(home)));
        assert(a2 == ActionModel::WriteAliasLine(line));
        let (w3, a3) = advance_spec(w2, EventModel::AliasLineWritten);
        assert(carry_on_well(w3, a3, home, 2) == (w3, a3, Seq::<Seq<char>>::empty()));
        assert(carry_on_well(w2, a2, home, 3) == (w3, a3, seq![line]));
        assert(carry_on_well(w1, a1, home, 4) == (w3, a3, seq![line]));
        lemma_aliases_into_open_file(w3, shell, aliases.drop_first(), home);
        assert(alias_lines(shell, aliases) =~= seq![line] + alias_lines(shell, aliases.drop_first()));
    }
}

/// Over any number of alias steps from a fresh wizard (not a dry run, with
/// a known shell), each succeeds and the alias file receives its header once,
/// first, and then the line of each alias in order.
pub proof fn lemma_alias_file_gets_header_then_lines(
    w: WizardModel,
    shell: ShellType,
    aliases: Seq<(Seq<char>, Seq<char>)>,
    home: Seq<char>,
)
    requires
        !w.dry_run,
        w.shell_type == Ok::<ShellType, ()>(shell),
        w.phase is Idle,
        !w.alias_file_open,
        aliases.len() > 0,
    ensures
        ({
            let (w2, all_ok, lines) = make_aliases(w, aliases, home);
            &&& all_ok
            &&& lines == seq![alias_file_header(shell)] + alias_lines(shell, aliases)
        }),
{
    let (name, command) = aliases[0];
    let line = alias_text(shell, name, command);
    let header = alias_file_header(shell);
    let (w1, a1) = start_spec(w, StepModel::MakeAlias { name, command });
    let (w2, a2) = advance_spec(w1, EventModel::Home(Some(home)));
    assert(a2 == ActionModel::OpenAliasFile {
        home,
        location: config_location_of(shell),
        header,
    });
    let (w3, a3) = advance_spec(w2, EventModel::AliasFileOpened);
    assert(a3 == ActionModel::WriteAliasLine(line));
    let (w4, a4) = advance_spec(w3, EventModel::AliasLineWritten);
    assert(carry_on_well(w4, a4, home, 1) == (w4, a4, Seq::<Seq<char>>::empty()));
    assert(carry_on_well(w3, a3, home, 2) == (w4, a4, seq![line]));
    assert(carry_on_well(w2, a2, home, 3) == (w4, a4, seq![header] + seq![line]));
    assert(carry_on_well(w1, a1, home, 4) == (w4, a4, seq![header] + seq![line]));
    lemma_aliases_into_open_file(w4, shell, aliases.drop_first(), home);
    assert(alias_lines(shell, aliases) =~= seq![line] + alias_lines(shell, aliases.drop_first()));
    assert(seq![header] + alias_lines(shell, aliases) =~= (seq![header] + seq![line]) + alias_lines(
        shell,
        aliases.drop_first(),
    ));
}

// ---------------------------------------------------------------------------
// The install steps, step by step

/// An exit report.
pub open spec fn exit_report(success: bool, status: Seq<char>) -> EventModel {
    EventModel::Ran(ReportModel::Exited { success, status })
}

/// A report that a command could not start.
pub open spec fn not_started(why: Seq<char>) -> EventModel {
    EventModel::Ran(ReportModel::NotStarted(why))
}

/// How a command's success is reported does not matter: a shown command, and
/// a run command that exited successfully with any status, lead to the same
/// next move.
pub proof fn lemma_success_is_success(w: WizardModel, status: Seq<char>, other: Seq<char>)
    ensures
        advance_spec(w, exit_report(true, status)) == advance_spec(w, EventModel::Shown),
        advance_spec(w, exit_report(true, status)) == advance_spec(w, exit_report(true, other)),
{
}

/// Setting a rust channel: `rustup default <channel>` runs as the real user
/// and its success ends the step well, its failure with its status. When
/// rustup cannot be run, `snap install rustup --classic` runs (as root) and
/// then `rustup default <channel>` once more: that retry succeeding ends the
/// step well, and only its failing exit gives `RustupMissing`.
pub proof fn lemma_rust_channel_step(w: WizardModel, channel: Seq<char>, status: Seq<char>, why: Seq<char>)
    requires
        !w.dry_run,
    ensures
        ({
            let rustup = CommandModel {
                program: "rustup"@,
                args: seq!["default"@, channel],
                run_as: Some(w.real_user),
            };
            let snap = CommandModel {
                program: "snap"@,
                args: seq!["install"@, "rustup"@, "--classic"@],
                run_as: None,
            };
            let (w1, a1) = start_spec(w, StepModel::RustChannel(channel));
            let (w2, a2) = advance_spec(w1, not_started(why));
            let (w3, a3) = advance_spec(w2, exit_report(true, status));
            &&& a1 == ActionModel::Run(rustup)
            &&& advance_spec(w1, exit_report(true, status)).1 == ActionModel::Finished(Ok(()))
            &&& advance_spec(w1, exit_report(false, status)).1 == ActionModel::Finished(
                Err(ErrorModel::RustupStatus(status)),
            )
            &&& a2 == ActionModel::Run(snap)
            &&& advance_spec(w2, exit_report(false, status)).1 == ActionModel::Finished(
                Err(ErrorModel::SnapStatus(status)),
            )
            &&& advance_spec(w2, not_started(why)).1 == ActionModel::Finished(
                Err(ErrorModel::Outside(why)),
            )
            &&& a3 == ActionModel::Run(rustup)
            &&& advance_spec(w3, exit_report(true, status)).1 == ActionModel::Finished(Ok(()))
            &&& advance_spec(w3, exit_report(false, status)).1 == ActionModel::Finished(
                Err(ErrorModel::RustupMissing),
            )
            &&& advance_spec(w3, not_started(why)).1 == ActionModel::Finished(
                Err(ErrorModel::Outside(why)),
            )
        }),
{
}

/// In a dry run, setting a rust channel shows `rustup default <channel>`
/// and ends well, even if rustup could not be run.
pub proof fn lemma_rust_channel_dry_run(w: WizardModel, channel: Seq<char>, why: Seq<char>)
    requires
        w.dry_run,
    ensures
        ({
            let (w1, a1) = start_spec(w, StepModel::RustChannel(channel));
            &&& a1 == ActionModel::Show(
                CommandModel {
                    program: "rustup"@,
                    args: seq!["default"@, channel],
                    run_as: Some(w.real_user),
                },
            )
            &&& advance_spec(w1, EventModel::Shown).1 == ActionModel::Finished(Ok(()))
            &&& advance_spec(w1, not_started(why)).1 == ActionModel::Finished(Ok(()))
        }),
{
}

/// Installing a crate: `cargo install --locked <package>` runs (or, in a dry
/// run, is shown) as the real user; success ends the step well, a failing
/// exit with `CargoStatus`, a command that cannot start with its reason.
pub proof fn lemma_cargo_install_step(w: WizardModel, package: Seq<char>, status: Seq<char>, why: Seq<char>)
    ensures
        ({
            let cargo = CommandModel {
                program: "cargo"@,
                args: seq!["install"@, "--locked"@, package],
                run_as: Some(w.real_user),
            };
            let (w1, a1) = start_spec(w, StepModel::CargoInstall(package));
            &&& a1 == if w.dry_run { ActionModel::Show(cargo) } else { ActionModel::Run(cargo) }
            &&& advance_spec(w1, exit_report(true, status)).1 == ActionModel::Finished(Ok(()))
            &&& advance_spec(w1, EventModel::Shown).1 == ActionModel::Finished(Ok(()))
            &&& advance_spec(w1, exit_report(false, status)).1 == ActionModel::Finished(
                Err(ErrorModel::CargoStatus(status)),
            )
            &&& advance_spec(w1, not_started(why)).1 == ActionModel::Finished(
                Err(ErrorModel::Outside(why)),
            )
        }),
{
}

/// Installing a snap: `snap install <package>`, with `--classic` exactly for
/// classic confinement, runs (or, in a dry run, is shown) as root; success
/// ends the step well, a failing exit with `SnapStatus`.
pub proof fn lemma_snap_step(
    w: WizardModel,
    package: Seq<char>,
    classic: bool,
    status: Seq<char>,
    why: Seq<char>,
)
    ensures
        ({
            let snap = CommandModel {
                program: "snap"@,
                args: if classic {
                    seq!["install"@, package, "--classic"@]
                } else {
                    seq!["install"@, package]
                },
                run_as: None,
            };
            let (w1, a1) = start_spec(
                w,
                StepModel::Snap { package_name: package, classic_confinement: classic },
            );
            &&& a1 == if w.dry_run { ActionModel::Show(snap) } else { ActionModel::Run(snap) }
            &&& advance_spec(w1, exit_report(true, status)).1 == ActionModel::Finished(Ok(()))
            &&& advance_spec(w1, EventModel::Shown).1 == ActionModel::Finished(Ok(()))
            &&& advance_spec(w1, exit_report(false, status)).1 == ActionModel::Finished(
                Err(ErrorModel::SnapStatus(status)),
            )
            &&& advance_spec(w1, not_started(why)).1 == ActionModel::Finished(
                Err(ErrorModel::Outside(why)),
            )
        }),
{
}

/// Making an alias. With no known shell the step fails at once. Otherwise
/// the real user's home is looked up (none: `NoHomeDirectory`); in a dry run
/// the step then ends well; else, if the alias file is not open yet, the
/// wizard's own shell's alias file under that home is opened with the
/// header `"\n\n# devpack-for-rust aliases"`, and the alias line, in the
/// shell's syntax, is written; its being written ends the step well.
pub proof fn lemma_alias_step(
    w: WizardModel,
    name: Seq<char>,
    command: Seq<char>,
    home: Seq<char>,
    why: Seq<char>,
)
    ensures
        w.shell_type is Err ==> start_spec(w, StepModel::MakeAlias { name, command }).1
            == ActionModel::Finished(Err(ErrorModel::ShellUnknown { name, command })),
        w.shell_type matches Ok(shell) ==> ({
            let line = alias_text(shell, name, command);
            let (w1, a1) = start_spec(w, StepModel::MakeAlias { name, command });
            let (w2, a2) = advance_spec(w1, EventModel::Home(Some(home)));
            let (w3, a3) = advance_spec(w2, EventModel::AliasFileOpened);
            &&& a1 == ActionModel::FindHome(w.real_user)
            &&& advance_spec(w1, EventModel::Home(None)).1 == ActionModel::Finished(
                Err(ErrorModel::NoHomeDirectory),
            )
            &&& advance_spec(w1, EventModel::Failed(why)).1 == ActionModel::Finished(
                Err(ErrorModel::Outside(why)),
            )
            &&& w.dry_run ==> a2 == ActionModel::Finished(Ok(()))
            &&& (!w.dry_run && w.alias_file_open) ==> {
                &&& a2 == ActionModel::WriteAliasLine(line)
                &&& advance_spec(w2, EventModel::AliasLineWritten).1 == ActionModel::Finished(Ok(()))
            }
            &&& (!w.dry_run && !w.alias_file_open) ==> {
                &&& a2 == ActionModel::OpenAliasFile {
                    home,
                    location: config_location_of(shell),
                    header: "\n\n# devpack-for-rust aliases"@,
                }
                &&& a3 == ActionModel::WriteAliasLine(line)
                &&& w3.alias_file_open
                &&& advance_spec(w3, EventModel::AliasLineWritten).1 == ActionModel::Finished(Ok(()))
            }
        }),
{
    assert("\n\n"@ + "# "@ + "devpack-for-rust aliases"@ =~= "\n\n# devpack-for-rust aliases"@) by {
        reveal_strlit("\n\n");
        reveal_strlit("# ");
        reveal_strlit("devpack-for-rust aliases");
        reveal_strlit("\n\n# devpack-for-rust aliases");
    }
}

/// Steps with nothing to run: a no-op ends well at once, and a package of
/// the distribution's archive fails at once with `NoAptInstaller`; and any
/// failure reported while a step waits ends it with that reason.
pub proof fn lemma_immediate_steps(w: WizardModel, package: Seq<char>, why: Seq<char>)
    ensures
        start_spec(w, StepModel::NoOp).1 == ActionModel::Finished(Ok(())),
        start_spec(w, StepModel::Apt(package)).1 == ActionModel::Finished(
            Err(ErrorModel::NoAptInstaller(package)),
        ),
        !(w.phase is Idle) ==> advance_spec(w, EventModel::Failed(why)).1 == ActionModel::Finished(
            Err(ErrorModel::Outside(why)),
        ),
{
}

} // verus!
