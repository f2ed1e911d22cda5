use vstd::prelude::*;

verus! {

/// The family of shell the user runs, which decides where aliases are written
/// and in what syntax.
#[derive(Clone, Copy, Debug, PartialEq, Eq, Structural)]
pub enum ShellType {
    /// Write alias to `~/.bash_aliases`
    Bash,
    /// Write alias to `~/.profile`
    Posix,
    /// Write alias to `~/.config/fish/functions/devpack-for-rust.fish`
    Fish,
    /// Write alias to `~/.zshrc`
    Zsh,
}

/// Where, relative to the home directory, each shell's aliases live.
pub open spec fn config_location_of(shell: ShellType) -> Seq<char> {
    match shell {
        ShellType::Bash => ".bash_aliases"@,
        ShellType::Posix => ".profile"@,
        ShellType::Zsh => ".zshrc"@,
        ShellType::Fish => ".config/fish/functions/devpack-for-rust.fish"@,
    }
}

/// The line-comment marker of every supported shell.
pub open spec fn comment_sigil_of(shell: ShellType) -> Seq<char> {
    "# "@
}

/// The text that defines `name` as an alias of `command` in the given shell.
pub open spec fn alias_text(shell: ShellType, name: Seq<char>, command: Seq<char>) -> Seq<char> {
    match shell {
        ShellType::Fish => "function "@ + name + " --wraps "@ + command + " --description 'alias "@
            + name + "="@ + command + "'\n"@ + command + " $argv\nend"@,
        _ => "alias "@ + name + "=\""@ + command + "\""@,
    }
}

impl ShellType {
    /// Append this to the home directory.
    pub fn config_file_location(&self) -> (location: &'static str)
        ensures
            location@ == config_location_of(*self),
    {
        match self {
            ShellType::Bash => ".bash_aliases",
            ShellType::Posix => ".profile",
            ShellType::Zsh => ".zshrc",
            ShellType::Fish => ".config/fish/functions/devpack-for-rust.fish",
        }
    }

    /// Yes, this always returns `# ` right now.
    pub fn comment_sigil(&self) -> (sigil: &'static str)
        ensures
            sigil@ == comment_sigil_of(*self),
    {
        "# "
    }

    /// The alias definition of `name` for `command`, in this shell's syntax.
    pub fn format_alias(&self, name: &str, command: &str) -> (text: String)
        ensures
            text@ == alias_text(*self, name@, command@),
    {
        match self {
            ShellType::Fish => {
                let mut text = String::from_str("function ");
                text.append(name);
                text.append(" --wraps ");
                text.append(command);
                text.append(" --description 'alias ");
                text.append(name);
                text.append("=");
                text.append(command);
                text.append("'\n");
                text.append(command);
                text.append(" $argv\nend");
                text
            },
            _ => {
                let mut text = String::from_str("alias ");
                text.append(name);
                text.append("=\"");
                text.append(command);
                text.append("\"");
                text
            },
        }
    }
}


/// Why the shell of a process could not be told.
#[derive(Clone, Copy, Debug, PartialEq, Eq, Structural)]
pub enum GuessError {
    /// The process's command line was empty.
    NoArgumentZero,
    /// The process's executable was unlinked while it ran.
    ProcessTerminated,
    /// The first argument named no file.
    NoFileName,
    /// The search climbed to the root process without meeting a shell.
    ReachedRoot,
}

impl GuessError {
    /// A sentence describing the error.
    pub fn message(&self) -> (text: &'static str)
        ensures
            text@ == guess_error_message(*self),
    {
        match self {
            GuessError::NoArgumentZero => "process somehow did not have a 0th argument",
            GuessError::ProcessTerminated => "parent process was terminated",
            GuessError::NoFileName => "process somehow did not have a file name",
            GuessError::ReachedRoot => "reached the root process",
        }
    }
}

/// The sentence that describes each guessing error.
pub open spec fn guess_error_message(e: GuessError) -> Seq<char> {
    match e {
        GuessError::NoArgumentZero => "process somehow did not have a 0th argument"@,
        GuessError::ProcessTerminated => "parent process was terminated"@,
        GuessError::NoFileName => "process somehow did not have a file name"@,
        GuessError::ReachedRoot => "reached the root process"@,
    }
}

/// Whether `s` ends with `suffix`.
pub open spec fn ends_with(s: Seq<char>, suffix: Seq<char>) -> bool {
    suffix.len() <= s.len() && s.subrange(s.len() - suffix.len(), s.len() as int) == suffix
}

/// A login shell is started with a `-` before its name: `-bash` is `bash`.
pub open spec fn without_login_dash(name: Seq<char>) -> Seq<char> {
    if name.len() > 0 && name[0] == '-' {
        name.drop_first()
    } else {
        name
    }
}

/// The shell that an executable's file name stands for, if it is one we know.
pub open spec fn shell_named(name: Seq<char>) -> Option<ShellType> {
    if name == "bash"@ {
        Some(ShellType::Bash)
    } else if name == "dash"@ || name == "sh"@ || name == "ksh"@ || name == "csh"@ {
        Some(ShellType::Posix)
    } else if name == "fish"@ {
        Some(ShellType::Fish)
    } else if name == "zsh"@ {
        Some(ShellType::Zsh)
    } else {
        None
    }
}

/// The shell that a file name, as the first argument of a process gives it, stands for.
pub open spec fn shell_of_file_name_spec(name: Seq<char>) -> Option<ShellType> {
    shell_named(without_login_dash(name))
}

/// Where the last piece of a path begins: just after its last `/`, or at
/// its start when it has none.
pub open spec fn last_piece_start(path: Seq<char>) -> int
    decreases path.len(),
{
    if path.len() == 0 {
        0
    } else if path.last() == '/' {
        path.len() as int
    } else {
        last_piece_start(path.drop_last())
    }
}

/// The final component of a path, as `std::path::Path::file_name` gives it
/// on Unix: separators are split on, empty pieces (repeated or trailing
/// slashes) and `.` pieces are dropped, and the last piece left is the name,
/// unless there is none or it is `..`.
pub open spec fn path_file_name(path: Seq<char>) -> Option<Seq<char>>
    decreases path.len(),
{
    let start = last_piece_start(path);
    let piece = path.subrange(start, path.len() as int);
    if piece.len() == 0 || piece == "."@ {
        if start <= 0 || start > path.len() {
            None
        } else {
            path_file_name(path.subrange(0, start - 1))
        }
    } else if piece == ".."@ {
        None
    } else {
        Some(piece)
    }
}

/// What a process's command line tells of its shell: the shell its first
/// argument names, `None` when that is no shell we know, or why it cannot tell.
pub open spec fn shell_of_cmdline_spec(cmdline: Seq<Seq<char>>) -> Result<Option<ShellType>, GuessError> {
    if cmdline.len() == 0 {
        Err(GuessError::NoArgumentZero)
    } else if ends_with(cmdline[0], " (deleted)"@) {
        Err(GuessError::ProcessTerminated)
    } else {
        match path_file_name(cmdline[0]) {
            None => Err(GuessError::NoFileName),
            Some(name) => Ok(shell_of_file_name_spec(name)),
        }
    }
}

/// The characters of an optional string.
pub open spec fn optional_text(s: Option<String>) -> Option<Seq<char>> {
    match s {
        Some(t) => Some(t@),
        None => None,
    }
}

/// Calls `std::path::Path::file_name` on `path`. Trusted: the result is the
/// final component that `path_file_name` describes, after the documentation
/// of `Path::file_name` (the final component; `None` when the path ends in
/// `..`) and of `Path::components` (repeated separators and trailing slashes
/// are ignored, `.` pieces are normalized away). The final component of a
/// `&str` is valid UTF-8, so the conversion to `String` loses nothing.
#[verifier::external_body]
fn file_name_of(path: &str) -> (name: Option<String>)
    ensures
        optional_text(name) == path_file_name(path@),
{
    match std::path::Path::new(path).file_name() {
        Some(n) => Some(n.to_string_lossy().into_owned()),
        None => None,
    }
}

/// Whether `a` and `b` hold the same characters.
fn same_text(a: &str, b: &str) -> (same: bool)
    ensures
        same == (a@ == b@),
{
    let n = a.unicode_len();
    if n != b.unicode_len() {
        return false;
    }
    let mut i: usize = 0;
    while i < n
        invariant
            n == a@.len(),
            n == b@.len(),
            i <= n,
            forall|j: int| 0 <= j < i ==> a@[j] == b@[j],
        decreases n - i,
    {
        if a.get_char(i) != b.get_char(i) {
            return false;
        }
        i = i + 1;
    }
    assert(a@ =~= b@);
    true
}

/// Whether `s` ends with `suffix`.
fn text_ends_with(s: &str, suffix: &str) -> (found: bool)
    ensures
        found == ends_with(s@, suffix@),
{
    let n = s.unicode_len();
    let m = suffix.unicode_len();
    if m > n {
        return false;
    }
    let start = n - m;
    let mut i: usize = 0;
    while i < m
        invariant
            n == s@.len(),
            m == suffix@.len(),
            start + m == n,
            i <= m,
            forall|j: int| 0 <= j < i ==> s@[start + j] == suffix@[j],
        decreases m - i,
    {
        if s.get_char(start + i) != suffix.get_char(i) {
            assert(s@.subrange(start as int, n as int)[i as int] != suffix@[i as int]);
            return false;
        }
        i = i + 1;
    }
    assert(s@.subrange(start as int, n as int) =~= suffix@);
    true
}

/// What the search for the user's shell learned last.
pub enum GuessEvent {
    /// The command line of the process being inspected.
    CommandLine(Vec<String>),
    /// The parent pid of the process being inspected.
    ParentPid(i32),
}

/// What the search for the user's shell does next.
#[derive(Clone, Copy, Debug, PartialEq, Eq, Structural)]
pub enum GuessAction {
    /// The shell is known: the search is over.
    Found(ShellType),
    /// Read the parent pid of the process being inspected.
    ReadParentPid,
    /// Inspect the process with this pid: read its command line.
    InspectProcess(i32),
    /// The search failed.
    GiveUp(GuessError),
}

/// The pid of the root process, where the search for a shell stops.
pub const ROOT_PID: i32 = 1;

/// The next move of the search for the user's shell, which starts at this
/// process and climbs from each process to its parent until one is a shell.
pub open spec fn guess_step_spec(event: &GuessEvent) -> GuessAction {
    match event {
        GuessEvent::CommandLine(cmdline) => match shell_of_cmdline_spec(cmdline.deep_view()) {
            Ok(Some(shell)) => GuessAction::Found(shell),
            Ok(None) => GuessAction::ReadParentPid,
            Err(e) => GuessAction::GiveUp(e),
        },
        GuessEvent::ParentPid(ppid) => if *ppid == ROOT_PID {
            GuessAction::GiveUp(GuessError::ReachedRoot)
        } else {
            GuessAction::InspectProcess(*ppid)
        },
    }
}

impl ShellType {
    /// One move of the search for the user's shell, which scans the parents
    /// of this process until it finds a command it recognizes as a shell.
    /// The caller reads the process table and reports what it read.
    pub fn guess_step(event: &GuessEvent) -> (action: GuessAction)
        ensures
            action == guess_step_spec(event),
    {
        match event {
            GuessEvent::CommandLine(cmdline) => match ShellType::shell_of_cmdline(cmdline) {
                Ok(Some(shell)) => GuessAction::Found(shell),
                Ok(None) => GuessAction::ReadParentPid,
                Err(e) => GuessAction::GiveUp(e),
            },
            GuessEvent::ParentPid(ppid) => if *ppid == ROOT_PID {
                GuessAction::GiveUp(GuessError::ReachedRoot)
            } else {
                GuessAction::InspectProcess(*ppid)
            },
        }
    }

    /// The shell that the file name of a process's first argument stands for:
    /// a leading `-` (a login shell) is dropped, then the name is matched
    /// against the shells we know.
    pub fn shell_of_file_name(name: &str) -> (shell: Option<ShellType>)
        ensures
            shell == shell_of_file_name_spec(name@),
    {
        let n = name.unicode_len();
        let trimmed = if n > 0 && name.get_char(0) == '-' {
            name.substring_char(1, n)
        } else {
            name
        };
        assert(trimmed@ == without_login_dash(name@));
        if same_text(trimmed, "bash") {
            Some(ShellType::Bash)
        } else if same_text(trimmed, "dash") || same_text(trimmed, "sh") || same_text(trimmed, "ksh")
            || same_text(trimmed, "csh") {
            Some(ShellType::Posix)
        } else if same_text(trimmed, "fish") {
            Some(ShellType::Fish)
        } else if same_text(trimmed, "zsh") {
            Some(ShellType::Zsh)
        } else {
            None
        }
    }

    /// Guess the shell of a process from its command line: the first
    /// argument, rather than the executable, since some shells are polyglots
    /// and what matters is how the user invoked this.
    pub fn shell_of_cmdline(cmdline: &Vec<String>) -> (shell: Result<Option<ShellType>, GuessError>)
        ensures
            shell == shell_of_cmdline_spec(cmdline.deep_view()),
    {
        proof {
            assert(cmdline.deep_view().len() == cmdline@.len());
        }
        if cmdline.len() == 0 {
            return Err(GuessError::NoArgumentZero);
        }
        let first: &str = cmdline[0].as_str();
        assert(first@ == cmdline.deep_view()[0]);
        // > ... if the pathname has been unlinked,
        // > the symbolic link will contain the string " (deleted)"
        // > appended to the original pathname.
        if text_ends_with(first, " (deleted)") {
            return Err(GuessError::ProcessTerminated);
        }
        match file_name_of(first) {
            None => Err(GuessError::NoFileName),
            Some(name) => Ok(ShellType::shell_of_file_name(name.as_str())),
        }
    }
}

// ---------------------------------------------------------------------------
// Laws

/// Every shell's alias file lies under the home directory: its location is a
/// non-empty relative path.
pub proof fn lemma_config_location_is_relative(shell: ShellType)
    ensures
        config_location_of(shell).len() > 0,
        config_location_of(shell)[0] != '/',
{
    reveal_strlit(".bash_aliases");
    reveal_strlit(".profile");
    reveal_strlit(".zshrc");
    reveal_strlit(".config/fish/functions/devpack-for-rust.fish");
}

/// A login shell is one whose first character of argument zero is a `-`:
/// `-coolshellname` stands for the same shell as `coolshellname`.
pub proof fn lemma_login_shell_is_the_shell(name: Seq<char>)
    requires
        name.len() == 0 || name[0] != '-',
    ensures
        shell_of_file_name_spec(seq!['-'] + name) == shell_of_file_name_spec(name),
{
    assert((seq!['-'] + name).drop_first() =~= name);
}

/// Only the first argument of a command line tells its shell; the other
/// arguments do not matter.
pub proof fn lemma_only_argument_zero_counts(a: Seq<Seq<char>>, b: Seq<Seq<char>>)
    requires
        a.len() > 0,
        b.len() > 0,
        a[0] == b[0],
    ensures
        shell_of_cmdline_spec(a) == shell_of_cmdline_spec(b),
{
}

/// What the search for a shell learns from a chain of processes, this
/// process first and each next one the parent of the one before: the
/// outcome of the moves of `guess_step_spec` from process `i` on, with
/// `chain[k].0` the command line of process `k` and `chain[k].1` its parent's
/// pid; `None` when the chain ends before the search does.
pub open spec fn run_search(chain: Seq<(Vec<String>, i32)>, i: int) -> Option<Result<ShellType, GuessError>>
    decreases chain.len() - i,
{
    if i < 0 || i >= chain.len() {
        None
    } else {
        match guess_step_spec(&GuessEvent::CommandLine(chain[i].0)) {
            GuessAction::Found(shell) => Some(Ok(shell)),
            GuessAction::GiveUp(e) => Some(Err(e)),
            GuessAction::ReadParentPid => match guess_step_spec(&GuessEvent::ParentPid(chain[i].1)) {
                GuessAction::InspectProcess(_) => run_search(chain, i + 1),
                GuessAction::GiveUp(e) => Some(Err(e)),
                _ => None,
            },
            GuessAction::InspectProcess(_) => None,
        }
    }
}

/// Whether the search climbs past process `k`: its command line names no
/// shell we know, and its parent is not the root process.
pub open spec fn passed_over(chain: Seq<(Vec<String>, i32)>, k: int) -> bool {
    &&& shell_of_cmdline_spec(chain[k].0.deep_view()) == Ok::<Option<ShellType>, GuessError>(None)
    &&& chain[k].1 != ROOT_PID
}

/// What the search concludes at a process it does not climb past: the shell
/// it runs, why its command line tells nothing, or that its parent is the
/// root.
pub open spec fn verdict_at(chain: Seq<(Vec<String>, i32)>, j: int) -> Result<ShellType, GuessError> {
    match shell_of_cmdline_spec(chain[j].0.deep_view()) {
        Ok(Some(shell)) => Ok(shell),
        Err(e) => Err(e),
        Ok(None) => Err(GuessError::ReachedRoot),
    }
}

proof fn lemma_search_from(chain: Seq<(Vec<String>, i32)>, i: int, j: int)
    requires
        0 <= i <= j < chain.len(),
        forall|k: int| i <= k < j ==> passed_over(chain, k),
        !passed_over(chain, j),
    ensures
        run_search(chain, i) == Some(verdict_at(chain, j)),
    decreases j - i,
{
    if i < j {
        assert(passed_over(chain, i));
        lemma_search_from(chain, i + 1, j);
    }
}

/// The whole search for the user's shell: it climbs from this process
/// through the ancestors that are no shell we know, never inspecting the
/// root process (the parent it moves on to from each process `k < j` is not
/// the root), and stops at the nearest one that is a shell (which it
/// returns), whose command line tells nothing, or whose parent is the root.
pub proof fn lemma_search_finds_nearest_shell(chain: Seq<(Vec<String>, i32)>, j: int)
    requires
        0 <= j < chain.len(),
        forall|k: int| 0 <= k < j ==> passed_over(chain, k),
        !passed_over(chain, j),
    ensures
        run_search(chain, 0) == Some(verdict_at(chain, j)),
        forall|k: int| 0 <= k < j ==> (#[trigger] chain[k]).1 != ROOT_PID,
{
    lemma_search_from(chain, 0, j);
    assert forall|k: int| 0 <= k < j implies (#[trigger] chain[k]).1 != ROOT_PID by {
        assert(passed_over(chain, k));
    }
}

/// A search whose chain runs out while every process is climbed past has
/// no outcome yet.
pub proof fn lemma_search_needs_a_stop(chain: Seq<(Vec<String>, i32)>, i: int)
    requires
        0 <= i,
        forall|k: int| i <= k < chain.len() ==> passed_over(chain, k),
    ensures
        run_search(chain, i) is None,
    decreases chain.len() - i,
{
    if i < chain.len() {
        assert(passed_over(chain, i));
        lemma_search_needs_a_stop(chain, i + 1);
    }
}

/// Different shells keep their aliases in different files.
pub proof fn lemma_config_locations_differ(a: ShellType, b: ShellType)
    requires
        a != b,
    ensures
        config_location_of(a) != config_location_of(b),
{
    reveal_strlit(".bash_aliases");
    reveal_strlit(".profile");
    reveal_strlit(".zshrc");
    reveal_strlit(".config/fish/functions/devpack-for-rust.fish");
    assert(".bash_aliases"@.len() != ".profile"@.len());
    assert(".bash_aliases"@.len() != ".zshrc"@.len());
    assert(".profile"@.len() != ".zshrc"@.len());
    assert(".config/fish/functions/devpack-for-rust.fish"@.len() != ".bash_aliases"@.len());
    assert(".config/fish/functions/devpack-for-rust.fish"@.len() != ".profile"@.len());
    assert(".config/fish/functions/devpack-for-rust.fish"@.len() != ".zshrc"@.len());
}

} // verus!
