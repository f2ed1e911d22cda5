use devpack_for_rust::shell_type::{GuessAction, GuessError, GuessEvent, ShellType};

fn cmdline(args: &[&str]) -> Vec<String> {
    args.iter().map(|a| a.to_string()).collect()
}

#[test]
fn config_file_locations_follow_each_shell() {
    assert_eq!(ShellType::Bash.config_file_location(), ".bash_aliases");
    assert_eq!(ShellType::Posix.config_file_location(), ".profile");
    assert_eq!(ShellType::Zsh.config_file_location(), ".zshrc");
    assert_eq!(
        ShellType::Fish.config_file_location(),
        ".config/fish/functions/devpack-for-rust.fish"
    );
}

#[test]
fn config_file_locations_are_relative() {
    for shell in [ShellType::Bash, ShellType::Posix, ShellType::Fish, ShellType::Zsh] {
        let location = shell.config_file_location();
        assert!(!location.is_empty());
        assert!(!location.starts_with('/'));
    }
}

#[test]
fn comment_sigil_is_always_hash_space() {
    for shell in [ShellType::Bash, ShellType::Posix, ShellType::Fish, ShellType::Zsh] {
        assert_eq!(shell.comment_sigil(), "# ");
    }
}

#[test]
fn posix_like_shells_write_alias_lines() {
    for shell in [ShellType::Bash, ShellType::Posix, ShellType::Zsh] {
        assert_eq!(shell.format_alias("fd", "fdfind"), "alias fd=\"fdfind\"");
    }
}

#[test]
fn fish_writes_a_wrapping_function() {
    assert_eq!(
        ShellType::Fish.format_alias("rg", "ripgrep"),
        "function rg --wraps ripgrep --description 'alias rg=ripgrep'\nripgrep $argv\nend"
    );
}

#[test]
fn file_names_of_known_shells() {
    assert_eq!(ShellType::shell_of_file_name("bash"), Some(ShellType::Bash));
    assert_eq!(ShellType::shell_of_file_name("dash"), Some(ShellType::Posix));
    assert_eq!(ShellType::shell_of_file_name("sh"), Some(ShellType::Posix));
    assert_eq!(ShellType::shell_of_file_name("ksh"), Some(ShellType::Posix));
    assert_eq!(ShellType::shell_of_file_name("csh"), Some(ShellType::Posix));
    assert_eq!(ShellType::shell_of_file_name("fish"), Some(ShellType::Fish));
    assert_eq!(ShellType::shell_of_file_name("zsh"), Some(ShellType::Zsh));
    assert_eq!(ShellType::shell_of_file_name("nu"), None);
    assert_eq!(ShellType::shell_of_file_name(""), None);
    assert_eq!(ShellType::shell_of_file_name("bash5"), None);
}

#[test]
fn login_shells_are_recognized() {
    assert_eq!(ShellType::shell_of_file_name("-bash"), Some(ShellType::Bash));
    assert_eq!(ShellType::shell_of_file_name("-zsh"), Some(ShellType::Zsh));
    assert_eq!(ShellType::shell_of_file_name("-fish"), Some(ShellType::Fish));
    // only one dash is dropped
    assert_eq!(ShellType::shell_of_file_name("--bash"), None);
    assert_eq!(ShellType::shell_of_file_name("-"), None);
}

#[test]
fn command_lines_are_judged_by_their_first_argument() {
    assert_eq!(ShellType::shell_of_cmdline(&cmdline(&["/usr/bin/zsh"])), Ok(Some(ShellType::Zsh)));
    assert_eq!(ShellType::shell_of_cmdline(&cmdline(&["-bash"])), Ok(Some(ShellType::Bash)));
    assert_eq!(
        ShellType::shell_of_cmdline(&cmdline(&["/bin/sh", "-c", "fish"])),
        Ok(Some(ShellType::Posix))
    );
    assert_eq!(
        ShellType::shell_of_cmdline(&cmdline(&["/usr/bin/cargo", "bash"])),
        Ok(None)
    );
    assert_eq!(ShellType::shell_of_cmdline(&cmdline(&["/usr/bin/fish/"])), Ok(Some(ShellType::Fish)));
}

#[test]
fn command_line_errors() {
    assert_eq!(ShellType::shell_of_cmdline(&cmdline(&[])), Err(GuessError::NoArgumentZero));
    assert_eq!(
        ShellType::shell_of_cmdline(&cmdline(&["/usr/bin/bash (deleted)"])),
        Err(GuessError::ProcessTerminated)
    );
    assert_eq!(ShellType::shell_of_cmdline(&cmdline(&["/"])), Err(GuessError::NoFileName));
    assert_eq!(ShellType::shell_of_cmdline(&cmdline(&["/usr/.."])), Err(GuessError::NoFileName));
}

#[test]
fn the_search_climbs_to_the_root() {
    assert_eq!(
        ShellType::guess_step(&GuessEvent::CommandLine(cmdline(&["/bin/bash"]))),
        GuessAction::Found(ShellType::Bash)
    );
    assert_eq!(
        ShellType::guess_step(&GuessEvent::CommandLine(cmdline(&["devpack-for-rust"]))),
        GuessAction::ReadParentPid
    );
    assert_eq!(
        ShellType::guess_step(&GuessEvent::CommandLine(cmdline(&[]))),
        GuessAction::GiveUp(GuessError::NoArgumentZero)
    );
    assert_eq!(ShellType::guess_step(&GuessEvent::ParentPid(4321)), GuessAction::InspectProcess(4321));
    assert_eq!(
        ShellType::guess_step(&GuessEvent::ParentPid(1)),
        GuessAction::GiveUp(GuessError::ReachedRoot)
    );
}

#[test]
fn guess_error_messages() {
    assert_eq!(GuessError::NoArgumentZero.message(), "process somehow did not have a 0th argument");
    assert_eq!(GuessError::ProcessTerminated.message(), "parent process was terminated");
    assert_eq!(GuessError::NoFileName.message(), "process somehow did not have a file name");
    assert_eq!(GuessError::ReachedRoot.message(), "reached the root process");
}

#[test]
fn file_names_follow_path_components() {
    assert_eq!(ShellType::shell_of_cmdline(&cmdline(&["/usr/bin/bash/."])), Ok(Some(ShellType::Bash)));
    assert_eq!(ShellType::shell_of_cmdline(&cmdline(&["/usr//bin//zsh//"])), Ok(Some(ShellType::Zsh)));
    assert_eq!(ShellType::shell_of_cmdline(&cmdline(&["./fish"])), Ok(Some(ShellType::Fish)));
    assert_eq!(ShellType::shell_of_cmdline(&cmdline(&["sudo"])), Ok(None));
    assert_eq!(ShellType::shell_of_cmdline(&cmdline(&["./"])), Err(GuessError::NoFileName));
    assert_eq!(ShellType::shell_of_cmdline(&cmdline(&["bash/.."])), Err(GuessError::NoFileName));
    assert_eq!(ShellType::shell_of_cmdline(&cmdline(&[""])), Err(GuessError::NoFileName));
}
