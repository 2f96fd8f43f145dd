use cliputil::mode::detect_mode;
use cliputil::mode::resolve_mode;
use cliputil::mode::Error;
use cliputil::mode::Mode;

fn args(tokens: &[&str]) -> Vec<String> {
    tokens.iter().map(|t| t.to_string()).collect()
}

#[test]
fn no_args_terminal_reads() {
    assert!(matches!(resolve_mode(&args(&[]), true), Ok(Mode::Read)));
}

#[test]
fn no_args_piped_writes() {
    assert!(matches!(resolve_mode(&args(&[]), false), Ok(Mode::Write)));
}

#[test]
fn write_flags_ignore_terminal() {
    for flag in ["-w", "--write"] {
        for tty in [false, true] {
            assert!(matches!(resolve_mode(&args(&[flag]), tty), Ok(Mode::Write)));
        }
    }
}

#[test]
fn read_flags_ignore_terminal() {
    for flag in ["-r", "--read"] {
        for tty in [false, true] {
            assert!(matches!(resolve_mode(&args(&[flag]), tty), Ok(Mode::Read)));
        }
    }
}

#[test]
fn help_flags_ignore_terminal() {
    for flag in ["-h", "--help"] {
        for tty in [false, true] {
            assert!(matches!(resolve_mode(&args(&[flag]), tty), Ok(Mode::ShowHelp)));
        }
    }
}

#[test]
fn unrecognized_single_token_is_reported() {
    for token in ["-x", "write", "", "-W", "--Write", "-wr"] {
        let r = resolve_mode(&args(&[token]), true);
        match r {
            Err(Error::UnrecognizedOption { opt }) => assert_eq!(opt, token),
            _ => panic!("expected an unrecognized-option error for {:?}", token),
        }
    }
}

#[test]
fn two_args_after_valid_flag_are_too_many() {
    let r = resolve_mode(&args(&["-w", "-r"]), false);
    assert!(matches!(r, Err(Error::TooManyOptions { num: 2 })));
}

#[test]
fn three_args_report_full_count() {
    let r = resolve_mode(&args(&["-h", "x", "y"]), true);
    assert!(matches!(r, Err(Error::TooManyOptions { num: 3 })));
}

#[test]
fn five_args_report_full_count() {
    let r = resolve_mode(&args(&["--read", "a", "b", "c", "d"]), false);
    assert!(matches!(r, Err(Error::TooManyOptions { num: 5 })));
}

#[test]
fn unrecognized_first_token_wins_over_count() {
    let r = resolve_mode(&args(&["-x", "y"]), true);
    match r {
        Err(Error::UnrecognizedOption { opt }) => assert_eq!(opt, "-x"),
        _ => panic!("expected an unrecognized-option error"),
    }
}

#[test]
fn detect_mode_with_a_flag_ignores_the_terminal() {
    assert!(matches!(detect_mode(&args(&["-w"])), Ok(Mode::Write)));
    assert!(matches!(detect_mode(&args(&["--read"])), Ok(Mode::Read)));
    assert!(matches!(detect_mode(&args(&["--help"])), Ok(Mode::ShowHelp)));
    assert!(matches!(
        detect_mode(&args(&["-w", "extra"])),
        Err(Error::TooManyOptions { num: 2 })
    ));
}
