//! The action the program performs in one run, and how it is chosen from the
//! command-line arguments and, when none are given, from whether standard
//! input is attached to a terminal.

use vstd::prelude::*;
use crate::text::dec_digits;
use crate::text::usize_to_string;

verus! {

/// The single action the program will perform this run.
#[derive(Clone, Copy, Debug, PartialEq, Eq, Structural)]
pub enum Mode {
    /// Write standard input to the clipboard.
    Write,
    /// Display the current clipboard contents.
    Read,
    /// Show the usage text.
    ShowHelp,
}

/// Why no mode could be resolved from the arguments.
#[derive(Debug)]
pub enum Error {
    /// More than one argument was supplied; carries how many there were.
    TooManyOptions { num: usize },
    /// The first argument is not a recognized option; carries that token.
    UnrecognizedOption { opt: String },
}

/// The views of the argument strings.
pub open spec fn views_of(args: Seq<String>) -> Seq<Seq<char>> {
    args.map_values(|s: String| s@)
}

/// The token selects the write action.
pub open spec fn is_write_flag(a: Seq<char>) -> bool {
    a == "-w"@ || a == "--write"@
}

/// The token selects the read action.
pub open spec fn is_read_flag(a: Seq<char>) -> bool {
    a == "-r"@ || a == "--read"@
}

/// The token selects the help action.
pub open spec fn is_help_flag(a: Seq<char>) -> bool {
    a == "-h"@ || a == "--help"@
}

/// The token is one of the six recognized options.
pub open spec fn is_recognized_flag(a: Seq<char>) -> bool {
    is_write_flag(a) || is_read_flag(a) || is_help_flag(a)
}

/// The mode a recognized option selects.
pub open spec fn mode_of_flag(a: Seq<char>) -> Mode
    recommends
        is_recognized_flag(a),
{
    if is_write_flag(a) {
        Mode::Write
    } else if is_read_flag(a) {
        Mode::Read
    } else {
        Mode::ShowHelp
    }
}

/// How the mode is resolved from the argument list (the program name
/// excluded) and from whether standard input is a terminal:
/// a first argument that is a recognized option selects its mode, but a
/// second argument then makes the whole list too long; a first argument
/// that is not recognized is rejected as it stands, whatever follows it;
/// no arguments at all fall back to the terminal test, a terminal meaning
/// read and anything else (a pipe, a redirection) meaning write.
pub open spec fn resolves_to(args: Seq<Seq<char>>, stdin_tty: bool, r: Result<Mode, Error>) -> bool {
    if args.len() == 0 {
        r == Ok::<Mode, Error>(if stdin_tty { Mode::Read } else { Mode::Write })
    } else if is_recognized_flag(args[0]) {
        if args.len() >= 2 {
            r matches Err(Error::TooManyOptions { num }) && num as nat == args.len()
        } else {
            r == Ok::<Mode, Error>(mode_of_flag(args[0]))
        }
    } else {
        r matches Err(Error::UnrecognizedOption { opt }) && opt@ == args[0]
    }
}

fn arg_is(arg: &String, flag: &str) -> (r: bool)
    ensures
        r == (arg@ == flag@),
{
    let f: String = flag.to_owned();
    arg.eq(&f)
}

/// Resolves the mode from the argument list, with the result of the
/// terminal test supplied by the caller.
pub fn resolve_mode(args: &Vec<String>, stdin_tty: bool) -> (r: Result<Mode, Error>)
    ensures
        resolves_to(views_of(args@), stdin_tty, r),
{
    if args.len() == 0 {
        if stdin_tty {
            Ok(Mode::Read)
        } else {
            Ok(Mode::Write)
        }
    } else {
        let arg = &args[0];
        let mode = if arg_is(arg, "-w") || arg_is(arg, "--write") {
            Mode::Write
        } else if arg_is(arg, "-r") || arg_is(arg, "--read") {
            Mode::Read
        } else if arg_is(arg, "-h") || arg_is(arg, "--help") {
            Mode::ShowHelp
        } else {
            return Err(Error::UnrecognizedOption { opt: arg.clone() });
        };
        if args.len() >= 2 {
            Err(Error::TooManyOptions { num: args.len() })
        } else {
            Ok(mode)
        }
    }
}

/// Relies on isatty::stdin_isatty: reports whether standard input is
/// attached to an interactive terminal.
#[verifier::external_body]
fn stdin_is_tty() -> bool {
    isatty::stdin_isatty()
}

/// Resolves the mode from the argument list alone, asking the platform
/// whether standard input is a terminal when the list is empty. For a
/// non-empty list the result is the one `resolves_to` fixes whatever the
/// terminal test says; for an empty list it is read or write, as the
/// terminal test turned out.
pub fn detect_mode(args: &Vec<String>) -> (r: Result<Mode, Error>)
    ensures
        exists|stdin_tty: bool| resolves_to(views_of(args@), stdin_tty, r),
{
    let stdin_tty = stdin_is_tty();
    let r = resolve_mode(args, stdin_tty);
    proof {
        assert(resolves_to(views_of(args@), stdin_tty, r));
    }
    r
}

/// With no arguments at all, the resolved mode is read exactly when
/// standard input is a terminal, and write otherwise.
pub proof fn lemma_no_args_follows_terminal(
    args: Seq<Seq<char>>,
    stdin_tty: bool,
    r: Result<Mode, Error>,
)
    requires
        args.len() == 0,
        resolves_to(args, stdin_tty, r),
    ensures
        (r == Ok::<Mode, Error>(Mode::Read)) <==> stdin_tty,
        (r == Ok::<Mode, Error>(Mode::Write)) <==> !stdin_tty,
{
}

/// A single `-w` or `--write` resolves to write, whatever the terminal
/// test says.
pub proof fn lemma_write_flag(args: Seq<Seq<char>>, stdin_tty: bool, r: Result<Mode, Error>)
    requires
        args.len() == 1,
        is_write_flag(args[0]),
        resolves_to(args, stdin_tty, r),
    ensures
        r == Ok::<Mode, Error>(Mode::Write),
{
}

/// A single `-r` or `--read` resolves to read, whatever the terminal
/// test says.
pub proof fn lemma_read_flag(args: Seq<Seq<char>>, stdin_tty: bool, r: Result<Mode, Error>)
    requires
        args.len() == 1,
        is_read_flag(args[0]),
        resolves_to(args, stdin_tty, r),
    ensures
        r == Ok::<Mode, Error>(Mode::Read),
{
    lemma_flags_distinct();
}

/// A single `-h` or `--help` resolves to the help action, whatever the
/// terminal test says.
pub proof fn lemma_help_flag(args: Seq<Seq<char>>, stdin_tty: bool, r: Result<Mode, Error>)
    requires
        args.len() == 1,
        is_help_flag(args[0]),
        resolves_to(args, stdin_tty, r),
    ensures
        r == Ok::<Mode, Error>(Mode::ShowHelp),
{
    lemma_flags_distinct();
}

/// A single argument that is none of the six recognized options is
/// rejected as unrecognized, carrying that exact token.
pub proof fn lemma_unrecognized(args: Seq<Seq<char>>, stdin_tty: bool, r: Result<Mode, Error>)
    requires
        args.len() == 1,
        !is_recognized_flag(args[0]),
        resolves_to(args, stdin_tty, r),
    ensures
        r matches Err(Error::UnrecognizedOption { opt }) && opt@ == args[0],
{
}

/// Two or more arguments never resolve to a mode.
pub proof fn lemma_two_or_more_fail(args: Seq<Seq<char>>, stdin_tty: bool, r: Result<Mode, Error>)
    requires
        args.len() >= 2,
        resolves_to(args, stdin_tty, r),
    ensures
        r is Err,
{
}

/// Two or more arguments behind a recognized first option are rejected as
/// too many, with the count of all supplied arguments reported. (When the
/// first argument is itself unrecognized, it is reported instead, as
/// `lemma_two_or_more_fail` and `resolves_to` show.)
pub proof fn lemma_too_many(args: Seq<Seq<char>>, stdin_tty: bool, r: Result<Mode, Error>)
    requires
        args.len() >= 2,
        is_recognized_flag(args[0]),
        resolves_to(args, stdin_tty, r),
    ensures
        r matches Err(Error::TooManyOptions { num }) && num as nat == args.len(),
{
}

/// The six option tokens select six distinct flag classes: no token is a
/// write flag and a read flag, a write flag and a help flag, or a read
/// flag and a help flag at once.
pub proof fn lemma_flags_distinct()
    ensures
        forall|a: Seq<char>| !(is_write_flag(a) && is_read_flag(a)),
        forall|a: Seq<char>| !(is_write_flag(a) && is_help_flag(a)),
        forall|a: Seq<char>| !(is_read_flag(a) && is_help_flag(a)),
{
    reveal_strlit("-w");
    reveal_strlit("--write");
    reveal_strlit("-r");
    reveal_strlit("--read");
    reveal_strlit("-h");
    reveal_strlit("--help");
    assert("-w"@.len() == 2 && "-r"@.len() == 2 && "-h"@.len() == 2);
    assert("--write"@.len() == 7 && "--read"@.len() == 6 && "--help"@.len() == 6);
    assert("-w"@[1] == 'w' && "-r"@[1] == 'r' && "-h"@[1] == 'h');
    assert("--write"@[2] == 'w' && "--read"@[2] == 'r' && "--help"@[2] == 'h');
}

impl Error {
    /// The message the error is reported with.
    pub open spec fn message_spec(&self) -> Seq<char> {
        match self {
            Error::TooManyOptions { num } => "too many / too few options: supplied "@
                + dec_digits(*num as nat)
                + " options. this program accepts just one option."@,
            Error::UnrecognizedOption { opt } => "unknown option "@ + opt@,
        }
    }

    /// Renders the message the error is reported with.
    pub fn message(&self) -> (r: String)
        ensures
            r@ == self.message_spec(),
    {
        match self {
            Error::TooManyOptions { num } => {
                let count = usize_to_string(*num);
                "too many / too few options: supplied ".to_owned().concat(count.as_str()).concat(
                    " options. this program accepts just one option.",
                )
            },
            Error::UnrecognizedOption { opt } => "unknown option ".to_owned().concat(opt.as_str()),
        }
    }
}

} // verus!
