//! Launching an interactive text editor through the platform shell.
//!
//! The library decides which editor runs and what the shell is asked to do:
//! an explicit override wins, the environment's default editor is the
//! fallback, and the editor and its arguments are joined with single spaces
//! into one command line for `sh -c` (or `cmd /C` on Windows). Starting the
//! child process and waiting for it is left to the caller.
use vstd::prelude::*;
use vstd::string::*;

verus! {

/// The character views of a list of string slices.
pub open spec fn arg_views(args: Seq<&str>) -> Seq<Seq<char>> {
    args.map_values(|a: &str| a@)
}

/// The editor followed by each argument, in order, separated by single
/// spaces, with nothing quoted or escaped.
pub open spec fn command_line(editor: Seq<char>, args: Seq<Seq<char>>) -> Seq<char>
    decreases args.len(),
{
    if args.len() == 0 {
        editor
    } else {
        command_line(editor, args.drop_last()) + seq![' '] + args.last()
    }
}

/// Joins the editor and its extra arguments into the command line that the
/// shell runs: `"E a1 a2 a3"` for editor `E` and arguments `[a1, a2, a3]`.
pub fn join_command_line(editor: &str, extra_args: &[&str]) -> (r: String)
    ensures
        r@ == command_line(editor@, arg_views(extra_args@)),
{
    let mut line = String::from_str(editor);
    let mut i: usize = 0;
    while i < extra_args.len()
        invariant
            i <= extra_args@.len(),
            line@ == command_line(editor@, arg_views(extra_args@.subrange(0, i as int))),
        decreases extra_args@.len() - i,
    {
        proof {
            reveal_strlit(" ");
            assert(arg_views(extra_args@.subrange(0, i + 1)).drop_last() =~= arg_views(
                extra_args@.subrange(0, i as int),
            ));
        }
        line.append(" ");
        line.append(extra_args[i]);
        i += 1;
    }
    assert(extra_args@.subrange(0, i as int) =~= extra_args@);
    line
}

/// A command line appended to an editor's command line, after a space, stays
/// at the end: assembly keeps the arguments in their order.
pub proof fn lemma_command_line_push(editor: Seq<char>, args: Seq<Seq<char>>, arg: Seq<char>)
    ensures
        command_line(editor, args.push(arg)) == command_line(editor, args) + seq![' '] + arg,
{
    assert(args.push(arg).drop_last() =~= args);
}

/// An editor given no arguments runs alone, as it was given.
pub proof fn lemma_command_line_no_args(editor: Seq<char>)
    ensures
        command_line(editor, Seq::empty()) == editor,
{
}

/// The shell that runs the command line: `cmd` on Windows, `sh` elsewhere.
pub open spec fn shell_program(on_windows: bool) -> Seq<char> {
    if on_windows {
        seq!['c', 'm', 'd']
    } else {
        seq!['s', 'h']
    }
}

/// The shell's flag that runs a single command: `/C` on Windows, `-c` elsewhere.
pub open spec fn shell_flag(on_windows: bool) -> Seq<char> {
    if on_windows {
        seq!['/', 'C']
    } else {
        seq!['-', 'c']
    }
}

/// Picks the shell and its single-command flag for the platform.
pub fn shell_for(on_windows: bool) -> (r: (&'static str, &'static str))
    ensures
        r.0@ == shell_program(on_windows),
        r.1@ == shell_flag(on_windows),
{
    proof {
        reveal_strlit("cmd");
        reveal_strlit("/C");
        reveal_strlit("sh");
        reveal_strlit("-c");
    }
    if on_windows {
        ("cmd", "/C")
    } else {
        ("sh", "-c")
    }
}

/// A program to start and the arguments to start it with.
#[derive(Debug)]
pub struct ShellCommand {
    pub program: String,
    pub args: Vec<String>,
}

/// `c` starts the platform's shell and asks it to run `line`.
pub open spec fn runs_line(c: ShellCommand, on_windows: bool, line: Seq<char>) -> bool {
    &&& c.program@ == shell_program(on_windows)
    &&& c.args@.len() == 2
    &&& c.args@[0]@ == shell_flag(on_windows)
    &&& c.args@[1]@ == line
}

/// The shell invocation that runs `editor` on `extra_args`.
pub fn shell_command(editor: &str, extra_args: &[&str], on_windows: bool) -> (c: ShellCommand)
    ensures
        runs_line(c, on_windows, command_line(editor@, arg_views(extra_args@))),
{
    let (sh_x, sh_c) = shell_for(on_windows);
    let mut args: Vec<String> = Vec::new();
    args.push(String::from_str(sh_c));
    args.push(join_command_line(editor, extra_args));
    ShellCommand { program: String::from_str(sh_x), args }
}

/// Two invocations prepared for one platform and one command line are the
/// same: preparing keeps no state between calls, so repeating a call with the
/// same inputs asks the shell for the same thing.
pub proof fn lemma_same_line_same_command(
    c1: ShellCommand,
    c2: ShellCommand,
    on_windows: bool,
    line: Seq<char>,
)
    requires
        runs_line(c1, on_windows, line),
        runs_line(c2, on_windows, line),
    ensures
        c1.program@ == c2.program@,
        c1.args@.len() == c2.args@.len(),
        forall|i: int| 0 <= i < c1.args@.len() ==> #[trigger] c1.args@[i]@ == c2.args@[i]@,
{
    assert forall|i: int| 0 <= i < c1.args@.len() implies #[trigger] c1.args@[i]@ == c2.args@[i]@ by {
        if i == 0 {
        } else {
            assert(i == 1);
        }
    }
}

/// The process error of `std::io`, carried through unread.
#[verifier::external_type_specification]
#[verifier::external_body]
pub struct ExIoError(std::io::Error);

/// Why launching the editor failed.
#[derive(Debug)]
pub enum SEError {
    /// Starting the shell, or waiting for it, failed.
    Process(std::io::Error),
    /// The environment's default editor could not be read; the lookup's
    /// own message is kept.
    Var(String),
}

/// The override is given and not empty, so it is the editor.
pub open spec fn uses_override(override_editor: Option<&str>) -> bool {
    override_editor is Some && override_editor->Some_0@.len() > 0
}

/// Decides the editor from the override and the result of looking up the
/// environment's default editor: a non-empty override verbatim, else the
/// looked-up editor, else the lookup's failure as `SEError::Var`.
pub fn choose_editor(override_editor: Option<&str>, looked_up: Result<String, String>) -> (r: Result<
    String,
    SEError,
>)
    ensures
        uses_override(override_editor) ==> r is Ok && r->Ok_0@ == override_editor->Some_0@,
        !uses_override(override_editor) ==> match looked_up {
            Ok(e) => r is Ok && r->Ok_0@ == e@,
            Err(m) => r is Err && r->Err_0 is Var && r->Err_0->Var_0@ == m@,
        },
{
    match override_editor {
        Some(o) if !o.is_empty() => Ok(String::from_str(o)),
        _ => match looked_up {
            Ok(e) => Ok(e),
            Err(m) => Err(SEError::Var(m)),
        },
    }
}

/// Relies on `default_editor::get`: the value of `VISUAL`, else of `EDITOR`,
/// else `vi`; it fails only on a variable that is not valid Unicode, whose
/// error is handed on as its message. The result depends on the environment,
/// so nothing is stated of it.
#[verifier::external_body]
fn lookup_default_editor() -> (r: Result<String, String>) {
    match default_editor::get() {
        Ok(e) => Ok(e),
        Err(e) => Err(e.to_string()),
    }
}

/// The editor to launch: a non-empty override verbatim, without reading the
/// environment; otherwise the environment's default editor.
pub fn resolve_editor(override_editor: Option<&str>) -> (r: Result<String, SEError>)
    ensures
        uses_override(override_editor) ==> r is Ok && r->Ok_0@ == override_editor->Some_0@,
        r is Err ==> !uses_override(override_editor) && r->Err_0 is Var,
{
    match override_editor {
        Some(o) if !o.is_empty() => Ok(String::from_str(o)),
        _ => choose_editor(override_editor, lookup_default_editor()),
    }
}

/// The shell invocation that launches the resolved editor on `extra_args`.
pub fn prepare_command(override_editor: Option<&str>, extra_args: &[&str], on_windows: bool) -> (r:
    Result<ShellCommand, SEError>)
    ensures
        uses_override(override_editor) ==> r is Ok && runs_line(
            r->Ok_0,
            on_windows,
            command_line(override_editor->Some_0@, arg_views(extra_args@)),
        ),
        r is Ok ==> exists|e: Seq<char>|
            runs_line(r->Ok_0, on_windows, #[trigger] command_line(e, arg_views(extra_args@))),
        r is Err ==> !uses_override(override_editor) && r->Err_0 is Var,
{
    match resolve_editor(override_editor) {
        Ok(editor) => {
            Ok(shell_command(editor.as_str(), extra_args, on_windows))
        },
        Err(e) => Err(e),
    }
}

} // verus!
