//! The commands that convert a documentation source into a manual page.
//!
//! A command is a program name and its arguments in order. This module only
//! says what is to be run; running it is the caller's business.

use crate::classify::Format;
use vstd::prelude::*;

verus! {

/// A program and the arguments it is started with.
#[derive(Clone, Debug, PartialEq, Eq)]
pub struct CommandSpec {
    /// The name of the program, looked up as the system does.
    pub program: String,
    /// The arguments, in the order they are passed.
    pub args: Vec<String>,
}

/// A command as the contracts see it.
pub struct CommandLine {
    pub program: Seq<char>,
    pub args: Seq<Seq<char>>,
}

impl View for CommandSpec {
    type V = CommandLine;

    open spec fn view(&self) -> CommandLine {
        CommandLine { program: self.program@, args: self.args.deep_view() }
    }
}

/// The command that converts the Markdown file `input` into the manual page
/// `output`: a standalone document, read as Markdown and written as man.
pub open spec fn markdown_command(input: Seq<char>, output: Seq<char>) -> CommandLine {
    CommandLine {
        program: "pandoc"@,
        args: seq!["-s"@, "-f"@, "markdown"@, "-t"@, "man"@, "-o"@, output, input],
    }
}

/// The command that converts the DocBook file `input` into the manual page
/// `output`: the manual-page stylesheet applied without network access,
/// quietly, with function synopses in ANSI style.
pub open spec fn docbook_command(input: Seq<char>, output: Seq<char>) -> CommandLine {
    CommandLine {
        program: "xsltproc"@,
        args: seq![
            "--nonet"@,
            "--stringparam"@,
            "man.output.quietly"@,
            "1"@,
            "--param"@,
            "funcsynopsis.style"@,
            "'ansi'"@,
            "--output"@,
            output,
            "http://docbook.sourceforge.net/release/xsl/current/manpages/docbook.xsl"@,
            input,
        ],
    }
}

/// The command that converts `input`, written in `format`, into `output`.
pub open spec fn conversion(format: Format, input: Seq<char>, output: Seq<char>) -> CommandLine {
    match format {
        Format::Markdown => markdown_command(input, output),
        Format::Docbook => docbook_command(input, output),
    }
}

/// The words of `words`, each with a space before it.
pub open spec fn spaced(words: Seq<Seq<char>>) -> Seq<char>
    decreases words.len(),
{
    if words.len() == 0 {
        Seq::empty()
    } else {
        spaced(words.drop_last()) + seq![' '] + words.last()
    }
}

/// The line that announces `command`: the word `Running`, the program and
/// the arguments in order, with single spaces between them.
pub open spec fn trace_of(command: CommandLine) -> Seq<char> {
    "Running "@ + command.program + spaced(command.args)
}

/// Appends a copy of `arg` to `args`.
fn push_arg(args: &mut Vec<String>, arg: &str)
    ensures
        final(args).deep_view() == old(args).deep_view().push(arg@),
{
    args.push(arg.to_owned());
    assert(args.deep_view() =~= old(args).deep_view().push(arg@));
}

impl CommandSpec {
    /// The command that runs the Markdown converter on `input` to write
    /// `output`.
    pub fn markdown(input: &str, output: &str) -> (command: CommandSpec)
        ensures
            command@ == markdown_command(input@, output@),
    {
        let mut args: Vec<String> = Vec::new();
        assert(args.deep_view() =~= Seq::<Seq<char>>::empty());
        push_arg(&mut args, "-s");
        push_arg(&mut args, "-f");
        push_arg(&mut args, "markdown");
        push_arg(&mut args, "-t");
        push_arg(&mut args, "man");
        push_arg(&mut args, "-o");
        push_arg(&mut args, output);
        push_arg(&mut args, input);
        assert(args.deep_view() =~= markdown_command(input@, output@).args);
        CommandSpec { program: "pandoc".to_owned(), args }
    }

    /// The command that runs the DocBook converter on `input` to write
    /// `output`.
    pub fn docbook(input: &str, output: &str) -> (command: CommandSpec)
        ensures
            command@ == docbook_command(input@, output@),
    {
        let mut args: Vec<String> = Vec::new();
        assert(args.deep_view() =~= Seq::<Seq<char>>::empty());
        push_arg(&mut args, "--nonet");
        push_arg(&mut args, "--stringparam");
        push_arg(&mut args, "man.output.quietly");
        push_arg(&mut args, "1");
        push_arg(&mut args, "--param");
        push_arg(&mut args, "funcsynopsis.style");
        push_arg(&mut args, "'ansi'");
        push_arg(&mut args, "--output");
        push_arg(&mut args, output);
        push_arg(&mut args, "http://docbook.sourceforge.net/release/xsl/current/manpages/docbook.xsl");
        push_arg(&mut args, input);
        assert(args.deep_view() =~= docbook_command(input@, output@).args);
        CommandSpec { program: "xsltproc".to_owned(), args }
    }

    /// The line that announces this command before it is run.
    pub fn trace_line(&self) -> (line: String)
        ensures
            line@ == trace_of(self@),
    {
        let mut line = "Running ".to_owned();
        line.append(self.program.as_str());
        let ghost words = self.args.deep_view();
        assert(words.take(0) =~= Seq::<Seq<char>>::empty());
        let mut i: usize = 0;
        while i < self.args.len()
            invariant
                i <= self.args.len(),
                words == self.args.deep_view(),
                line@ == "Running "@ + self.program@ + spaced(words.take(i as int)),
            decreases self.args.len() - i,
        {
            line.append(" ");
            line.append(self.args[i].as_str());
            proof {
                reveal_strlit(" ");
                let done = words.take(i + 1);
                assert(" "@ =~= seq![' ']);
                assert(done.drop_last() =~= words.take(i as int));
                assert(done.last() == self.args[i as int]@);
                assert(line@ =~= "Running "@ + self.program@ + spaced(done));
            }
            i += 1;
        }
        assert(words.take(i as int) =~= words);
        line
    }

    /// The command that converts `input`, written in `format`, into
    /// `output`.
    pub fn for_format(format: Format, input: &str, output: &str) -> (command: CommandSpec)
        ensures
            command@ == conversion(format, input@, output@),
    {
        match format {
            Format::Markdown => CommandSpec::markdown(input, output),
            Format::Docbook => CommandSpec::docbook(input, output),
        }
    }
}

} // verus!
