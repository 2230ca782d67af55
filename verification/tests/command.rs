use manpages::{CommandSpec, Format};

fn strings(words: &[&str]) -> Vec<String> {
    let mut all = Vec::new();
    for word in words {
        all.push(word.to_string());
    }
    all
}

#[test]
fn markdown_command_is_pandoc_to_man() {
    let command = CommandSpec::markdown("man/guide.1.md", "out/1/guide");
    assert_eq!(command.program, "pandoc");
    assert_eq!(
        command.args,
        strings(&["-s", "-f", "markdown", "-t", "man", "-o", "out/1/guide", "man/guide.1.md"])
    );
}

#[test]
fn docbook_command_is_xsltproc_with_the_manpage_stylesheet() {
    let command = CommandSpec::docbook("man/config.5.xml", "out/5/config");
    assert_eq!(command.program, "xsltproc");
    assert_eq!(
        command.args,
        strings(&[
            "--nonet",
            "--stringparam",
            "man.output.quietly",
            "1",
            "--param",
            "funcsynopsis.style",
            "'ansi'",
            "--output",
            "out/5/config",
            "http://docbook.sourceforge.net/release/xsl/current/manpages/docbook.xsl",
            "man/config.5.xml",
        ])
    );
}

#[test]
fn command_follows_the_format() {
    assert_eq!(
        CommandSpec::for_format(Format::Markdown, "in", "out"),
        CommandSpec::markdown("in", "out")
    );
    assert_eq!(
        CommandSpec::for_format(Format::Docbook, "in", "out"),
        CommandSpec::docbook("in", "out")
    );
    assert_ne!(CommandSpec::markdown("in", "out"), CommandSpec::docbook("in", "out"));
}

#[test]
fn input_and_output_are_not_swapped() {
    let command = CommandSpec::markdown("source", "page");
    assert_eq!(command.args[6], "page");
    assert_eq!(command.args[7], "source");
    let command = CommandSpec::docbook("source", "page");
    assert_eq!(command.args[8], "page");
    assert_eq!(command.args[10], "source");
}

#[test]
fn trace_line_shows_program_and_arguments() {
    let command = CommandSpec::markdown("guide.1.md", "out/1/guide");
    assert_eq!(
        command.trace_line(),
        "Running pandoc -s -f markdown -t man -o out/1/guide guide.1.md"
    );
    let command = CommandSpec::docbook("config.5.xml", "out/5/config");
    assert_eq!(
        command.trace_line(),
        "Running xsltproc --nonet --stringparam man.output.quietly 1 --param funcsynopsis.style \
         'ansi' --output out/5/config \
         http://docbook.sourceforge.net/release/xsl/current/manpages/docbook.xsl config.5.xml"
    );
}

#[test]
fn trace_line_of_a_command_without_arguments() {
    let command = CommandSpec { program: "true".to_string(), args: Vec::new() };
    assert_eq!(command.trace_line(), "Running true");
    let command = CommandSpec { program: "echo".to_string(), args: strings(&["", "a b"]) };
    assert_eq!(command.trace_line(), "Running echo  a b");
}
