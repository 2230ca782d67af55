use manpages::{classify, Classification, Format};

fn found(section: char, format: Format, stem: &str) -> Option<Classification> {
    Some(Classification { section, format, stem: stem.to_string() })
}

#[test]
fn markdown_source_is_classified() {
    assert_eq!(classify("guide.1.md"), found('1', Format::Markdown, "guide"));
}

#[test]
fn docbook_source_is_classified() {
    assert_eq!(classify("config.5.xml"), found('5', Format::Docbook, "config"));
}

#[test]
fn other_extension_is_not_classified() {
    assert_eq!(classify("readme.txt"), None);
    assert_eq!(classify("readme.1.txt"), None);
    assert_eq!(classify("readme.1.html"), None);
}

#[test]
fn last_digit_group_is_the_section() {
    assert_eq!(classify("tool.1.2.md"), found('2', Format::Markdown, "tool.1"));
    assert_eq!(classify("tool.7.8.xml"), found('8', Format::Docbook, "tool.7"));
}

#[test]
fn missing_section_is_not_classified() {
    assert_eq!(classify("guide.md"), None);
    assert_eq!(classify("guide.xml"), None);
    assert_eq!(classify("guide..md"), None);
}

#[test]
fn section_of_several_digits_is_not_classified() {
    assert_eq!(classify("guide.12.md"), None);
    assert_eq!(classify("guide.123.xml"), None);
}

#[test]
fn section_must_follow_a_dot() {
    assert_eq!(classify("guide1.md"), None);
    assert_eq!(classify("1.md"), None);
    assert_eq!(classify("x1.xml"), None);
}

#[test]
fn extension_must_be_lower_case() {
    assert_eq!(classify("guide.1.MD"), None);
    assert_eq!(classify("guide.1.Md"), None);
    assert_eq!(classify("guide.1.XML"), None);
    assert_eq!(classify("guide.1.xmL"), None);
}

#[test]
fn pattern_must_end_the_name() {
    assert_eq!(classify("guide.1.md.bak"), None);
    assert_eq!(classify("guide.1.mdx"), None);
    assert_eq!(classify("guide.1.xml~"), None);
    assert_eq!(classify("guide.1.md "), None);
}

#[test]
fn every_digit_is_a_section() {
    for section in "0123456789".chars() {
        let name = format!("page.{}.md", section);
        assert_eq!(classify(&name), found(section, Format::Markdown, "page"));
        let name = format!("page.{}.xml", section);
        assert_eq!(classify(&name), found(section, Format::Docbook, "page"));
    }
}

#[test]
fn section_must_be_an_ascii_digit() {
    assert_eq!(classify("guide.a.md"), None);
    assert_eq!(classify("guide./.md"), None);
    assert_eq!(classify("guide.:.md"), None);
    assert_eq!(classify("guide.\u{0661}.md"), None);
    assert_eq!(classify("guide.\u{ff11}.xml"), None);
}

#[test]
fn whatever_stands_before_the_suffix_is_the_stem() {
    assert_eq!(classify("man/guide.1.md"), found('1', Format::Markdown, "man/guide"));
    assert_eq!(classify("a b.c.d.3.xml"), found('3', Format::Docbook, "a b.c.d"));
    assert_eq!(classify("r\u{e9}sum\u{e9}.3.xml"), found('3', Format::Docbook, "r\u{e9}sum\u{e9}"));
    assert_eq!(classify("\u{1f4d6}.8.md"), found('8', Format::Markdown, "\u{1f4d6}"));
    assert_eq!(classify("line\nbreak.2.md"), found('2', Format::Markdown, "line\nbreak"));
    assert_eq!(classify("x.1.md.1.md"), found('1', Format::Markdown, "x.1.md"));
}

#[test]
fn stem_may_be_empty() {
    assert_eq!(classify(".1.md"), found('1', Format::Markdown, ""));
    assert_eq!(classify(".9.xml"), found('9', Format::Docbook, ""));
}

#[test]
fn short_names_are_not_classified() {
    assert_eq!(classify(""), None);
    assert_eq!(classify("d"), None);
    assert_eq!(classify("md"), None);
    assert_eq!(classify(".md"), None);
    assert_eq!(classify("1.md"), None);
    assert_eq!(classify("xml"), None);
    assert_eq!(classify(".xml"), None);
    assert_eq!(classify("1.xml"), None);
    assert_eq!(classify(".1.xm"), None);
    assert_eq!(classify(".1.ml"), None);
}

#[test]
fn extensions_are_not_mixed_up() {
    assert_eq!(classify("guide.1.xmd"), None);
    assert_eq!(classify("guide.1.ml"), None);
    assert_eq!(classify("guide.1.xd"), None);
    assert_eq!(classify("guide.1.mdl"), None);
    assert_eq!(classify("guide.1.xl"), None);
}

#[test]
fn source_names_are_classified_as_built() {
    let stems = ["a", "guide", "tool.1", "x.y.z", ".hidden", "with space", "9", "md", "a.1.xml"];
    for stem in stems {
        for section in "0123456789".chars() {
            for (format, extension) in [(Format::Markdown, "md"), (Format::Docbook, "xml")] {
                let name = format!("{}.{}.{}", stem, section, extension);
                assert_eq!(classify(&name), found(section, format, stem));
            }
        }
    }
}

#[test]
fn names_without_a_recognized_suffix_are_never_classified() {
    let names = [
        "Makefile", "guide.1", "guide.1.", "guide.md.1", "guide.1.md/", "md.1.guide", ".1.", "..",
        "guide.1.m", "guide.1.x", "guide.1md", "guide1.md", "guide.1.markdown", "guide.1.xml.in",
    ];
    for name in names {
        assert_eq!(classify(name), None);
    }
}

#[test]
fn classification_is_repeatable() {
    assert_eq!(classify("tool.1.2.md"), classify("tool.1.2.md"));
    assert_eq!(classify("readme.txt"), classify("readme.txt"));
}
