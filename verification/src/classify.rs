//! Classification of file names.
//!
//! A file is a documentation source when its name ends in a dot, one digit,
//! a dot, and `md` or `xml`. Nothing else about the name matters: whatever
//! stands before that suffix is the stem, dots and digits included.

use vstd::prelude::*;

verus! {

/// The markup a documentation source is written in.
#[derive(Clone, Copy, Debug, PartialEq, Eq, Structural)]
pub enum Format {
    /// Lightweight markup, in files ending in `md`.
    Markdown,
    /// Structured markup, in files ending in `xml`.
    Docbook,
}

/// What a file name says about a documentation source.
#[derive(Clone, Debug, PartialEq, Eq)]
pub struct Classification {
    /// The manual section: one of the characters `0` to `9`.
    pub section: char,
    /// The markup of the source.
    pub format: Format,
    /// The name without the section and the extension.
    pub stem: String,
}

/// A manual page as the contracts see it.
pub struct Page {
    pub stem: Seq<char>,
    pub section: char,
    pub format: Format,
}

impl View for Classification {
    type V = Page;

    open spec fn view(&self) -> Page {
        Page { stem: self.stem@, section: self.section, format: self.format }
    }
}

/// The file extension of a format, without the dot.
pub open spec fn extension(format: Format) -> Seq<char> {
    match format {
        Format::Markdown => seq!['m', 'd'],
        Format::Docbook => seq!['x', 'm', 'l'],
    }
}

/// Whether `c` is one of the ASCII digits `0` to `9`.
pub open spec fn is_section(c: char) -> bool {
    '0' <= c <= '9'
}

/// The end of a source name: a dot, the section, a dot, and the extension
/// of the format.
pub open spec fn suffix(section: char, format: Format) -> Seq<char> {
    seq!['.', section, '.'] + extension(format)
}

/// The name of the file that holds the source of `page`: the stem, and
/// the suffix of the section and the format.
pub open spec fn source_name(page: Page) -> Seq<char> {
    page.stem + suffix(page.section, page.format)
}

/// Whether `name` ends in a dot, a digit, a dot and the extension of `format`.
pub open spec fn has_suffix(name: Seq<char>, format: Format) -> bool {
    let stem_len = name.len() - extension(format).len() - 3;
    &&& stem_len >= 0
    &&& name[stem_len] == '.'
    &&& is_section(name[stem_len + 1])
    &&& name[stem_len + 2] == '.'
    &&& name.skip(stem_len + 3) =~= extension(format)
}

/// The page that `name` is read as, once it is known to end in the suffix
/// of `format`.
pub open spec fn page_of(name: Seq<char>, format: Format) -> Page {
    let stem_len = name.len() - extension(format).len() - 3;
    Page { stem: name.take(stem_len), section: name[stem_len + 1], format }
}

/// The page whose source a file of this name holds, if it holds one.
pub open spec fn classification(name: Seq<char>) -> Option<Page> {
    if has_suffix(name, Format::Markdown) {
        Some(page_of(name, Format::Markdown))
    } else if has_suffix(name, Format::Docbook) {
        Some(page_of(name, Format::Docbook))
    } else {
        None
    }
}

/// A source name is classified as the page it was made for, whatever the
/// stem holds: the section is its digit, the format the one of its
/// extension, and the stem everything before the suffix.
pub proof fn lemma_source_name_classified(page: Page)
    requires
        is_section(page.section),
    ensures
        classification(source_name(page)) == Some(page),
{
    let name = source_name(page);
    let stem_len = page.stem.len() as int;
    assert(name.skip(stem_len + 3) =~= extension(page.format));
    assert(name.take(stem_len) =~= page.stem);
    if page.format == Format::Docbook && has_suffix(name, Format::Markdown) {
        // The name ends in `l`, and a Markdown source ends in `d`.
        assert(name.skip(name.len() - 2)[1] == 'd');
    }
}

/// A name is classified exactly when it is the source name of a page with
/// a digit for its section, and then as that page.
pub proof fn lemma_classification_is_source_name(name: Seq<char>)
    ensures
        match classification(name) {
            Some(page) => is_section(page.section) && source_name(page) == name,
            None => forall|page: Page| is_section(page.section) ==> source_name(page) != name,
        },
{
    match classification(name) {
        Some(page) => {
            let stem_len = name.len() - extension(page.format).len() - 3;
            assert forall|i: int| stem_len + 3 <= i < name.len() implies source_name(page)[i]
                == name[i] by {
                assert(name.skip(stem_len + 3)[i - stem_len - 3] == name[i]);
            }
            assert(source_name(page) =~= name);
        },
        None => {
            assert forall|page: Page| is_section(page.section) implies source_name(page)
                != name by {
                lemma_source_name_classified(page);
            }
        },
    }
}

/// A name that ends in none of the recognized suffixes is not classified.
pub proof fn lemma_unrecognized_name(name: Seq<char>)
    requires
        forall|section: char, format: Format|
            is_section(section) ==> !(#[trigger] suffix(section, format)).is_suffix_of(name),
    ensures
        classification(name) is None,
{
    if let Some(page) = classification(name) {
        lemma_classification_is_source_name(name);
        let end = suffix(page.section, page.format);
        assert(name =~= page.stem + end);
        assert(name.skip(name.len() - end.len()) =~= end);
        assert(end.is_suffix_of(name));
    }
}

/// Tells whether `c` is an ASCII digit.
fn is_digit(c: char) -> (b: bool)
    ensures
        b == is_section(c),
{
    '0' <= c && c <= '9'
}

/// Finds the suffix that `name` ends in, if it ends in one: the format, and
/// how many characters stand before the suffix.
fn find_suffix(name: &str) -> (found: Option<(Format, usize)>)
    ensures
        match found {
            Some((format, stem_len)) => {
                &&& classification(name@) == Some(page_of(name@, format))
                &&& stem_len == name@.len() - extension(format).len() - 3
                &&& name@.len() <= usize::MAX
            },
            None => classification(name@) is None,
        },
{
    let len: usize = name.unicode_len();
    if len < 5 {
        return None;
    }
    let last: char = name.get_char(len - 1);
    let format = if last == 'd' {
        Format::Markdown
    } else if last == 'l' {
        Format::Docbook
    } else {
        return None;
    };
    let stem_len: usize = match format {
        Format::Markdown => len - 5,
        Format::Docbook => {
            if len < 6 {
                return None;
            }
            len - 6
        },
    };
    let dotted = name.get_char(stem_len) == '.' && is_digit(name.get_char(stem_len + 1))
        && name.get_char(stem_len + 2) == '.';
    let extended = match format {
        Format::Markdown => name.get_char(stem_len + 3) == 'm',
        Format::Docbook => name.get_char(stem_len + 3) == 'x' && name.get_char(stem_len + 4)
            == 'm',
    };
    if dotted && extended {
        Some((format, stem_len))
    } else {
        None
    }
}

/// Classifies a file name.
///
/// Returns the section, the format and the stem when the name ends in
/// `.<digit>.md` or `.<digit>.xml`, and `None` for every other name. So the
/// source name of a page is classified as that page, and a name that ends
/// in no suffix of a section and a format is not classified.
pub fn classify(name: &str) -> (result: Option<Classification>)
    ensures
        match result {
            Some(found) => classification(name@) == Some(found@),
            None => classification(name@) is None,
        },
        forall|page: Page|
            is_section(page.section) && name@ == #[trigger] source_name(page) ==> (result matches Some(
                found,
            ) && found@ == page),
        (forall|section: char, format: Format|
            is_section(section) ==> !(#[trigger] suffix(section, format)).is_suffix_of(name@))
            ==> result is None,
{
    let result = match find_suffix(name) {
        Some((format, stem_len)) => {
            let section = name.get_char(stem_len + 1);
            let stem = name.substring_char(0, stem_len).to_owned();
            assert(name@.subrange(0, stem_len as int) == name@.take(stem_len as int));
            Some(Classification { section, format, stem })
        },
        None => None,
    };
    proof {
        assert forall|page: Page|
            is_section(page.section) && name@ == #[trigger] source_name(
                page,
            ) implies classification(name@) == Some(page) by {
            lemma_source_name_classified(page);
        }
        if forall|section: char, format: Format|
            is_section(section) ==> !(#[trigger] suffix(section, format)).is_suffix_of(name@) {
            lemma_unrecognized_name(name@);
        }
    }
    result
}

} // verus!
