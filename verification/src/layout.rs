//! Where manual pages go.
//!
//! The destination holds one directory per section, named by the section's
//! digit, and the page of a source lies in its section's directory under the
//! source's stem: `<destination>/<section>/<stem>`.

use crate::classify::{is_section, Classification, Page};
use vstd::prelude::*;

verus! {

/// The path of `part` below `base`. The two are set apart by one `/`, which
/// is left out where `base` is empty or ends in one already.
pub open spec fn child(base: Seq<char>, part: Seq<char>) -> Seq<char> {
    if base.len() == 0 || base.last() == '/' {
        base + part
    } else {
        base + seq!['/'] + part
    }
}

/// The directory of `section` below `destination`.
pub open spec fn section_dir(destination: Seq<char>, section: char) -> Seq<char> {
    child(destination, seq![section])
}

/// The path of the manual page `page` below `destination`.
pub open spec fn page_path(destination: Seq<char>, page: Page) -> Seq<char> {
    child(section_dir(destination, page.section), page.stem)
}

/// Builds the path of `part` below `base`.
pub fn join(base: &str, part: &str) -> (path: String)
    ensures
        path@ == child(base@, part@),
{
    let len: usize = base.unicode_len();
    let mut path = base.to_owned();
    if len > 0 && base.get_char(len - 1) != '/' {
        path.append("/");
        proof {
            reveal_strlit("/");
            assert("/"@ =~= seq!['/']);
        }
    }
    path.append(part);
    path
}

/// The name of a section's directory: the digit as a string.
fn section_name(section: char) -> (name: &'static str)
    requires
        is_section(section),
    ensures
        name@ == seq![section],
{
    proof {
        reveal_strlit("0");
        reveal_strlit("1");
        reveal_strlit("2");
        reveal_strlit("3");
        reveal_strlit("4");
        reveal_strlit("5");
        reveal_strlit("6");
        reveal_strlit("7");
        reveal_strlit("8");
        reveal_strlit("9");
    }
    let name = match section {
        '0' => "0",
        '1' => "1",
        '2' => "2",
        '3' => "3",
        '4' => "4",
        '5' => "5",
        '6' => "6",
        '7' => "7",
        '8' => "8",
        _ => "9",
    };
    assert(name@ =~= seq![section]);
    name
}

/// Builds the path of the directory of `section` below `destination`.
pub fn section_directory(destination: &str, section: char) -> (path: String)
    requires
        is_section(section),
    ensures
        path@ == section_dir(destination@, section),
{
    join(destination, section_name(section))
}

/// Builds the path of the manual page of `found` below `destination`.
pub fn page_file(destination: &str, found: &Classification) -> (path: String)
    requires
        is_section(found.section),
    ensures
        path@ == page_path(destination@, found@),
{
    let directory = section_directory(destination, found.section);
    join(directory.as_str(), found.stem.as_str())
}

} // verus!
