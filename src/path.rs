//! Where the document lives when the caller names no file.

use vstd::prelude::*;

verus! {

/// The file name of the default document, joined to the home directory.
pub open spec fn document_file_name() -> Seq<char> {
    "/wryte_document.html"@
}

/// The directory used when the home directory is not known: the current one.
pub open spec fn fallback_base() -> Seq<char> {
    "."@
}

/// The default document path for the given home directory, if any.
pub open spec fn default_path(home: Option<Seq<char>>) -> Seq<char> {
    match home {
        Some(h) => h + document_file_name(),
        None => fallback_base() + document_file_name(),
    }
}

/// The path that the default save and load use: `<home>/wryte_document.html`,
/// or `./wryte_document.html` when the home directory is not set.
pub fn resolve_default_path(home: Option<&str>) -> (r: String)
    ensures
        r@ == default_path(
            match home {
                Some(h) => Some(h@),
                None => None,
            },
        ),
        home is None ==> r@ == "./wryte_document.html"@,
{
    let mut r = match home {
        Some(h) => String::from_str(h),
        None => String::from_str("."),
    };
    r.append("/wryte_document.html");
    proof {
        reveal_strlit(".");
        reveal_strlit("/wryte_document.html");
        reveal_strlit("./wryte_document.html");
        assert(("."@ + "/wryte_document.html"@) =~= "./wryte_document.html"@);
    }
    r
}

/// A default save and a later default load, given the same home directory,
/// resolve to the same file; without a home directory both use
/// `./wryte_document.html`.
pub proof fn lemma_default_save_and_load_agree(
    home_at_save: Option<Seq<char>>,
    home_at_load: Option<Seq<char>>,
)
    requires
        home_at_save == home_at_load,
    ensures
        default_path(home_at_save) == default_path(home_at_load),
        home_at_save is None ==> default_path(home_at_save) == "./wryte_document.html"@,
{
    reveal_strlit(".");
    reveal_strlit("/wryte_document.html");
    reveal_strlit("./wryte_document.html");
    assert(("."@ + "/wryte_document.html"@) =~= "./wryte_document.html"@);
}

} // verus!
