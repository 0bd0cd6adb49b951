//! What the caller is told after a document has been written or read.

use vstd::prelude::*;

verus! {

/// The confirmation after a successful write to `path`.
pub open spec fn saved_message(path: Seq<char>) -> Seq<char> {
    "Document saved to: "@ + path
}

/// The error text after a failed write, carrying the system's description.
pub open spec fn save_failed_message(description: Seq<char>) -> Seq<char> {
    "Failed to save file: "@ + description
}

/// The error text after a failed read, carrying the system's description.
pub open spec fn load_failed_message(description: Seq<char>) -> Seq<char> {
    "Failed to load file: "@ + description
}

/// The greeting for `name`.
pub open spec fn greeting(name: Seq<char>) -> Seq<char> {
    "Hello, "@ + name + "! You've been greeted from Rust!"@
}

/// Whether `s` ends with `suffix`.
pub open spec fn ends_with(s: Seq<char>, suffix: Seq<char>) -> bool {
    suffix.len() <= s.len() && s.subrange(s.len() - suffix.len(), s.len() as int) == suffix
}

/// The result of a save to `path`, given how the write went: on success the
/// confirmation naming the path, on failure the save error.
pub open spec fn save_result(path: Seq<char>, written: Result<(), Seq<char>>) -> Result<
    Seq<char>,
    Seq<char>,
> {
    match written {
        Ok(()) => Ok(saved_message(path)),
        Err(d) => Err(save_failed_message(d)),
    }
}

/// The result of a load, given how the read went: on success the content as
/// read, on failure the load error.
pub open spec fn load_result(read: Result<Seq<char>, Seq<char>>) -> Result<Seq<char>, Seq<char>> {
    match read {
        Ok(c) => Ok(c),
        Err(d) => Err(load_failed_message(d)),
    }
}

/// The view of a result whose both sides are strings.
pub open spec fn result_view(r: Result<String, String>) -> Result<Seq<char>, Seq<char>> {
    match r {
        Ok(s) => Ok(s@),
        Err(e) => Err(e@),
    }
}

/// The view of the outcome of a write.
pub open spec fn written_view(w: Result<(), String>) -> Result<(), Seq<char>> {
    match w {
        Ok(()) => Ok(()),
        Err(e) => Err(e@),
    }
}

fn prefixed(prefix: &str, rest: &str) -> (r: String)
    ensures
        r@ == prefix@ + rest@,
{
    let mut r = String::from_str(prefix);
    r.append(rest);
    r
}

/// The greeting that the shell shows for `name`.
pub fn greet(name: &str) -> (r: String)
    ensures
        r@ == greeting(name@),
{
    let mut r = prefixed("Hello, ", name);
    r.append("! You've been greeted from Rust!");
    r
}

/// The confirmation after a successful write to `path`; it ends with the path.
pub fn saved_confirmation(path: &str) -> (r: String)
    ensures
        r@ == saved_message(path@),
        ends_with(r@, path@),
{
    let r = prefixed("Document saved to: ", path);
    assert(r@.subrange(r@.len() - path@.len(), r@.len() as int) =~= path@);
    r
}

/// Completes a save to `path` from the outcome of the write: the confirmation
/// when the write succeeded, the save error with the system's description when
/// it failed.
pub fn finish_save(path: &str, written: Result<(), String>) -> (r: Result<String, String>)
    ensures
        result_view(r) == save_result(path@, written_view(written)),
        r is Ok <==> written is Ok,
        r is Ok ==> ends_with(r->Ok_0@, path@),
{
    match written {
        Ok(()) => Ok(saved_confirmation(path)),
        Err(d) => Err(prefixed("Failed to save file: ", d.as_str())),
    }
}

/// Completes a load from the outcome of the read: the content exactly as read
/// when the read succeeded, the load error with the system's description when
/// it failed.
pub fn finish_load(read: Result<String, String>) -> (r: Result<String, String>)
    ensures
        result_view(r) == load_result(result_view(read)),
        r is Ok <==> read is Ok,
        read is Ok ==> r == read,
{
    match read {
        Ok(c) => Ok(c),
        Err(d) => Err(prefixed("Failed to load file: ", d.as_str())),
    }
}

/// A load hands back the content exactly as it was read, never altered and
/// never replaced by an empty success when the read failed.
pub proof fn lemma_load_keeps_content(read: Result<Seq<char>, Seq<char>>)
    ensures
        load_result(read) is Ok <==> read is Ok,
        read is Ok ==> load_result(read) == read,
{
}

/// A save succeeds exactly when its write did, and then its confirmation names
/// the path that was written.
pub proof fn lemma_save_names_its_path(path: Seq<char>, written: Result<(), Seq<char>>)
    ensures
        save_result(path, written) is Ok <==> written is Ok,
        save_result(path, written) is Ok ==> ends_with(save_result(path, written)->Ok_0, path),
{
    if written is Ok {
        assert(saved_message(path).subrange(
            saved_message(path).len() - path.len(),
            saved_message(path).len() as int,
        ) =~= path);
    }
}

} // verus!
