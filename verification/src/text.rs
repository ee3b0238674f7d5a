//! Small operations on strings.
use vstd::prelude::*;
use vstd::string::*;

verus! {

/// Whether the text `s` ends in `suffix`.
pub open spec fn has_suffix(s: Seq<char>, suffix: Seq<char>) -> bool {
    suffix.len() <= s.len() && s.skip(s.len() - suffix.len()) == suffix
}

/// Whether two texts are the same.
pub fn same_text(a: &str, b: &str) -> (same: bool)
    ensures
        same == (a@ == b@),
{
    a.to_owned() == b.to_owned()
}

/// Whether `s` ends in `suffix`.
pub fn ends_with(s: &str, suffix: &str) -> (found: bool)
    ensures
        found == has_suffix(s@, suffix@),
{
    let whole: usize = s.unicode_len();
    let tail: usize = suffix.unicode_len();
    if tail > whole {
        return false;
    }
    let end = s.substring_char(whole - tail, whole);
    assert(end@ =~= s@.skip(whole - tail));
    same_text(end, suffix)
}

/// The text `a` followed by the text `b`.
pub fn concat(a: &str, b: &str) -> (joined: String)
    ensures
        joined@ == a@ + b@,
{
    let mut joined = a.to_owned();
    joined.append(b);
    joined
}

/// A view of an optional value: the view of what it holds, if it holds anything.
pub open spec fn option_view<T: View>(value: Option<T>) -> Option<T::V> {
    match value {
        Some(inner) => Some(inner@),
        None => None,
    }
}

/// A copy of an optional text.
pub fn clone_text(text: &Option<String>) -> (copy: Option<String>)
    ensures
        option_view(copy) == option_view(*text),
{
    match text {
        Some(inner) => Some(inner.clone()),
        None => None,
    }
}

/// A copy of a list of bytes.
pub fn copy_bytes(bytes: &Vec<u8>) -> (copy: Vec<u8>)
    ensures
        copy@ == bytes@,
{
    vstd::slice::slice_to_vec(bytes.as_slice())
}

/// A copy of an optional list of bytes.
pub fn clone_bytes(bytes: &Option<Vec<u8>>) -> (copy: Option<Vec<u8>>)
    ensures
        option_view(copy) == option_view(*bytes),
{
    match bytes {
        Some(inner) => Some(copy_bytes(inner)),
        None => None,
    }
}

/// A text ends in another where its last characters are that other, and a text put behind another
/// keeps both whole.
pub proof fn law_texts_are_whole(a: &str, b: &str, found: bool, same: bool, both: String)
    requires
        call_ensures(ends_with, (a, b), found),
        call_ensures(same_text, (a, b), same),
        call_ensures(concat, (a, b), both),
    ensures
        found <==> exists|stem: Seq<char>| a@ == #[trigger] (stem + b@),
        same <==> a@ == b@,
        both@.len() == a@.len() + b@.len(),
        both@.take(a@.len() as int) == a@,
        both@.skip(a@.len() as int) == b@,
{
    assert((a@ + b@).take(a@.len() as int) =~= a@);
    assert((a@ + b@).skip(a@.len() as int) =~= b@);
    if found {
        let stem = a@.take(a@.len() - b@.len());
        assert(a@ =~= stem + b@);
    }
    if exists|stem: Seq<char>| a@ == #[trigger] (stem + b@) {
        let stem = choose|stem: Seq<char>| a@ == #[trigger] (stem + b@);
        assert((stem + b@).skip(a@.len() - b@.len()) =~= b@);
    }
}

/// Copies are what was copied.
pub proof fn law_copies_are_whole(
    text: Option<String>,
    text_copy: Option<String>,
    bytes: Vec<u8>,
    bytes_copy: Vec<u8>,
)
    requires
        call_ensures(clone_text, (&text,), text_copy),
        call_ensures(copy_bytes, (&bytes,), bytes_copy),
    ensures
        text is Some <==> text_copy is Some,
        text is Some ==> text->0@ == text_copy->0@,
        bytes@ == bytes_copy@,
{
}

} // verus!
