use crate::util::bytes::{contains_contiguous, is_sub};
use vstd::prelude::*;
use vstd::utf8::{encode_utf8, valid_utf8};

verus! {

/// `String::from_utf8` of the standard library: the string whose bytes are
/// `b`, if and only if `b` is valid UTF-8.
#[verifier::external_body]
pub(crate) fn string_from_utf8(b: Vec<u8>) -> (r: Option<String>)
    ensures
        r.is_some() == valid_utf8(b@),
        r matches Some(s) ==> encode_utf8(s@) == b@,
{
    String::from_utf8(b).ok()
}

/// One of the strings of `sv` stands, as bytes, somewhere in `s`.
pub open spec fn contains_any(s: Seq<char>, sv: Seq<String>) -> bool {
    exists|i: int|
        0 <= i < sv.len() && contains_contiguous(encode_utf8(s), encode_utf8(#[trigger] sv[i]@))
}

/// One of the strings of `sv` is `s`.
pub open spec fn has_string(sv: Seq<String>, s: Seq<char>) -> bool {
    exists|i: int| 0 <= i < sv.len() && (#[trigger] sv[i])@ == s
}

/// Whether `s` contains any of the strings of `sv`.
pub fn string_contains_any_substring(s: &str, sv: &[String]) -> (r: bool)
    ensures
        r == contains_any(s@, sv@),
{
    let mut i: usize = 0;
    while i < sv.len()
        invariant
            i <= sv@.len(),
            forall|j: int|
                0 <= j < i ==> !contains_contiguous(encode_utf8(s@), encode_utf8(#[trigger] sv@[j]@)),
        decreases sv@.len() - i,
    {
        if is_sub(s.as_bytes(), sv[i].as_str().as_bytes()) {
            return true;
        }
        i += 1;
    }
    false
}

/// Whether one of the strings of `sv` is exactly `s`.
pub fn string_vec_contains_substring(sv: &[String], s: &str) -> (r: bool)
    ensures
        r == has_string(sv@, s@),
{
    let wanted = s.to_owned();
    let mut i: usize = 0;
    while i < sv.len()
        invariant
            i <= sv@.len(),
            wanted@ == s@,
            forall|j: int| 0 <= j < i ==> (#[trigger] sv@[j])@ != s@,
        decreases sv@.len() - i,
    {
        if sv[i] == wanted {
            return true;
        }
        i += 1;
    }
    false
}

/// A copy of a list of strings.
pub fn clone_strings(sv: &[String]) -> (copy: Vec<String>)
    ensures
        copy@ == sv@,
{
    let mut copy: Vec<String> = Vec::new();
    let mut i: usize = 0;
    while i < sv.len()
        invariant
            i <= sv@.len(),
            copy@ == sv@.take(i as int),
        decreases sv@.len() - i,
    {
        copy.push(sv[i].clone());
        assert(copy@ =~= sv@.take(i + 1));
        i += 1;
    }
    assert(sv@.take(sv@.len() as int) =~= sv@);
    copy
}

} // verus!
