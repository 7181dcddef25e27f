use vstd::prelude::*;

verus! {

/// Capacity, in bytes, of the short strings holding a PIN or a confirmed
/// passphrase.
pub const SHORT_STRING_CAPACITY: usize = 50;

#[verifier::external_type_specification]
#[verifier::external_body]
pub struct ExHeaplessString<const N: usize>(heapless::String<N>);

/// The characters held by a short string, in order.
pub uninterp spec fn short_chars(s: heapless::String<50>) -> Seq<char>;

/// Every character is ASCII, and so takes one byte in UTF-8.
pub open spec fn ascii_text(s: Seq<char>) -> bool {
    forall|i: int| 0 <= i < s.len() ==> (#[trigger] s[i] as int) < 128
}

/// Calls `heapless::String::new`: the string is empty.
#[verifier::external_body]
pub(crate) fn short_new() -> (r: heapless::String<50>)
    ensures
        short_chars(r) == Seq::<char>::empty(),
{
    heapless::String::new()
}

/// Calls `heapless::String::push_str`, telling whether it succeeded. The
/// bytes of `text` are appended when they fit into the capacity of 50 bytes;
/// otherwise the string is left as it was. Where the string and `text` are
/// ASCII, each character is one byte, so `text` fits exactly when the two
/// together have at most 50 characters.
#[verifier::external_body]
pub(crate) fn short_push_str(s: &mut heapless::String<50>, text: &str) -> (r: bool)
    ensures
        r ==> short_chars(*final(s)) == short_chars(*old(s)) + text@,
        !r ==> *final(s) == *old(s),
        ascii_text(short_chars(*old(s))) && ascii_text(text@) ==> (r <==> short_chars(*old(s)).len() + text@.len()
            <= SHORT_STRING_CAPACITY),
{
    s.push_str(text).is_ok()
}

/// Calls `heapless::String::pop`: the last character is removed and
/// returned, or `None` for an empty string.
#[verifier::external_body]
pub(crate) fn short_pop(s: &mut heapless::String<50>) -> (r: Option<char>)
    ensures
        short_chars(*old(s)).len() == 0 ==> r is None && *final(s) == *old(s),
        short_chars(*old(s)).len() > 0 ==> r == Some(short_chars(*old(s)).last()) && short_chars(*final(s))
            == short_chars(*old(s)).drop_last(),
{
    s.pop()
}

/// Calls `heapless::String::as_str`: the characters of the string.
#[verifier::external_body]
pub(crate) fn short_as_str(s: &heapless::String<50>) -> (r: &str)
    ensures
        r@ == short_chars(*s),
{
    s.as_str()
}

/// Calls `heapless::String::try_from(&str)`: a short string holding the
/// characters of `s` when its bytes fit into the capacity, `None` otherwise.
/// An ASCII text of at most 50 characters fits.
#[verifier::external_body]
pub(crate) fn short_try_from(s: &str) -> (r: Option<heapless::String<50>>)
    ensures
        r matches Some(h) ==> short_chars(h) == s@,
        ascii_text(s@) && s@.len() <= SHORT_STRING_CAPACITY ==> r is Some,
{
    heapless::String::try_from(s).ok()
}

} // verus!
