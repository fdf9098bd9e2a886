//! Names on the wire: fixed-length, null-padded UTF-8.
use vstd::prelude::*;
use vstd::slice::slice_subrange;
use crate::packet::{LobbyInfo, Participant};

verus! {

/// Whether `std::str::from_utf8` accepts `b`, that is, `b` is valid UTF-8.
pub uninterp spec fn utf8_valid(b: Seq<u8>) -> bool;

/// The text that `std::str::from_utf8` decodes from valid UTF-8 `b`.
pub uninterp spec fn utf8_text(b: Seq<u8>) -> Seq<char>;

/// Relies on `std::str::from_utf8`: it decodes `b` when `b` is valid UTF-8
/// and fails otherwise; an empty input is valid and decodes to the empty text.
#[verifier::external_body]
fn decode_utf8(b: &[u8]) -> (r: Option<String>)
    ensures
        r.is_some() == utf8_valid(b@),
        r.is_some() ==> r.unwrap()@ == utf8_text(b@),
        b@.len() == 0 ==> r.is_some() && r.unwrap()@.len() == 0,
{
    match std::str::from_utf8(b) {
        Ok(s) => Some(s.to_string()),
        Err(_) => None,
    }
}

/// The text of a null-padded name: the bytes before the first null, decoded
/// as UTF-8; the empty text where they are not valid UTF-8.
pub open spec fn name_text(b: Seq<u8>) -> Seq<char> {
    if utf8_valid(before_null(b)) {
        utf8_text(before_null(b))
    } else {
        Seq::empty()
    }
}

/// The bytes of `b` before its first null byte (all of `b` when it holds none).
pub open spec fn before_null(b: Seq<u8>) -> Seq<u8>
    decreases b.len(),
{
    if b.len() == 0 {
        b
    } else if b[0] == 0 {
        Seq::empty()
    } else {
        seq![b[0]] + before_null(b.drop_first())
    }
}

proof fn lemma_before_null(b: Seq<u8>, n: int)
    requires
        0 <= n <= b.len(),
        forall|j: int| 0 <= j < n ==> b[j] != 0,
        n < b.len() ==> b[n] == 0,
    ensures
        before_null(b) == b.subrange(0, n),
    decreases n,
{
    if n == 0 {
        if b.len() > 0 {
            assert(b[0] == 0);
        }
        assert(b.subrange(0, 0) =~= Seq::<u8>::empty());
        assert(b.len() == 0 ==> b =~= Seq::<u8>::empty());
    } else {
        let t = b.drop_first();
        assert forall|j: int| 0 <= j < n - 1 implies t[j] != 0 by {
            assert(t[j] == b[j + 1]);
        }
        lemma_before_null(t, n - 1);
        assert(b.subrange(0, n) =~= seq![b[0]] + t.subrange(0, n - 1));
    }
}

/// The number of bytes before the first null byte of `b`.
fn text_len(b: &[u8]) -> (n: usize)
    ensures
        n <= b@.len(),
        before_null(b@) == b@.subrange(0, n as int),
{
    let mut n: usize = 0;
    while n < b.len() && b[n] != 0
        invariant
            n <= b@.len(),
            forall|j: int| 0 <= j < n ==> b@[j] != 0,
        decreases b@.len() - n,
    {
        n += 1;
    }
    proof {
        lemma_before_null(b@, n as int);
    }
    n
}

/// The text of a null-padded UTF-8 name: the bytes before the first null,
/// decoded; the empty string where they are not valid UTF-8.
pub fn padded_name(b: &[u8]) -> (r: String)
    ensures
        r@ == name_text(b@),
{
    let n = text_len(b);
    match decode_utf8(slice_subrange(b, 0, n)) {
        Some(s) => s,
        None => String::new(),
    }
}

impl Participant {
    pub fn name_to_string(&self) -> (r: String)
        ensures
            r@ == name_text(self.name@),
    {
        padded_name(self.name.as_slice())
    }
}

impl LobbyInfo {
    pub fn name_to_string(&self) -> (r: String)
        ensures
            r@ == name_text(self.name@),
    {
        padded_name(self.name.as_slice())
    }
}

} // verus!
