//! Bytes that are overwritten when they are dropped: keys, seeds, images and
//! what is typed at a prompt.

use vstd::prelude::*;

verus! {

/// Bytes held in `zeroize`'s `Zeroizing`, which overwrites them on drop.
///
/// No `Debug` and no `Clone`: a copy is made by name, with
/// [`Scrubbed::duplicate`], and nothing prints one.
#[verifier::external_body]
pub struct Scrubbed {
    held: zeroize::Zeroizing<Vec<u8>>,
}

/// The bytes a [`Scrubbed`] holds while it lives.
pub uninterp spec fn scrubbed_bytes(s: Scrubbed) -> Seq<u8>;

impl View for Scrubbed {
    type V = Seq<u8>;

    open spec fn view(&self) -> Seq<u8> {
        scrubbed_bytes(*self)
    }
}

/// `zeroize::Zeroizing::new`, which moves the vector in as it is: what is held
/// is what was given, and no second copy of it is left behind.
#[verifier::external_body]
fn zeroizing_new(bytes: Vec<u8>) -> (s: Scrubbed)
    ensures
        scrubbed_bytes(s) == bytes@,
{
    Scrubbed { held: zeroize::Zeroizing::new(bytes) }
}

/// `Deref` for `zeroize::Zeroizing`, which lends the value it was made from.
#[verifier::external_body]
fn zeroizing_deref(s: &Scrubbed) -> (bytes: &Vec<u8>)
    ensures
        bytes@ == scrubbed_bytes(*s),
{
    &s.held
}

/// `DerefMut` for `zeroize::Zeroizing`, which lends the value it was made from
/// to be changed: once the borrow ends, what is held is what was left there.
#[verifier::external_body]
fn zeroizing_deref_mut(s: &mut Scrubbed) -> (bytes: &mut Vec<u8>)
    ensures
        bytes@ == scrubbed_bytes(*old(s)),
        scrubbed_bytes(*final(s)) == final(bytes)@,
{
    &mut s.held
}

impl Scrubbed {
    /// Hold `bytes`.
    pub fn new(bytes: Vec<u8>) -> (s: Scrubbed)
        ensures
            s@ == bytes@,
    {
        zeroizing_new(bytes)
    }

    /// The bytes held.
    pub fn as_slice(&self) -> (bytes: &[u8])
        ensures
            bytes@ == self@,
    {
        zeroizing_deref(self).as_slice()
    }

    /// How many bytes are held.
    pub fn len(&self) -> (n: usize)
        ensures
            n == self@.len(),
    {
        zeroizing_deref(self).len()
    }

    /// Put one more byte at the end.
    pub fn push(&mut self, byte: u8)
        ensures
            final(self)@ == old(self)@.push(byte),
    {
        zeroizing_deref_mut(self).push(byte);
    }

    /// A second copy of the same bytes, overwritten on drop as this one is.
    pub fn duplicate(&self) -> (s: Scrubbed)
        ensures
            s@ == self@,
    {
        Scrubbed::new(copied(self.as_slice()))
    }

    /// Whether the two hold the same bytes, looking at every byte of both
    /// whatever the first difference is.
    pub fn ct_eq(&self, other: &Scrubbed) -> (same: bool)
        ensures
            same == (self@ == other@),
    {
        let a = self.as_slice();
        let b = other.as_slice();
        if a.len() != b.len() {
            return false;
        }
        let mut difference: u8 = 0;
        assert(a@.take(0) =~= b@.take(0));
        let mut i: usize = 0;
        while i < a.len()
            invariant
                a@ == self@,
                b@ == other@,
                a.len() == b.len(),
                i <= a.len(),
                difference == 0 <==> a@.take(i as int) == b@.take(i as int),
            decreases a.len() - i,
        {
            let x: u8 = a[i];
            let y: u8 = b[i];
            let before: u8 = difference;
            difference = before | (x ^ y);
            assert((before | (x ^ y)) == 0 <==> before == 0 && x == y) by (bit_vector);
            proof {
                let (s, t) = (a@.take(i + 1), b@.take(i + 1));
                assert(s =~= a@.take(i as int).push(x));
                assert(t =~= b@.take(i as int).push(y));
                if s == t {
                    assert(s.drop_last() =~= a@.take(i as int));
                    assert(t.drop_last() =~= b@.take(i as int));
                    assert(s.last() == x && t.last() == y);
                }
            }
            i = i + 1;
        }
        assert(a@.take(a.len() as int) =~= a@);
        assert(b@.take(a.len() as int) =~= b@);
        difference == 0
    }
}

/// A vector of the same bytes, made at its exact length.
pub fn copied(bytes: &[u8]) -> (out: Vec<u8>)
    ensures
        out@ == bytes@,
{
    let mut out: Vec<u8> = Vec::with_capacity(bytes.len());
    let mut i: usize = 0;
    while i < bytes.len()
        invariant
            i <= bytes.len(),
            out@ == bytes@.take(i as int),
        decreases bytes.len() - i,
    {
        out.push(bytes[i]);
        assert(bytes@.take(i + 1) =~= bytes@.take(i as int).push(bytes@[i as int]));
        i = i + 1;
    }
    assert(bytes@.take(bytes.len() as int) =~= bytes@);
    out
}

/// Whether two slices hold the same bytes.
pub fn same_bytes(a: &[u8], b: &[u8]) -> (same: bool)
    ensures
        same == (a@ == b@),
{
    if a.len() != b.len() {
        return false;
    }
    let mut i: usize = 0;
    while i < a.len()
        invariant
            a.len() == b.len(),
            i <= a.len(),
            forall|j: int| 0 <= j < i ==> a@[j] == b@[j],
        decreases a.len() - i,
    {
        if a[i] != b[i] {
            return false;
        }
        i = i + 1;
    }
    assert(a@ =~= b@);
    true
}

/// What is held is what was given, whichever way it is looked at or copied, and
/// a byte put in stands after the rest.
pub proof fn law_what_is_held_is_what_was_given(
    bytes: Vec<u8>,
    s: Scrubbed,
    lent: &[u8],
    n: usize,
    copy: Scrubbed,
    grown: &mut Scrubbed,
    byte: u8,
    whole: Vec<u8>,
)
    requires
        call_ensures(Scrubbed::new, (bytes,), s),
        call_ensures(Scrubbed::as_slice, (&s,), lent),
        call_ensures(Scrubbed::len, (&s,), n),
        call_ensures(Scrubbed::duplicate, (&s,), copy),
        call_ensures(Scrubbed::push, (grown, byte), ()),
        call_ensures(copied, (lent,), whole),
    ensures
        lent@ == bytes@,
        n == bytes@.len(),
        copy@ == bytes@,
        whole@ == bytes@,
        final(grown)@.len() == old(grown)@.len() + 1,
        final(grown)@.drop_last() == old(grown)@,
        final(grown)@.last() == byte,
{
    assert(final(grown)@.drop_last() =~= old(grown)@);
}

/// Two secrets, and two runs of bytes, are the same exactly where they are as
/// long and agree at every place.
pub proof fn law_the_same_bytes_agree_at_every_place(
    a: Scrubbed,
    b: Scrubbed,
    same_secret: bool,
    x: &[u8],
    y: &[u8],
    same: bool,
)
    requires
        call_ensures(Scrubbed::ct_eq, (&a, &b), same_secret),
        call_ensures(same_bytes, (x, y), same),
    ensures
        same_secret <==> a@.len() == b@.len() && forall|i: int| 0 <= i < a@.len() ==> a@[i] == b@[i],
        same <==> x@.len() == y@.len() && forall|i: int| 0 <= i < x@.len() ==> x@[i] == y@[i],
{
    if a@.len() == b@.len() && forall|i: int| 0 <= i < a@.len() ==> a@[i] == b@[i] {
        assert(a@ =~= b@);
    }
    if x@.len() == y@.len() && forall|i: int| 0 <= i < x@.len() ==> x@[i] == y@[i] {
        assert(x@ =~= y@);
    }
}

} // verus!
