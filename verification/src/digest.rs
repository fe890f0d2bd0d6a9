//! SHA-256 digests of scanned content, fed in chunks, and their lower-case
//! hexadecimal form (the key under which hash indicators are looked up).

use vstd::prelude::*;
use crate::json::{hex_char, hex_digit};
use crate::text::{lower_ascii_seq, push_char};

verus! {

/// The SHA-256 hasher of the `sha2` crate, held whole: Verus cannot take the
/// declaration of its type, a chain of generic wrappers over type-level
/// integers.
#[verifier::external_body]
pub struct Sha256State {
    inner: sha2::Sha256,
}

/// The bytes fed to a hasher so far.
pub uninterp spec fn hashed_bytes(h: Sha256State) -> Seq<u8>;

/// The SHA-256 digest of `data` (FIPS 180-4), as `sha2` computes it.
pub uninterp spec fn sha256_of(data: Seq<u8>) -> Seq<u8>;

/// `Sha256::new` (`Digest::new`): a hasher that has been fed nothing.
#[verifier::external_body]
fn hasher_new() -> (h: Sha256State)
    ensures
        hashed_bytes(h) == Seq::<u8>::empty(),
{
    let inner: sha2::Sha256 = sha2::Digest::new();
    Sha256State { inner }
}

/// `Digest::update`: the hasher has also been fed `chunk`, after what it
/// held.
#[verifier::external_body]
fn hasher_update(h: &mut Sha256State, chunk: &[u8])
    ensures
        hashed_bytes(*final(h)) == hashed_bytes(*old(h)) + chunk@,
{
    sha2::Digest::update(&mut h.inner, chunk);
}

/// `Digest::finalize`: the 32-byte digest of everything fed, as a vector.
#[verifier::external_body]
fn hasher_finish(h: Sha256State) -> (d: Vec<u8>)
    ensures
        d@ == sha256_of(hashed_bytes(h)),
        d@.len() == 32,
{
    sha2::Digest::finalize(h.inner).to_vec()
}

/// The lower-case hexadecimal form of `d`: two digits per byte, high first.
pub open spec fn hex_lower_of(d: Seq<u8>) -> Seq<char>
    decreases d.len(),
{
    if d.len() == 0 {
        Seq::empty()
    } else {
        hex_lower_of(d.drop_last()) + seq![
            hex_digit((d.last() / 16) as nat),
            hex_digit((d.last() % 16) as nat),
        ]
    }
}

/// A hexadecimal form has two characters per byte and no upper-case letter.
pub proof fn lemma_hex_lower_shape(d: Seq<u8>)
    ensures
        hex_lower_of(d).len() == 2 * d.len(),
        lower_ascii_seq(hex_lower_of(d)) == hex_lower_of(d),
    decreases d.len(),
{
    if d.len() > 0 {
        lemma_hex_lower_shape(d.drop_last());
        let h = hex_lower_of(d);
        assert forall|i: int| 0 <= i < h.len() implies crate::text::lower_ascii(#[trigger] h[i]) == h[i] by {
            if i < h.len() - 2 {
                assert(h[i] == hex_lower_of(d.drop_last())[i]);
                assert(lower_ascii_seq(hex_lower_of(d.drop_last()))[i] == hex_lower_of(d.drop_last())[i]);
            }
        }
        assert(lower_ascii_seq(h) =~= h);
    }
}

/// The lower-case hexadecimal form of a byte string.
pub fn hex_lower(d: &[u8]) -> (r: String)
    ensures
        r@ == hex_lower_of(d@),
        r@.len() == 2 * d@.len(),
        lower_ascii_seq(r@) == r@,
{
    let mut r = String::new();
    let mut i: usize = 0;
    assert(d@.take(0) =~= Seq::<u8>::empty());
    while i < d.len()
        invariant
            i <= d@.len(),
            r@ == hex_lower_of(d@.take(i as int)),
        decreases d@.len() - i,
    {
        let b = d[i];
        push_char(&mut r, hex_char((b / 16) as u32));
        push_char(&mut r, hex_char((b % 16) as u32));
        proof {
            assert(d@.take(i + 1).drop_last() =~= d@.take(i as int));
            assert(d@.take(i + 1).last() == b);
            assert(r@ =~= hex_lower_of(d@.take(i + 1)));
        }
        i = i + 1;
    }
    assert(d@.take(i as int) =~= d@);
    proof {
        lemma_hex_lower_shape(d@);
    }
    r
}

/// A SHA-256 computation fed in chunks.
pub struct Sha256Stream {
    state: Sha256State,
}

impl Sha256Stream {
    /// Every byte fed so far, in order.
    pub closed spec fn fed(&self) -> Seq<u8> {
        hashed_bytes(self.state)
    }

    /// A computation that has been fed nothing.
    pub fn new() -> (s: Self)
        ensures
            s.fed() == Seq::<u8>::empty(),
    {
        Sha256Stream { state: hasher_new() }
    }

    /// Feeds `chunk` after what was fed before.
    pub fn update(&mut self, chunk: &[u8])
        ensures
            final(self).fed() == old(self).fed() + chunk@,
    {
        hasher_update(&mut self.state, chunk);
    }

    /// The 32-byte digest of everything fed.
    pub fn finish(self) -> (d: Vec<u8>)
        ensures
            d@ == sha256_of(self.fed()),
            d@.len() == 32,
    {
        hasher_finish(self.state)
    }

    /// The digest of everything fed, in lower-case hexadecimal (64
    /// characters): the form `Scanner::hash_lookup` keys hash indicators by.
    pub fn finish_hex(self) -> (r: String)
        ensures
            r@ == hex_lower_of(sha256_of(self.fed())),
            r@.len() == 64,
            lower_ascii_seq(r@) == r@,
    {
        let d = self.finish();
        hex_lower(d.as_slice())
    }
}

/// The lower-case hexadecimal SHA-256 digest of `data`.
pub fn sha256_hex(data: &[u8]) -> (r: String)
    ensures
        r@ == hex_lower_of(sha256_of(data@)),
        r@.len() == 64,
{
    let mut s = Sha256Stream::new();
    s.update(data);
    assert(Seq::<u8>::empty() + data@ =~= data@);
    s.finish_hex()
}

} // verus!
