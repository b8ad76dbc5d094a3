//! Container for sensitive bytes that are erased on release.

use vstd::prelude::*;

verus! {

/// The byte string of length `n` that holds only zeros.
pub open spec fn zeros(n: nat) -> Seq<u8> {
    Seq::new(n, |i: int| 0u8)
}

/// Calls `fill` of std's slices on the vector.
///
/// Trusted: every element of the vector is overwritten with `value` and the
/// length stays as it was.  `fill` neither panics nor allocates for bytes.
#[verifier::external_body]
fn fill_bytes(bytes: &mut Vec<u8>, value: u8)
    ensures
        final(bytes)@ == Seq::new(old(bytes)@.len(), |i: int| value),
    opens_invariants none
    no_unwind
{
    bytes.fill(value);
}

/// Sensitive byte material: a private key, a PIN hash, a token.
///
/// The bytes can be read only through [`Secret::expose`], copied only through
/// [`Secret::duplicate`], and the storage behind them is overwritten with
/// zeros when the value is wiped, replaced, released or dropped.
pub struct Secret {
    bytes: Vec<u8>,
}

impl View for Secret {
    type V = Seq<u8>;

    closed spec fn view(&self) -> Seq<u8> {
        self.bytes@
    }
}

impl Drop for Secret {
    /// Overwrites the storage with zeros before it is given back.
    fn drop(&mut self)
        ensures
            final(self)@ == zeros(old(self)@.len()),
        opens_invariants none
        no_unwind
    {
        self.wipe();
    }
}

impl Secret {
    /// Takes ownership of raw bytes that are already exposed to the caller.
    pub fn from_exposed_secret(bytes: Vec<u8>) -> (secret: Secret)
        ensures
            secret@ == bytes@,
    {
        Secret { bytes }
    }

    /// The number of bytes held.
    pub fn len(&self) -> (n: usize)
        ensures
            n == self@.len(),
    {
        self.bytes.len()
    }

    /// Read access to the bytes; a call marks a place that handles sensitive data.
    pub fn expose(&self) -> (bytes: &Vec<u8>)
        ensures
            bytes@ == self@,
    {
        &self.bytes
    }

    /// An explicit copy of the secret, with storage of its own.
    pub fn duplicate(&self) -> (copy: Secret)
        ensures
            copy@ == self@,
    {
        let mut bytes: Vec<u8> = Vec::with_capacity(self.bytes.len());
        let mut i: usize = 0;
        while i < self.bytes.len()
            invariant
                i <= self.bytes.len(),
                bytes@ == self.bytes@.take(i as int),
            decreases self.bytes.len() - i,
        {
            bytes.push(self.bytes[i]);
            assert(self.bytes@.take(i + 1) == self.bytes@.take(i as int).push(self.bytes@[i as int]));
            i = i + 1;
        }
        assert(self.bytes@.take(i as int) == self.bytes@);
        Secret { bytes }
    }

    /// Overwrites every byte with zero, in place; the length stays.
    pub fn wipe(&mut self)
        ensures
            final(self)@ == zeros(old(self)@.len()),
        opens_invariants none
        no_unwind
    {
        fill_bytes(&mut self.bytes, 0u8);
    }

    /// Puts `bytes` in place of the secret and hands back the storage that
    /// held the old one, wiped.
    pub fn replace(&mut self, bytes: Vec<u8>) -> (storage: Vec<u8>)
        ensures
            final(self)@ == bytes@,
            storage@ == zeros(old(self)@.len()),
    {
        self.wipe();
        let mut storage = bytes;
        core::mem::swap(&mut self.bytes, &mut storage);
        storage
    }

    /// Ends the secret's life and hands back the storage that held it, wiped.
    pub fn release(self) -> (storage: Vec<u8>)
        ensures
            storage@ == zeros(self@.len()),
    {
        let mut secret = self;
        secret.wipe();
        let mut storage: Vec<u8> = Vec::new();
        core::mem::swap(&mut secret.bytes, &mut storage);
        storage
    }

    /// Whether two secrets hold the same bytes.  The bytes of two secrets of
    /// one length are all read, whatever they hold.
    pub fn matches(&self, other: &Secret) -> (same: bool)
        ensures
            same == (self@ == other@),
    {
        let n = self.bytes.len();
        if n != other.bytes.len() {
            return false;
        }
        let mut difference: u8 = 0;
        let mut i: usize = 0;
        assert(self.bytes@.take(0) =~= other.bytes@.take(0));
        while i < n
            invariant
                i <= n,
                n == self.bytes@.len(),
                n == other.bytes@.len(),
                difference == 0 <==> self.bytes@.take(i as int) == other.bytes@.take(i as int),
            decreases n - i,
        {
            let a = self.bytes[i];
            let b = other.bytes[i];
            let ghost before = difference;
            difference = difference | (a ^ b);
            proof {
                assert((before | (a ^ b)) == 0 <==> (before == 0 && a == b)) by (bit_vector);
                let x = self.bytes@.take(i + 1);
                let y = other.bytes@.take(i + 1);
                assert(x.drop_last() == self.bytes@.take(i as int));
                assert(y.drop_last() == other.bytes@.take(i as int));
                assert(x.last() == a && y.last() == b);
                if before == 0 && a == b {
                    assert(x =~= x.drop_last().push(a));
                    assert(y =~= y.drop_last().push(b));
                }
            }
            i = i + 1;
        }
        assert(self.bytes@.take(n as int) == self.bytes@);
        assert(other.bytes@.take(n as int) == other.bytes@);
        difference == 0
    }
}

} // verus!
