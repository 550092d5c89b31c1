//! Account identifiers: 32 bytes each.

use vstd::prelude::*;

verus! {

/// A 32-byte account identifier.
#[derive(Clone, Copy, Debug, PartialEq, Eq)]
pub struct Address {
    pub bytes: [u8; 32],
}

impl View for Address {
    type V = Seq<u8>;

    open spec fn view(&self) -> Seq<u8> {
        self.bytes@
    }
}

impl Address {
    /// The identifier with these bytes.
    pub fn new(bytes: [u8; 32]) -> (a: Address)
        ensures
            a.bytes == bytes,
    {
        Address { bytes }
    }

    /// The bytes of the identifier.
    pub fn to_bytes(&self) -> (bytes: [u8; 32])
        ensures
            bytes == self.bytes,
    {
        self.bytes
    }

    /// The identifier in the 32 bytes of `bytes` from `pos` on, or `None`
    /// where fewer than 32 bytes are left there.
    pub fn read_from(bytes: &[u8], pos: usize) -> (r: Option<Address>)
        ensures
            match r {
                Some(a) => pos + 32 <= bytes@.len() && a@ == bytes@.subrange(pos as int, pos + 32)
                    && a == address_from(bytes@.skip(pos as int)),
                None => pos + 32 > bytes@.len(),
            },
    {
        let len = bytes.len();
        if pos > len || len - pos < 32 {
            return None;
        }
        let mut held = [0u8; 32];
        let mut i: usize = 0;
        while i < 32
            invariant
                i <= 32,
                len == bytes@.len(),
                pos + 32 <= len,
                held@.len() == 32,
                forall|j: int| 0 <= j < i ==> held@[j] == bytes@[pos + j],
            decreases 32 - i,
        {
            held[i] = bytes[pos + i];
            i += 1;
        }
        let a = Address { bytes: held };
        proof {
            assert(a@ =~= bytes@.subrange(pos as int, pos + 32));
            lemma_address_from(bytes@.skip(pos as int));
            assert(bytes@.skip(pos as int).take(32) =~= a@);
            lemma_address_by_bytes(a, address_from(bytes@.skip(pos as int)));
        }
        Some(a)
    }

    /// Appends the 32 bytes of the identifier to `out`.
    pub fn write_to(&self, out: &mut Vec<u8>)
        ensures
            final(out)@ == old(out)@ + self@,
    {
        let ghost start = out@;
        out.extend_from_slice(self.bytes.as_slice());
        assert(out@ =~= start + self@);
    }
}

/// The identifier whose bytes are the first 32 of `s`.
pub open spec fn address_from(s: Seq<u8>) -> Address {
    Address {
        bytes: [
            s[0], s[1], s[2], s[3], s[4], s[5], s[6], s[7],
            s[8], s[9], s[10], s[11], s[12], s[13], s[14], s[15],
            s[16], s[17], s[18], s[19], s[20], s[21], s[22], s[23],
            s[24], s[25], s[26], s[27], s[28], s[29], s[30], s[31],
        ],
    }
}

/// The identifier made from a sequence holds its first 32 bytes.
pub proof fn lemma_address_from(s: Seq<u8>)
    requires
        s.len() >= 32,
    ensures
        address_from(s)@ == s.take(32),
{
    assert(address_from(s)@ =~= s.take(32));
}

/// Two identifiers with the same bytes are the same identifier.
pub proof fn lemma_address_by_bytes(a: Address, b: Address)
    requires
        a@ == b@,
    ensures
        a == b,
{
    assert(a.bytes@ =~= b.bytes@);
    assert(a.bytes == b.bytes);
}

} // verus!
