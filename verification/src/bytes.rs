//! Fixed-width byte values: 32-byte storage words and 20-byte addresses.
//!
//! Words and addresses are held as byte vectors of a fixed length; a word's
//! mathematical meaning is its big-endian integer value, `be_nat`.

use vstd::prelude::*;

verus! {

/// Big-endian integer value of a byte sequence.
pub open spec fn be_nat(s: Seq<u8>) -> nat
    decreases s.len(),
{
    if s.len() == 0 {
        0
    } else {
        (be_nat(s.drop_last()) * 256 + s.last()) as nat
    }
}

/// A 32-byte word: a storage slot key, a slot value, or an ABI word.
pub struct Word {
    pub bytes: Vec<u8>,
}

impl View for Word {
    type V = Seq<u8>;

    open spec fn view(&self) -> Seq<u8> {
        self.bytes@
    }
}

impl Word {
    /// A word is exactly 32 bytes long.
    pub open spec fn wf(&self) -> bool {
        self@.len() == 32
    }

    /// The word's integer value.
    pub open spec fn value(&self) -> nat {
        be_nat(self@)
    }

    /// The all-zero word.
    pub fn zero() -> (r: Word)
        ensures
            r.wf(),
            r.value() == 0,
    {
        let mut bytes: Vec<u8> = Vec::new();
        let mut i: usize = 0;
        while i < 32
            invariant
                i <= 32,
                bytes@.len() == i,
                be_nat(bytes@) == 0,
                forall|j: int| 0 <= j < i ==> bytes@[j] == 0u8,
            decreases 32 - i,
        {
            let ghost prev = bytes@;
            bytes.push(0u8);
            proof {
                assert(bytes@.drop_last() =~= prev);
            }
            i = i + 1;
        }
        Word { bytes }
    }

    /// The 32-byte big-endian encoding of a 64-bit integer.
    pub fn from_u64(v: u64) -> (r: Word)
        ensures
            r.wf(),
            r.value() == v,
    {
        let mut bytes: Vec<u8> = Vec::new();
        let mut i: usize = 0;
        while i < 24
            invariant
                i <= 24,
                bytes@.len() == i,
                be_nat(bytes@) == 0,
            decreases 24 - i,
        {
            let ghost prev = bytes@;
            bytes.push(0u8);
            proof {
                assert(bytes@.drop_last() =~= prev);
            }
            i = i + 1;
        }
        let ghost zeros = bytes@;
        let b0 = #[verifier::truncate] ((v >> 56) as u8);
        let b1 = #[verifier::truncate] ((v >> 48) as u8);
        let b2 = #[verifier::truncate] ((v >> 40) as u8);
        let b3 = #[verifier::truncate] ((v >> 32) as u8);
        let b4 = #[verifier::truncate] ((v >> 24) as u8);
        let b5 = #[verifier::truncate] ((v >> 16) as u8);
        let b6 = #[verifier::truncate] ((v >> 8) as u8);
        let b7 = #[verifier::truncate] (v as u8);
        bytes.push(b0);
        proof {
            assert(bytes@.drop_last() =~= zeros);
            assert((v >> 56) < 256 && ((v >> 56) as u8) == v >> 56) by (bit_vector);
        }
        proof {
            assert(be_nat(bytes@) == v >> 56);
        }
        let ghost s0 = bytes@;
        bytes.push(b1);
        proof {
            assert(bytes@.drop_last() =~= s0);
            assert(((v >> 48) as u8) == (v >> 48) & 0xff) by (bit_vector);
            assert((v >> 56) * 256 + ((v >> 48) & 0xff) == (v >> 48)) by (bit_vector);
        }
        proof {
            assert(be_nat(bytes@) == v >> 48);
        }
        let ghost s1 = bytes@;
        bytes.push(b2);
        proof {
            assert(bytes@.drop_last() =~= s1);
            assert(((v >> 40) as u8) == (v >> 40) & 0xff) by (bit_vector);
            assert((v >> 48) * 256 + ((v >> 40) & 0xff) == (v >> 40)) by (bit_vector);
        }
        proof {
            assert(be_nat(bytes@) == v >> 40);
        }
        let ghost s2 = bytes@;
        bytes.push(b3);
        proof {
            assert(bytes@.drop_last() =~= s2);
            assert(((v >> 32) as u8) == (v >> 32) & 0xff) by (bit_vector);
            assert((v >> 40) * 256 + ((v >> 32) & 0xff) == (v >> 32)) by (bit_vector);
        }
        proof {
            assert(be_nat(bytes@) == v >> 32);
        }
        let ghost s3 = bytes@;
        bytes.push(b4);
        proof {
            assert(bytes@.drop_last() =~= s3);
            assert(((v >> 24) as u8) == (v >> 24) & 0xff) by (bit_vector);
            assert((v >> 32) * 256 + ((v >> 24) & 0xff) == (v >> 24)) by (bit_vector);
        }
        proof {
            assert(be_nat(bytes@) == v >> 24);
        }
        let ghost s4 = bytes@;
        bytes.push(b5);
        proof {
            assert(bytes@.drop_last() =~= s4);
            assert(((v >> 16) as u8) == (v >> 16) & 0xff) by (bit_vector);
            assert((v >> 24) * 256 + ((v >> 16) & 0xff) == (v >> 16)) by (bit_vector);
        }
        proof {
            assert(be_nat(bytes@) == v >> 16);
        }
        let ghost s5 = bytes@;
        bytes.push(b6);
        proof {
            assert(bytes@.drop_last() =~= s5);
            assert(((v >> 8) as u8) == (v >> 8) & 0xff) by (bit_vector);
            assert((v >> 16) * 256 + ((v >> 8) & 0xff) == (v >> 8)) by (bit_vector);
        }
        proof {
            assert(be_nat(bytes@) == v >> 8);
        }
        let ghost s6 = bytes@;
        bytes.push(b7);
        proof {
            assert(bytes@.drop_last() =~= s6);
            assert((v as u8) == v & 0xff) by (bit_vector);
            assert((v >> 8) * 256 + (v & 0xff) == v) by (bit_vector);
            assert(be_nat(bytes@) == v);
        }
        Word { bytes }
    }

    /// A word from exactly 32 raw bytes.
    pub fn from_bytes(bytes: Vec<u8>) -> (r: Option<Word>)
        ensures
            bytes@.len() == 32 <==> r is Some,
            r is Some ==> r.unwrap().wf() && r.unwrap()@ == bytes@,
    {
        if bytes.len() == 32 {
            Some(Word { bytes })
        } else {
            None
        }
    }

    /// The raw bytes of the word.
    pub fn as_bytes(&self) -> (r: &Vec<u8>)
        ensures
            r@ == self@,
    {
        &self.bytes
    }

    /// An identical copy of the word.
    pub fn duplicate(&self) -> (r: Word)
        ensures
            r@ == self@,
    {
        Word { bytes: clone_bytes(&self.bytes) }
    }

    /// Byte-for-byte equality of two words.
    pub fn eq_word(&self, other: &Word) -> (r: bool)
        ensures
            r <==> self@ == other@,
    {
        bytes_eq(&self.bytes, &other.bytes)
    }
}

/// A 20-byte account identifier.
pub struct Address {
    pub bytes: Vec<u8>,
}

impl View for Address {
    type V = Seq<u8>;

    open spec fn view(&self) -> Seq<u8> {
        self.bytes@
    }
}

impl Address {
    /// An address is exactly 20 bytes long.
    pub open spec fn wf(&self) -> bool {
        self@.len() == 20
    }

    /// An address from exactly 20 raw bytes.
    pub fn from_bytes(bytes: Vec<u8>) -> (r: Option<Address>)
        ensures
            bytes@.len() == 20 <==> r is Some,
            r is Some ==> r.unwrap().wf() && r.unwrap()@ == bytes@,
    {
        if bytes.len() == 20 {
            Some(Address { bytes })
        } else {
            None
        }
    }

    /// The raw bytes of the address.
    pub fn as_bytes(&self) -> (r: &Vec<u8>)
        ensures
            r@ == self@,
    {
        &self.bytes
    }

    /// An identical copy of the address.
    pub fn duplicate(&self) -> (r: Address)
        ensures
            r@ == self@,
    {
        Address { bytes: clone_bytes(&self.bytes) }
    }

    /// Byte-for-byte equality of two addresses.
    pub fn eq_address(&self, other: &Address) -> (r: bool)
        ensures
            r <==> self@ == other@,
    {
        bytes_eq(&self.bytes, &other.bytes)
    }
}

/// An identical copy of a byte vector.
pub fn clone_bytes(v: &Vec<u8>) -> (r: Vec<u8>)
    ensures
        r@ == v@,
{
    let r = v.clone();
    proof {
        assert(r@ =~= v@);
    }
    r
}

/// Byte-for-byte equality of two byte vectors.
pub fn bytes_eq(a: &Vec<u8>, b: &Vec<u8>) -> (r: bool)
    ensures
        r <==> a@ == b@,
{
    if a.len() != b.len() {
        return false;
    }
    let mut i: usize = 0;
    while i < a.len()
        invariant
            a@.len() == b@.len(),
            i <= a@.len(),
            forall|j: int| 0 <= j < i ==> a@[j] == b@[j],
        decreases a@.len() - i,
    {
        if a[i] != b[i] {
            return false;
        }
        i = i + 1;
    }
    proof {
        assert(a@ =~= b@);
    }
    true
}

/// The `len` bytes of `src` starting at `start`, as a fresh vector.
pub fn copy_range(src: &Vec<u8>, start: usize, len: usize) -> (r: Vec<u8>)
    requires
        start + len <= src@.len(),
    ensures
        r@ == src@.subrange(start as int, start + len),
{
    let n = src.len();
    let mut r: Vec<u8> = Vec::new();
    let mut i: usize = 0;
    proof {
        assert(r@ =~= src@.subrange(start as int, start as int));
    }
    while i < len
        invariant
            n == src@.len(),
            start + len <= n,
            i <= len,
            r@ == src@.subrange(start as int, start + i),
        decreases len - i,
    {
        let ghost prev = r@;
        r.push(src[start + i]);
        proof {
            assert(r@ =~= src@.subrange(start as int, start + i + 1));
        }
        i = i + 1;
    }
    r
}

/// Appends a copy of `src` to `dst`.
pub fn extend_bytes(dst: &mut Vec<u8>, src: &Vec<u8>)
    ensures
        final(dst)@ == old(dst)@ + src@,
{
    let mut i: usize = 0;
    while i < src.len()
        invariant
            i <= src@.len(),
            dst@ == old(dst)@ + src@.subrange(0, i as int),
        decreases src@.len() - i,
    {
        dst.push(src[i]);
        proof {
            assert(dst@ =~= old(dst)@ + src@.subrange(0, i + 1));
        }
        i = i + 1;
    }
    proof {
        assert(src@.subrange(0, src@.len() as int) =~= src@);
    }
}

} // verus!
