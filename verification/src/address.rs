use vstd::prelude::*;
use vstd::slice::slice_to_vec;

verus! {

broadcast use vstd::array::axiom_array_ext_equal;

/// Number of bytes in an [`Address`].
pub const ADDRESS_BYTES: usize = 32;

/// A 32-byte ledger address: the identity of a signer, of an asset, or of a
/// stored record. The bytes carry no structure that this crate looks into.
#[derive(Clone, Copy, Debug, Eq, Hash)]
pub struct Address {
    pub bytes: [u8; 32],
}

impl View for Address {
    type V = Seq<u8>;

    /// The 32 bytes, in order.
    open spec fn view(&self) -> Seq<u8> {
        self.bytes@
    }
}

impl Address {
    /// Wraps 32 raw bytes.
    pub fn new(bytes: [u8; 32]) -> (a: Address)
        ensures
            a.bytes == bytes,
    {
        Address { bytes }
    }

    /// The raw bytes.
    pub fn to_bytes(&self) -> (bytes: [u8; 32])
        ensures
            bytes == self.bytes,
    {
        self.bytes
    }

    /// The raw bytes as a fresh vector.
    pub fn to_vec(&self) -> (v: Vec<u8>)
        ensures
            v@ == self@,
    {
        slice_to_vec(self.bytes.as_slice())
    }

    /// The address made of the given 32 bytes.
    pub closed spec fn spec_from_bytes(bytes: Seq<u8>) -> Address
        recommends
            bytes.len() == 32,
    {
        choose|a: Address| a@ == bytes
    }

    /// Every sequence of 32 bytes is the view of an address, and of
    /// [`Address::spec_from_bytes`] of it.
    pub proof fn lemma_spec_from_bytes(bytes: Seq<u8>)
        requires
            bytes.len() == 32,
        ensures
            Address::spec_from_bytes(bytes)@ == bytes,
    {
        let a = Address { bytes: Self::array_of(bytes, 32) };
        assert(a@ =~= bytes);
    }

    /// Of an address, [`Address::spec_from_bytes`] of its bytes is the
    /// address itself.
    pub proof fn lemma_spec_from_bytes_of_view(a: Address)
        ensures
            Address::spec_from_bytes(a@) == a,
    {
        Self::lemma_view_injective(Address::spec_from_bytes(a@), a);
    }

    /// An array that agrees with `bytes` on its first `n` places.
    proof fn array_of(bytes: Seq<u8>, n: nat) -> (array: [u8; 32])
        requires
            bytes.len() == 32,
            n <= 32,
        ensures
            forall|i: int| 0 <= i < n ==> array@[i] == bytes[i],
        decreases n,
    {
        broadcast use vstd::array::axiom_spec_array_update;

        if n == 0 {
            arbitrary()
        } else {
            let before = Self::array_of(bytes, (n - 1) as nat);
            vstd::array::spec_array_update(before, n - 1, bytes[n - 1])
        }
    }

    /// Reads the address that the 32 bytes from place `at` on spell out.
    pub(crate) fn read_at(bytes: &[u8], at: usize) -> (a: Address)
        requires
            at + 32 <= bytes@.len() <= usize::MAX,
        ensures
            a@ == bytes@.subrange(at as int, at + 32),
    {
        let mut array: [u8; 32] = [0u8; 32];
        let mut i: usize = 0;
        while i < 32
            invariant
                i <= 32,
                at + 32 <= bytes@.len() <= usize::MAX,
                forall|k: int| 0 <= k < i ==> array@[k] == bytes@[at + k],
            decreases 32 - i,
        {
            array[i] = bytes[at + i];
            i += 1;
        }
        let a = Address { bytes: array };
        assert(a@ =~= bytes@.subrange(at as int, at + 32));
        a
    }

    /// Reads an address from a slice, which must hold exactly 32 bytes.
    pub fn from_slice(bytes: &[u8]) -> (res: Option<Address>)
        ensures
            res is Some <==> bytes@.len() == 32,
            res matches Some(a) ==> a@ == bytes@,
    {
        if bytes.len() != 32 {
            return None;
        }
        let a = Address::read_at(bytes, 0);
        assert(bytes@.subrange(0, 32) =~= bytes@);
        Some(a)
    }

    /// Two addresses with the same bytes are the same address.
    pub proof fn lemma_view_injective(a: Address, b: Address)
        ensures
            a@ == b@ <==> a == b,
    {
        if a@ == b@ {
            assert forall|i: int| 0 <= i < 32 implies a.bytes[i] == b.bytes[i] by {
                assert(a.bytes[i] == a@[i]);
                assert(b.bytes[i] == b@[i]);
            }
            assert(a.bytes =~= b.bytes);
        }
    }
}

impl PartialEq for Address {
    fn eq(&self, other: &Address) -> (r: bool) {
        let mut i: usize = 0;
        while i < 32
            invariant
                i <= 32,
                forall|k: int| 0 <= k < i ==> self.bytes[k] == other.bytes[k],
            decreases 32 - i,
        {
            if self.bytes[i] != other.bytes[i] {
                return false;
            }
            i += 1;
        }
        assert(self.bytes =~= other.bytes);
        true
    }
}

impl vstd::std_specs::cmp::PartialEqSpecImpl for Address {
    open spec fn obeys_eq_spec() -> bool {
        true
    }

    open spec fn eq_spec(&self, other: &Address) -> bool {
        *self == *other
    }
}

} // verus!
