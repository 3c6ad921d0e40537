use vstd::prelude::*;

verus! {

/// A 32-byte ledger account address.
#[derive(Clone, Copy, Debug)]
pub struct Address {
    pub bytes: [u8; 32],
}

impl Address {
    pub fn new(bytes: [u8; 32]) -> (r: Address)
        ensures
            r.bytes == bytes,
    {
        Address { bytes }
    }

    /// The address stored at `data[at..at + 32]`.
    pub fn read(data: &[u8], at: usize) -> (r: Address)
        requires
            at + 32 <= data@.len(),
        ensures
            r.bytes@ == data@.subrange(at as int, at + 32),
    {
        let n = data.len();
        let mut bytes = [0u8; 32];
        let mut i: usize = 0;
        while i < 32
            invariant
                0 <= i <= 32,
                at + 32 <= n,
                n == data@.len(),
                forall|j: int| 0 <= j < i ==> bytes@[j] == data@[at + j],
            decreases 32 - i,
        {
            bytes[i] = data[at + i];
            i = i + 1;
        }
        assert(bytes@ =~= data@.subrange(at as int, at + 32));
        Address { bytes }
    }

    /// Appends the address's bytes to `out`.
    pub fn append_to(&self, out: &mut Vec<u8>)
        ensures
            final(out)@ == old(out)@ + self.bytes@,
    {
        let mut i: usize = 0;
        while i < 32
            invariant
                0 <= i <= 32,
                out@ == old(out)@ + self.bytes@.subrange(0, i as int),
            decreases 32 - i,
        {
            out.push(self.bytes[i]);
            assert(self.bytes@.subrange(0, i + 1) =~= self.bytes@.subrange(0, i as int).push(
                self.bytes@[i as int],
            ));
            i = i + 1;
        }
        assert(self.bytes@.subrange(0, 32) =~= self.bytes@);
    }

    /// Byte-wise comparison.
    pub fn same_as(&self, other: &Address) -> (r: bool)
        ensures
            r == (*self == *other),
    {
        let mut i: usize = 0;
        while i < 32
            invariant
                0 <= i <= 32,
                forall|j: int| 0 <= j < i ==> self.bytes@[j] == other.bytes@[j],
            decreases 32 - i,
        {
            if self.bytes[i] != other.bytes[i] {
                return false;
            }
            i = i + 1;
        }
        proof {
            lemma_bytes_eq(*self, *other);
        }
        true
    }
}

/// Addresses are equal exactly when their bytes are.
pub broadcast proof fn lemma_address_eq(a: Address, b: Address)
    ensures
        #![trigger a.bytes@, b.bytes@]
        (a == b) <==> (a.bytes@ == b.bytes@),
{
    if a.bytes@ == b.bytes@ {
        assert(a.bytes == b.bytes);
    }
}

/// Two addresses with the same bytes are the same address.
pub proof fn lemma_bytes_eq(a: Address, b: Address)
    requires
        forall|j: int| 0 <= j < 32 ==> a.bytes@[j] == b.bytes@[j],
    ensures
        a == b,
{
    assert(a.bytes@ =~= b.bytes@);
    assert(a.bytes == b.bytes);
}

impl PartialEq for Address {
    fn eq(&self, other: &Address) -> (r: bool) {
        self.same_as(other)
    }
}

impl vstd::std_specs::cmp::PartialEqSpecImpl for Address {
    open spec fn obeys_eq_spec() -> bool {
        true
    }

    open spec fn eq_spec(&self, other: &Address) -> bool {
        *self == *other
    }
}

impl Eq for Address {
}

} // verus!
