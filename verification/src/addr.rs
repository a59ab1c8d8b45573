use vstd::prelude::*;

verus! {

/// An account address, held as plain bytes so that contracts can speak of
/// it as a byte sequence. On chain an address is always 32 bytes long;
/// well-formedness of supplied accounts states that length.
#[derive(Debug)]
pub struct Address {
    pub bytes: Vec<u8>,
}

impl View for Address {
    type V = Seq<u8>;

    open spec fn view(&self) -> Seq<u8> {
        self.bytes@
    }
}

impl Address {
    /// A byte-for-byte duplicate of this address.
    pub fn dup(&self) -> (r: Address)
        ensures
            r@ == self@,
    {
        let bytes = copy_range(&self.bytes, 0, self.bytes.len());
        proof {
            assert(bytes@ =~= self.bytes@);
        }
        Address { bytes }
    }
}

/// Copy `n` bytes of `data` starting at `off` into a fresh vector.
pub fn copy_range(data: &Vec<u8>, off: usize, n: usize) -> (r: Vec<u8>)
    requires
        off + n <= data@.len(),
    ensures
        r@ == data@.subrange(off as int, off as int + n as int),
{
    let total = data.len();
    let mut out: Vec<u8> = Vec::new();
    let mut i: usize = 0;
    while i < n
        invariant
            i <= n,
            total == data@.len(),
            off + n <= total,
            out@ == data@.subrange(off as int, off as int + i as int),
        decreases n - i,
    {
        out.push(data[off + i]);
        proof {
            assert(out@ =~= data@.subrange(off as int, off as int + (i + 1) as int));
        }
        i = i + 1;
    }
    out
}

/// Byte-for-byte address comparison: the only notion of account identity
/// the program uses.
pub fn addr_eq(a: &Address, b: &Address) -> (r: bool)
    ensures
        r == (a@ == b@),
{
    if a.bytes.len() != b.bytes.len() {
        return false;
    }
    let n = a.bytes.len();
    let mut i: usize = 0;
    while i < n
        invariant
            n == a@.len(),
            n == b@.len(),
            i <= n,
            forall|j: int| 0 <= j < i ==> a@[j] == b@[j],
        decreases n - i,
    {
        if a.bytes[i] != b.bytes[i] {
            return false;
        }
        i = i + 1;
    }
    proof {
        assert(a@ =~= b@);
    }
    true
}

} // verus!
