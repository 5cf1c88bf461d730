use vstd::prelude::*;

verus! {

/// A 32-byte identity: the key of a program, or the owner of an account.
#[derive(Clone, Copy, Debug)]
pub struct Address {
    pub bytes: [u8; 32],
}

impl View for Address {
    type V = Seq<u8>;

    open spec fn view(&self) -> Seq<u8> {
        self.bytes@
    }
}

impl Address {
    pub fn new(bytes: [u8; 32]) -> (r: Address)
        ensures
            r.bytes == bytes,
    {
        Address { bytes }
    }

    /// Whether the two identities hold the same bytes.
    pub fn same_as(&self, other: &Address) -> (r: bool)
        ensures
            r == (self@ == other@),
    {
        let mut i: usize = 0;
        while i < 32
            invariant
                0 <= i <= 32,
                self@.len() == 32,
                other@.len() == 32,
                forall|j: int| 0 <= j < i ==> self@[j] == other@[j],
            decreases 32 - i,
        {
            if self.bytes[i] != other.bytes[i] {
                return false;
            }
            i += 1;
        }
        assert(self@ =~= other@);
        true
    }
}

/// An account handed to the program: its owner and its data buffer, which the
/// program may read and overwrite in place.
#[derive(Debug)]
pub struct Account {
    pub owner: Address,
    pub data: Vec<u8>,
}

impl Account {
    pub fn new(owner: Address, data: Vec<u8>) -> (r: Account)
        ensures
            r.owner == owner,
            r.data@ == data@,
    {
        Account { owner, data }
    }

    /// Whether the account holds no data at all.
    pub fn data_is_empty(&self) -> (r: bool)
        ensures
            r == (self.data@.len() == 0),
    {
        self.data.len() == 0
    }
}

} // verus!
