use vstd::prelude::*;

verus! {

/// A block of stream data: a copy of the bytes it was made from.
pub struct DataBlock {
    memory: Vec<u8>,
}

impl View for DataBlock {
    type V = Seq<u8>;

    closed spec fn view(&self) -> Seq<u8> {
        self.memory@
    }
}

impl DataBlock {
    /// A block holding a copy of `data_block`.
    pub fn new(data_block: &[u8]) -> (r: Self)
        ensures
            r@ == data_block@,
    {
        DataBlock { memory: vstd::slice::slice_to_vec(data_block) }
    }

    /// The block's bytes.
    pub fn get_data_block(&self) -> (r: &[u8])
        ensures
            r@ == self@,
    {
        self.memory.as_slice()
    }
}

} // verus!
