//! The static configuration this subsystem consumes: one read-only string,
//! the block-storage directory path.

use vstd::prelude::*;

verus! {

/// Configuration a `System` is built with. It is read once at construction
/// and never mutated afterwards.
#[derive(Debug)]
pub struct Configuration {
    /// Directory whose top-level regular files make up the block storage.
    pub block_store_path: String,
}

impl View for Configuration {
    type V = Seq<char>;

    open spec fn view(&self) -> Seq<char> {
        self.block_store_path@
    }
}

impl Clone for Configuration {
    fn clone(&self) -> (r: Self)
        ensures
            r == *self,
    {
        Configuration { block_store_path: self.block_store_path.clone() }
    }
}

} // verus!
