//! The contract's persistent storage.

use vstd::prelude::*;

verus! {

/// What the attribute contract keeps between calls: the identifier of its
/// NFT collection. An empty identifier means that none has been issued yet.
#[derive(Debug)]
pub struct StorageModule {
    pub nft_token_id: Vec<u8>,
}

impl StorageModule {
    /// The storage of a freshly deployed contract.
    pub fn new() -> (storage: Self)
        ensures
            storage.nft_token_id@.len() == 0,
    {
        StorageModule { nft_token_id: Vec::new() }
    }

    /// The identifier of the NFT collection, empty where there is none.
    pub fn nft_token_id(&self) -> (identifier: &Vec<u8>)
        ensures
            identifier@ == self.nft_token_id@,
    {
        &self.nft_token_id
    }

    /// Whether no collection has been recorded.
    pub fn is_empty(&self) -> (empty: bool)
        ensures
            empty == (self.nft_token_id@.len() == 0),
    {
        self.nft_token_id.len() == 0
    }

    /// Records the identifier of the NFT collection.
    pub fn set_nft_token_id(&mut self, identifier: Vec<u8>)
        ensures
            final(self).nft_token_id@ == identifier@,
    {
        self.nft_token_id = identifier;
    }
}

} // verus!
