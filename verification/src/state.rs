//! What a tool remembers between two runs: the address of the contract it
//! last deployed.

use vstd::prelude::*;
use crate::address::{encode, erd_bech32, spec_decode, Address, Bech32Address};

verus! {

/// The state that is saved when a tool exits and loaded when it starts.
#[derive(Debug)]
pub struct State {
    pub contract_address: Option<Bech32Address>,
}

impl Default for State {
    /// The state of a tool that has not deployed anything yet.
    fn default() -> (state: State)
        ensures
            state.contract_address is None,
    {
        State { contract_address: None }
    }
}

impl State {
    /// The state to start from: what was saved by the previous run, or the
    /// default state where nothing was saved.
    pub fn load_state(saved: Option<State>) -> (state: State)
        ensures
            match saved {
                Some(previous) => state == previous,
                None => state.contract_address is None,
            },
    {
        match saved {
            Some(previous) => previous,
            None => State::default(),
        }
    }

    /// Sets the contract address
    pub fn set_address(&mut self, address: Bech32Address)
        ensures
            final(self).contract_address == Some(address),
    {
        self.contract_address = Some(address);
    }

    /// Records a deployment at `new_address`: writes the address in bech32,
    /// reads the text back and keeps the pair as the contract address.
    /// Returns the text. Where the text does not read back as an address,
    /// nothing is recorded and nothing returned.
    pub fn set_deployed(&mut self, new_address: &Address) -> (bech32: Option<String>)
        ensures
            match bech32 {
                Some(text) => {
                    &&& text@ == erd_bech32(new_address@)
                    &&& final(self).contract_address matches Some(recorded)
                    &&& recorded@ == text@
                    &&& spec_decode(text@) == Some(recorded.spec_address())
                },
                None => {
                    &&& spec_decode(erd_bech32(new_address@)) is None
                    &&& *final(self) == *old(self)
                },
            },
    {
        let text = encode(new_address);
        match Bech32Address::from_bech32_string(text.clone()) {
            Some(address) => {
                self.set_address(address);
                Some(text)
            },
            None => None,
        }
    }

    /// Returns the contract address. There must be one: deploy first.
    pub fn current_address(&self) -> (address: &Bech32Address)
        requires
            self.contract_address is Some,
        ensures
            self.contract_address == Some(*address),
    {
        self.contract_address.as_ref().unwrap()
    }
}

} // verus!
