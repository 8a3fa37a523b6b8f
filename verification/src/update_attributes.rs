//! The decisions of the attribute contract: for each endpoint, whether the
//! call is accepted and what the contract asks the chain to do.

use vstd::prelude::*;
use crate::address::Address;
use crate::biguint::BigUint;
use crate::esdt::{
    ContractError, EsdtLocalRole, EsdtTokenPayment, EsdtTokenType, EsdtTransfer,
    IssueAndSetAllRoles, IssueCallback, IssueFungible, NftCreate, NftUpdateAttributes,
    SetSpecialRoles, TransferMode,
};
use crate::properties::FungibleTokenProperties;
use crate::storage::StorageModule;

verus! {

/// What the chain charges for issuing a token.
pub const ISSUE_COST: u64 = 50000000000000000;

/// The number of decimals of every fungible token that the contract issues.
pub const NUM_DECIMALS: usize = 18;

/// The attributes that a new NFT starts with: the bytes of `common`.
pub open spec fn common_attributes() -> Seq<u8> {
    seq![99u8, 111u8, 109u8, 109u8, 111u8, 110u8]
}

/// The roles that the contract asks for on its collection, in the order in
/// which it names them.
pub open spec fn collection_roles() -> Seq<EsdtLocalRole> {
    seq![EsdtLocalRole::NftUpdateAttributes, EsdtLocalRole::Mint, EsdtLocalRole::Burn]
}

/// The attribute contract, seen through its storage.
#[derive(Debug)]
pub struct UpdateAttributes {
    pub storage: StorageModule,
}

impl UpdateAttributes {
    /// A freshly deployed contract.
    pub fn init() -> (contract: Self)
        ensures
            contract.storage.nft_token_id@.len() == 0,
    {
        UpdateAttributes { storage: StorageModule::new() }
    }

    /// Issues a fungible token through the token mapper, paying with the
    /// native currency that came with the call.
    pub fn issue_fungible_token_mapper(
        &self,
        payment_amount: BigUint,
        token_name: Vec<u8>,
        token_ticker: Vec<u8>,
    ) -> (request: IssueAndSetAllRoles)
        ensures
            request.issue_cost@ == payment_amount@,
            request.token_display_name@ == token_name@,
            request.token_ticker@ == token_ticker@,
            request.token_type == EsdtTokenType::Fungible,
            request.num_decimals == NUM_DECIMALS,
            request.callback is Default,
    {
        IssueAndSetAllRoles {
            issue_cost: payment_amount,
            token_display_name: token_name,
            token_ticker,
            token_type: EsdtTokenType::Fungible,
            num_decimals: NUM_DECIMALS,
            callback: IssueCallback::Default,
        }
    }

    /// Issues the NFT collection, paying with the native currency that came
    /// with the call. Refused once a collection is recorded.
    pub fn issue_non_fungible(
        &self,
        payment_amount: BigUint,
        token_name: Vec<u8>,
        token_ticker: Vec<u8>,
    ) -> (outcome: Result<IssueAndSetAllRoles, ContractError>)
        ensures
            match outcome {
                Ok(request) => {
                    &&& self.storage.nft_token_id@.len() == 0
                    &&& request.issue_cost@ == payment_amount@
                    &&& request.token_display_name@ == token_name@
                    &&& request.token_ticker@ == token_ticker@
                    &&& request.token_type == EsdtTokenType::NonFungible
                    &&& request.num_decimals == 0
                    &&& request.callback is StoreTokenId
                },
                Err(error) => {
                    &&& self.storage.nft_token_id@.len() != 0
                    &&& error == ContractError::TokenAlreadyIssued
                },
            },
    {
        if !self.storage.is_empty() {
            return Err(ContractError::TokenAlreadyIssued);
        }
        Ok(
            IssueAndSetAllRoles {
                issue_cost: payment_amount,
                token_display_name: token_name,
                token_ticker,
                token_type: EsdtTokenType::NonFungible,
                num_decimals: 0,
                callback: IssueCallback::StoreTokenId,
            },
        )
    }

    /// Issues a fungible token with every permission granted and an initial
    /// supply, which the callback forwards to the caller.
    pub fn issue_fungible(
        &self,
        caller: Address,
        token_name: Vec<u8>,
        token_ticker: Vec<u8>,
        initial_supply: u64,
    ) -> (request: IssueFungible)
        ensures
            request.issue_cost@ == ISSUE_COST,
            request.token_display_name@ == token_name@,
            request.token_ticker@ == token_ticker@,
            request.initial_supply@ == initial_supply,
            request.properties.num_decimals == NUM_DECIMALS,
            request.properties.can_freeze,
            request.properties.can_wipe,
            request.properties.can_pause,
            request.properties.can_mint,
            request.properties.can_burn,
            request.properties.can_change_owner,
            request.properties.can_upgrade,
            request.properties.can_add_special_roles,
            request.callback == (IssueCallback::ForwardSupply { caller }),
    {
        IssueFungible {
            issue_cost: BigUint::from_u64(ISSUE_COST),
            token_display_name: token_name,
            token_ticker,
            initial_supply: BigUint::from_u64(initial_supply),
            properties: FungibleTokenProperties::all_allowed(NUM_DECIMALS),
            callback: IssueCallback::ForwardSupply { caller },
        }
    }

    /// Asks for the roles that the contract needs on its collection.
    pub fn set_roles(&self, sc_address: Address) -> (request: SetSpecialRoles)
        ensures
            request.address == sc_address,
            request.token_identifier@ == self.storage.nft_token_id@,
            request.roles@ == collection_roles(),
    {
        let mut roles: Vec<EsdtLocalRole> = Vec::with_capacity(3);
        roles.push(EsdtLocalRole::NftUpdateAttributes);
        roles.push(EsdtLocalRole::Mint);
        roles.push(EsdtLocalRole::Burn);
        assert(roles@ =~= collection_roles());
        SetSpecialRoles {
            address: sc_address,
            token_identifier: self.storage.nft_token_id().clone(),
            roles,
        }
    }

    /// Creates one NFT in the collection: no name, no royalties, no hash, no
    /// URIs, and the common attributes.
    pub fn create_nft(&self) -> (request: NftCreate)
        ensures
            request.token_identifier@ == self.storage.nft_token_id@,
            request.amount@ == 1,
            request.name@.len() == 0,
            request.royalties@ == 0,
            request.hash@.len() == 0,
            request.attributes@ == common_attributes(),
            request.uris@.len() == 0,
    {
        let mut attributes: Vec<u8> = Vec::with_capacity(6);
        attributes.push(99);
        attributes.push(111);
        attributes.push(109);
        attributes.push(109);
        attributes.push(111);
        attributes.push(110);
        assert(attributes@ =~= common_attributes());
        NftCreate {
            token_identifier: self.storage.nft_token_id().clone(),
            amount: BigUint::from_u64(1),
            name: Vec::new(),
            royalties: BigUint::from_u64(0),
            hash: Vec::new(),
            attributes,
            uris: Vec::new(),
        }
    }

    /// Hands the NFT that was just created, known by its nonce, to its first
    /// owner.
    pub fn deliver_created(&self, to: Address, nonce: u64) -> (transfer: EsdtTransfer)
        ensures
            transfer.to == to,
            transfer.token_identifier@ == self.storage.nft_token_id@,
            transfer.nonce == nonce,
            transfer.amount@ == 1,
            transfer.mode == TransferMode::TransferExecute,
    {
        EsdtTransfer {
            to,
            token_identifier: self.storage.nft_token_id().clone(),
            nonce,
            amount: BigUint::from_u64(1),
            mode: TransferMode::TransferExecute,
        }
    }

    /// Replaces the attributes of the NFT that came with the call, then sends
    /// one unit of it back to the caller.
    pub fn update_attributes(
        &self,
        caller: Address,
        token: EsdtTokenPayment,
        new_attributes: Vec<u8>,
    ) -> (requests: (NftUpdateAttributes, EsdtTransfer))
        ensures
            requests.0.token_identifier@ == token.token_identifier@,
            requests.0.nonce == token.token_nonce,
            requests.0.new_attributes@ == new_attributes@,
            requests.1.to == caller,
            requests.1.token_identifier@ == token.token_identifier@,
            requests.1.nonce == token.token_nonce,
            requests.1.amount@ == 1,
            requests.1.mode == TransferMode::Transfer,
    {
        let update = NftUpdateAttributes {
            token_identifier: token.token_identifier.clone(),
            nonce: token.token_nonce,
            new_attributes,
        };
        let give_back = EsdtTransfer {
            to: caller,
            token_identifier: token.token_identifier,
            nonce: token.token_nonce,
            amount: BigUint::from_u64(1),
            mode: TransferMode::Transfer,
        };
        (update, give_back)
    }

    /// Sends one NFT of the collection to an account.
    pub fn send_nft(&self, to: Address, nonce: u64) -> (transfer: EsdtTransfer)
        ensures
            transfer.to == to,
            transfer.token_identifier@ == self.storage.nft_token_id@,
            transfer.nonce == nonce,
            transfer.amount@ == 1,
            transfer.mode == TransferMode::Transfer,
    {
        EsdtTransfer {
            to,
            token_identifier: self.storage.nft_token_id().clone(),
            nonce,
            amount: BigUint::from_u64(1),
            mode: TransferMode::Transfer,
        }
    }
}

} // verus!
