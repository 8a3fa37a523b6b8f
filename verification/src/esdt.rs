//! Tokens, payments and the requests that a contract hands to the chain.

use vstd::prelude::*;
use crate::address::Address;
use crate::biguint::BigUint;
use crate::properties::FungibleTokenProperties;

verus! {

/// The kinds of token that the chain knows.
#[derive(Clone, Copy, Debug, PartialEq, Eq, Structural)]
pub enum EsdtTokenType {
    Fungible,
    NonFungible,
    SemiFungible,
    Meta,
    Invalid,
}

/// The roles that an account can hold on a token.
#[derive(Clone, Copy, Debug, PartialEq, Eq, Structural)]
pub enum EsdtLocalRole {
    NoRole,
    Mint,
    Burn,
    NftCreate,
    NftAddQuantity,
    NftBurn,
    NftAddUri,
    NftUpdateAttributes,
    Transfer,
}

/// Either the native currency or a token, named by its identifier.
#[derive(Debug)]
pub enum EgldOrEsdtTokenIdentifier {
    Egld,
    Esdt(Vec<u8>),
}

/// Why a call to the contract is turned down.
#[derive(Clone, Copy, Debug, PartialEq, Eq, Structural)]
pub enum ContractError {
    /// The NFT collection exists already.
    TokenAlreadyIssued,
    /// The native currency stands where a token is needed.
    EsdtExpected,
}

impl ContractError {
    /// The message that the failed transaction carries.
    pub fn message(&self) -> (text: &'static str)
        ensures
            *self == ContractError::TokenAlreadyIssued ==> text@ == "Token already issued"@,
            *self == ContractError::EsdtExpected ==> text@ == "ESDT expected"@,
    {
        match self {
            ContractError::TokenAlreadyIssued => "Token already issued",
            ContractError::EsdtExpected => "ESDT expected",
        }
    }
}

impl EgldOrEsdtTokenIdentifier {
    /// Whether this is the native currency.
    pub fn is_egld(&self) -> (egld: bool)
        ensures
            egld == (*self is Egld),
    {
        match self {
            EgldOrEsdtTokenIdentifier::Egld => true,
            EgldOrEsdtTokenIdentifier::Esdt(_) => false,
        }
    }

    /// The token's identifier. The native currency has none and is refused.
    pub fn unwrap_esdt(self) -> (token: Result<Vec<u8>, ContractError>)
        ensures
            match token {
                Ok(identifier) => self == EgldOrEsdtTokenIdentifier::Esdt(identifier),
                Err(error) => self is Egld && error == ContractError::EsdtExpected,
            },
    {
        match self {
            EgldOrEsdtTokenIdentifier::Egld => Err(ContractError::EsdtExpected),
            EgldOrEsdtTokenIdentifier::Esdt(identifier) => Ok(identifier),
        }
    }
}

/// A token payment that came with a call.
#[derive(Debug)]
pub struct EsdtTokenPayment {
    pub token_identifier: Vec<u8>,
    pub token_nonce: u64,
    pub amount: BigUint,
}

/// Details of a failed asynchronous call.
#[derive(Debug)]
pub struct AsyncCallError {
    pub err_code: u32,
    pub err_msg: Vec<u8>,
}

/// How an asynchronous call ended, as its callback sees it.
#[derive(Debug)]
pub enum ManagedAsyncCallResult<T> {
    Done(T),
    Failed(AsyncCallError),
}

/// The callback that runs when an issue request has been answered.
#[derive(Clone, Copy, Debug, PartialEq, Eq)]
pub enum IssueCallback {
    /// The token mapper's own callback, which records the new token.
    Default,
    /// Stores the identifier of the new NFT collection.
    StoreTokenId,
    /// Forwards the initial supply to the account that asked for the token.
    ForwardSupply { caller: Address },
}

/// Request to issue a token and to give the contract every role on it.
#[derive(Debug)]
pub struct IssueAndSetAllRoles {
    pub issue_cost: BigUint,
    pub token_display_name: Vec<u8>,
    pub token_ticker: Vec<u8>,
    pub token_type: EsdtTokenType,
    pub num_decimals: usize,
    pub callback: IssueCallback,
}

/// Request to issue a fungible token with an initial supply.
#[derive(Debug)]
pub struct IssueFungible {
    pub issue_cost: BigUint,
    pub token_display_name: Vec<u8>,
    pub token_ticker: Vec<u8>,
    pub initial_supply: BigUint,
    pub properties: FungibleTokenProperties,
    pub callback: IssueCallback,
}

/// Request to give an account roles on a token.
#[derive(Debug)]
pub struct SetSpecialRoles {
    pub address: Address,
    pub token_identifier: Vec<u8>,
    pub roles: Vec<EsdtLocalRole>,
}

/// Request to create an NFT in a collection.
#[derive(Debug)]
pub struct NftCreate {
    pub token_identifier: Vec<u8>,
    pub amount: BigUint,
    pub name: Vec<u8>,
    pub royalties: BigUint,
    pub hash: Vec<u8>,
    pub attributes: Vec<u8>,
    pub uris: Vec<Vec<u8>>,
}

/// Request to replace the attributes of an NFT.
#[derive(Debug)]
pub struct NftUpdateAttributes {
    pub token_identifier: Vec<u8>,
    pub nonce: u64,
    pub new_attributes: Vec<u8>,
}

/// The ways of sending tokens to an account.
#[derive(Clone, Copy, Debug, PartialEq, Eq, Structural)]
pub enum TransferMode {
    /// A plain transfer.
    Transfer,
    /// A transfer that may run code at the receiver and does not wait for it.
    TransferExecute,
    /// A call that waits for the receiver to finish.
    SyncCall,
}

/// Request to send tokens to an account.
#[derive(Debug)]
pub struct EsdtTransfer {
    pub to: Address,
    pub token_identifier: Vec<u8>,
    pub nonce: u64,
    pub amount: BigUint,
    pub mode: TransferMode,
}

/// Request to send native currency to an account.
#[derive(Debug)]
pub struct EgldTransfer {
    pub to: Address,
    pub amount: BigUint,
}

/// What a callback sends on to the account that started the operation.
#[derive(Debug)]
pub enum Payout {
    Esdt(EsdtTransfer),
    Egld(EgldTransfer),
}

} // verus!
