//! The decisions of the contract's callbacks, which run when the chain has
//! answered a request to issue a token.

use vstd::prelude::*;
use crate::address::Address;
use crate::biguint::BigUint;
use crate::esdt::{
    ContractError, EgldOrEsdtTokenIdentifier, EgldTransfer, EsdtTransfer, ManagedAsyncCallResult,
    Payout, TransferMode,
};
use crate::storage::StorageModule;

verus! {

/// How the callback of the collection issue ended.
#[derive(Clone, Copy, Debug, PartialEq, Eq, Structural)]
pub enum IssueOutcome {
    /// The collection was issued and its identifier is recorded.
    Stored,
    /// The issue failed; what the chain sent back is to be returned.
    Failed,
}

/// The callbacks of the attribute contract.
#[derive(Clone, Copy, Debug)]
pub struct CustomCallbacks;

impl CustomCallbacks {
    /// The native currency to send back to the caller after a failed issue,
    /// given what the chain returned with the callback: the whole amount
    /// where it returned native currency and the amount is not zero, nothing
    /// otherwise.
    pub fn refund(
        caller: Address,
        token_identifier: &EgldOrEsdtTokenIdentifier,
        amount: BigUint,
    ) -> (transfer: Option<EgldTransfer>)
        ensures
            match transfer {
                Some(t) => {
                    &&& *token_identifier is Egld
                    &&& amount@ > 0
                    &&& t.to == caller
                    &&& t.amount@ == amount@
                },
                None => !(*token_identifier is Egld) || amount@ == 0,
            },
    {
        if token_identifier.is_egld() && !amount.is_zero() {
            Some(EgldTransfer { to: caller, amount })
        } else {
            None
        }
    }

    /// Runs after a request to issue a fungible token. On success the tokens
    /// that the chain sent are forwarded to the account that asked for them;
    /// the native currency cannot stand for them. On failure the fee comes
    /// back and is refunded.
    pub fn token_issue_callback(
        caller: Address,
        result: ManagedAsyncCallResult<()>,
        token_id: EgldOrEsdtTokenIdentifier,
        returned_tokens: BigUint,
    ) -> (outcome: Result<Option<Payout>, ContractError>)
        ensures
            result is Done && token_id is Egld ==> outcome == Err::<Option<Payout>, _>(
                ContractError::EsdtExpected,
            ),
            result is Done && token_id is Esdt ==> (outcome matches Ok(Some(Payout::Esdt(t))) && {
                &&& t.to == caller
                &&& token_id == EgldOrEsdtTokenIdentifier::Esdt(t.token_identifier)
                &&& t.nonce == 0
                &&& t.amount@ == returned_tokens@
                &&& t.mode == TransferMode::SyncCall
            }),
            result is Failed && token_id is Egld && returned_tokens@ > 0 ==> (outcome matches Ok(
                Some(Payout::Egld(t)),
            ) && t.to == caller && t.amount@ == returned_tokens@),
            result is Failed && !(token_id is Egld && returned_tokens@ > 0) ==> outcome matches Ok(
                None,
            ),
    {
        match result {
            ManagedAsyncCallResult::Done(_) => {
                match token_id.unwrap_esdt() {
                    Ok(token_identifier) => Ok(
                        Some(
                            Payout::Esdt(
                                EsdtTransfer {
                                    to: caller,
                                    token_identifier,
                                    nonce: 0,
                                    amount: returned_tokens,
                                    mode: TransferMode::SyncCall,
                                },
                            ),
                        ),
                    ),
                    Err(error) => Err(error),
                }
            },
            ManagedAsyncCallResult::Failed(_) => {
                match Self::refund(caller, &token_id, returned_tokens) {
                    Some(transfer) => Ok(Some(Payout::Egld(transfer))),
                    None => Ok(None),
                }
            },
        }
    }

    /// Runs after the request to issue the NFT collection. On success the
    /// new identifier is recorded; the native currency cannot stand for it.
    /// On failure the storage stays as it is and the caller goes on to
    /// refund what came back.
    pub fn issue_callback(
        storage: &mut StorageModule,
        result: ManagedAsyncCallResult<EgldOrEsdtTokenIdentifier>,
    ) -> (outcome: Result<IssueOutcome, ContractError>)
        ensures
            match result {
                ManagedAsyncCallResult::Done(EgldOrEsdtTokenIdentifier::Esdt(identifier)) => {
                    &&& outcome == Ok::<_, ContractError>(IssueOutcome::Stored)
                    &&& final(storage).nft_token_id@ == identifier@
                },
                ManagedAsyncCallResult::Done(EgldOrEsdtTokenIdentifier::Egld) => {
                    &&& outcome == Err::<IssueOutcome, _>(ContractError::EsdtExpected)
                    &&& final(storage).nft_token_id@ == old(storage).nft_token_id@
                },
                ManagedAsyncCallResult::Failed(_) => {
                    &&& outcome == Ok::<_, ContractError>(IssueOutcome::Failed)
                    &&& final(storage).nft_token_id@ == old(storage).nft_token_id@
                },
            },
    {
        match result {
            ManagedAsyncCallResult::Done(token_id) => {
                match token_id.unwrap_esdt() {
                    Ok(identifier) => {
                        storage.set_nft_token_id(identifier);
                        Ok(IssueOutcome::Stored)
                    },
                    Err(error) => Err(error),
                }
            },
            ManagedAsyncCallResult::Failed(_) => Ok(IssueOutcome::Failed),
        }
    }
}

} // verus!
