//! The parameters of a call: the types that the node's methods take, and how
//! each kind of argument enters the positional list.
//!
//! A trailing argument that the caller leaves unset adds nothing to the list:
//! the node tells an argument that is absent from one that is null.

use crate::json::{
    array_value, documents, json_of, lemma_documents_push, signed_value, string_value,
    unsigned_value, Json,
};
use serde_json::Value;
use vstd::prelude::*;

verus! {

/// An account address, in base 58.
pub type Pubkey = String;

/// A transaction signature, in base 58.
pub type Signature = String;

/// A block hash, in base 58.
pub type Hash = String;

/// The number of a slot of the ledger.
pub type Slot = u64;

// The options objects. The client does not look into them: each goes to the
// node as the caller made it.

/// How far settled the ledger state must be that a query reads.
pub type CommitmentConfig = Value;

/// The options of `getAccountInfo` and `getMultipleAccounts`.
pub type GetAccountInfoConfig = Value;

/// The options of `getBlock`.
pub type GetBlockConfig = Value;

/// The options of `getBlockProduction`.
pub type GetBlockProductionConfig = Value;

/// The options of `getInflationReward`.
pub type GetInflationRewardConfig = Value;

/// The options of `getLargestAccounts`.
pub type GetLargestAccountsConfig = Value;

/// The options of `getLeaderSchedule`.
pub type GetLeaderScheduleConfig = Value;

/// The options of `getProgramAccounts`.
pub type GetProgramAccountsConfig = Value;

/// The options of `getSignatureStatuses`.
pub type GetSignatureStatusesConfig = Value;

/// The options of `getSignaturesForAddress`.
pub type GetSignaturesForAddressConfig = Value;

/// The options of `getSupply`.
pub type GetSupplyConfig = Value;

/// The options of `getTokenAccountsByDelegate` and `getTokenAccountsByOwner`.
pub type GetTokenAccountsConfig = Value;

/// The options of `getTransaction`.
pub type GetTransactionConfig = Value;

/// The options of `getVoteAccounts`.
pub type GetVoteAccountsConfig = Value;

/// The options of `sendTransaction`.
pub type SendTransactionConfig = Value;

/// The options of `simulateTransaction`.
pub type SimulateTransactionConfig = Value;

/// The mint or the program that token accounts are asked for.
pub type TokenAccountsFilter = Value;

/// The list that holds `item` where there is one, and nothing where there is
/// none.
pub open spec fn optional(item: Option<Json>) -> Seq<Json> {
    match item {
        Some(item) => seq![item],
        None => Seq::empty(),
    }
}

/// An options object as the document it holds.
pub open spec fn config_json(config: Option<Value>) -> Option<Json> {
    match config {
        Some(config) => Some(json_of(config)),
        None => None,
    }
}

/// An unsigned number as a document.
pub open spec fn unsigned_json(number: Option<u64>) -> Option<Json> {
    match number {
        Some(number) => Some(Json::Integer(number as int)),
        None => None,
    }
}

/// A signed number as a document.
pub open spec fn signed_json(number: Option<i64>) -> Option<Json> {
    match number {
        Some(number) => Some(Json::Integer(number as int)),
        None => None,
    }
}

/// A list of texts as the array of their strings.
pub open spec fn strings_json(texts: Seq<String>) -> Json {
    Json::Array(texts.map_values(|text: String| Json::String(text@)))
}

/// A list of texts, where there is one, as the array of their strings.
pub open spec fn optional_strings_json(texts: Option<Vec<String>>) -> Option<Json> {
    match texts {
        Some(texts) => Some(strings_json(texts@)),
        None => None,
    }
}

/// Adds a value at the end of the list.
pub(crate) fn push_value(params: &mut Vec<Value>, value: Value)
    ensures
        documents(final(params)@) == documents(old(params)@).push(json_of(value)),
{
    proof {
        lemma_documents_push(params@, value);
    }
    params.push(value);
}

/// Adds a text at the end of the list, as a string.
pub(crate) fn push_text(params: &mut Vec<Value>, text: String)
    ensures
        documents(final(params)@) == documents(old(params)@).push(Json::String(text@)),
{
    push_value(params, string_value(text));
}

/// Adds an unsigned number at the end of the list.
pub(crate) fn push_unsigned(params: &mut Vec<Value>, number: u64)
    ensures
        documents(final(params)@) == documents(old(params)@).push(Json::Integer(number as int)),
{
    push_value(params, unsigned_value(number));
}

/// Adds a signed number at the end of the list.
pub(crate) fn push_signed(params: &mut Vec<Value>, number: i64)
    ensures
        documents(final(params)@) == documents(old(params)@).push(Json::Integer(number as int)),
{
    push_value(params, signed_value(number));
}

/// Adds a list of texts at the end of the list, as one array of strings.
pub(crate) fn push_texts(params: &mut Vec<Value>, texts: Vec<String>)
    ensures
        documents(final(params)@) == documents(old(params)@).push(strings_json(texts@)),
{
    let mut items: Vec<Value> = Vec::new();
    let mut i: usize = 0;
    while i < texts.len()
        invariant
            i <= texts.len(),
            documents(items@) == texts@.take(i as int).map_values(
                |text: String| Json::String(text@),
            ),
        decreases texts.len() - i,
    {
        let item = string_value(texts[i].clone());
        proof {
            lemma_documents_push(items@, item);
            assert(texts@.take(i + 1).map_values(|text: String| Json::String(text@))
                =~= texts@.take(i as int).map_values(|text: String| Json::String(text@)).push(
                Json::String(texts@[i as int]@),
            ));
        }
        items.push(item);
        i += 1;
    }
    assert(texts@.take(i as int) =~= texts@);
    push_value(params, array_value(items));
}

} // verus!
