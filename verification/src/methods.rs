//! The node's methods, one function each.
//!
//! Every function puts its arguments into the positional list in the order in
//! which it takes them, leaves out each optional argument that is unset, and
//! issues the request under the method's name.

use crate::client::{issued, SolanaRpcClient};
use crate::codec::Request;
use crate::json::{json_of, Json};
use crate::params::{
    config_json, optional, optional_strings_json, push_signed, push_text, push_texts,
    push_unsigned, push_value, signed_json, strings_json, unsigned_json, CommitmentConfig,
    GetAccountInfoConfig, GetBlockConfig, GetBlockProductionConfig, GetInflationRewardConfig,
    GetLargestAccountsConfig, GetLeaderScheduleConfig, GetProgramAccountsConfig,
    GetSignatureStatusesConfig, GetSignaturesForAddressConfig, GetSupplyConfig,
    GetTokenAccountsConfig, GetTransactionConfig, GetVoteAccountsConfig, Pubkey,
    SendTransactionConfig, Signature, SimulateTransactionConfig, Slot, TokenAccountsFilter,
};
use serde_json::Value;
use vstd::prelude::*;

verus! {

impl SolanaRpcClient {
    /// Returns all information associated with the account of provided Pubkey.
    pub fn get_account_info(
        &mut self,
        pubkey: Pubkey,
        config: Option<GetAccountInfoConfig>,
    ) -> (request: Request)
        ensures
            issued(
                old(self)@,
                final(self)@,
                request@,
                "getAccountInfo"@,
                seq![Json::String(pubkey@)] + optional(config_json(config)),
            ),
    {
        let mut params: Vec<Value> = Vec::new();
        push_text(&mut params, pubkey);
        if let Some(v) = config {
            push_value(&mut params, v);
        }
        self.call("getAccountInfo", params)
    }

    /// Returns the lamport balance of the account of provided Pubkey.
    pub fn get_balance(
        &mut self,
        pubkey: Pubkey,
        config: Option<CommitmentConfig>,
    ) -> (request: Request)
        ensures
            issued(
                old(self)@,
                final(self)@,
                request@,
                "getBalance"@,
                seq![Json::String(pubkey@)] + optional(config_json(config)),
            ),
    {
        let mut params: Vec<Value> = Vec::new();
        push_text(&mut params, pubkey);
        if let Some(v) = config {
            push_value(&mut params, v);
        }
        self.call("getBalance", params)
    }

    /// Returns identity and transaction information about a confirmed block in the ledger.
    pub fn get_block(&mut self, slot: Slot, config: Option<GetBlockConfig>) -> (request: Request)
        ensures
            issued(
                old(self)@,
                final(self)@,
                request@,
                "getBlock"@,
                seq![Json::Integer(slot as int)] + optional(config_json(config)),
            ),
    {
        let mut params: Vec<Value> = Vec::new();
        push_unsigned(&mut params, slot);
        if let Some(v) = config {
            push_value(&mut params, v);
        }
        self.call("getBlock", params)
    }

    /// Returns commitment for particular block.
    pub fn get_block_commitment(&mut self, slot: Slot) -> (request: Request)
        ensures
            issued(
                old(self)@,
                final(self)@,
                request@,
                "getBlockCommitment"@,
                seq![Json::Integer(slot as int)],
            ),
    {
        let mut params: Vec<Value> = Vec::new();
        push_unsigned(&mut params, slot);
        self.call("getBlockCommitment", params)
    }

    /// Returns the current block height of the node.
    pub fn get_block_height(&mut self, config: Option<CommitmentConfig>) -> (request: Request)
        ensures
            issued(
                old(self)@,
                final(self)@,
                request@,
                "getBlockHeight"@,
                optional(config_json(config)),
            ),
    {
        let mut params: Vec<Value> = Vec::new();
        if let Some(v) = config {
            push_value(&mut params, v);
        }
        self.call("getBlockHeight", params)
    }

    /// Returns recent block production information from the current or previous epoch.
    pub fn get_block_production(
        &mut self,
        config: Option<GetBlockProductionConfig>,
    ) -> (request: Request)
        ensures
            issued(
                old(self)@,
                final(self)@,
                request@,
                "getBlockProduction"@,
                optional(config_json(config)),
            ),
    {
        let mut params: Vec<Value> = Vec::new();
        if let Some(v) = config {
            push_value(&mut params, v);
        }
        self.call("getBlockProduction", params)
    }

    /// Returns the estimated production time of a block.
    pub fn get_block_time(&mut self, slot: Slot) -> (request: Request)
        ensures
            issued(
                old(self)@,
                final(self)@,
                request@,
                "getBlockTime"@,
                seq![Json::Integer(slot as int)],
            ),
    {
        let mut params: Vec<Value> = Vec::new();
        push_unsigned(&mut params, slot);
        self.call("getBlockTime", params)
    }

    /// Returns a list of confirmed blocks between two slots.
    pub fn get_blocks(
        &mut self,
        start_slot: Slot,
        end_slot: Option<Slot>,
        config: Option<CommitmentConfig>,
    ) -> (request: Request)
        ensures
            issued(
                old(self)@,
                final(self)@,
                request@,
                "getBlocks"@,
                seq![Json::Integer(start_slot as int)]
                    + optional(unsigned_json(end_slot))
                    + optional(config_json(config)),
            ),
    {
        let mut params: Vec<Value> = Vec::new();
        push_unsigned(&mut params, start_slot);
        if let Some(v) = end_slot {
            push_unsigned(&mut params, v);
        }
        if let Some(v) = config {
            push_value(&mut params, v);
        }
        self.call("getBlocks", params)
    }

    /// Returns a list of confirmed blocks starting at the given slot.
    pub fn get_blocks_with_limit(
        &mut self,
        start_slot: Slot,
        limit: i64,
        config: Option<CommitmentConfig>,
    ) -> (request: Request)
        ensures
            issued(
                old(self)@,
                final(self)@,
                request@,
                "getBlocksWithLimit"@,
                seq![Json::Integer(start_slot as int), Json::Integer(limit as int)]
                    + optional(config_json(config)),
            ),
    {
        let mut params: Vec<Value> = Vec::new();
        push_unsigned(&mut params, start_slot);
        push_signed(&mut params, limit);
        if let Some(v) = config {
            push_value(&mut params, v);
        }
        self.call("getBlocksWithLimit", params)
    }

    /// Returns information about all the nodes participating in the cluster.
    pub fn get_cluster_nodes(&mut self) -> (request: Request)
        ensures
            issued(old(self)@, final(self)@, request@, "getClusterNodes"@, Seq::empty()),
    {
        let params: Vec<Value> = Vec::new();
        self.call("getClusterNodes", params)
    }

    /// Returns information about the current epoch.
    pub fn get_epoch_info(&mut self, config: Option<CommitmentConfig>) -> (request: Request)
        ensures
            issued(
                old(self)@,
                final(self)@,
                request@,
                "getEpochInfo"@,
                optional(config_json(config)),
            ),
    {
        let mut params: Vec<Value> = Vec::new();
        if let Some(v) = config {
            push_value(&mut params, v);
        }
        self.call("getEpochInfo", params)
    }

    /// Returns the epoch schedule information from this cluster's genesis config.
    pub fn get_epoch_schedule(&mut self) -> (request: Request)
        ensures
            issued(old(self)@, final(self)@, request@, "getEpochSchedule"@, Seq::empty()),
    {
        let params: Vec<Value> = Vec::new();
        self.call("getEpochSchedule", params)
    }

    /// Returns the fee the network will charge for a particular message.
    pub fn get_fee_for_message(
        &mut self,
        message: String,
        config: Option<CommitmentConfig>,
    ) -> (request: Request)
        ensures
            issued(
                old(self)@,
                final(self)@,
                request@,
                "getFeeForMessage"@,
                seq![Json::String(message@)] + optional(config_json(config)),
            ),
    {
        let mut params: Vec<Value> = Vec::new();
        push_text(&mut params, message);
        if let Some(v) = config {
            push_value(&mut params, v);
        }
        self.call("getFeeForMessage", params)
    }

    /// Returns the slot of the lowest confirmed block that has not been purged from the ledger.
    pub fn get_first_available_block(&mut self) -> (request: Request)
        ensures
            issued(old(self)@, final(self)@, request@, "getFirstAvailableBlock"@, Seq::empty()),
    {
        let params: Vec<Value> = Vec::new();
        self.call("getFirstAvailableBlock", params)
    }

    /// Returns the genesis hash.
    pub fn get_genesis_hash(&mut self) -> (request: Request)
        ensures
            issued(old(self)@, final(self)@, request@, "getGenesisHash"@, Seq::empty()),
    {
        let params: Vec<Value> = Vec::new();
        self.call("getGenesisHash", params)
    }

    /// Returns the current health of the node.
    pub fn get_health(&mut self) -> (request: Request)
        ensures
            issued(old(self)@, final(self)@, request@, "getHealth"@, Seq::empty()),
    {
        let params: Vec<Value> = Vec::new();
        self.call("getHealth", params)
    }

    /// Returns the highest slot information that the node has snapshots for.
    pub fn get_highest_snapshot_slot(&mut self) -> (request: Request)
        ensures
            issued(old(self)@, final(self)@, request@, "getHighestSnapshotSlot"@, Seq::empty()),
    {
        let params: Vec<Value> = Vec::new();
        self.call("getHighestSnapshotSlot", params)
    }

    /// Returns the identity pubkey for the current node.
    pub fn get_identity(&mut self) -> (request: Request)
        ensures
            issued(old(self)@, final(self)@, request@, "getIdentity"@, Seq::empty()),
    {
        let params: Vec<Value> = Vec::new();
        self.call("getIdentity", params)
    }

    /// Returns the current inflation governor.
    pub fn get_inflation_governor(&mut self, config: Option<CommitmentConfig>) -> (request: Request)
        ensures
            issued(
                old(self)@,
                final(self)@,
                request@,
                "getInflationGovernor"@,
                optional(config_json(config)),
            ),
    {
        let mut params: Vec<Value> = Vec::new();
        if let Some(v) = config {
            push_value(&mut params, v);
        }
        self.call("getInflationGovernor", params)
    }

    /// Returns the specific inflation values for the current epoch.
    pub fn get_inflation_rate(&mut self) -> (request: Request)
        ensures
            issued(old(self)@, final(self)@, request@, "getInflationRate"@, Seq::empty()),
    {
        let params: Vec<Value> = Vec::new();
        self.call("getInflationRate", params)
    }

    /// Returns the inflation / staking reward for a list of addresses for an epoch.
    pub fn get_inflation_reward(
        &mut self,
        addresses: Vec<Pubkey>,
        config: Option<GetInflationRewardConfig>,
    ) -> (request: Request)
        ensures
            issued(
                old(self)@,
                final(self)@,
                request@,
                "getInflationReward"@,
                seq![strings_json(addresses@)] + optional(config_json(config)),
            ),
    {
        let mut params: Vec<Value> = Vec::new();
        push_texts(&mut params, addresses);
        if let Some(v) = config {
            push_value(&mut params, v);
        }
        self.call("getInflationReward", params)
    }

    /// Returns the 20 largest accounts, by lamport balance.
    pub fn get_largest_accounts(
        &mut self,
        config: Option<GetLargestAccountsConfig>,
    ) -> (request: Request)
        ensures
            issued(
                old(self)@,
                final(self)@,
                request@,
                "getLargestAccounts"@,
                optional(config_json(config)),
            ),
    {
        let mut params: Vec<Value> = Vec::new();
        if let Some(v) = config {
            push_value(&mut params, v);
        }
        self.call("getLargestAccounts", params)
    }

    /// Returns the latest blockhash.
    pub fn get_latest_blockhash(&mut self, config: Option<CommitmentConfig>) -> (request: Request)
        ensures
            issued(
                old(self)@,
                final(self)@,
                request@,
                "getLatestBlockhash"@,
                optional(config_json(config)),
            ),
    {
        let mut params: Vec<Value> = Vec::new();
        if let Some(v) = config {
            push_value(&mut params, v);
        }
        self.call("getLatestBlockhash", params)
    }

    /// Returns the leader schedule for an epoch.
    pub fn get_leader_schedule(
        &mut self,
        slot: Option<Slot>,
        config: Option<GetLeaderScheduleConfig>,
    ) -> (request: Request)
        ensures
            issued(
                old(self)@,
                final(self)@,
                request@,
                "getLeaderSchedule"@,
                optional(unsigned_json(slot)) + optional(config_json(config)),
            ),
    {
        let mut params: Vec<Value> = Vec::new();
        if let Some(v) = slot {
            push_unsigned(&mut params, v);
        }
        if let Some(v) = config {
            push_value(&mut params, v);
        }
        self.call("getLeaderSchedule", params)
    }

    /// Get the max slot seen from retransmit stage.
    pub fn get_max_retransmit_slot(&mut self) -> (request: Request)
        ensures
            issued(old(self)@, final(self)@, request@, "getMaxRetransmitSlot"@, Seq::empty()),
    {
        let params: Vec<Value> = Vec::new();
        self.call("getMaxRetransmitSlot", params)
    }

    /// Get the max slot seen from after shred insert.
    pub fn get_max_shred_insert_slot(&mut self) -> (request: Request)
        ensures
            issued(old(self)@, final(self)@, request@, "getMaxShredInsertSlot"@, Seq::empty()),
    {
        let params: Vec<Value> = Vec::new();
        self.call("getMaxShredInsertSlot", params)
    }

    /// Returns minimum balance required to make account rent exempt.
    pub fn get_minimum_balance_for_rent_exemption(
        &mut self,
        data_length: i64,
        config: Option<CommitmentConfig>,
    ) -> (request: Request)
        ensures
            issued(
                old(self)@,
                final(self)@,
                request@,
                "getMinimumBalanceForRentExemption"@,
                seq![Json::Integer(data_length as int)] + optional(config_json(config)),
            ),
    {
        let mut params: Vec<Value> = Vec::new();
        push_signed(&mut params, data_length);
        if let Some(v) = config {
            push_value(&mut params, v);
        }
        self.call("getMinimumBalanceForRentExemption", params)
    }

    /// Returns the account information for a list of Pubkeys.
    pub fn get_multiple_accounts(
        &mut self,
        pubkeys: Vec<Pubkey>,
        config: Option<GetAccountInfoConfig>,
    ) -> (request: Request)
        ensures
            issued(
                old(self)@,
                final(self)@,
                request@,
                "getMultipleAccounts"@,
                seq![strings_json(pubkeys@)] + optional(config_json(config)),
            ),
    {
        let mut params: Vec<Value> = Vec::new();
        push_texts(&mut params, pubkeys);
        if let Some(v) = config {
            push_value(&mut params, v);
        }
        self.call("getMultipleAccounts", params)
    }

    /// Returns all accounts owned by the provided program Pubkey.
    pub fn get_program_accounts(
        &mut self,
        program_id: Pubkey,
        config: Option<GetProgramAccountsConfig>,
    ) -> (request: Request)
        ensures
            issued(
                old(self)@,
                final(self)@,
                request@,
                "getProgramAccounts"@,
                seq![Json::String(program_id@)] + optional(config_json(config)),
            ),
    {
        let mut params: Vec<Value> = Vec::new();
        push_text(&mut params, program_id);
        if let Some(v) = config {
            push_value(&mut params, v);
        }
        self.call("getProgramAccounts", params)
    }

    /// Returns a list of recent performance samples.
    pub fn get_recent_performance_samples(&mut self, limit: Option<i64>) -> (request: Request)
        ensures
            issued(
                old(self)@,
                final(self)@,
                request@,
                "getRecentPerformanceSamples"@,
                optional(signed_json(limit)),
            ),
    {
        let mut params: Vec<Value> = Vec::new();
        if let Some(v) = limit {
            push_signed(&mut params, v);
        }
        self.call("getRecentPerformanceSamples", params)
    }

    /// Returns a list of prioritization fees from recent blocks.
    pub fn get_recent_prioritization_fees(
        &mut self,
        addresses: Option<Vec<Pubkey>>,
    ) -> (request: Request)
        ensures
            issued(
                old(self)@,
                final(self)@,
                request@,
                "getRecentPrioritizationFees"@,
                optional(optional_strings_json(addresses)),
            ),
    {
        let mut params: Vec<Value> = Vec::new();
        if let Some(v) = addresses {
            push_texts(&mut params, v);
        }
        self.call("getRecentPrioritizationFees", params)
    }

    /// Returns the statuses of a list of signatures.
    pub fn get_signature_statuses(
        &mut self,
        signatures: Vec<Signature>,
        config: Option<GetSignatureStatusesConfig>,
    ) -> (request: Request)
        ensures
            issued(
                old(self)@,
                final(self)@,
                request@,
                "getSignatureStatuses"@,
                seq![strings_json(signatures@)] + optional(config_json(config)),
            ),
    {
        let mut params: Vec<Value> = Vec::new();
        push_texts(&mut params, signatures);
        if let Some(v) = config {
            push_value(&mut params, v);
        }
        self.call("getSignatureStatuses", params)
    }

    /// Returns signatures for confirmed transactions that include the given address.
    pub fn get_signatures_for_address(
        &mut self,
        address: Pubkey,
        config: Option<GetSignaturesForAddressConfig>,
    ) -> (request: Request)
        ensures
            issued(
                old(self)@,
                final(self)@,
                request@,
                "getSignaturesForAddress"@,
                seq![Json::String(address@)] + optional(config_json(config)),
            ),
    {
        let mut params: Vec<Value> = Vec::new();
        push_text(&mut params, address);
        if let Some(v) = config {
            push_value(&mut params, v);
        }
        self.call("getSignaturesForAddress", params)
    }

    /// Returns the slot that has reached the given or default commitment level.
    pub fn get_slot(&mut self, config: Option<CommitmentConfig>) -> (request: Request)
        ensures
            issued(old(self)@, final(self)@, request@, "getSlot"@, optional(config_json(config))),
    {
        let mut params: Vec<Value> = Vec::new();
        if let Some(v) = config {
            push_value(&mut params, v);
        }
        self.call("getSlot", params)
    }

    /// Returns the current slot leader.
    pub fn get_slot_leader(&mut self, config: Option<CommitmentConfig>) -> (request: Request)
        ensures
            issued(
                old(self)@,
                final(self)@,
                request@,
                "getSlotLeader"@,
                optional(config_json(config)),
            ),
    {
        let mut params: Vec<Value> = Vec::new();
        if let Some(v) = config {
            push_value(&mut params, v);
        }
        self.call("getSlotLeader", params)
    }

    /// Returns the slot leaders for a given slot range.
    pub fn get_slot_leaders(&mut self, start_slot: Slot, limit: i64) -> (request: Request)
        ensures
            issued(
                old(self)@,
                final(self)@,
                request@,
                "getSlotLeaders"@,
                seq![Json::Integer(start_slot as int), Json::Integer(limit as int)],
            ),
    {
        let mut params: Vec<Value> = Vec::new();
        push_unsigned(&mut params, start_slot);
        push_signed(&mut params, limit);
        self.call("getSlotLeaders", params)
    }

    /// Returns the stake minimum delegation, in lamports.
    pub fn get_stake_minimum_delegation(
        &mut self,
        config: Option<CommitmentConfig>,
    ) -> (request: Request)
        ensures
            issued(
                old(self)@,
                final(self)@,
                request@,
                "getStakeMinimumDelegation"@,
                optional(config_json(config)),
            ),
    {
        let mut params: Vec<Value> = Vec::new();
        if let Some(v) = config {
            push_value(&mut params, v);
        }
        self.call("getStakeMinimumDelegation", params)
    }

    /// Returns information about the current supply.
    pub fn get_supply(&mut self, config: Option<GetSupplyConfig>) -> (request: Request)
        ensures
            issued(old(self)@, final(self)@, request@, "getSupply"@, optional(config_json(config))),
    {
        let mut params: Vec<Value> = Vec::new();
        if let Some(v) = config {
            push_value(&mut params, v);
        }
        self.call("getSupply", params)
    }

    /// Returns the token balance of an SPL Token account.
    pub fn get_token_account_balance(
        &mut self,
        pubkey: Pubkey,
        config: Option<CommitmentConfig>,
    ) -> (request: Request)
        ensures
            issued(
                old(self)@,
                final(self)@,
                request@,
                "getTokenAccountBalance"@,
                seq![Json::String(pubkey@)] + optional(config_json(config)),
            ),
    {
        let mut params: Vec<Value> = Vec::new();
        push_text(&mut params, pubkey);
        if let Some(v) = config {
            push_value(&mut params, v);
        }
        self.call("getTokenAccountBalance", params)
    }

    /// Returns all SPL Token accounts by approved Delegate.
    pub fn get_token_accounts_by_delegate(
        &mut self,
        delegate: Pubkey,
        filter: TokenAccountsFilter,
        config: Option<GetTokenAccountsConfig>,
    ) -> (request: Request)
        ensures
            issued(
                old(self)@,
                final(self)@,
                request@,
                "getTokenAccountsByDelegate"@,
                seq![Json::String(delegate@), json_of(filter)] + optional(config_json(config)),
            ),
    {
        let mut params: Vec<Value> = Vec::new();
        push_text(&mut params, delegate);
        push_value(&mut params, filter);
        if let Some(v) = config {
            push_value(&mut params, v);
        }
        self.call("getTokenAccountsByDelegate", params)
    }

    /// Returns all SPL Token accounts by token owner.
    pub fn get_token_accounts_by_owner(
        &mut self,
        owner: Pubkey,
        filter: TokenAccountsFilter,
        config: Option<GetTokenAccountsConfig>,
    ) -> (request: Request)
        ensures
            issued(
                old(self)@,
                final(self)@,
                request@,
                "getTokenAccountsByOwner"@,
                seq![Json::String(owner@), json_of(filter)] + optional(config_json(config)),
            ),
    {
        let mut params: Vec<Value> = Vec::new();
        push_text(&mut params, owner);
        push_value(&mut params, filter);
        if let Some(v) = config {
            push_value(&mut params, v);
        }
        self.call("getTokenAccountsByOwner", params)
    }

    /// Returns the 20 largest accounts of a particular SPL Token type.
    pub fn get_token_largest_accounts(
        &mut self,
        mint: Pubkey,
        config: Option<CommitmentConfig>,
    ) -> (request: Request)
        ensures
            issued(
                old(self)@,
                final(self)@,
                request@,
                "getTokenLargestAccounts"@,
                seq![Json::String(mint@)] + optional(config_json(config)),
            ),
    {
        let mut params: Vec<Value> = Vec::new();
        push_text(&mut params, mint);
        if let Some(v) = config {
            push_value(&mut params, v);
        }
        self.call("getTokenLargestAccounts", params)
    }

    /// Returns the total supply of an SPL Token type.
    pub fn get_token_supply(
        &mut self,
        mint: Pubkey,
        config: Option<CommitmentConfig>,
    ) -> (request: Request)
        ensures
            issued(
                old(self)@,
                final(self)@,
                request@,
                "getTokenSupply"@,
                seq![Json::String(mint@)] + optional(config_json(config)),
            ),
    {
        let mut params: Vec<Value> = Vec::new();
        push_text(&mut params, mint);
        if let Some(v) = config {
            push_value(&mut params, v);
        }
        self.call("getTokenSupply", params)
    }

    /// Returns transaction details for a confirmed transaction.
    pub fn get_transaction(
        &mut self,
        signature: Signature,
        config: Option<GetTransactionConfig>,
    ) -> (request: Request)
        ensures
            issued(
                old(self)@,
                final(self)@,
                request@,
                "getTransaction"@,
                seq![Json::String(signature@)] + optional(config_json(config)),
            ),
    {
        let mut params: Vec<Value> = Vec::new();
        push_text(&mut params, signature);
        if let Some(v) = config {
            push_value(&mut params, v);
        }
        self.call("getTransaction", params)
    }

    /// Returns the current Transaction count from the ledger.
    pub fn get_transaction_count(&mut self, config: Option<CommitmentConfig>) -> (request: Request)
        ensures
            issued(
                old(self)@,
                final(self)@,
                request@,
                "getTransactionCount"@,
                optional(config_json(config)),
            ),
    {
        let mut params: Vec<Value> = Vec::new();
        if let Some(v) = config {
            push_value(&mut params, v);
        }
        self.call("getTransactionCount", params)
    }

    /// Returns the current Solana version running on the node.
    pub fn get_version(&mut self) -> (request: Request)
        ensures
            issued(old(self)@, final(self)@, request@, "getVersion"@, Seq::empty()),
    {
        let params: Vec<Value> = Vec::new();
        self.call("getVersion", params)
    }

    /// Returns the account info and associated stake for all the voting accounts in the
    /// current bank.
    pub fn get_vote_accounts(&mut self, config: Option<GetVoteAccountsConfig>) -> (request: Request)
        ensures
            issued(
                old(self)@,
                final(self)@,
                request@,
                "getVoteAccounts"@,
                optional(config_json(config)),
            ),
    {
        let mut params: Vec<Value> = Vec::new();
        if let Some(v) = config {
            push_value(&mut params, v);
        }
        self.call("getVoteAccounts", params)
    }

    /// Returns whether a blockhash is still valid or not.
    pub fn is_blockhash_valid(
        &mut self,
        blockhash: crate::params::Hash,
        config: Option<CommitmentConfig>,
    ) -> (request: Request)
        ensures
            issued(
                old(self)@,
                final(self)@,
                request@,
                "isBlockhashValid"@,
                seq![Json::String(blockhash@)] + optional(config_json(config)),
            ),
    {
        let mut params: Vec<Value> = Vec::new();
        push_text(&mut params, blockhash);
        if let Some(v) = config {
            push_value(&mut params, v);
        }
        self.call("isBlockhashValid", params)
    }

    /// Returns the lowest slot that the node has information about in its ledger.
    pub fn minimum_ledger_slot(&mut self) -> (request: Request)
        ensures
            issued(old(self)@, final(self)@, request@, "minimumLedgerSlot"@, Seq::empty()),
    {
        let params: Vec<Value> = Vec::new();
        self.call("minimumLedgerSlot", params)
    }

    /// Requests an airdrop of lamports to a Pubkey.
    pub fn request_airdrop(
        &mut self,
        pubkey: Pubkey,
        lamports: i64,
        config: Option<CommitmentConfig>,
    ) -> (request: Request)
        ensures
            issued(
                old(self)@,
                final(self)@,
                request@,
                "requestAirdrop"@,
                seq![Json::String(pubkey@), Json::Integer(lamports as int)]
                    + optional(config_json(config)),
            ),
    {
        let mut params: Vec<Value> = Vec::new();
        push_text(&mut params, pubkey);
        push_signed(&mut params, lamports);
        if let Some(v) = config {
            push_value(&mut params, v);
        }
        self.call("requestAirdrop", params)
    }

    /// Submits a signed transaction to the cluster for processing.
    pub fn send_transaction(
        &mut self,
        transaction: String,
        config: Option<SendTransactionConfig>,
    ) -> (request: Request)
        ensures
            issued(
                old(self)@,
                final(self)@,
                request@,
                "sendTransaction"@,
                seq![Json::String(transaction@)] + optional(config_json(config)),
            ),
    {
        let mut params: Vec<Value> = Vec::new();
        push_text(&mut params, transaction);
        if let Some(v) = config {
            push_value(&mut params, v);
        }
        self.call("sendTransaction", params)
    }

    /// Simulate sending a transaction.
    pub fn simulate_transaction(
        &mut self,
        transaction: String,
        config: Option<SimulateTransactionConfig>,
    ) -> (request: Request)
        ensures
            issued(
                old(self)@,
                final(self)@,
                request@,
                "simulateTransaction"@,
                seq![Json::String(transaction@)] + optional(config_json(config)),
            ),
    {
        let mut params: Vec<Value> = Vec::new();
        push_text(&mut params, transaction);
        if let Some(v) = config {
            push_value(&mut params, v);
        }
        self.call("simulateTransaction", params)
    }
}

} // verus!
