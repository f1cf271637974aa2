//! The request values that the remote calls carry.
use vstd::prelude::*;
use std::collections::HashMap;
use tonic_health::pb::HealthCheckRequest;
use yellowstone_grpc_proto::geyser::{
    CommitmentLevel, GetBlockHeightRequest, GetLatestBlockhashRequest, GetSlotRequest,
    GetVersionRequest, IsBlockhashValidRequest, PingRequest, SubscribeRequest,
    SubscribeRequestAccountsDataSlice, SubscribeRequestFilterAccounts,
    SubscribeRequestFilterBlockFooter, SubscribeRequestFilterBlocks,
    SubscribeRequestFilterBlocksMeta, SubscribeRequestFilterEntry, SubscribeRequestFilterSlots,
    SubscribeRequestFilterTransactions, SubscribeRequestPing,
};

verus! {

// The generated protocol messages. Those whose fields the builders fill are
// declared with their fields visible; the filter definitions are carried
// through unread.
#[verifier::external_type_specification]
pub struct ExHealthCheckRequest(HealthCheckRequest);

#[verifier::external_type_specification]
pub struct ExCommitmentLevel(CommitmentLevel);

#[verifier::external_type_specification]
pub struct ExPingRequest(PingRequest);

#[verifier::external_type_specification]
pub struct ExGetLatestBlockhashRequest(GetLatestBlockhashRequest);

#[verifier::external_type_specification]
pub struct ExGetBlockHeightRequest(GetBlockHeightRequest);

#[verifier::external_type_specification]
pub struct ExGetSlotRequest(GetSlotRequest);

#[verifier::external_type_specification]
pub struct ExIsBlockhashValidRequest(IsBlockhashValidRequest);

#[verifier::external_type_specification]
pub struct ExGetVersionRequest(GetVersionRequest);

#[verifier::external_type_specification]
#[verifier::external_body]
pub struct ExSubscribeRequestFilterAccounts(SubscribeRequestFilterAccounts);

#[verifier::external_type_specification]
#[verifier::external_body]
pub struct ExSubscribeRequestFilterSlots(SubscribeRequestFilterSlots);

#[verifier::external_type_specification]
#[verifier::external_body]
pub struct ExSubscribeRequestFilterTransactions(SubscribeRequestFilterTransactions);

#[verifier::external_type_specification]
#[verifier::external_body]
pub struct ExSubscribeRequestFilterBlocks(SubscribeRequestFilterBlocks);

#[verifier::external_type_specification]
#[verifier::external_body]
pub struct ExSubscribeRequestFilterBlocksMeta(SubscribeRequestFilterBlocksMeta);

#[verifier::external_type_specification]
#[verifier::external_body]
pub struct ExSubscribeRequestFilterEntry(SubscribeRequestFilterEntry);

#[verifier::external_type_specification]
#[verifier::external_body]
pub struct ExSubscribeRequestFilterBlockFooter(SubscribeRequestFilterBlockFooter);

#[verifier::external_type_specification]
#[verifier::external_body]
pub struct ExSubscribeRequestAccountsDataSlice(SubscribeRequestAccountsDataSlice);

#[verifier::external_type_specification]
#[verifier::external_body]
pub struct ExSubscribeRequestPing(SubscribeRequestPing);

#[verifier::external_type_specification]
pub struct ExSubscribeRequest(SubscribeRequest);

/// The name under which the generic health protocol knows this service.
pub const HEALTH_SERVICE_NAME: &'static str = "geyser.Geyser";

/// The wire number of a commitment level.
pub open spec fn commitment_number(c: CommitmentLevel) -> i32 {
    match c {
        CommitmentLevel::Processed => 0,
        CommitmentLevel::Confirmed => 1,
        CommitmentLevel::Finalized => 2,
    }
}

/// The wire form of an optional commitment level.
pub open spec fn commitment_field(c: Option<CommitmentLevel>) -> Option<i32> {
    match c {
        Some(level) => Some(commitment_number(level)),
        None => None,
    }
}

/// Maps an optional commitment level to its wire form.
pub fn commitment_code(commitment: Option<CommitmentLevel>) -> (r: Option<i32>)
    ensures
        r == commitment_field(commitment),
{
    match commitment {
        Some(CommitmentLevel::Processed) => Some(0),
        Some(CommitmentLevel::Confirmed) => Some(1),
        Some(CommitmentLevel::Finalized) => Some(2),
        None => None,
    }
}

/// The health query for this service.
pub fn health_check_request() -> (r: HealthCheckRequest)
    ensures
        r.service@ == HEALTH_SERVICE_NAME@,
{
    HealthCheckRequest { service: HEALTH_SERVICE_NAME.to_owned() }
}

/// A ping carrying `count`.
pub fn ping_request(count: i32) -> (r: PingRequest)
    ensures
        r.count == count,
{
    PingRequest { count }
}

/// A latest-blockhash query at the given commitment.
pub fn latest_blockhash_request(commitment: Option<CommitmentLevel>) -> (r:
    GetLatestBlockhashRequest)
    ensures
        r.commitment == commitment_field(commitment),
{
    GetLatestBlockhashRequest { commitment: commitment_code(commitment) }
}

/// A block-height query at the given commitment.
pub fn block_height_request(commitment: Option<CommitmentLevel>) -> (r: GetBlockHeightRequest)
    ensures
        r.commitment == commitment_field(commitment),
{
    GetBlockHeightRequest { commitment: commitment_code(commitment) }
}

/// A slot query at the given commitment.
pub fn slot_request(commitment: Option<CommitmentLevel>) -> (r: GetSlotRequest)
    ensures
        r.commitment == commitment_field(commitment),
{
    GetSlotRequest { commitment: commitment_code(commitment) }
}

/// A validity query for `blockhash` at the given commitment.
pub fn blockhash_valid_request(blockhash: String, commitment: Option<CommitmentLevel>) -> (r:
    IsBlockhashValidRequest)
    ensures
        r.blockhash == blockhash,
        r.commitment == commitment_field(commitment),
{
    IsBlockhashValidRequest { blockhash, commitment: commitment_code(commitment) }
}

/// A version query.
pub fn version_request() -> (r: GetVersionRequest)
    ensures
        r == (GetVersionRequest {  }),
{
    GetVersionRequest {  }
}

/// One filter set: the five filter groups and the commitment level, with
/// every other part of the request left empty.
pub fn subscribe_request(
    slots: HashMap<String, SubscribeRequestFilterSlots>,
    accounts: HashMap<String, SubscribeRequestFilterAccounts>,
    transactions: HashMap<String, SubscribeRequestFilterTransactions>,
    blocks: HashMap<String, SubscribeRequestFilterBlocks>,
    blocks_meta: HashMap<String, SubscribeRequestFilterBlocksMeta>,
    commitment: Option<CommitmentLevel>,
) -> (r: SubscribeRequest)
    ensures
        r.slots == slots,
        r.accounts == accounts,
        r.transactions == transactions,
        r.blocks == blocks,
        r.blocks_meta == blocks_meta,
        r.commitment == commitment_field(commitment),
        r.transactions_status@.len() == 0,
        r.entry@.len() == 0,
        r.block_footer@.len() == 0,
        r.accounts_data_slice@.len() == 0,
        r.ping is None,
        r.from_slot is None,
{
    SubscribeRequest {
        accounts,
        slots,
        transactions,
        transactions_status: HashMap::new(),
        blocks,
        blocks_meta,
        entry: HashMap::new(),
        commitment: commitment_code(commitment),
        accounts_data_slice: Vec::new(),
        ping: None,
        from_slot: None,
        block_footer: HashMap::new(),
    }
}

} // verus!
