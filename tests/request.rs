use std::collections::HashMap;
use yellowstone_grpc_client::client::{choose_transport, TransportSecurity};
use yellowstone_grpc_client::request::{
    block_height_request, blockhash_valid_request, commitment_code, health_check_request,
    latest_blockhash_request, ping_request, slot_request, subscribe_request, version_request,
    HEALTH_SERVICE_NAME,
};
use yellowstone_grpc_proto::geyser::{
    CommitmentLevel, GetVersionRequest, SubscribeRequestFilterAccounts,
    SubscribeRequestFilterSlots,
};

#[test]
fn commitment_codes_match_wire_numbers() {
    assert_eq!(commitment_code(None), None);
    assert_eq!(
        commitment_code(Some(CommitmentLevel::Processed)),
        Some(CommitmentLevel::Processed as i32)
    );
    assert_eq!(
        commitment_code(Some(CommitmentLevel::Confirmed)),
        Some(CommitmentLevel::Confirmed as i32)
    );
    assert_eq!(
        commitment_code(Some(CommitmentLevel::Finalized)),
        Some(CommitmentLevel::Finalized as i32)
    );
    assert_eq!(commitment_code(Some(CommitmentLevel::Finalized)), Some(2));
}

#[test]
fn health_request_names_the_service() {
    assert_eq!(health_check_request().service, "geyser.Geyser");
    assert_eq!(HEALTH_SERVICE_NAME, "geyser.Geyser");
}

#[test]
fn unary_requests_carry_their_parameters() {
    assert_eq!(ping_request(7).count, 7);
    assert_eq!(latest_blockhash_request(Some(CommitmentLevel::Confirmed)).commitment, Some(1));
    assert_eq!(block_height_request(None).commitment, None);
    assert_eq!(slot_request(Some(CommitmentLevel::Processed)).commitment, Some(0));
    let r = blockhash_valid_request("hash".to_string(), Some(CommitmentLevel::Finalized));
    assert_eq!(r.blockhash, "hash");
    assert_eq!(r.commitment, Some(2));
    assert_eq!(version_request(), GetVersionRequest {});
}

#[test]
fn subscribe_request_holds_one_filter_set() {
    let mut slots = HashMap::new();
    slots.insert("client".to_string(), SubscribeRequestFilterSlots::default());
    let mut accounts = HashMap::new();
    accounts.insert(
        "wallet".to_string(),
        SubscribeRequestFilterAccounts {
            account: vec!["abc".to_string()],
            ..Default::default()
        },
    );
    let r = subscribe_request(
        slots.clone(),
        accounts.clone(),
        HashMap::new(),
        HashMap::new(),
        HashMap::new(),
        Some(CommitmentLevel::Confirmed),
    );
    assert_eq!(r.slots, slots);
    assert_eq!(r.accounts, accounts);
    assert!(r.transactions.is_empty());
    assert!(r.blocks.is_empty());
    assert!(r.blocks_meta.is_empty());
    assert!(r.entry.is_empty());
    assert!(r.accounts_data_slice.is_empty());
    assert_eq!(r.ping, None);
    assert_eq!(r.from_slot, None);
    assert_eq!(r.commitment, Some(CommitmentLevel::Confirmed as i32));
}

#[test]
fn transport_choice_follows_settings_then_scheme() {
    assert_eq!(choose_transport(true, &Some("http".to_string())), TransportSecurity::ExplicitTls);
    assert_eq!(choose_transport(false, &Some("https".to_string())), TransportSecurity::DefaultTls);
    assert_eq!(choose_transport(false, &Some("http".to_string())), TransportSecurity::Plain);
    assert_eq!(choose_transport(false, &Some("HTTPS".to_string())), TransportSecurity::Plain);
    assert_eq!(choose_transport(false, &None), TransportSecurity::Plain);
}
