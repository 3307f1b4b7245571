use serde_json::Value;
use solana_rpc_client::{SolanaRpcClient, DEVNET, MAINNET_BETA, TESTNET};
use std::collections::HashSet;

fn json(text: &str) -> Value {
    serde_json::from_str(text).unwrap()
}

#[test]
fn presets_name_the_three_clusters() {
    assert_eq!(MAINNET_BETA, "https://api.mainnet-beta.solana.com");
    assert_eq!(DEVNET, "https://api.devnet.solana.com");
    assert_eq!(TESTNET, "https://api.testnet.solana.com");
}

#[test]
fn new_keeps_the_endpoint() {
    assert_eq!(SolanaRpcClient::new(DEVNET).endpoint(), DEVNET);
    assert_eq!(SolanaRpcClient::new("http://localhost:8899").endpoint(), "http://localhost:8899");
    assert_eq!(SolanaRpcClient::new("").endpoint(), "");
}

#[test]
fn first_request_has_id_zero() {
    let mut client = SolanaRpcClient::new(DEVNET);
    assert_eq!(client.get_health().id, 0);
}

#[test]
fn ids_count_up_by_one() {
    let mut client = SolanaRpcClient::new(DEVNET);
    assert_eq!(client.get_version().id, 0);
    assert_eq!(client.get_slot(None).id, 1);
    assert_eq!(client.call("getHealth", Vec::new()).id, 2);
    assert_eq!(client.get_balance("a".to_string(), None).id, 3);
    assert_eq!(client.endpoint(), DEVNET);
}

#[test]
fn ids_of_one_client_are_distinct() {
    let mut client = SolanaRpcClient::new(DEVNET);
    let mut seen = HashSet::new();
    for _ in 0..1000 {
        assert!(seen.insert(client.get_slot(None).id));
    }
    assert_eq!(seen.len(), 1000);
}

#[test]
fn clients_count_apart() {
    let mut first = SolanaRpcClient::new(DEVNET);
    let mut second = SolanaRpcClient::new(TESTNET);
    assert_eq!(first.get_slot(None).id, 0);
    assert_eq!(first.get_slot(None).id, 1);
    assert_eq!(second.get_slot(None).id, 0);
}

#[test]
fn call_takes_any_method_and_params() {
    let mut client = SolanaRpcClient::new(DEVNET);
    let params = vec![json("\"x\""), json("null"), json("{\"a\":[1]}")];
    let request = client.call("getFoo", params.clone());
    assert_eq!(request.id, 0);
    assert_eq!(request.method, "getFoo");
    assert_eq!(request.params, params);
}

#[test]
fn get_block_height_without_config_has_no_params() {
    let request = SolanaRpcClient::new(DEVNET).get_block_height(None);
    assert_eq!(request.params, Vec::<Value>::new());
    assert_eq!(request.to_json()["params"], json("[]"));
}

#[test]
fn get_block_height_with_config_has_the_config_alone() {
    let config = json("{\"commitment\":\"finalized\"}");
    let request = SolanaRpcClient::new(DEVNET).get_block_height(Some(config.clone()));
    assert_eq!(request.params, vec![config]);
    assert_eq!(request.to_json()["params"], json("[{\"commitment\":\"finalized\"}]"));
}

#[test]
fn a_null_config_is_sent_as_null() {
    let request = SolanaRpcClient::new(DEVNET).get_block_height(Some(Value::Null));
    assert_eq!(request.params, vec![Value::Null]);
}

#[test]
fn an_unset_middle_argument_is_left_out() {
    let config = json("{\"commitment\":\"confirmed\"}");
    let request = SolanaRpcClient::new(DEVNET).get_blocks(5, None, Some(config.clone()));
    assert_eq!(request.params, vec![json("5"), config.clone()]);
    let request = SolanaRpcClient::new(DEVNET).get_blocks(5, Some(9), None);
    assert_eq!(request.params, vec![json("5"), json("9")]);
    let request = SolanaRpcClient::new(DEVNET).get_leader_schedule(None, Some(config.clone()));
    assert_eq!(request.params, vec![config]);
    let request = SolanaRpcClient::new(DEVNET).get_leader_schedule(Some(7), None);
    assert_eq!(request.params, vec![json("7")]);
}

#[test]
fn optional_numbers_and_lists_enter_as_json() {
    let request = SolanaRpcClient::new(DEVNET).get_recent_performance_samples(Some(-3));
    assert_eq!(request.params, vec![json("-3")]);
    let request = SolanaRpcClient::new(DEVNET)
        .get_recent_prioritization_fees(Some(vec!["a".to_string(), "b".to_string()]));
    assert_eq!(request.params, vec![json("[\"a\",\"b\"]")]);
    let request = SolanaRpcClient::new(DEVNET).get_recent_prioritization_fees(Some(Vec::new()));
    assert_eq!(request.params, vec![json("[]")]);
}
