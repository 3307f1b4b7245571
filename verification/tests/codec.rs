use serde_json::Value;
use solana_rpc_client::{
    conclude, decode, decode_body, encode, ClientError, RpcError, SolanaRpcClient, DEVNET,
};

fn json(text: &str) -> Value {
    serde_json::from_str(text).unwrap()
}

fn read(text: &str) -> Result<Value, ClientError> {
    decode_body(text.as_bytes())
}

fn body(text: &str) -> Vec<u8> {
    text.as_bytes().to_vec()
}

fn remote(code: i64, message: &str) -> ClientError {
    ClientError::RemoteError(RpcError { code, message: message.to_string() })
}

#[test]
fn encode_keeps_method_params_and_id() {
    let params = vec![json("\"abc\""), json("{\"commitment\":\"confirmed\"}")];
    let request = encode("getBalance", params.clone(), 41);
    assert_eq!(request.id, 41);
    assert_eq!(request.method, "getBalance");
    assert_eq!(request.params, params);
}

#[test]
fn request_on_the_wire_has_the_four_members() {
    let request = encode("getSlot", Vec::new(), 7);
    let body = request.to_json();
    assert_eq!(body, json("{\"jsonrpc\":\"2.0\",\"id\":7,\"method\":\"getSlot\",\"params\":[]}"));
    assert_eq!(body.as_object().unwrap().len(), 4);
}

#[test]
fn request_on_the_wire_keeps_params_in_order() {
    let params = vec![json("430"), json("-5"), json("[\"a\",\"b\"]"), json("null")];
    let request = encode("getBlocks", params, u64::MAX);
    assert_eq!(
        request.to_json().to_string(),
        "{\"id\":18446744073709551615,\"jsonrpc\":\"2.0\",\"method\":\"getBlocks\",\"params\":[430,-5,[\"a\",\"b\"],null]}"
    );
}

#[test]
fn to_json_leaves_the_request_as_it_was() {
    let request = encode("getBlock", vec![json("5")], 3);
    let before = request.clone();
    let _ = request.to_json();
    assert_eq!(request, before);
}

#[test]
fn typed_arguments_become_the_json_of_their_kind() {
    let mut client = SolanaRpcClient::new(DEVNET);
    let body = client
        .get_token_accounts_by_owner(
            "owner".to_string(),
            json("{\"mint\":\"m\"}"),
            Some(json("{\"encoding\":\"base64\"}")),
        )
        .to_json();
    assert_eq!(
        body.to_string(),
        "{\"id\":0,\"jsonrpc\":\"2.0\",\"method\":\"getTokenAccountsByOwner\",\"params\":[\"owner\",{\"mint\":\"m\"},{\"encoding\":\"base64\"}]}"
    );
    let body = client.request_airdrop("to".to_string(), -1, None).to_json();
    assert_eq!(
        body.to_string(),
        "{\"id\":1,\"jsonrpc\":\"2.0\",\"method\":\"requestAirdrop\",\"params\":[\"to\",-1]}"
    );
    let body = client.get_block(18446744073709551615, None).to_json();
    assert_eq!(
        body.to_string(),
        "{\"id\":2,\"jsonrpc\":\"2.0\",\"method\":\"getBlock\",\"params\":[18446744073709551615]}"
    );
    let body = client
        .get_multiple_accounts(vec!["a".to_string(), "b".to_string(), "c".to_string()], None)
        .to_json();
    assert_eq!(
        body.to_string(),
        "{\"id\":3,\"jsonrpc\":\"2.0\",\"method\":\"getMultipleAccounts\",\"params\":[[\"a\",\"b\",\"c\"]]}"
    );
    let body = client.get_inflation_reward(Vec::new(), None).to_json();
    assert_eq!(
        body.to_string(),
        "{\"id\":4,\"jsonrpc\":\"2.0\",\"method\":\"getInflationReward\",\"params\":[[]]}"
    );
}

#[test]
fn text_with_quotes_is_escaped_on_the_wire() {
    let mut client = SolanaRpcClient::new(DEVNET);
    let body = client.send_transaction("a\"b\\c\n".to_string(), None).to_json();
    assert_eq!(
        body.to_string(),
        "{\"id\":0,\"jsonrpc\":\"2.0\",\"method\":\"sendTransaction\",\"params\":[\"a\\\"b\\\\c\\n\"]}"
    );
}

#[test]
fn decode_gives_the_result() {
    assert_eq!(decode(&json("{\"jsonrpc\":\"2.0\",\"result\":1234,\"id\":0}")), Ok(json("1234")));
    assert_eq!(
        decode(&json("{\"result\":{\"context\":{\"slot\":1},\"value\":[1,\"x\",null]}}")),
        Ok(json("{\"context\":{\"slot\":1},\"value\":[1,\"x\",null]}"))
    );
}

#[test]
fn decode_prefers_the_error_to_the_result() {
    let envelope =
        json("{\"result\":1234,\"error\":{\"code\":-32602,\"message\":\"Invalid param\"}}");
    assert_eq!(decode(&envelope), Err(remote(-32602, "Invalid param")));
    let envelope =
        json("{\"error\":{\"code\":-32602,\"message\":\"Invalid param\"},\"result\":1234}");
    assert_eq!(decode(&envelope), Err(remote(-32602, "Invalid param")));
}

#[test]
fn decode_without_result_and_error_gives_null() {
    assert_eq!(decode(&json("{}")), Ok(Value::Null));
    assert_eq!(decode(&json("{\"jsonrpc\":\"2.0\",\"id\":3}")), Ok(Value::Null));
}

#[test]
fn decode_gives_a_null_result_as_null() {
    assert_eq!(decode(&json("{\"result\":null}")), Ok(Value::Null));
}

#[test]
fn decode_takes_a_null_error_as_absent() {
    assert_eq!(decode(&json("{\"result\":5,\"error\":null}")), Ok(json("5")));
    assert_eq!(decode(&json("{\"error\":null}")), Ok(Value::Null));
}

#[test]
fn decode_keeps_code_and_message_as_they_are() {
    let envelope = json("{\"error\":{\"code\":9223372036854775807,\"message\":\"\"}}");
    assert_eq!(decode(&envelope), Err(remote(i64::MAX, "")));
    let envelope = json("{\"error\":{\"code\":-9223372036854775808,\"message\":\"a\\nb \\u00e9\"}}");
    assert_eq!(decode(&envelope), Err(remote(i64::MIN, "a\nb \u{e9}")));
    let envelope = json("{\"error\":{\"code\":0,\"message\":\"m\",\"data\":{\"x\":1}}}");
    assert_eq!(decode(&envelope), Err(remote(0, "m")));
}

#[test]
fn decode_refuses_an_error_that_is_no_error_object() {
    for text in [
        "{\"error\":\"boom\"}",
        "{\"error\":5}",
        "{\"error\":[1,\"m\"]}",
        "{\"error\":{}}",
        "{\"error\":{\"code\":1}}",
        "{\"error\":{\"message\":\"m\"}}",
        "{\"error\":{\"code\":\"1\",\"message\":\"m\"}}",
        "{\"error\":{\"code\":1.5,\"message\":\"m\"}}",
        "{\"error\":{\"code\":1.0,\"message\":\"m\"}}",
        "{\"error\":{\"code\":9223372036854775808,\"message\":\"m\"}}",
        "{\"error\":{\"code\":1,\"message\":null}}",
        "{\"error\":{\"code\":1,\"message\":7}}",
        "{\"error\":false,\"result\":1}",
    ] {
        assert_eq!(decode(&json(text)), Err(ClientError::DecodeError), "{}", text);
    }
}

#[test]
fn decode_refuses_what_is_no_object() {
    for text in ["null", "true", "1234", "\"ok\"", "[]", "[{\"result\":1}]"] {
        assert_eq!(decode(&json(text)), Err(ClientError::DecodeError), "{}", text);
    }
}

#[test]
fn decode_body_reads_an_answer() {
    assert_eq!(read("{\"result\":1234}"), Ok(json("1234")));
    assert_eq!(
        read(" {\"jsonrpc\":\"2.0\",\"result\":\"ok\",\"id\":1}\n"),
        Ok(json("\"ok\""))
    );
    assert_eq!(read("{}"), Ok(Value::Null));
    assert_eq!(
        read("{\"result\":1,\"error\":{\"code\":-32601,\"message\":\"Method not found\"}}"),
        Err(remote(-32601, "Method not found"))
    );
}

#[test]
fn decode_body_refuses_what_is_not_json() {
    for text in ["", "   ", "<html>", "{\"result\":1234", "{\"result\":1234}}", "{result:1}", "nul"] {
        assert_eq!(read(text), Err(ClientError::DecodeError), "{:?}", text);
    }
}

#[test]
fn decode_body_refuses_bytes_that_are_no_text() {
    assert_eq!(decode_body(&[0xff, 0xfe]), Err(ClientError::DecodeError));
    assert_eq!(decode_body(b"{\"result\":\"\xff\"}"), Err(ClientError::DecodeError));
    assert_eq!(decode_body(&[]), Err(ClientError::DecodeError));
}

#[test]
fn decode_body_reads_text_beyond_ascii() {
    assert_eq!(
        read("{\"result\":\"gr\u{fc}\u{df}e \u{1f600}\"}"),
        Ok(Value::String("gr\u{fc}\u{df}e \u{1f600}".to_string()))
    );
}

#[test]
fn decode_body_refuses_json_that_is_no_answer() {
    assert_eq!(read("1234"), Err(ClientError::DecodeError));
    assert_eq!(read("{\"error\":{\"code\":1}}"), Err(ClientError::DecodeError));
}

#[test]
fn round_trip_get_slot() {
    let mut client = SolanaRpcClient::new(DEVNET);
    let request = client.get_slot(None);
    assert_eq!(request.method, "getSlot");
    assert!(request.params.is_empty());
    assert_eq!(
        request.to_json().to_string(),
        "{\"id\":0,\"jsonrpc\":\"2.0\",\"method\":\"getSlot\",\"params\":[]}"
    );
    assert_eq!(read("{\"result\":1234}"), Ok(Value::from(1234)));
}

#[test]
fn conclude_reads_the_body_of_an_answer() {
    assert_eq!(conclude(Ok(body("{\"result\":[1,2]}"))), Ok(json("[1,2]")));
    assert_eq!(
        conclude(Ok(body("{\"error\":{\"code\":-32005,\"message\":\"Node is behind\"}}"))),
        Err(remote(-32005, "Node is behind"))
    );
    assert_eq!(conclude(Ok(body("not json"))), Err(ClientError::DecodeError));
}

#[test]
fn conclude_keeps_the_cause_of_a_transport_failure() {
    assert_eq!(
        conclude(Err("connection refused".to_string())),
        Err(ClientError::TransportError("connection refused".to_string()))
    );
    assert_eq!(
        conclude(Err("{\"result\":1}".to_string())),
        Err(ClientError::TransportError("{\"result\":1}".to_string()))
    );
}
