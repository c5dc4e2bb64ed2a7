use lsps1_plugin::builders::{
    build_create_order_request, build_get_info_request, build_get_order_request, id_from_bytes,
    make_id, RequestError,
};
use lsps1_plugin::cli::{
    channel_announcement, decode_uri, parse_buy_request, str_to_buy_request_type,
    BuyRequestTypes, InvalidParameters, UriError,
};
use lsps1_plugin::messages::{
    CreateOrderJsonRpcRequest, CreateOrderJsonRpcResponse, CreateOrderJsonRpcResponsePayment,
    CreateOrderJsonRpcResponseResult, OrderState, PaymentState,
};
use lsps1_plugin::settlement::{Lsps1ValidateAndPay, SettlementError};
use lsps1_plugin::tracker::{InboundAction, PluginMethodState, PluginState};
use lsps1_plugin::wire::{decode_custom_message, encode_message, frame, unframe, MESSAGE_TYPE};

const KEY: &str = "0279be667ef9dcbbac55a06295ce870b07029bfcdb2dce28d959f2815b16f81798";

fn request(id: &str, amount: u64, blocks: u64) -> CreateOrderJsonRpcRequest {
    build_create_order_request(id.to_string(), amount, blocks, "bc1qrefund".to_string(), true)
        .unwrap()
}

fn response(id: &str, lsp_balance: &str, fee: &str, total: &str) -> CreateOrderJsonRpcResponse {
    CreateOrderJsonRpcResponse {
        id: id.to_string(),
        jsonrpc: "2.0".to_string(),
        result: CreateOrderJsonRpcResponseResult {
            order_id: "order-1".to_string(),
            lsp_balance_sat: lsp_balance.to_string(),
            client_balance_sat: "0".to_string(),
            confirms_within_blocks: 6,
            channel_expiry_blocks: 13000,
            token: String::new(),
            created_at: "2024-01-01T00:00:00Z".to_string(),
            expires_at: "2024-01-02T00:00:00Z".to_string(),
            announce_channel: true,
            order_state: OrderState::Created,
            payment: CreateOrderJsonRpcResponsePayment {
                state: PaymentState::ExpectPayment,
                fee_total_sat: fee.to_string(),
                order_total_sat: total.to_string(),
                lightning_invoice: "lnbc500u1invoice".to_string(),
                onchain_address: None,
                min_onchain_payment_confirmations: None,
                min_fee_for_0conf: None,
                onchain_payment: None,
            },
            channel: None,
        },
    }
}

fn pair(resp: CreateOrderJsonRpcResponse) -> Lsps1ValidateAndPay {
    Lsps1ValidateAndPay { order: request("abc", 1000000, 6), order_response_payload: resp }
}

#[test]
fn settlement_proceeds_when_order_matches() {
    let v = pair(response("abc", "1000000", "50000", "50000"));
    assert_eq!(v.validate(), Ok(50000));
    assert_eq!(v.validate_and_pay(Some(50000000)), Ok("lnbc500u1invoice".to_string()));
}

#[test]
fn settlement_aborts_on_total_fee_mismatch() {
    let v = pair(response("abc", "1000000", "50000", "60000"));
    assert_eq!(v.validate(), Err(SettlementError::TotalFeeMismatch));
    assert_eq!(v.validate_and_pay(Some(60000000)), Err(SettlementError::TotalFeeMismatch));
}

#[test]
fn settlement_rejects_invoice_amount_mismatch() {
    let v = pair(response("abc", "1000000", "50000", "50000"));
    assert_eq!(v.validate_and_pay(Some(50000001)), Err(SettlementError::InvoiceAmountMismatch));
    assert_eq!(v.validate_and_pay(Some(50000)), Err(SettlementError::InvoiceAmountMismatch));
    assert_eq!(v.validate_and_pay(None), Err(SettlementError::NoInvoiceAmount));
}

#[test]
fn settlement_rejects_fee_above_ceiling() {
    let v = pair(response("abc", "1000000", "100001", "100001"));
    assert_eq!(v.validate_and_pay(Some(100001000)), Err(SettlementError::FeeTooHigh));
    let at_ceiling = pair(response("abc", "1000000", "100000", "100000"));
    assert_eq!(at_ceiling.validate_and_pay(Some(100000000)), Ok("lnbc500u1invoice".to_string()));
    let huge = pair(response("abc", "1000000", "5000000000", "5000000000"));
    assert_eq!(huge.validate(), Err(SettlementError::InvalidFeeTotal));
}

#[test]
fn settlement_checks_echoed_parameters() {
    assert_eq!(
        pair(response("other", "1000000", "50000", "50000")).validate(),
        Err(SettlementError::OrderIdMismatch)
    );
    assert_eq!(
        pair(response("abc", "1000001", "50000", "50000")).validate(),
        Err(SettlementError::LspBalanceMismatch)
    );
    let mut r = response("abc", "1000000", "50000", "50000");
    r.result.channel_expiry_blocks = 12000;
    assert_eq!(pair(r).validate(), Err(SettlementError::ChannelExpiryBlocksMismatch));
    let mut r = response("abc", "1000000", "50000", "50000");
    r.result.confirms_within_blocks = 7;
    assert_eq!(pair(r).validate(), Err(SettlementError::ConfirmsWithinBlocksMismatch));
}

#[test]
fn settlement_checks_states_and_amount_text() {
    let mut r = response("abc", "1000000", "50000", "50000");
    r.result.order_state = OrderState::Completed;
    assert_eq!(pair(r).validate(), Err(SettlementError::OrderNotCreated));
    let mut r = response("abc", "1000000", "50000", "50000");
    r.result.payment.state = PaymentState::Paid;
    assert_eq!(pair(r).validate(), Err(SettlementError::PaymentNotExpected));
    assert_eq!(
        pair(response("abc", "1000000", "5O000", "50000")).validate(),
        Err(SettlementError::InvalidFeeTotal)
    );
    assert_eq!(
        pair(response("abc", "1000000", "50000", "")).validate(),
        Err(SettlementError::InvalidOrderTotal)
    );
    assert_eq!(pair(response("abc", "1000000", "+50000", "050000")).validate(), Ok(50000));
}

#[test]
fn invoice_amount_overflow_is_a_mismatch() {
    assert_eq!(
        Lsps1ValidateAndPay::check_invoice_amount(u64::MAX, Some(u64::MAX)),
        Err(SettlementError::InvoiceAmountMismatch)
    );
    assert_eq!(Lsps1ValidateAndPay::check_invoice_amount(7, Some(7000)), Ok(()));
}

#[test]
fn wire_round_trip() {
    let payload = b"{\"jsonrpc\":\"2.0\"}".to_vec();
    let hex = encode_message(&payload);
    assert!(hex.starts_with("9419"));
    assert_eq!(decode_custom_message(&hex), Some(payload));
    assert_eq!(decode_custom_message("9419"), Some(vec![]));
    assert_eq!(decode_custom_message("941A7b7d"), None);
    assert_eq!(decode_custom_message("941a7B7D"), None);
    assert_eq!(decode_custom_message("94197B7D"), Some(b"{}".to_vec()));
}

#[test]
fn foreign_tag_is_ignored() {
    assert_eq!(decode_custom_message("0001"), None);
    assert_eq!(decode_custom_message("94187b7d"), None);
}

#[test]
fn short_or_non_hex_payload_is_ignored() {
    assert_eq!(decode_custom_message(""), None);
    assert_eq!(decode_custom_message("94"), None);
    assert_eq!(decode_custom_message("941"), None);
    assert_eq!(decode_custom_message("zz19"), None);
    assert_eq!(decode_custom_message("9419é"), None);
}

#[test]
fn frame_and_unframe() {
    let f = frame(MESSAGE_TYPE, &vec![1, 2, 3]);
    assert_eq!(f, vec![0x94, 0x19, 1, 2, 3]);
    assert_eq!(unframe(&f), Some((37913, vec![1, 2, 3])));
    assert_eq!(unframe(&vec![7]), None);
}

#[test]
fn create_order_request_fields() {
    let r = request("id-1", 1000000, 6);
    assert_eq!(r.id, "id-1");
    assert_eq!(r.jsonrpc, "2.0");
    assert_eq!(r.method, "lsps1.create_order");
    assert_eq!(r.params.lsp_balance_sat, "1000000");
    assert_eq!(r.params.client_balance_sat, "0");
    assert_eq!(r.params.confirms_within_blocks, 6);
    assert_eq!(r.params.channel_expiry_blocks, 13000);
    assert_eq!(r.params.token, "");
    assert_eq!(r.params.refund_onchain_address, "bc1qrefund");
    assert!(r.params.announce_channel);
    let e = build_create_order_request("x".to_string(), 1, 1u64 << 32, String::new(), false);
    assert_eq!(e.unwrap_err(), RequestError::BlocksOutOfRange);
}

#[test]
fn other_requests_fields() {
    let i = build_get_info_request("q".to_string());
    assert_eq!((i.id.as_str(), i.jsonrpc.as_str(), i.method.as_str()), ("q", "2.0", "lsps1.get_info"));
    let o = build_get_order_request("order-9".to_string(), "p".to_string());
    assert_eq!(o.method, "lsps1.get_order");
    assert_eq!(o.params.order_id, "order-9");
    assert_eq!(o.id, "p");
}

#[test]
fn ids_are_hex_of_random_bytes() {
    let a = make_id();
    let b = make_id();
    assert_eq!(a.len(), 64);
    assert!(a.chars().all(|c| c.is_ascii_hexdigit() && !c.is_ascii_uppercase()));
    assert_ne!(a, b);
    assert_eq!(id_from_bytes(&[0x00, 0xab, 0xff]), "00abff");
}

#[test]
fn prepared_order_is_outstanding_under_its_id() {
    let mut state = PluginState::new();
    assert_eq!(state.get_active_operation(), PluginMethodState::Idle);
    let req = state
        .prepare_create_order("id-7".to_string(), 500, 3, "addr".to_string(), false)
        .unwrap();
    assert_eq!(req.params.lsp_balance_sat, "500");
    assert!(!req.params.announce_channel);
    let found = state.take_outstanding_order(&"id-7".to_string()).unwrap();
    assert_eq!(found.id, "id-7");
    assert_eq!(found.params.confirms_within_blocks, 3);
    assert!(state.take_outstanding_order(&"id-8".to_string()).is_none());
    let bad = state.prepare_create_order("id-9".to_string(), 1, u64::MAX, String::new(), true);
    assert!(bad.is_err());
    assert!(state.take_outstanding_order(&"id-9".to_string()).is_none());
}

#[test]
fn later_record_replaces_earlier() {
    let mut state = PluginState::new();
    state.record_outstanding_order(request("same", 1, 1));
    state.record_outstanding_order(request("same", 2, 1));
    let found = state.take_outstanding_order(&"same".to_string()).unwrap();
    assert_eq!(found.params.lsp_balance_sat, "2");
}

#[test]
fn order_responses_are_routed_by_active_operation() {
    let mut state = PluginState::new();
    state.record_outstanding_order(request("abc", 1000000, 6));
    let resp = response("abc", "1000000", "50000", "50000");
    assert!(matches!(state.route_order_response(resp.clone()), InboundAction::Ignore));
    state.set_active_operation(PluginMethodState::GetOrder);
    assert!(matches!(state.route_order_response(resp.clone()), InboundAction::Display));
    state.set_active_operation(PluginMethodState::GetInfo);
    assert!(matches!(state.route_order_response(resp.clone()), InboundAction::Ignore));
    state.set_active_operation(PluginMethodState::SendOrder);
    match state.route_order_response(resp.clone()) {
        InboundAction::Settle(v) => {
            assert_eq!(v.order.id, "abc");
            assert_eq!(v.validate_and_pay(Some(50000000)), Ok("lnbc500u1invoice".to_string()));
        }
        _ => panic!("expected settlement"),
    }
}

#[test]
fn unmatched_order_response_is_not_settled() {
    let mut state = PluginState::new();
    state.set_active_operation(PluginMethodState::SendOrder);
    state.record_outstanding_order(request("abc", 1000000, 6));
    let resp = response("zzz", "1000000", "50000", "50000");
    assert!(matches!(state.route_order_response(resp), InboundAction::Unmatched));
}

#[test]
fn request_types_in_any_case() {
    assert_eq!(str_to_buy_request_type("help"), Some(BuyRequestTypes::Help));
    assert_eq!(str_to_buy_request_type("BUY"), Some(BuyRequestTypes::Buy));
    assert_eq!(str_to_buy_request_type("GetInfo"), Some(BuyRequestTypes::GetInfo));
    assert_eq!(str_to_buy_request_type("getorder"), Some(BuyRequestTypes::GetOrder));
    assert_eq!(str_to_buy_request_type("dryrun"), None);
    assert_eq!(str_to_buy_request_type(""), None);
}

#[test]
fn channel_type_and_buy_parameters() {
    assert_eq!(channel_announcement(None), Ok(true));
    assert_eq!(channel_announcement(Some("Private")), Ok(false));
    assert_eq!(channel_announcement(Some("PUBLIC")), Ok(true));
    assert_eq!(channel_announcement(Some("secret")), Err(InvalidParameters::ChannelType));
    let uri = Some("k@h:1".to_string());
    assert_eq!(parse_buy_request(None, Some(6), uri.clone(), None).unwrap_err(), InvalidParameters::Amount);
    assert_eq!(parse_buy_request(Some(1), None, uri.clone(), None).unwrap_err(), InvalidParameters::Blocks);
    assert_eq!(parse_buy_request(Some(1), Some(6), None, None).unwrap_err(), InvalidParameters::Uri);
    assert_eq!(
        parse_buy_request(Some(1), Some(6), uri.clone(), Some("x")).unwrap_err(),
        InvalidParameters::ChannelType
    );
    let p = parse_buy_request(Some(1000000), Some(6), uri, Some("private")).unwrap();
    assert_eq!((p.amount, p.blocks, p.uri.as_str(), p.announce_channel), (1000000, 6, "k@h:1", false));
}

#[test]
fn uri_decoding() {
    let u = decode_uri(&format!("{}@127.0.0.1:9735", KEY)).unwrap();
    assert_eq!((u.pubkey.as_str(), u.host.as_str(), u.port), (KEY, "127.0.0.1", 9735));
    let quoted = decode_uri(&format!("\" {}\t\"@host:1", KEY)).unwrap();
    assert_eq!(quoted.pubkey, KEY);
    assert_eq!(decode_uri("no-at-sign").unwrap_err(), UriError::InvalidFormat);
    assert_eq!(decode_uri(&format!("{}@a@b:1", KEY)).unwrap_err(), UriError::InvalidFormat);
    assert_eq!(decode_uri("02abcd@host:1").unwrap_err(), UriError::InvalidPubkey);
    assert_eq!(decode_uri(&format!("{}@host", KEY)).unwrap_err(), UriError::InvalidHostPort);
    assert_eq!(decode_uri(&format!("{}@h:1:2", KEY)).unwrap_err(), UriError::InvalidHostPort);
    assert_eq!(decode_uri(&format!("{}@h:70000", KEY)).unwrap_err(), UriError::InvalidPort);
    assert_eq!(decode_uri(&format!("{}@h:", KEY)).unwrap_err(), UriError::InvalidPort);
}
