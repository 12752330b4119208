use kaspawallet_egui::bridge::{decode_failure_message, reply_outcome, BackendClient, BridgeReply, ReadinessWatch};
use kaspawallet_egui::messages::{
    BroadcastRequest, ParseRequest, SignRequest, WalletSummaryRequest,
};

fn client() -> BackendClient {
    BackendClient::new("http://127.0.0.1:4123".to_string())
}

#[test]
fn endpoint_urls_append_the_path_to_the_base() {
    let c = client();
    let req = WalletSummaryRequest { network: "mainnet".into(), keys_file: "k.json".into() };
    let call = c.wallet_summary(&req);
    assert_eq!(call.url, "http://127.0.0.1:4123/api/wallet/summary");
    assert_eq!(call.path, "/api/wallet/summary");
    assert!(std::ptr::eq(call.body, &req));
    assert_eq!(c.stop_daemon().url, "http://127.0.0.1:4123/api/daemon/stop");
    assert_eq!(c.daemon_status().path, "/api/daemon/status");
    assert_eq!(c.balance().path, "/api/balance");
    assert_eq!(c.list_addresses().path, "/api/addresses/list");
    assert_eq!(c.new_address().path, "/api/addresses/new");
    let sign = SignRequest {
        network: "mainnet".into(),
        keys_file: "k".into(),
        password: "p".into(),
        transactions_hex: "ab".into(),
    };
    assert_eq!(c.sign(&sign).path, "/api/transactions/sign");
    let parse = ParseRequest { network: "mainnet".into(), keys_file: "k".into(), transactions_hex: "ab".into() };
    assert_eq!(c.parse(&parse).path, "/api/transactions/parse");
    let broadcast = BroadcastRequest { transactions_hex: "ab".into() };
    assert_eq!(c.broadcast(&broadcast).url, "http://127.0.0.1:4123/api/transactions/broadcast");
    assert_eq!(c.base_url(), "http://127.0.0.1:4123");
}

#[test]
fn successful_reply_gives_its_body() {
    assert_eq!(reply_outcome(BridgeReply::Body("{\"a\":1}".into())), Ok("{\"a\":1}".to_string()));
}

#[test]
fn unreadable_reply_is_reported() {
    assert_eq!(
        reply_outcome(BridgeReply::Unreadable("eof".into())),
        Err("failed reading bridge response: eof".to_string())
    );
}

#[test]
fn bridge_error_message_wins() {
    let reply = BridgeReply::Status {
        status: 400,
        body: "{\"error\":\"wrong password\"}".into(),
        api_error: Some("wrong password".into()),
    };
    assert_eq!(reply_outcome(reply), Err("wrong password".to_string()));
}

#[test]
fn error_status_without_body_names_the_status() {
    let reply = BridgeReply::Status { status: 502, body: " \n".into(), api_error: None };
    assert_eq!(reply_outcome(reply), Err("bridge request failed with HTTP 502".to_string()));
}

#[test]
fn error_status_with_body_repeats_it() {
    let reply = BridgeReply::Status { status: 500, body: "boom".into(), api_error: None };
    assert_eq!(reply_outcome(reply), Err("bridge request failed with HTTP 500: boom".to_string()));
}

#[test]
fn transport_error_is_reported() {
    assert_eq!(
        reply_outcome(BridgeReply::Transport("connection refused".into())),
        Err("bridge transport error: connection refused".to_string())
    );
}

#[test]
fn decode_failure_names_the_path() {
    assert_eq!(
        decode_failure_message("/api/balance", "missing field"),
        "failed decoding bridge response from /api/balance: missing field"
    );
}

#[test]
fn readiness_is_reported_from_the_first_ready_line() {
    let mut watch = ReadinessWatch::new();
    assert!(!watch.has_reported());
    assert_eq!(watch.on_line("starting up"), None);
    assert_eq!(watch.on_line("READY  http://127.0.0.1:5000 \r"), Some(Ok("http://127.0.0.1:5000".to_string())));
    assert!(watch.has_reported());
    assert_eq!(watch.on_line("READY http://other"), None);
    assert_eq!(watch.on_read_error("broken pipe"), None);
    assert_eq!(watch.on_end(), None);
}

#[test]
fn readiness_fails_when_output_ends_first() {
    let mut watch = ReadinessWatch::new();
    assert_eq!(watch.on_line("ready http://x"), None);
    assert_eq!(
        watch.on_end(),
        Some(Err("backend exited before it reported readiness".to_string()))
    );
    assert_eq!(watch.on_end(), None);
}

#[test]
fn readiness_fails_on_a_read_error() {
    let mut watch = ReadinessWatch::new();
    assert_eq!(
        watch.on_read_error("invalid UTF-8"),
        Some(Err("failed reading backend stdout: invalid UTF-8".to_string()))
    );
    assert_eq!(watch.on_line("READY http://x"), None);
}
