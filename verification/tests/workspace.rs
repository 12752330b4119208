use kaspawallet_egui::bridge::BackendClient;
use kaspawallet_egui::choices::{Accent, FeeMode, MessageTone, NetworkChoice, SetupMode, WorkspacePage};
use kaspawallet_egui::messages::{
    AddressesResponse, BalanceResponse, BootstrapCreateResponse, BroadcastResponse, DaemonStatus,
    ExportSecretsResponse, InputSignatureProgress, NewAddressResponse, ParsedTransaction,
    TransactionBundle, WalletSummary,
};
use kaspawallet_egui::display::{
    bundle_headline, flow_stage, local_public_keys, missing_signatures, signature_progress_line,
    state_color, transaction_shape, transaction_title,
};
use kaspawallet_egui::wallet::{AppEvent, Command, TaskTag, WalletApp};

fn summary(multisig: bool, canonical: bool) -> WalletSummary {
    WalletSummary {
        network: "mainnet".into(),
        keys_file: "/home/u/keys.json".into(),
        public_keys: vec!["kpub1".into(), "kpub2".into(), "kpub3".into()],
        sorted_public_keys: vec!["kpub1".into(), "kpub2".into(), "kpub3".into()],
        public_key_count: 3,
        owned_key_count: 1,
        minimum_signatures: 2,
        cosigner_index: 0,
        last_used_external_index: 0,
        last_used_internal_index: 0,
        fingerprint: "ab:cd".into(),
        is_multisig: multisig,
        has_private_keys: true,
        owns_all_keys: false,
        is_canonical_address_owner: canonical,
        ecdsa: false,
    }
}

fn status(state: &str, wallet: Option<WalletSummary>) -> DaemonStatus {
    DaemonStatus {
        state: state.into(),
        message: format!("engine is {state}"),
        daemon_address: "127.0.0.1:8082".into(),
        network: "mainnet".into(),
        keys_file: "/home/u/keys.json".into(),
        rpc_server: "localhost".into(),
        started_at: None,
        finished_at: None,
        wallet_version: None,
        wallet,
    }
}

fn bundle(fully_signed: bool, signed_by: &[usize], missing: &[u32]) -> TransactionBundle {
    let signatures = signed_by
        .iter()
        .zip(missing.iter())
        .enumerate()
        .map(|(i, (s, m))| InputSignatureProgress {
            input_index: i,
            signed_by: *s,
            minimum_signatures: 2,
            missing_signatures: *m,
        })
        .collect();
    TransactionBundle {
        transactions_hex: "deadbeef".into(),
        transaction_count: 1,
        fully_signed,
        transactions: vec![ParsedTransaction {
            index: 0,
            tx_id: "tx".into(),
            fully_signed,
            input_count: signed_by.len(),
            output_count: 1,
            inputs: vec![],
            outputs: vec![],
            fee_sompi: 1000,
            fee_kas: "0.00001".into(),
            mass: 2000,
            fee_rate_bits: 1.0f64.to_bits(),
            has_mass_estimate: true,
            signatures,
        }],
    }
}

fn app() -> WalletApp {
    WalletApp::new(Ok(BackendClient::new("http://127.0.0.1:1".into())))
}

fn banner(app: &WalletApp) -> (MessageTone, String) {
    let b = app.banner.as_ref().expect("banner");
    (b.tone, b.text.clone())
}

fn ready_app() -> WalletApp {
    let mut a = app();
    a.handle_event(AppEvent::WalletSummary(Ok(summary(true, true))));
    a.take_commands();
    a.handle_event(AppEvent::DaemonStatus(Ok(status("ready", None))));
    a.take_commands();
    a.handle_event(AppEvent::Balance(Err("not yet".into())));
    a
}

#[test]
fn new_workspace_with_running_bridge() {
    let a = app();
    assert_eq!(a.active_page, WorkspacePage::Setup);
    assert_eq!(
        banner(&a),
        (
            MessageTone::Info,
            "The local wallet backend is running. Start by opening, creating, or recovering a multisig wallet.".to_string()
        )
    );
    assert_eq!(a.node_form.rpc_server, "stage-roman.igralabs.com:16210");
    assert_eq!(a.engine_state(), "stopped");
    assert!(!a.wallet_loaded() && !a.wallet_ready() && !a.can_issue_receive());
    assert_eq!(a.sync_state_label(), "Not connected");
    assert_eq!(a.primary_stage(), ("Get started", Accent::Copper));
    assert_eq!(a.next_action(), "Create, recover, or open a multisig wallet.");
    assert_eq!(a.recommended_page(), WorkspacePage::Setup);
    assert_eq!(a.network_string(), "mainnet");
}

#[test]
fn new_workspace_without_bridge_shows_the_error_and_refuses_tasks() {
    let mut a = WalletApp::new(Err("failed to launch local Go backend: not found".into()));
    assert_eq!(banner(&a), (MessageTone::Error, "failed to launch local Go backend: not found".to_string()));
    a.request_wallet_summary();
    assert_eq!(banner(&a), (MessageTone::Error, "Local Go bridge is unavailable.".to_string()));
    assert!(a.take_commands().is_empty());
    assert!(!a.pending.contains(TaskTag::Summary));
}

#[test]
fn requesting_a_summary_queues_its_command() {
    let mut a = app();
    a.bootstrap.keys_file = "/k.json".into();
    a.request_wallet_summary();
    assert!(a.pending.contains(TaskTag::Summary));
    let commands = a.take_commands();
    assert_eq!(commands.len(), 1);
    match &commands[0] {
        Command::WalletSummary(r) => {
            assert_eq!(r.network, "mainnet");
            assert_eq!(r.keys_file, "/k.json");
        }
        other => panic!("unexpected {other:?}"),
    }
    assert!(a.take_commands().is_empty());
}

#[test]
fn create_request_sends_mnemonics_only_when_recovering() {
    let mut a = app();
    a.bootstrap.remote_public_keys = "kpubB\nkpubC".into();
    a.bootstrap.import_mnemonics = "w1 w2".into();
    a.request_wallet_create();
    match &a.take_commands()[0] {
        Command::CreateWallet(r) => {
            assert_eq!(r.remote_public_keys, vec!["kpubB", "kpubC"]);
            assert!(r.import_mnemonics.is_empty());
        }
        other => panic!("unexpected {other:?}"),
    }
    a.bootstrap.setup_mode = SetupMode::RecoverExisting;
    a.request_wallet_create();
    match &a.take_commands()[0] {
        Command::CreateWallet(r) => assert_eq!(r.import_mnemonics, vec!["w1 w2"]),
        other => panic!("unexpected {other:?}"),
    }
}

#[test]
fn session_request_needs_a_node() {
    let mut a = app();
    a.node_form.rpc_server = "  ".into();
    assert_eq!(
        a.current_session_request().unwrap_err(),
        "Kaspa node RPC is required for sync and spend operations."
    );
    a.request_balance();
    assert_eq!(
        banner(&a),
        (MessageTone::Error, "Kaspa node RPC is required for sync and spend operations.".to_string())
    );
    assert!(a.take_commands().is_empty());
    a.node_form.rpc_server = " localhost:16110 ".into();
    let s = a.current_session_request().unwrap();
    assert_eq!(s.rpc_server, "localhost:16110");
    assert_eq!(s.timeout_seconds, 30);
    assert_eq!(s.network, "mainnet");
}

#[test]
fn wallet_summary_outcome_loads_wallet_and_connects() {
    let mut a = app();
    a.request_wallet_summary();
    a.take_commands();
    a.handle_event(AppEvent::WalletSummary(Ok(summary(true, false))));
    assert!(!a.pending.contains(TaskTag::Summary));
    assert!(a.pending.contains(TaskTag::SessionConfig));
    assert_eq!(a.active_page, WorkspacePage::Connect);
    assert_eq!(a.bootstrap.keys_file, "/home/u/keys.json");
    assert_eq!(banner(&a), (MessageTone::Info, "Wallet loaded.".to_string()));
    let commands = a.take_commands();
    assert!(matches!(&commands[..], [Command::ConfigureSession(_)]));
    assert!(a.wallet_loaded());
    assert!(!a.can_issue_receive());
    assert_eq!(a.primary_stage(), ("Connect wallet", Accent::Copper));
    assert_eq!(a.next_action(), "Connect the wallet to your node.");
}

#[test]
fn failed_summary_shows_the_error() {
    let mut a = app();
    a.request_wallet_summary();
    a.handle_event(AppEvent::WalletSummary(Err("no such file".into())));
    assert_eq!(banner(&a), (MessageTone::Error, "no such file".to_string()));
    assert!(!a.pending.contains(TaskTag::Summary));
    assert!(!a.wallet_loaded());
}

#[test]
fn created_wallet_keeps_its_recovery_material() {
    let mut a = app();
    a.node_form.rpc_server = String::new();
    a.handle_event(AppEvent::WalletCreated(Ok(BootstrapCreateResponse {
        summary: summary(true, true),
        local_extended_pub_keys: vec!["kpub1".into()],
        local_mnemonics: vec!["w1 w2".into()],
        canonical_owner_warning: String::new(),
    })));
    let secrets = a.secrets.as_ref().unwrap();
    assert_eq!(secrets.mnemonics, vec!["w1 w2"]);
    assert_eq!(secrets.minimum_signatures, 2);
    assert_eq!(
        banner(&a),
        (MessageTone::Info, "Wallet file created and fingerprint confirmed.".to_string())
    );
    assert!(a.take_commands().is_empty());
    assert_eq!(a.next_action(), "Add a Kaspa node RPC to sync this wallet.");
    a.clear_secrets();
    assert!(a.secrets.is_none());
}

#[test]
fn created_wallet_warning_is_shown() {
    let mut a = app();
    a.handle_event(AppEvent::WalletCreated(Ok(BootstrapCreateResponse {
        summary: summary(true, false),
        local_extended_pub_keys: vec![],
        local_mnemonics: vec![],
        canonical_owner_warning: "not the canonical owner".into(),
    })));
    assert_eq!(banner(&a), (MessageTone::Info, "not the canonical owner".to_string()));
}

#[test]
fn secrets_export_opens_setup() {
    let mut a = ready_app();
    a.handle_event(AppEvent::SecretsExported(Ok(ExportSecretsResponse {
        mnemonics: vec!["m".into()],
        external_public_keys: vec![],
        minimum_signatures: 2,
    })));
    assert_eq!(a.active_page, WorkspacePage::Setup);
    assert_eq!(
        banner(&a),
        (MessageTone::Info, "Sensitive recovery material is visible below. Clear it when finished.".to_string())
    );
}

#[test]
fn ready_status_moves_to_receive_and_reads_balance() {
    let mut a = app();
    a.handle_event(AppEvent::WalletSummary(Ok(summary(false, false))));
    a.take_commands();
    a.handle_event(AppEvent::DaemonStatus(Ok(status("ready", Some(summary(true, true))))));
    assert!(a.wallet_ready());
    assert_eq!(a.active_page, WorkspacePage::Receive);
    assert_eq!(banner(&a), (MessageTone::Info, "engine is ready".to_string()));
    assert!(a.pending.contains(TaskTag::Balance));
    assert!(!a.pending.contains(TaskTag::DaemonStatus));
    assert!(!a.pending.contains(TaskTag::SessionConfig));
    assert!(a.summary.as_ref().unwrap().is_multisig);
    let commands = a.take_commands();
    assert!(matches!(&commands[..], [Command::Balance(_)]));
    assert_eq!(a.sync_state_label(), "Synced");
    assert_eq!(a.primary_stage(), ("Receive or send", Accent::Teal));
    assert_eq!(a.next_action(), "Generate the next receive address or prepare a payment.");
}

#[test]
fn ready_status_for_a_signer_only_cosigner_moves_to_send() {
    let mut a = app();
    a.handle_event(AppEvent::WalletSummary(Ok(summary(true, false))));
    a.handle_event(AppEvent::DaemonStatus(Ok(status("ready", None))));
    assert_eq!(a.active_page, WorkspacePage::Send);
    assert_eq!(a.primary_stage(), ("Ready to sign", Accent::Teal));
    assert_eq!(a.recommended_page(), WorkspacePage::Send);
}

#[test]
fn syncing_status_keeps_the_page() {
    let mut a = app();
    a.handle_event(AppEvent::WalletSummary(Ok(summary(true, true))));
    a.handle_event(AppEvent::DaemonStatus(Ok(status("syncing", None))));
    assert_eq!(a.active_page, WorkspacePage::Connect);
    assert_eq!(a.sync_state_label(), "Syncing");
    assert_eq!(a.next_action(), "Wait for the wallet engine to finish syncing.");
    assert!(!a.pending.contains(TaskTag::Balance));
}

#[test]
fn balance_and_address_outcomes_read_the_status_again() {
    let mut a = ready_app();
    a.handle_event(AppEvent::Balance(Ok(BalanceResponse {
        available_sompi: 5,
        pending_sompi: 0,
        available_kas: "0.00000005".into(),
        pending_kas: "0".into(),
        addresses: vec![],
    })));
    assert!(a.balance.is_some());
    assert!(a.pending.contains(TaskTag::DaemonStatus));
    assert!(matches!(&a.take_commands()[..], [Command::DaemonStatus]));
    a.handle_event(AppEvent::Addresses(Ok(AddressesResponse { addresses: vec!["kaspa:a".into()] })));
    assert_eq!(a.addresses, vec!["kaspa:a"]);
    assert!(a.take_commands().is_empty());
}

#[test]
fn new_address_is_listed_once() {
    let mut a = ready_app();
    a.addresses = vec!["kaspa:a".into()];
    a.handle_event(AppEvent::NewAddress(Ok(NewAddressResponse { address: "kaspa:b".into() })));
    assert_eq!(a.addresses, vec!["kaspa:b", "kaspa:a"]);
    assert_eq!(a.last_new_address.as_deref(), Some("kaspa:b"));
    assert_eq!(a.active_page, WorkspacePage::Receive);
    assert_eq!(banner(&a), (MessageTone::Info, "Generated the next receive address.".to_string()));
    a.handle_event(AppEvent::NewAddress(Ok(NewAddressResponse { address: "kaspa:a".into() })));
    assert_eq!(a.addresses, vec!["kaspa:b", "kaspa:a"]);
    assert_eq!(a.next_action(), "Wallet is ready for everyday receive and spend actions.");
}

#[test]
fn flow_bundle_outcome_opens_send() {
    let mut a = ready_app();
    a.handle_event(AppEvent::FlowBundle(Ok(bundle(false, &[0], &[2]))));
    assert_eq!(a.flow_hex, "deadbeef");
    assert_eq!(a.active_page, WorkspacePage::Send);
    assert_eq!(banner(&a), (MessageTone::Info, "Spend bundle updated.".to_string()));
    assert_eq!(a.primary_stage(), ("Finish payment", Accent::Olive));
    assert_eq!(
        a.next_action(),
        "Review the payment, collect signatures, and send when it is fully signed."
    );
    assert!(a.page_unlocked(WorkspacePage::Technical));
    a.use_flow_in_inspector();
    assert_eq!(a.inspector.transactions_hex, "deadbeef");
    a.clear_flow();
    assert!(a.flow_bundle.is_none() && a.flow_hex.is_empty());
    assert!(a.page_unlocked(WorkspacePage::Technical));
}

#[test]
fn inspector_outcome_opens_technical_without_banner_change() {
    let mut a = ready_app();
    let before = banner(&a);
    a.request_parse_inspector();
    assert!(a.pending.contains(TaskTag::Inspector));
    a.handle_event(AppEvent::InspectorBundle(Ok(bundle(true, &[2], &[0]))));
    assert_eq!(a.active_page, WorkspacePage::Technical);
    assert_eq!(banner(&a), before);
    assert!(!a.pending.contains(TaskTag::Inspector));
}

#[test]
fn broadcast_outcome_counts_transactions() {
    let mut a = ready_app();
    a.handle_event(AppEvent::Broadcasted(Ok(BroadcastResponse { tx_ids: vec!["t1".into(), "t2".into()] })));
    assert_eq!(banner(&a), (MessageTone::Info, "Broadcast 2 transaction(s).".to_string()));
    assert_eq!(a.last_broadcast_tx_ids, vec!["t1", "t2"]);
    assert_eq!(a.active_page, WorkspacePage::Send);
}

#[test]
fn every_outcome_settles_its_task() {
    let mut a = ready_app();
    a.request_balance();
    a.handle_event(AppEvent::Balance(Err("x".into())));
    assert!(!a.pending.contains(TaskTag::Balance));
    a.request_daemon_status();
    a.handle_event(AppEvent::DaemonStatus(Err("y".into())));
    assert!(!a.pending.contains(TaskTag::DaemonStatus));
    assert_eq!(banner(&a), (MessageTone::Error, "y".to_string()));
    a.request_sign_flow();
    a.handle_event(AppEvent::FlowBundle(Err("z".into())));
    assert!(!a.pending.contains(TaskTag::FlowBundle));
}

#[test]
fn pages_unlock_with_progress() {
    let mut a = app();
    assert!(a.page_unlocked(WorkspacePage::Setup));
    assert!(!a.page_unlocked(WorkspacePage::Connect));
    assert!(!a.page_unlocked(WorkspacePage::Technical));
    a.inspector.transactions_hex = " \n".into();
    assert!(!a.page_unlocked(WorkspacePage::Technical));
    a.inspector.transactions_hex = "ab".into();
    assert!(a.page_unlocked(WorkspacePage::Technical));
    a.active_page = WorkspacePage::Send;
    a.sync_active_page();
    assert_eq!(a.active_page, WorkspacePage::Setup);
    a.select_page(WorkspacePage::Receive);
    assert_eq!(a.active_page, WorkspacePage::Setup);
    a.select_page(WorkspacePage::Technical);
    assert_eq!(a.active_page, WorkspacePage::Technical);
}

#[test]
fn recommended_page_is_always_open() {
    for a in [app(), ready_app()] {
        assert!(a.page_unlocked(a.recommended_page()));
    }
}

#[test]
fn setup_submission_rules() {
    let mut a = app();
    assert!(!a.setup_can_submit());
    a.bootstrap.password = "secret".into();
    assert_eq!(a.expected_remote_key_count(), 2);
    assert!(!a.setup_can_submit());
    a.bootstrap.remote_public_keys = "kpubB\nkpubC".into();
    assert_eq!(a.provided_remote_key_count(), 2);
    assert!(a.setup_can_submit());
    a.bootstrap.minimum_signatures = 4;
    assert!(!a.setup_can_submit());
    a.bootstrap.minimum_signatures = 2;
    a.bootstrap.setup_mode = SetupMode::RecoverExisting;
    assert!(!a.setup_can_submit());
    a.bootstrap.import_mnemonics = "w1 w2 w3".into();
    assert!(a.setup_can_submit());
    a.bootstrap.keys_file = "  ".into();
    assert!(!a.setup_can_submit());
    a.bootstrap.keys_file = "k.json".into();
    a.bootstrap.setup_mode = SetupMode::OpenExisting;
    a.bootstrap.password = String::new();
    assert!(a.setup_can_submit());
    assert_eq!(a.setup_primary_action_label(), "Open wallet");
    a.bootstrap.num_private_keys = 5;
    assert_eq!(a.expected_remote_key_count(), 0);
}

#[test]
fn polling_follows_the_periods() {
    let mut a = ready_app();
    a.auto_poll(1_000);
    assert!(a.pending.contains(TaskTag::DaemonStatus));
    assert!(a.pending.contains(TaskTag::Balance));
    assert_eq!(a.take_commands().len(), 2);
    a.handle_event(AppEvent::DaemonStatus(Ok(status("ready", None))));
    a.take_commands();
    a.handle_event(AppEvent::Balance(Err("later".into())));
    a.auto_poll(1_000 + 3_000_000_000);
    assert!(a.take_commands().is_empty());
    a.auto_poll(1_001 + 3_000_000_000);
    assert!(matches!(&a.take_commands()[..], [Command::DaemonStatus]));
    a.auto_poll(1_001 + 3_000_000_000);
    assert!(a.take_commands().is_empty());
    a.handle_event(AppEvent::DaemonStatus(Ok(status("ready", None))));
    assert!(matches!(&a.take_commands()[..], [Command::Balance(_)]));
    a.handle_event(AppEvent::Balance(Err("later".into())));
    a.auto_poll(1_000 + 6_000_000_000);
    assert!(a.take_commands().is_empty());
    a.auto_poll(1_001 + 6_000_000_000);
    assert!(matches!(&a.take_commands()[..], [Command::Balance(_)]));
}

#[test]
fn stopped_engine_is_not_polled() {
    let mut a = app();
    a.auto_poll(u64::MAX);
    assert!(a.take_commands().is_empty());
}

#[test]
fn create_unsigned_request_carries_the_fee_policy() {
    let mut a = ready_app();
    a.spend.to_address = "kaspa:dest".into();
    a.spend.fee_mode = FeeMode::MaxFee;
    a.spend.fee_value = "abc".into();
    a.request_create_unsigned(None);
    assert_eq!(banner(&a), (MessageTone::Error, "invalid max fee: abc".to_string()));
    a.spend.fee_value = "500".into();
    a.request_create_unsigned(None);
    match &a.take_commands()[..] {
        [Command::CreateUnsigned(session, request)] => {
            assert_eq!(session.network, "mainnet");
            assert_eq!(request.to_address, "kaspa:dest");
            assert_eq!(request.amount_kas, "1");
            assert_eq!(request.fee_policy.max_fee, Some(500));
        }
        other => panic!("unexpected {other:?}"),
    }
    assert!(a.pending.contains(TaskTag::FlowBundle));
}

#[test]
fn network_defaults_reach_both_forms() {
    let mut a = app();
    a.bootstrap.network = NetworkChoice::Testnet;
    a.use_network_defaults();
    assert_eq!(a.bootstrap.keys_file, "~/.kaspawallet/testnet/igra_msig_keys.json");
    assert_eq!(a.node_form.rpc_server, "localhost");
}

#[test]
fn state_colours() {
    assert_eq!(state_color(Some("ready")), Accent::Olive);
    assert_eq!(state_color(Some("configured")), Accent::Teal);
    assert_eq!(state_color(Some("running")), Accent::Copper);
    assert_eq!(state_color(Some("failed")), Accent::WarmRed);
    assert_eq!(state_color(None), Accent::WarmRed);
}

#[test]
fn flow_stages() {
    assert_eq!(flow_stage(None), ("awaiting bundle", Accent::Soft));
    assert_eq!(flow_stage(Some(&bundle(true, &[2], &[0]))), ("ready to broadcast", Accent::Olive));
    assert_eq!(flow_stage(Some(&bundle(false, &[0, 1], &[2, 1]))), ("partially signed", Accent::Copper));
    assert_eq!(flow_stage(Some(&bundle(false, &[0, 0], &[2, 2]))), ("unsigned draft", Accent::Teal));
}

#[test]
fn most_missing_signatures() {
    assert_eq!(missing_signatures(&bundle(false, &[0, 1, 0], &[2, 1, 3])), 3);
    assert_eq!(missing_signatures(&bundle(false, &[], &[])), 0);
}

#[test]
fn local_keys_beside_recovery_material() {
    let secrets = ExportSecretsResponse {
        mnemonics: vec![],
        external_public_keys: vec!["kpubX".into()],
        minimum_signatures: 2,
    };
    assert_eq!(local_public_keys(&secrets, &None), vec!["kpubX"]);
    assert_eq!(local_public_keys(&secrets, &Some(summary(true, true))), vec!["kpub1"]);
    let mut all = summary(true, true);
    all.owned_key_count = 10;
    assert_eq!(local_public_keys(&secrets, &Some(all)).len(), 3);
}

#[test]
fn flow_actions_are_enabled_by_their_inputs() {
    let mut a = ready_app();
    assert!(!a.can_export_secrets());
    assert!(!a.can_review_flow() && !a.can_sign_flow() && !a.can_broadcast_flow());
    a.handle_event(AppEvent::FlowBundle(Ok(bundle(false, &[1], &[1]))));
    assert!(a.can_review_flow());
    assert!(!a.can_sign_flow());
    a.bootstrap.password = "pw".into();
    assert!(a.can_sign_flow() && a.can_export_secrets());
    assert!(!a.can_broadcast_flow());
    a.handle_event(AppEvent::FlowBundle(Ok(bundle(true, &[2], &[0]))));
    assert!(a.can_broadcast_flow());
    a.take_commands();
    a.request_broadcast_flow();
    match &a.take_commands()[..] {
        [Command::Broadcast(_, request)] => assert_eq!(request.transactions_hex, "deadbeef"),
        other => panic!("unexpected {other:?}"),
    }
}

#[test]
fn receive_page_only_for_the_address_owner() {
    let mut a = app();
    a.handle_event(AppEvent::WalletSummary(Ok(summary(true, false))));
    a.handle_event(AppEvent::DaemonStatus(Ok(status("ready", None))));
    assert_ne!(a.recommended_page(), WorkspacePage::Receive);
    assert_ne!(a.active_page, WorkspacePage::Receive);
}

#[test]
fn bundle_sentences() {
    let b = bundle(true, &[2, 1], &[0, 1]);
    assert_eq!(bundle_headline(&b), "1 transaction(s) in bundle, ready to broadcast");
    assert_eq!(bundle_headline(&bundle(false, &[], &[])), "1 transaction(s) in bundle");
    let tx = &b.transactions[0];
    assert_eq!(transaction_title(tx), "Transaction #0");
    assert_eq!(transaction_shape(tx), "2 inputs / 1 outputs");
    assert_eq!(
        signature_progress_line(&tx.signatures[1]),
        "Input 1: 1 of 2 signatures collected"
    );
}

#[test]
fn multisig_spend_workflow() {
    let mut a = ready_app();
    a.bootstrap.password = "pw".into();
    a.spend.to_address = "kaspa:dest".into();
    a.spend.amount_kas = "12.5".into();
    a.request_create_unsigned(None);
    assert!(matches!(&a.take_commands()[..], [Command::CreateUnsigned(_, _)]));
    a.handle_event(AppEvent::FlowBundle(Ok(bundle(false, &[0], &[2]))));
    a.take_commands();
    assert_eq!(flow_stage(a.flow_bundle.as_ref()).0, "unsigned draft");
    assert!(!a.can_broadcast_flow());
    a.request_sign_flow();
    match &a.take_commands()[..] {
        [Command::Sign(r)] => {
            assert_eq!(r.transactions_hex, "deadbeef");
            assert_eq!(r.password, "pw");
        }
        other => panic!("unexpected {other:?}"),
    }
    a.handle_event(AppEvent::FlowBundle(Ok(bundle(false, &[1], &[1]))));
    a.take_commands();
    assert_eq!(flow_stage(a.flow_bundle.as_ref()).0, "partially signed");
    a.handle_event(AppEvent::FlowBundle(Ok(bundle(true, &[2], &[0]))));
    a.take_commands();
    assert!(a.can_broadcast_flow());
    a.request_broadcast_flow();
    assert!(matches!(&a.take_commands()[..], [Command::Broadcast(_, _)]));
    a.handle_event(AppEvent::Broadcasted(Ok(BroadcastResponse { tx_ids: vec!["t".into()] })));
    assert_eq!(banner(&a), (MessageTone::Info, "Broadcast 1 transaction(s).".to_string()));
}

#[test]
fn sidebar_lists_technical_page_when_open() {
    let mut a = app();
    assert_eq!(a.sidebar_pages().len(), 4);
    a.inspector.transactions_hex = "ab".into();
    assert_eq!(a.sidebar_pages().last(), Some(&WorkspacePage::Technical));
}

#[test]
fn receive_addresses_come_only_from_the_owner() {
    let mut a = app();
    a.generate_receive_address();
    assert!(a.take_commands().is_empty());
    a.handle_event(AppEvent::DaemonStatus(Ok(status("ready", None))));
    a.take_commands();
    assert!(a.wallet_ready() && a.summary.is_none() && !a.can_issue_receive());
    a.generate_receive_address();
    assert!(a.take_commands().is_empty());

    let mut signer = app();
    signer.handle_event(AppEvent::WalletSummary(Ok(summary(true, false))));
    signer.handle_event(AppEvent::DaemonStatus(Ok(status("ready", None))));
    signer.take_commands();
    signer.generate_receive_address();
    assert!(signer.take_commands().is_empty());
    assert!(!signer.pending.contains(TaskTag::NewAddress));

    let mut owner = ready_app();
    owner.take_commands();
    owner.generate_receive_address();
    assert!(matches!(&owner.take_commands()[..], [Command::NewAddress(_)]));
    assert!(owner.pending.contains(TaskTag::NewAddress));
}

#[test]
fn send_now_waits_for_every_signature() {
    let mut a = ready_app();
    a.take_commands();
    a.send_now();
    assert!(a.take_commands().is_empty());
    a.handle_event(AppEvent::FlowBundle(Ok(bundle(false, &[1], &[1]))));
    a.take_commands();
    a.send_now();
    assert!(a.take_commands().is_empty());
    a.handle_event(AppEvent::FlowBundle(Ok(bundle(true, &[2], &[0]))));
    a.take_commands();
    a.send_now();
    match &a.take_commands()[..] {
        [Command::Broadcast(_, request)] => assert_eq!(request.transactions_hex, "deadbeef"),
        other => panic!("unexpected {other:?}"),
    }
}

#[test]
fn network_defaults_only_on_change_or_request() {
    let mut a = app();
    a.bootstrap.keys_file = "/tmp/mine.json".into();
    a.node_form.rpc_server = "node:1".into();
    a.settle_network_choice(NetworkChoice::Mainnet, false);
    assert_eq!(a.bootstrap.keys_file, "/tmp/mine.json");
    assert_eq!(a.node_form.rpc_server, "node:1");
    a.settle_network_choice(NetworkChoice::Mainnet, true);
    assert_eq!(a.bootstrap.keys_file, "~/.kaspawallet/mainnet/igra_msig_keys.json");
    assert_eq!(a.node_form.rpc_server, "stage-roman.igralabs.com:16210");
    a.bootstrap.network = NetworkChoice::Devnet;
    a.settle_network_choice(NetworkChoice::Mainnet, false);
    assert_eq!(a.bootstrap.keys_file, "~/.kaspawallet/devnet/igra_msig_keys.json");
    assert_eq!(a.node_form.rpc_server, "localhost");
}
