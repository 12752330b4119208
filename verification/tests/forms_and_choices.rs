use kaspawallet_egui::choices::{FeeMode, NetworkChoice, SetupMode, WorkspacePage};
use kaspawallet_egui::forms::{BootstrapForm, InspectorForm, NodeForm, SpendForm};
use kaspawallet_egui::messages::FeePolicyRequest;

#[test]
fn network_names() {
    assert_eq!(NetworkChoice::Mainnet.as_str(), "mainnet");
    assert_eq!(NetworkChoice::Testnet.as_str(), "testnet");
    assert_eq!(NetworkChoice::Devnet.as_str(), "devnet");
    assert_eq!(NetworkChoice::Simnet.as_str(), "simnet");
    assert_eq!(NetworkChoice::Simnet.display_name(), "Simnet");
    assert_eq!(NetworkChoice::Mainnet.display_name(), "Mainnet");
}

#[test]
fn network_defaults() {
    assert_eq!(NetworkChoice::Mainnet.default_rpc_server(), "stage-roman.igralabs.com:16210");
    assert_eq!(NetworkChoice::Testnet.default_rpc_server(), "localhost");
    assert_eq!(NetworkChoice::Devnet.default_rpc_server(), "localhost");
    assert_eq!(
        NetworkChoice::Testnet.default_keys_file(),
        "~/.kaspawallet/testnet/igra_msig_keys.json"
    );
}

#[test]
fn labels() {
    assert_eq!(FeeMode::Estimate.label(), "Node estimate");
    assert_eq!(FeeMode::ExactFeeRate.label(), "Exact fee rate");
    assert_eq!(FeeMode::MaxFeeRate.label(), "Cap fee rate");
    assert_eq!(FeeMode::MaxFee.label(), "Cap total fee");
    assert_eq!(SetupMode::OpenExisting.label(), "Open wallet");
    assert_eq!(SetupMode::RecoverExisting.label(), "Recover wallet");
    assert_eq!(
        SetupMode::CreateNew.helper(),
        "Create a new multisig cosigner file and collect remote public keys."
    );
    assert_eq!(WorkspacePage::Setup.label(), "Get Started");
    assert_eq!(WorkspacePage::Technical.label(), "Technical");
}

#[test]
fn bootstrap_form_starts_with_two_of_three_on_mainnet() {
    let form = BootstrapForm::new();
    assert_eq!(form.setup_mode, SetupMode::CreateNew);
    assert_eq!(form.network, NetworkChoice::Mainnet);
    assert_eq!(form.keys_file, "~/.kaspawallet/mainnet/igra_msig_keys.json");
    assert_eq!((form.minimum_signatures, form.num_private_keys, form.num_public_keys), (2, 1, 3));
    assert!(form.password.is_empty() && form.remote_public_keys.is_empty());
    assert!(!form.import_mode && !form.overwrite && !form.ecdsa);
}

#[test]
fn bootstrap_form_lists() {
    let mut form = BootstrapForm::new();
    form.remote_public_keys = "kpubA,kpubB\n kpubC ".into();
    form.import_mnemonics = "one two, three\n\n four \n".into();
    assert_eq!(form.remote_public_keys_vec(), vec!["kpubA", "kpubB", "kpubC"]);
    assert_eq!(form.import_mnemonics_vec(), vec!["one two, three", "four"]);
}

#[test]
fn bootstrap_form_sync_defaults_follows_network() {
    let mut form = BootstrapForm::new();
    form.network = NetworkChoice::Devnet;
    form.keys_file = "custom.json".into();
    form.sync_defaults();
    assert_eq!(form.keys_file, "~/.kaspawallet/devnet/igra_msig_keys.json");
    form.setup_mode = SetupMode::RecoverExisting;
    form.sync_import_mode();
    assert!(form.import_mode);
}

#[test]
fn node_form_defaults() {
    let mut form = NodeForm::new(NetworkChoice::Mainnet);
    assert_eq!(form.rpc_server, "stage-roman.igralabs.com:16210");
    form.sync_defaults(NetworkChoice::Simnet);
    assert_eq!(form.rpc_server, "localhost");
}

#[test]
fn spend_form_starts_at_one_kas() {
    let form = SpendForm::new();
    assert_eq!(form.amount_kas, "1");
    assert_eq!(form.fee_mode, FeeMode::Estimate);
    assert!(form.to_address.is_empty() && !form.send_all);
    assert!(InspectorForm::new().transactions_hex.is_empty());
}

#[test]
fn spend_form_from_addresses() {
    let mut form = SpendForm::new();
    form.from_addresses = "kaspa:a\n,kaspa:b".into();
    assert_eq!(form.from_addresses_vec(), vec!["kaspa:a", "kaspa:b"]);
}

fn none_policy() -> FeePolicyRequest {
    FeePolicyRequest { exact_fee_rate_bits: None, max_fee_rate_bits: None, max_fee: None }
}

#[test]
fn fee_policy_per_mode() {
    let mut form = SpendForm::new();
    form.fee_value = "2.5".into();
    assert_eq!(form.fee_policy(None), Ok(none_policy()));
    form.fee_mode = FeeMode::ExactFeeRate;
    let bits = 2.5f64.to_bits();
    assert_eq!(
        form.fee_policy(Some(bits)),
        Ok(FeePolicyRequest { exact_fee_rate_bits: Some(bits), ..none_policy() })
    );
    form.fee_mode = FeeMode::MaxFeeRate;
    assert_eq!(
        form.fee_policy(Some(bits)),
        Ok(FeePolicyRequest { max_fee_rate_bits: Some(bits), ..none_policy() })
    );
    form.fee_mode = FeeMode::MaxFee;
    form.fee_value = " 1000 ".into();
    assert_eq!(form.fee_policy(None), Ok(FeePolicyRequest { max_fee: Some(1000), ..none_policy() }));
}

#[test]
fn fee_policy_errors_name_the_field() {
    let mut form = SpendForm::new();
    form.fee_value = "fast".into();
    form.fee_mode = FeeMode::ExactFeeRate;
    assert_eq!(form.fee_policy(None), Err("invalid fee rate: fast".to_string()));
    form.fee_mode = FeeMode::MaxFeeRate;
    assert_eq!(form.fee_policy(None), Err("invalid max fee rate: fast".to_string()));
    form.fee_mode = FeeMode::MaxFee;
    assert_eq!(form.fee_policy(Some(1)), Err("invalid max fee: fast".to_string()));
}
