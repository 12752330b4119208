//! The forms of the workspace: setting up a wallet file, choosing a node,
//! preparing a payment and inspecting a bundle.

use vstd::prelude::*;
use crate::choices::{FeeMode, NetworkChoice, SetupMode};
use crate::messages::FeePolicyRequest;
use crate::text::{
    invalid_field_message, list_items, nonblank_lines, parse_u64_field, parse_u64_spec,
    split_lines, strings_view, trim,
};

verus! {

/// The form that opens, creates or recovers a wallet file.
#[derive(Clone, Debug)]
pub struct BootstrapForm {
    pub setup_mode: SetupMode,
    pub network: NetworkChoice,
    pub keys_file: String,
    pub password: String,
    pub minimum_signatures: u32,
    pub num_private_keys: u32,
    pub num_public_keys: u32,
    pub remote_public_keys: String,
    pub import_mode: bool,
    pub import_mnemonics: String,
    pub overwrite: bool,
    pub ecdsa: bool,
}

/// The contents of the wallet setup form.
#[verifier::ext_equal]
pub struct BootstrapFormView {
    pub setup_mode: SetupMode,
    pub network: NetworkChoice,
    pub keys_file: Seq<char>,
    pub password: Seq<char>,
    pub minimum_signatures: u32,
    pub num_private_keys: u32,
    pub num_public_keys: u32,
    pub remote_public_keys: Seq<char>,
    pub import_mode: bool,
    pub import_mnemonics: Seq<char>,
    pub overwrite: bool,
    pub ecdsa: bool,
}

impl View for BootstrapForm {
    type V = BootstrapFormView;

    open spec fn view(&self) -> BootstrapFormView {
        BootstrapFormView {
            setup_mode: self.setup_mode,
            network: self.network,
            keys_file: self.keys_file@,
            password: self.password@,
            minimum_signatures: self.minimum_signatures,
            num_private_keys: self.num_private_keys,
            num_public_keys: self.num_public_keys,
            remote_public_keys: self.remote_public_keys@,
            import_mode: self.import_mode,
            import_mnemonics: self.import_mnemonics@,
            overwrite: self.overwrite,
            ecdsa: self.ecdsa,
        }
    }
}

impl BootstrapForm {
    /// The form as it first appears: creating a two-of-three wallet with one
    /// local key on mainnet, at mainnet's default wallet file.
    pub open spec fn initial() -> BootstrapFormView {
        BootstrapFormView {
            setup_mode: SetupMode::CreateNew,
            network: NetworkChoice::Mainnet,
            keys_file: NetworkChoice::Mainnet.keys_file_default(),
            password: Seq::empty(),
            minimum_signatures: 2,
            num_private_keys: 1,
            num_public_keys: 3,
            remote_public_keys: Seq::empty(),
            import_mode: false,
            import_mnemonics: Seq::empty(),
            overwrite: false,
            ecdsa: false,
        }
    }

    /// The form as it first appears.
    pub fn new() -> (r: BootstrapForm)
        ensures
            r@ == Self::initial(),
    {
        let network = NetworkChoice::Mainnet;
        BootstrapForm {
            setup_mode: SetupMode::CreateNew,
            network,
            keys_file: network.default_keys_file(),
            password: String::new(),
            minimum_signatures: 2,
            num_private_keys: 1,
            num_public_keys: 3,
            remote_public_keys: String::new(),
            import_mode: false,
            import_mnemonics: String::new(),
            overwrite: false,
            ecdsa: false,
        }
    }

    /// The other cosigners' public keys, one per line or separated by commas.
    pub fn remote_public_keys_vec(&self) -> (r: Vec<String>)
        ensures
            strings_view(r@) == list_items(self.remote_public_keys@, true),
    {
        split_lines(&self.remote_public_keys)
    }

    /// The mnemonic phrases to recover from, one per line.
    pub fn import_mnemonics_vec(&self) -> (r: Vec<String>)
        ensures
            strings_view(r@) == list_items(self.import_mnemonics@, false),
    {
        nonblank_lines(&self.import_mnemonics)
    }

    /// Puts the network's default wallet file in the form.
    pub fn sync_defaults(&mut self)
        ensures
            final(self)@ == (BootstrapFormView {
                keys_file: old(self).network.keys_file_default(),
                ..old(self)@
            }),
    {
        self.keys_file = self.network.default_keys_file();
    }

    /// Asks for mnemonic phrases exactly when the wallet is being recovered.
    pub fn sync_import_mode(&mut self)
        ensures
            final(self)@ == (BootstrapFormView {
                import_mode: old(self).setup_mode == SetupMode::RecoverExisting,
                ..old(self)@
            }),
    {
        self.import_mode = match self.setup_mode {
            SetupMode::RecoverExisting => true,
            _ => false,
        };
    }
}

/// The form that names the Kaspa node to sync with.
#[derive(Clone, Debug)]
pub struct NodeForm {
    pub rpc_server: String,
}

impl View for NodeForm {
    type V = Seq<char>;

    open spec fn view(&self) -> Seq<char> {
        self.rpc_server@
    }
}

impl NodeForm {
    /// The form holding the network's default node.
    pub fn new(network: NetworkChoice) -> (r: NodeForm)
        ensures
            r@ == network.rpc_default(),
    {
        NodeForm { rpc_server: network.default_rpc_server().to_owned() }
    }

    /// Puts the network's default node in the form.
    pub fn sync_defaults(&mut self, network: NetworkChoice)
        ensures
            final(self)@ == network.rpc_default(),
    {
        self.rpc_server = network.default_rpc_server().to_owned();
    }
}

/// The form that prepares a payment.
#[derive(Clone, Debug)]
pub struct SpendForm {
    pub to_address: String,
    pub amount_kas: String,
    pub send_all: bool,
    pub from_addresses: String,
    pub use_existing_change_address: bool,
    pub fee_mode: FeeMode,
    pub fee_value: String,
}

/// The contents of the payment form.
#[verifier::ext_equal]
pub struct SpendFormView {
    pub to_address: Seq<char>,
    pub amount_kas: Seq<char>,
    pub send_all: bool,
    pub from_addresses: Seq<char>,
    pub use_existing_change_address: bool,
    pub fee_mode: FeeMode,
    pub fee_value: Seq<char>,
}

impl View for SpendForm {
    type V = SpendFormView;

    open spec fn view(&self) -> SpendFormView {
        SpendFormView {
            to_address: self.to_address@,
            amount_kas: self.amount_kas@,
            send_all: self.send_all,
            from_addresses: self.from_addresses@,
            use_existing_change_address: self.use_existing_change_address,
            fee_mode: self.fee_mode,
            fee_value: self.fee_value@,
        }
    }
}

/// The fee policy of the payment form, or the error to show. `parsed_rate`
/// is what reading the trimmed fee text as a floating-point rate gave (its
/// bit pattern), where that succeeded; it matters in the rate modes only.
pub open spec fn fee_policy_spec(form: SpendFormView, parsed_rate: Option<u64>) -> Result<
    FeePolicyRequest,
    Seq<char>,
> {
    match form.fee_mode {
        FeeMode::Estimate => Ok(FeePolicyRequest::estimate()),
        FeeMode::ExactFeeRate => match parsed_rate {
            Some(bits) => Ok(FeePolicyRequest { exact_fee_rate_bits: Some(bits), ..FeePolicyRequest::estimate() }),
            None => Err(invalid_field_message("fee rate"@, form.fee_value)),
        },
        FeeMode::MaxFeeRate => match parsed_rate {
            Some(bits) => Ok(FeePolicyRequest { max_fee_rate_bits: Some(bits), ..FeePolicyRequest::estimate() }),
            None => Err(invalid_field_message("max fee rate"@, form.fee_value)),
        },
        FeeMode::MaxFee => match parse_u64_spec(trim(form.fee_value)) {
            Some(n) => Ok(FeePolicyRequest { max_fee: Some(n), ..FeePolicyRequest::estimate() }),
            None => Err(invalid_field_message("max fee"@, form.fee_value)),
        },
    }
}

/// The characters of a fee policy outcome.
pub open spec fn policy_view(r: Result<FeePolicyRequest, String>) -> Result<
    FeePolicyRequest,
    Seq<char>,
> {
    match r {
        Ok(p) => Ok(p),
        Err(e) => Err(e@),
    }
}

impl SpendForm {
    /// The form as it first appears: paying one KAS at the node's fee estimate.
    pub open spec fn initial() -> SpendFormView {
        SpendFormView {
            to_address: Seq::empty(),
            amount_kas: "1"@,
            send_all: false,
            from_addresses: Seq::empty(),
            use_existing_change_address: false,
            fee_mode: FeeMode::Estimate,
            fee_value: Seq::empty(),
        }
    }

    /// The form as it first appears.
    pub fn new() -> (r: SpendForm)
        ensures
            r@ == Self::initial(),
    {
        SpendForm {
            to_address: String::new(),
            amount_kas: "1".to_owned(),
            send_all: false,
            from_addresses: String::new(),
            use_existing_change_address: false,
            fee_mode: FeeMode::Estimate,
            fee_value: String::new(),
        }
    }

    /// The addresses to spend from, one per line or separated by commas.
    pub fn from_addresses_vec(&self) -> (r: Vec<String>)
        ensures
            strings_view(r@) == list_items(self.from_addresses@, true),
    {
        split_lines(&self.from_addresses)
    }

    /// The fee policy of the form: the node's estimate, an exact or capped
    /// rate, or a capped total fee in sompi; an unreadable value is reported
    /// with the field's name and its text as typed.
    pub fn fee_policy(&self, parsed_rate: Option<u64>) -> (r: Result<FeePolicyRequest, String>)
        ensures
            policy_view(r) == fee_policy_spec(self@, parsed_rate),
    {
        let mut policy = FeePolicyRequest {
            exact_fee_rate_bits: None,
            max_fee_rate_bits: None,
            max_fee: None,
        };
        match self.fee_mode {
            FeeMode::Estimate => {},
            FeeMode::ExactFeeRate => match parsed_rate {
                Some(bits) => {
                    policy.exact_fee_rate_bits = Some(bits);
                },
                None => {
                    return Err(crate::text::invalid_field_text("fee rate", &self.fee_value));
                },
            },
            FeeMode::MaxFeeRate => match parsed_rate {
                Some(bits) => {
                    policy.max_fee_rate_bits = Some(bits);
                },
                None => {
                    return Err(crate::text::invalid_field_text("max fee rate", &self.fee_value));
                },
            },
            FeeMode::MaxFee => match parse_u64_field("max fee", &self.fee_value) {
                Ok(n) => {
                    policy.max_fee = Some(n);
                },
                Err(e) => {
                    return Err(e);
                },
            },
        }
        Ok(policy)
    }
}

/// The form that holds bundle text for offline inspection.
#[derive(Clone, Debug)]
pub struct InspectorForm {
    pub transactions_hex: String,
}

impl View for InspectorForm {
    type V = Seq<char>;

    open spec fn view(&self) -> Seq<char> {
        self.transactions_hex@
    }
}

impl InspectorForm {
    /// An empty inspector.
    pub fn new() -> (r: InspectorForm)
        ensures
            r@ == Seq::<char>::empty(),
    {
        InspectorForm { transactions_hex: String::new() }
    }
}

} // verus!
