//! The requests sent to the local wallet bridge and the replies it gives,
//! as plain data, with the views that contracts speak of.

use vstd::prelude::*;
use crate::text::{copy_strings, strings_view};

verus! {

/// The body of a request that carries no fields.
#[derive(Clone, Debug)]
pub struct EmptyBody {}

/// Asks for the summary of a wallet file.
#[derive(Clone, Debug)]
pub struct WalletSummaryRequest {
    pub network: String,
    pub keys_file: String,
}

/// The characters of a wallet summary request.
pub struct WalletSummaryRequestView {
    pub network: Seq<char>,
    pub keys_file: Seq<char>,
}

impl View for WalletSummaryRequest {
    type V = WalletSummaryRequestView;

    open spec fn view(&self) -> WalletSummaryRequestView {
        WalletSummaryRequestView { network: self.network@, keys_file: self.keys_file@ }
    }
}

/// What the bridge knows of a wallet file and of this cosigner's role in it.
#[derive(Clone, Debug)]
pub struct WalletSummary {
    pub network: String,
    pub keys_file: String,
    pub public_keys: Vec<String>,
    pub sorted_public_keys: Vec<String>,
    pub public_key_count: usize,
    pub owned_key_count: usize,
    pub minimum_signatures: u32,
    pub cosigner_index: u32,
    pub last_used_external_index: u32,
    pub last_used_internal_index: u32,
    pub fingerprint: String,
    pub is_multisig: bool,
    pub has_private_keys: bool,
    pub owns_all_keys: bool,
    pub is_canonical_address_owner: bool,
    pub ecdsa: bool,
}

/// The contents of a wallet summary.
pub struct WalletSummaryView {
    pub network: Seq<char>,
    pub keys_file: Seq<char>,
    pub public_keys: Seq<Seq<char>>,
    pub sorted_public_keys: Seq<Seq<char>>,
    pub public_key_count: usize,
    pub owned_key_count: usize,
    pub minimum_signatures: u32,
    pub cosigner_index: u32,
    pub last_used_external_index: u32,
    pub last_used_internal_index: u32,
    pub fingerprint: Seq<char>,
    pub is_multisig: bool,
    pub has_private_keys: bool,
    pub owns_all_keys: bool,
    pub is_canonical_address_owner: bool,
    pub ecdsa: bool,
}

impl View for WalletSummary {
    type V = WalletSummaryView;

    open spec fn view(&self) -> WalletSummaryView {
        WalletSummaryView {
            network: self.network@,
            keys_file: self.keys_file@,
            public_keys: strings_view(self.public_keys@),
            sorted_public_keys: strings_view(self.sorted_public_keys@),
            public_key_count: self.public_key_count,
            owned_key_count: self.owned_key_count,
            minimum_signatures: self.minimum_signatures,
            cosigner_index: self.cosigner_index,
            last_used_external_index: self.last_used_external_index,
            last_used_internal_index: self.last_used_internal_index,
            fingerprint: self.fingerprint@,
            is_multisig: self.is_multisig,
            has_private_keys: self.has_private_keys,
            owns_all_keys: self.owns_all_keys,
            is_canonical_address_owner: self.is_canonical_address_owner,
            ecdsa: self.ecdsa,
        }
    }
}

impl WalletSummary {
    /// A copy of the summary.
    pub fn duplicate(&self) -> (r: WalletSummary)
        ensures
            r@ == self@,
    {
        WalletSummary {
            network: self.network.clone(),
            keys_file: self.keys_file.clone(),
            public_keys: copy_strings(&self.public_keys),
            sorted_public_keys: copy_strings(&self.sorted_public_keys),
            public_key_count: self.public_key_count,
            owned_key_count: self.owned_key_count,
            minimum_signatures: self.minimum_signatures,
            cosigner_index: self.cosigner_index,
            last_used_external_index: self.last_used_external_index,
            last_used_internal_index: self.last_used_internal_index,
            fingerprint: self.fingerprint.clone(),
            is_multisig: self.is_multisig,
            has_private_keys: self.has_private_keys,
            owns_all_keys: self.owns_all_keys,
            is_canonical_address_owner: self.is_canonical_address_owner,
            ecdsa: self.ecdsa,
        }
    }
}

/// Asks the bridge to create or recover this cosigner's wallet file.
#[derive(Clone, Debug)]
pub struct BootstrapCreateRequest {
    pub network: String,
    pub keys_file: String,
    pub password: String,
    pub minimum_signatures: u32,
    pub num_private_keys: u32,
    pub num_public_keys: u32,
    pub remote_public_keys: Vec<String>,
    pub import_mnemonics: Vec<String>,
    pub ecdsa: bool,
    pub overwrite: bool,
}

/// The contents of a create or recover request.
pub struct BootstrapCreateRequestView {
    pub network: Seq<char>,
    pub keys_file: Seq<char>,
    pub password: Seq<char>,
    pub minimum_signatures: u32,
    pub num_private_keys: u32,
    pub num_public_keys: u32,
    pub remote_public_keys: Seq<Seq<char>>,
    pub import_mnemonics: Seq<Seq<char>>,
    pub ecdsa: bool,
    pub overwrite: bool,
}

impl View for BootstrapCreateRequest {
    type V = BootstrapCreateRequestView;

    open spec fn view(&self) -> BootstrapCreateRequestView {
        BootstrapCreateRequestView {
            network: self.network@,
            keys_file: self.keys_file@,
            password: self.password@,
            minimum_signatures: self.minimum_signatures,
            num_private_keys: self.num_private_keys,
            num_public_keys: self.num_public_keys,
            remote_public_keys: strings_view(self.remote_public_keys@),
            import_mnemonics: strings_view(self.import_mnemonics@),
            ecdsa: self.ecdsa,
            overwrite: self.overwrite,
        }
    }
}

/// The bridge's reply to a create or recover request.
#[derive(Clone, Debug)]
pub struct BootstrapCreateResponse {
    pub summary: WalletSummary,
    pub local_extended_pub_keys: Vec<String>,
    pub local_mnemonics: Vec<String>,
    pub canonical_owner_warning: String,
}

/// Asks for the recovery material of the wallet file.
#[derive(Clone, Debug)]
pub struct ExportSecretsRequest {
    pub network: String,
    pub keys_file: String,
    pub password: String,
}

/// The contents of a request for recovery material.
pub struct ExportSecretsRequestView {
    pub network: Seq<char>,
    pub keys_file: Seq<char>,
    pub password: Seq<char>,
}

impl View for ExportSecretsRequest {
    type V = ExportSecretsRequestView;

    open spec fn view(&self) -> ExportSecretsRequestView {
        ExportSecretsRequestView {
            network: self.network@,
            keys_file: self.keys_file@,
            password: self.password@,
        }
    }
}

/// The recovery material of a wallet file.
#[derive(Clone, Debug)]
pub struct ExportSecretsResponse {
    pub mnemonics: Vec<String>,
    pub external_public_keys: Vec<String>,
    pub minimum_signatures: u32,
}

/// Asks the bridge to start the wallet daemon.
#[derive(Clone, Debug)]
pub struct DaemonStartRequest {
    pub network: String,
    pub keys_file: String,
    pub rpc_server: String,
    pub listen: String,
    pub timeout_seconds: u32,
}

/// Binds the bridge's session to a wallet file and a node.
#[derive(Clone, Debug)]
pub struct SessionConfigRequest {
    pub network: String,
    pub keys_file: String,
    pub rpc_server: String,
    pub timeout_seconds: u32,
}

/// The contents of a session request.
pub struct SessionConfigRequestView {
    pub network: Seq<char>,
    pub keys_file: Seq<char>,
    pub rpc_server: Seq<char>,
    pub timeout_seconds: u32,
}

impl View for SessionConfigRequest {
    type V = SessionConfigRequestView;

    open spec fn view(&self) -> SessionConfigRequestView {
        SessionConfigRequestView {
            network: self.network@,
            keys_file: self.keys_file@,
            rpc_server: self.rpc_server@,
            timeout_seconds: self.timeout_seconds,
        }
    }
}

/// The state of the wallet daemon behind the bridge.
#[derive(Clone, Debug)]
pub struct DaemonStatus {
    pub state: String,
    pub message: String,
    pub daemon_address: String,
    pub network: String,
    pub keys_file: String,
    pub rpc_server: String,
    pub started_at: Option<String>,
    pub finished_at: Option<String>,
    pub wallet_version: Option<String>,
    pub wallet: Option<WalletSummary>,
}

/// The balance held at one address, in sompi and as KAS text.
#[derive(Clone, Debug)]
pub struct AddressBalance {
    pub address: String,
    pub available_sompi: u64,
    pub pending_sompi: u64,
    pub available_kas: String,
    pub pending_kas: String,
}

/// The balance of the wallet, in total and per address.
#[derive(Clone, Debug)]
pub struct BalanceResponse {
    pub available_sompi: u64,
    pub pending_sompi: u64,
    pub available_kas: String,
    pub pending_kas: String,
    pub addresses: Vec<AddressBalance>,
}

/// The addresses the wallet has issued.
#[derive(Clone, Debug)]
pub struct AddressesResponse {
    pub addresses: Vec<String>,
}

/// A newly issued receive address.
#[derive(Clone, Debug)]
pub struct NewAddressResponse {
    pub address: String,
}

/// How the fee of a new payment is bounded. Fee rates travel as the bit
/// patterns of IEEE-754 doubles (`f64::to_bits`), which this library only
/// carries and never computes with.
#[derive(Clone, Copy, Debug, PartialEq, Eq, Structural)]
pub struct FeePolicyRequest {
    pub exact_fee_rate_bits: Option<u64>,
    pub max_fee_rate_bits: Option<u64>,
    pub max_fee: Option<u64>,
}

impl FeePolicyRequest {
    /// The policy that leaves the fee to the node's estimate.
    pub open spec fn estimate() -> FeePolicyRequest {
        FeePolicyRequest { exact_fee_rate_bits: None, max_fee_rate_bits: None, max_fee: None }
    }
}

/// Asks for an unsigned transaction bundle paying `amount_kas` to `to_address`.
#[derive(Clone, Debug)]
pub struct CreateUnsignedRequest {
    pub to_address: String,
    pub amount_kas: String,
    pub send_all: bool,
    pub from_addresses: Vec<String>,
    pub use_existing_change_address: bool,
    pub fee_policy: FeePolicyRequest,
}

/// The contents of a request for an unsigned bundle.
pub struct CreateUnsignedRequestView {
    pub to_address: Seq<char>,
    pub amount_kas: Seq<char>,
    pub send_all: bool,
    pub from_addresses: Seq<Seq<char>>,
    pub use_existing_change_address: bool,
    pub fee_policy: FeePolicyRequest,
}

impl View for CreateUnsignedRequest {
    type V = CreateUnsignedRequestView;

    open spec fn view(&self) -> CreateUnsignedRequestView {
        CreateUnsignedRequestView {
            to_address: self.to_address@,
            amount_kas: self.amount_kas@,
            send_all: self.send_all,
            from_addresses: strings_view(self.from_addresses@),
            use_existing_change_address: self.use_existing_change_address,
            fee_policy: self.fee_policy,
        }
    }
}

/// Asks the bridge to sign a bundle with this cosigner's keys.
#[derive(Clone, Debug)]
pub struct SignRequest {
    pub network: String,
    pub keys_file: String,
    pub password: String,
    pub transactions_hex: String,
}

/// The contents of a signing request.
pub struct SignRequestView {
    pub network: Seq<char>,
    pub keys_file: Seq<char>,
    pub password: Seq<char>,
    pub transactions_hex: Seq<char>,
}

impl View for SignRequest {
    type V = SignRequestView;

    open spec fn view(&self) -> SignRequestView {
        SignRequestView {
            network: self.network@,
            keys_file: self.keys_file@,
            password: self.password@,
            transactions_hex: self.transactions_hex@,
        }
    }
}

/// Asks the bridge to broadcast a fully signed bundle.
#[derive(Clone, Debug)]
pub struct BroadcastRequest {
    pub transactions_hex: String,
}

impl View for BroadcastRequest {
    type V = Seq<char>;

    open spec fn view(&self) -> Seq<char> {
        self.transactions_hex@
    }
}

/// Asks the bridge to describe a bundle without changing it.
#[derive(Clone, Debug)]
pub struct ParseRequest {
    pub network: String,
    pub keys_file: String,
    pub transactions_hex: String,
}

/// The contents of a parse request.
pub struct ParseRequestView {
    pub network: Seq<char>,
    pub keys_file: Seq<char>,
    pub transactions_hex: Seq<char>,
}

impl View for ParseRequest {
    type V = ParseRequestView;

    open spec fn view(&self) -> ParseRequestView {
        ParseRequestView {
            network: self.network@,
            keys_file: self.keys_file@,
            transactions_hex: self.transactions_hex@,
        }
    }
}

/// The identifiers of the broadcast transactions.
#[derive(Clone, Debug)]
pub struct BroadcastResponse {
    pub tx_ids: Vec<String>,
}

/// A bundle of transactions as the bridge describes it.
#[derive(Clone, Debug)]
pub struct TransactionBundle {
    pub transactions_hex: String,
    pub transaction_count: usize,
    pub fully_signed: bool,
    pub transactions: Vec<ParsedTransaction>,
}

/// One transaction of a bundle. Its fee rate travels as the bit pattern of
/// an IEEE-754 double (`f64::to_bits`).
#[derive(Clone, Debug)]
pub struct ParsedTransaction {
    pub index: usize,
    pub tx_id: String,
    pub fully_signed: bool,
    pub input_count: usize,
    pub output_count: usize,
    pub inputs: Vec<ParsedInput>,
    pub outputs: Vec<ParsedOutput>,
    pub fee_sompi: u64,
    pub fee_kas: String,
    pub mass: u64,
    pub fee_rate_bits: u64,
    pub has_mass_estimate: bool,
    pub signatures: Vec<InputSignatureProgress>,
}

/// An input of a transaction.
#[derive(Clone, Debug)]
pub struct ParsedInput {
    pub outpoint: String,
    pub amount_sompi: u64,
    pub amount_kas: String,
}

/// An output of a transaction.
#[derive(Clone, Debug)]
pub struct ParsedOutput {
    pub address: String,
    pub amount_sompi: u64,
    pub amount_kas: String,
}

/// How far the signing of one input has come.
#[derive(Clone, Debug)]
pub struct InputSignatureProgress {
    pub input_index: usize,
    pub signed_by: usize,
    pub minimum_signatures: u32,
    pub missing_signatures: u32,
}

} // verus!
