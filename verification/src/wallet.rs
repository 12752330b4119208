//! The workspace's state and its decisions: which pages are open, what to
//! do next, which bridge tasks to start, and how each task's outcome
//! changes the state. The tasks themselves run outside this library: each
//! request leaves a command in the outbox, and each finished task comes
//! back as an event.

use vstd::prelude::*;
use crate::bridge::BackendClient;
use crate::choices::{Accent, MessageTone, NetworkChoice, SetupMode, WorkspacePage};
use crate::forms::{
    fee_policy_spec, BootstrapForm, BootstrapFormView, InspectorForm, NodeForm, SpendForm,
    SpendFormView,
};
use crate::messages::{
    AddressesResponse, BalanceResponse, BootstrapCreateRequest, BootstrapCreateRequestView,
    BootstrapCreateResponse, BroadcastRequest, BroadcastResponse, CreateUnsignedRequest,
    CreateUnsignedRequestView, DaemonStatus, ExportSecretsRequest, ExportSecretsRequestView,
    ExportSecretsResponse, FeePolicyRequest, NewAddressResponse, ParseRequest, ParseRequestView,
    SessionConfigRequest, SessionConfigRequestView, SignRequest, SignRequestView,
    TransactionBundle, WalletSummary, WalletSummaryRequest, WalletSummaryRequestView,
    WalletSummaryView,
};
use crate::text::{
    decimal, decimal_text, is_blank, is_blank_text, list_items, same_text, trim, trimmed,
};

verus! {

/// A kind of bridge task; at most one of each kind is marked as running.
#[derive(Clone, Copy, PartialEq, Eq, Debug, Structural)]
pub enum TaskTag {
    Summary,
    CreateWallet,
    ExportSecrets,
    SessionConfig,
    DaemonStatus,
    Balance,
    Addresses,
    NewAddress,
    FlowBundle,
    Broadcast,
    Inspector,
}

/// The kinds of bridge tasks that are running.
#[derive(Clone, Copy, Debug)]
pub struct PendingTasks {
    summary: bool,
    create_wallet: bool,
    export_secrets: bool,
    session_config: bool,
    daemon_status: bool,
    balance: bool,
    addresses: bool,
    new_address: bool,
    flow_bundle: bool,
    broadcast: bool,
    inspector: bool,
}

impl PendingTasks {
    closed spec fn has(self, tag: TaskTag) -> bool {
        match tag {
            TaskTag::Summary => self.summary,
            TaskTag::CreateWallet => self.create_wallet,
            TaskTag::ExportSecrets => self.export_secrets,
            TaskTag::SessionConfig => self.session_config,
            TaskTag::DaemonStatus => self.daemon_status,
            TaskTag::Balance => self.balance,
            TaskTag::Addresses => self.addresses,
            TaskTag::NewAddress => self.new_address,
            TaskTag::FlowBundle => self.flow_bundle,
            TaskTag::Broadcast => self.broadcast,
            TaskTag::Inspector => self.inspector,
        }
    }
}

impl View for PendingTasks {
    type V = Set<TaskTag>;

    closed spec fn view(&self) -> Set<TaskTag> {
        Set::new(|tag: TaskTag| self.has(tag))
    }
}

impl PendingTasks {
    /// No task running.
    pub fn new() -> (r: PendingTasks)
        ensures
            r@ == Set::<TaskTag>::empty(),
    {
        let r = PendingTasks {
            summary: false,
            create_wallet: false,
            export_secrets: false,
            session_config: false,
            daemon_status: false,
            balance: false,
            addresses: false,
            new_address: false,
            flow_bundle: false,
            broadcast: false,
            inspector: false,
        };
        assert(r@ =~= Set::<TaskTag>::empty());
        r
    }

    /// Whether a task of this kind is running.
    pub fn contains(&self, tag: TaskTag) -> (r: bool)
        ensures
            r == self@.contains(tag),
    {
        match tag {
            TaskTag::Summary => self.summary,
            TaskTag::CreateWallet => self.create_wallet,
            TaskTag::ExportSecrets => self.export_secrets,
            TaskTag::SessionConfig => self.session_config,
            TaskTag::DaemonStatus => self.daemon_status,
            TaskTag::Balance => self.balance,
            TaskTag::Addresses => self.addresses,
            TaskTag::NewAddress => self.new_address,
            TaskTag::FlowBundle => self.flow_bundle,
            TaskTag::Broadcast => self.broadcast,
            TaskTag::Inspector => self.inspector,
        }
    }

    fn set(&mut self, tag: TaskTag, value: bool)
        ensures
            final(self)@ == (if value {
                old(self)@.insert(tag)
            } else {
                old(self)@.remove(tag)
            }),
    {
        let p = *self;
        *self = PendingTasks {
            summary: if tag == TaskTag::Summary { value } else { p.summary },
            create_wallet: if tag == TaskTag::CreateWallet { value } else { p.create_wallet },
            export_secrets: if tag == TaskTag::ExportSecrets { value } else { p.export_secrets },
            session_config: if tag == TaskTag::SessionConfig { value } else { p.session_config },
            daemon_status: if tag == TaskTag::DaemonStatus { value } else { p.daemon_status },
            balance: if tag == TaskTag::Balance { value } else { p.balance },
            addresses: if tag == TaskTag::Addresses { value } else { p.addresses },
            new_address: if tag == TaskTag::NewAddress { value } else { p.new_address },
            flow_bundle: if tag == TaskTag::FlowBundle { value } else { p.flow_bundle },
            broadcast: if tag == TaskTag::Broadcast { value } else { p.broadcast },
            inspector: if tag == TaskTag::Inspector { value } else { p.inspector },
        };
        proof {
            let post = *self;
            assert forall|t: TaskTag| post.has(t) == (if t == tag {
                value
            } else {
                p.has(t)
            }) by {}
            if value {
                assert(post@ =~= p@.insert(tag));
            } else {
                assert(post@ =~= p@.remove(tag));
            }
        }
    }

    /// Marks a task of this kind as running.
    pub fn insert(&mut self, tag: TaskTag)
        ensures
            final(self)@ == old(self)@.insert(tag),
    {
        self.set(tag, true);
    }

    /// Marks the task of this kind as finished.
    pub fn remove(&mut self, tag: TaskTag)
        ensures
            final(self)@ == old(self)@.remove(tag),
    {
        self.set(tag, false);
    }
}

/// A bridge task to run, with the requests it sends. The tasks that take a
/// session request first bind the bridge's session with it and report that
/// step's error, if any, as their own outcome.
#[derive(Clone, Debug)]
pub enum Command {
    WalletSummary(WalletSummaryRequest),
    CreateWallet(BootstrapCreateRequest),
    ExportSecrets(ExportSecretsRequest),
    ConfigureSession(SessionConfigRequest),
    DaemonStatus,
    Balance(SessionConfigRequest),
    Addresses(SessionConfigRequest),
    NewAddress(SessionConfigRequest),
    CreateUnsigned(SessionConfigRequest, CreateUnsignedRequest),
    Sign(SignRequest),
    ParseFlow(ParseRequest),
    Broadcast(SessionConfigRequest, BroadcastRequest),
    ParseInspector(ParseRequest),
}

/// The contents of a command.
pub enum CommandView {
    WalletSummary(WalletSummaryRequestView),
    CreateWallet(BootstrapCreateRequestView),
    ExportSecrets(ExportSecretsRequestView),
    ConfigureSession(SessionConfigRequestView),
    DaemonStatus,
    Balance(SessionConfigRequestView),
    Addresses(SessionConfigRequestView),
    NewAddress(SessionConfigRequestView),
    CreateUnsigned(SessionConfigRequestView, CreateUnsignedRequestView),
    Sign(SignRequestView),
    ParseFlow(ParseRequestView),
    Broadcast(SessionConfigRequestView, Seq<char>),
    ParseInspector(ParseRequestView),
}

impl View for Command {
    type V = CommandView;

    open spec fn view(&self) -> CommandView {
        match self {
            Command::WalletSummary(r) => CommandView::WalletSummary(r@),
            Command::CreateWallet(r) => CommandView::CreateWallet(r@),
            Command::ExportSecrets(r) => CommandView::ExportSecrets(r@),
            Command::ConfigureSession(r) => CommandView::ConfigureSession(r@),
            Command::DaemonStatus => CommandView::DaemonStatus,
            Command::Balance(r) => CommandView::Balance(r@),
            Command::Addresses(r) => CommandView::Addresses(r@),
            Command::NewAddress(r) => CommandView::NewAddress(r@),
            Command::CreateUnsigned(s, r) => CommandView::CreateUnsigned(s@, r@),
            Command::Sign(r) => CommandView::Sign(r@),
            Command::ParseFlow(r) => CommandView::ParseFlow(r@),
            Command::Broadcast(s, r) => CommandView::Broadcast(s@, r@),
            Command::ParseInspector(r) => CommandView::ParseInspector(r@),
        }
    }
}

impl CommandView {
    /// The kind of task a command starts.
    pub open spec fn tag(self) -> TaskTag {
        match self {
            CommandView::WalletSummary(_) => TaskTag::Summary,
            CommandView::CreateWallet(_) => TaskTag::CreateWallet,
            CommandView::ExportSecrets(_) => TaskTag::ExportSecrets,
            CommandView::ConfigureSession(_) => TaskTag::SessionConfig,
            CommandView::DaemonStatus => TaskTag::DaemonStatus,
            CommandView::Balance(_) => TaskTag::Balance,
            CommandView::Addresses(_) => TaskTag::Addresses,
            CommandView::NewAddress(_) => TaskTag::NewAddress,
            CommandView::CreateUnsigned(_, _) => TaskTag::FlowBundle,
            CommandView::Sign(_) => TaskTag::FlowBundle,
            CommandView::ParseFlow(_) => TaskTag::FlowBundle,
            CommandView::Broadcast(_, _) => TaskTag::Broadcast,
            CommandView::ParseInspector(_) => TaskTag::Inspector,
        }
    }
}

/// The outcome of a finished bridge task.
#[derive(Debug)]
pub enum AppEvent {
    WalletSummary(Result<WalletSummary, String>),
    WalletCreated(Result<BootstrapCreateResponse, String>),
    SecretsExported(Result<ExportSecretsResponse, String>),
    DaemonStatus(Result<DaemonStatus, String>),
    Balance(Result<BalanceResponse, String>),
    Addresses(Result<AddressesResponse, String>),
    NewAddress(Result<NewAddressResponse, String>),
    FlowBundle(Result<TransactionBundle, String>),
    InspectorBundle(Result<TransactionBundle, String>),
    Broadcasted(Result<BroadcastResponse, String>),
}

/// A message shown in the banner of the workspace.
#[derive(Clone, Debug)]
pub struct BannerMessage {
    pub tone: MessageTone,
    pub text: String,
}

/// The contents of the workspace.
#[verifier::ext_equal]
pub struct WalletModel {
    pub bridge: Option<Seq<char>>,
    pub active_page: WorkspacePage,
    pub bootstrap: BootstrapFormView,
    pub rpc_server: Seq<char>,
    pub spend: SpendFormView,
    pub inspector_hex: Seq<char>,
    pub summary: Option<WalletSummaryView>,
    pub secrets: Option<ExportSecretsResponse>,
    pub daemon_status: Option<DaemonStatus>,
    pub balance: Option<BalanceResponse>,
    pub addresses: Seq<String>,
    pub last_new_address: Option<String>,
    pub flow_hex: Seq<char>,
    pub flow_bundle: Option<TransactionBundle>,
    pub inspector_bundle: Option<TransactionBundle>,
    pub last_broadcast_tx_ids: Seq<String>,
    pub pending: Set<TaskTag>,
    pub banner: Option<(MessageTone, Seq<char>)>,
    pub last_status_poll: Option<u64>,
    pub last_balance_poll: Option<u64>,
    pub outbox: Seq<CommandView>,
}

/// The workspace of the wallet client. Times are nanoseconds on a monotonic
/// clock; a poll time that was never set counts as long ago.
#[derive(Debug)]
pub struct WalletApp {
    pub bridge: Option<BackendClient>,
    pub active_page: WorkspacePage,
    pub bootstrap: BootstrapForm,
    pub node_form: NodeForm,
    pub spend: SpendForm,
    pub inspector: InspectorForm,
    pub summary: Option<WalletSummary>,
    pub secrets: Option<ExportSecretsResponse>,
    pub daemon_status: Option<DaemonStatus>,
    pub balance: Option<BalanceResponse>,
    pub addresses: Vec<String>,
    pub last_new_address: Option<String>,
    pub flow_hex: String,
    pub flow_bundle: Option<TransactionBundle>,
    pub inspector_bundle: Option<TransactionBundle>,
    pub last_broadcast_tx_ids: Vec<String>,
    pub pending: PendingTasks,
    pub banner: Option<BannerMessage>,
    pub last_status_poll: Option<u64>,
    pub last_balance_poll: Option<u64>,
    pub outbox: Vec<Command>,
}

/// The characters of a banner.
pub open spec fn banner_view(b: Option<BannerMessage>) -> Option<(MessageTone, Seq<char>)> {
    match b {
        Some(m) => Some((m.tone, m.text@)),
        None => None,
    }
}

/// The contents of an optional summary.
pub open spec fn summary_view(s: Option<WalletSummary>) -> Option<WalletSummaryView> {
    match s {
        Some(w) => Some(w@),
        None => None,
    }
}

impl View for WalletApp {
    type V = WalletModel;

    open spec fn view(&self) -> WalletModel {
        WalletModel {
            bridge: match self.bridge {
                Some(b) => Some(b@),
                None => None,
            },
            active_page: self.active_page,
            bootstrap: self.bootstrap@,
            rpc_server: self.node_form@,
            spend: self.spend@,
            inspector_hex: self.inspector@,
            summary: summary_view(self.summary),
            secrets: self.secrets,
            daemon_status: self.daemon_status,
            balance: self.balance,
            addresses: self.addresses@,
            last_new_address: self.last_new_address,
            flow_hex: self.flow_hex@,
            flow_bundle: self.flow_bundle,
            inspector_bundle: self.inspector_bundle,
            last_broadcast_tx_ids: self.last_broadcast_tx_ids@,
            pending: self.pending@,
            banner: banner_view(self.banner),
            last_status_poll: self.last_status_poll,
            last_balance_poll: self.last_balance_poll,
            outbox: self.outbox@.map_values(|c: Command| c@),
        }
    }
}

// ---------------------------------------------------------------------------
// What the workspace shows and allows, as functions of its contents.

/// Whether a wallet file is loaded.
pub open spec fn wallet_loaded(m: WalletModel) -> bool {
    m.summary is Some
}

/// The state of the wallet engine as the bridge last reported it.
pub open spec fn engine_state(m: WalletModel) -> Seq<char> {
    match m.daemon_status {
        Some(status) => status.state@,
        None => "stopped"@,
    }
}

/// Whether the wallet engine is synced and ready.
pub open spec fn wallet_ready(m: WalletModel) -> bool {
    engine_state(m) == "ready"@
}

/// Whether this cosigner may issue receive addresses: a loaded wallet that
/// is not multisig, or the multisig cosigner that owns the addresses (the
/// canonical one). With no wallet summary loaded, no cosigner may.
pub open spec fn can_issue_receive(m: WalletModel) -> bool {
    match m.summary {
        Some(s) => !s.is_multisig || s.is_canonical_address_owner,
        None => false,
    }
}

/// Whether the engine is in one of the states in which it is syncing.
pub open spec fn engine_syncing(state: Seq<char>) -> bool {
    state == "configured"@ || state == "starting"@ || state == "syncing"@ || state == "running"@
}

/// The label of the sync state.
pub open spec fn sync_label(m: WalletModel) -> Seq<char> {
    if engine_state(m) == "ready"@ {
        "Synced"@
    } else if engine_syncing(engine_state(m)) {
        "Syncing"@
    } else {
        "Not connected"@
    }
}

/// The stage of the workspace and its accent.
pub open spec fn stage(m: WalletModel) -> (Seq<char>, Accent) {
    if !wallet_loaded(m) {
        ("Get started"@, Accent::Copper)
    } else if !wallet_ready(m) {
        ("Connect wallet"@, Accent::Copper)
    } else if m.flow_bundle is Some {
        ("Finish payment"@, Accent::Olive)
    } else if can_issue_receive(m) {
        ("Receive or send"@, Accent::Teal)
    } else {
        ("Ready to sign"@, Accent::Teal)
    }
}

/// Whether a page may be opened.
pub open spec fn page_unlocked(m: WalletModel, page: WorkspacePage) -> bool {
    match page {
        WorkspacePage::Setup => true,
        WorkspacePage::Connect => wallet_loaded(m),
        WorkspacePage::Receive => wallet_ready(m),
        WorkspacePage::Send => wallet_ready(m),
        WorkspacePage::Technical => m.flow_bundle is Some || !is_blank(m.inspector_hex)
            || m.inspector_bundle is Some,
    }
}

/// The page the workspace recommends.
pub open spec fn recommended_page(m: WalletModel) -> WorkspacePage {
    if !wallet_loaded(m) {
        WorkspacePage::Setup
    } else if !wallet_ready(m) {
        WorkspacePage::Connect
    } else if m.flow_bundle is Some {
        WorkspacePage::Send
    } else if can_issue_receive(m) && m.last_new_address is None {
        WorkspacePage::Receive
    } else {
        WorkspacePage::Send
    }
}

/// The sentence that tells the user what to do next.
pub open spec fn next_action_text(m: WalletModel) -> Seq<char> {
    if !wallet_loaded(m) {
        "Create, recover, or open a multisig wallet."@
    } else if is_blank(m.rpc_server) {
        "Add a Kaspa node RPC to sync this wallet."@
    } else if !(engine_syncing(engine_state(m)) || engine_state(m) == "ready"@) {
        "Connect the wallet to your node."@
    } else if !wallet_ready(m) {
        "Wait for the wallet engine to finish syncing."@
    } else if m.flow_bundle is Some {
        "Review the payment, collect signatures, and send when it is fully signed."@
    } else if can_issue_receive(m) && m.addresses.len() == 0 && m.last_new_address is None {
        "Generate the next receive address or prepare a payment."@
    } else {
        "Wallet is ready for everyday receive and spend actions."@
    }
}

/// How many public keys of other cosigners the setup needs: the total
/// cosigners less the local keys, and none where there are more local keys.
pub open spec fn expected_remote_keys(m: WalletModel) -> u32 {
    if m.bootstrap.num_public_keys >= m.bootstrap.num_private_keys {
        (m.bootstrap.num_public_keys - m.bootstrap.num_private_keys) as u32
    } else {
        0
    }
}

/// Whether the setup form may be submitted.
pub open spec fn setup_submittable(m: WalletModel) -> bool {
    let b = m.bootstrap;
    if is_blank(b.keys_file) {
        false
    } else {
        match b.setup_mode {
            SetupMode::OpenExisting => true,
            _ => {
                &&& !is_blank(b.password)
                &&& b.num_private_keys != 0
                &&& b.num_public_keys != 0
                &&& b.minimum_signatures != 0
                &&& b.num_private_keys <= b.num_public_keys
                &&& b.minimum_signatures <= b.num_public_keys
                &&& list_items(b.remote_public_keys, true).len() == expected_remote_keys(m)
                &&& b.setup_mode == SetupMode::RecoverExisting ==> list_items(
                    b.import_mnemonics,
                    false,
                ).len() == b.num_private_keys
            },
        }
    }
}

impl WalletApp {
    /// The name of the chosen network.
    pub fn network_string(&self) -> (r: String)
        ensures
            r@ == self.bootstrap.network.name(),
    {
        self.bootstrap.network.as_str().to_owned()
    }

    /// Whether a wallet file is loaded.
    pub fn wallet_loaded(&self) -> (r: bool)
        ensures
            r == wallet_loaded(self@),
    {
        self.summary.is_some()
    }

    /// The state of the wallet engine as the bridge last reported it.
    pub fn engine_state(&self) -> (r: &str)
        ensures
            r@ == engine_state(self@),
    {
        match &self.daemon_status {
            Some(status) => status.state.as_str(),
            None => "stopped",
        }
    }

    /// Whether the wallet engine is synced and ready.
    pub fn wallet_ready(&self) -> (r: bool)
        ensures
            r == wallet_ready(self@),
    {
        same_text(self.engine_state(), "ready")
    }

    /// Whether this cosigner may issue receive addresses.
    pub fn can_issue_receive(&self) -> (r: bool)
        ensures
            r == can_issue_receive(self@),
    {
        match &self.summary {
            Some(summary) => !summary.is_multisig || summary.is_canonical_address_owner,
            None => false,
        }
    }

    /// The label of the sync state.
    pub fn sync_state_label(&self) -> (r: &'static str)
        ensures
            r@ == sync_label(self@),
    {
        let state = self.engine_state();
        if same_text(state, "ready") {
            "Synced"
        } else if same_text(state, "configured") || same_text(state, "starting") || same_text(
            state,
            "syncing",
        ) || same_text(state, "running") {
            "Syncing"
        } else {
            "Not connected"
        }
    }

    /// The stage of the workspace and its accent.
    pub fn primary_stage(&self) -> (r: (&'static str, Accent))
        ensures
            r.0@ == stage(self@).0,
            r.1 == stage(self@).1,
    {
        if !self.wallet_loaded() {
            ("Get started", Accent::Copper)
        } else if !self.wallet_ready() {
            ("Connect wallet", Accent::Copper)
        } else if self.flow_bundle.is_some() {
            ("Finish payment", Accent::Olive)
        } else if self.can_issue_receive() {
            ("Receive or send", Accent::Teal)
        } else {
            ("Ready to sign", Accent::Teal)
        }
    }

    /// Whether a page may be opened.
    pub fn page_unlocked(&self, page: WorkspacePage) -> (r: bool)
        ensures
            r == page_unlocked(self@, page),
    {
        match page {
            WorkspacePage::Setup => true,
            WorkspacePage::Connect => self.wallet_loaded(),
            WorkspacePage::Receive => self.wallet_ready(),
            WorkspacePage::Send => self.wallet_ready(),
            WorkspacePage::Technical => {
                self.flow_bundle.is_some() || !is_blank_text(&self.inspector.transactions_hex)
                    || self.inspector_bundle.is_some()
            },
        }
    }

    /// The page the workspace recommends.
    pub fn recommended_page(&self) -> (r: WorkspacePage)
        ensures
            r == recommended_page(self@),
    {
        if !self.wallet_loaded() {
            WorkspacePage::Setup
        } else if !self.wallet_ready() {
            WorkspacePage::Connect
        } else if self.flow_bundle.is_some() {
            WorkspacePage::Send
        } else if self.can_issue_receive() && self.last_new_address.is_none() {
            WorkspacePage::Receive
        } else {
            WorkspacePage::Send
        }
    }

    /// Leaves a page that may no longer be open for the recommended one.
    pub fn sync_active_page(&mut self)
        ensures
            final(self)@ == (if page_unlocked(old(self)@, old(self).active_page) {
                old(self)@
            } else {
                WalletModel { active_page: recommended_page(old(self)@), ..old(self)@ }
            }),
    {
        if !self.page_unlocked(self.active_page) {
            self.active_page = self.recommended_page();
        }
    }

    /// The sentence that tells the user what to do next.
    pub fn next_action(&self) -> (r: &'static str)
        ensures
            r@ == next_action_text(self@),
    {
        if !self.wallet_loaded() {
            return "Create, recover, or open a multisig wallet.";
        }
        if is_blank_text(&self.node_form.rpc_server) {
            return "Add a Kaspa node RPC to sync this wallet.";
        }
        let state = self.engine_state();
        if !(same_text(state, "configured") || same_text(state, "starting") || same_text(
            state,
            "syncing",
        ) || same_text(state, "running") || same_text(state, "ready")) {
            return "Connect the wallet to your node.";
        }
        if !self.wallet_ready() {
            return "Wait for the wallet engine to finish syncing.";
        }
        if self.flow_bundle.is_some() {
            return "Review the payment, collect signatures, and send when it is fully signed.";
        }
        if self.can_issue_receive() && self.addresses.len() == 0 && self.last_new_address.is_none() {
            return "Generate the next receive address or prepare a payment.";
        }
        "Wallet is ready for everyday receive and spend actions."
    }

    /// How many public keys of other cosigners the setup needs.
    pub fn expected_remote_key_count(&self) -> (r: u32)
        ensures
            r == expected_remote_keys(self@),
    {
        self.bootstrap.num_public_keys.saturating_sub(self.bootstrap.num_private_keys)
    }

    /// How many public keys of other cosigners the setup form holds.
    pub fn provided_remote_key_count(&self) -> (r: usize)
        ensures
            r == list_items(self.bootstrap.remote_public_keys@, true).len(),
    {
        self.bootstrap.remote_public_keys_vec().len()
    }

    /// The label of the setup form's button.
    pub fn setup_primary_action_label(&self) -> (r: &'static str)
        ensures
            r@ == self.bootstrap.setup_mode.title(),
    {
        match self.bootstrap.setup_mode {
            SetupMode::OpenExisting => "Open wallet",
            SetupMode::CreateNew => "Create wallet",
            SetupMode::RecoverExisting => "Recover wallet",
        }
    }

    /// Whether the setup form may be submitted: a wallet file is named, and
    /// to create or recover one, a password is set, the key counts agree,
    /// every other cosigner's key is given, and when recovering, one phrase
    /// per local key.
    pub fn setup_can_submit(&self) -> (r: bool)
        ensures
            r == setup_submittable(self@),
    {
        if is_blank_text(&self.bootstrap.keys_file) {
            return false;
        }
        match self.bootstrap.setup_mode {
            SetupMode::OpenExisting => true,
            SetupMode::CreateNew | SetupMode::RecoverExisting => {
                if is_blank_text(&self.bootstrap.password) {
                    return false;
                }
                if self.bootstrap.num_private_keys == 0 || self.bootstrap.num_public_keys == 0
                    || self.bootstrap.minimum_signatures == 0 {
                    return false;
                }
                if self.bootstrap.num_private_keys > self.bootstrap.num_public_keys {
                    return false;
                }
                if self.bootstrap.minimum_signatures > self.bootstrap.num_public_keys {
                    return false;
                }
                if self.provided_remote_key_count() != self.expected_remote_key_count() as usize {
                    return false;
                }
                match self.bootstrap.setup_mode {
                    SetupMode::RecoverExisting => {
                        if self.bootstrap.import_mnemonics_vec().len()
                            != self.bootstrap.num_private_keys as usize {
                            return false;
                        }
                    },
                    _ => {},
                }
                true
            },
        }
    }
}


// ---------------------------------------------------------------------------
// Starting bridge tasks.

/// The contents with a new banner.
pub open spec fn with_banner(m: WalletModel, tone: MessageTone, text: Seq<char>) -> WalletModel {
    WalletModel { banner: Some((tone, text)), ..m }
}

/// The contents after asking for a task: with the bridge up, the task's
/// kind is marked as running and its command is queued; without it, the
/// banner says that the bridge is unavailable.
pub open spec fn spawned(m: WalletModel, command: CommandView) -> WalletModel {
    if m.bridge is Some {
        WalletModel { pending: m.pending.insert(command.tag()), outbox: m.outbox.push(command), ..m }
    } else {
        with_banner(m, MessageTone::Error, "Local Go bridge is unavailable."@)
    }
}

/// The session request of the workspace, or the error when no node is named.
pub open spec fn session_request(m: WalletModel) -> Result<SessionConfigRequestView, Seq<char>> {
    if is_blank(m.rpc_server) {
        Err("Kaspa node RPC is required for sync and spend operations."@)
    } else {
        Ok(
            SessionConfigRequestView {
                network: m.bootstrap.network.name(),
                keys_file: m.bootstrap.keys_file,
                rpc_server: trim(m.rpc_server),
                timeout_seconds: 30,
            },
        )
    }
}

/// The contents after asking for a task that needs the session: the task
/// is started with the session request, or the banner shows why there is none.
pub open spec fn after_session(
    m: WalletModel,
    make: spec_fn(SessionConfigRequestView) -> CommandView,
) -> WalletModel {
    match session_request(m) {
        Ok(session) => spawned(m, make(session)),
        Err(e) => with_banner(m, MessageTone::Error, e),
    }
}

/// Asking for the summary of the wallet file named in the setup form.
pub open spec fn request_wallet_summary_spec(m: WalletModel) -> WalletModel {
    spawned(
        m,
        CommandView::WalletSummary(
            WalletSummaryRequestView {
                network: m.bootstrap.network.name(),
                keys_file: m.bootstrap.keys_file,
            },
        ),
    )
}

/// Asking to create or recover the wallet file the setup form describes;
/// mnemonic phrases go along only when recovering.
pub open spec fn request_wallet_create_spec(m: WalletModel) -> WalletModel {
    let b = m.bootstrap;
    spawned(
        m,
        CommandView::CreateWallet(
            BootstrapCreateRequestView {
                network: b.network.name(),
                keys_file: b.keys_file,
                password: b.password,
                minimum_signatures: b.minimum_signatures,
                num_private_keys: b.num_private_keys,
                num_public_keys: b.num_public_keys,
                remote_public_keys: list_items(b.remote_public_keys, true),
                import_mnemonics: if b.setup_mode == SetupMode::RecoverExisting {
                    list_items(b.import_mnemonics, false)
                } else {
                    Seq::empty()
                },
                ecdsa: b.ecdsa,
                overwrite: b.overwrite,
            },
        ),
    )
}

/// Asking for the recovery material of the wallet file.
pub open spec fn request_export_secrets_spec(m: WalletModel) -> WalletModel {
    spawned(
        m,
        CommandView::ExportSecrets(
            ExportSecretsRequestView {
                network: m.bootstrap.network.name(),
                keys_file: m.bootstrap.keys_file,
                password: m.bootstrap.password,
            },
        ),
    )
}

/// Binding the session to the node named in the node form.
pub open spec fn request_connect_node_spec(m: WalletModel) -> WalletModel {
    after_session(m, |s: SessionConfigRequestView| CommandView::ConfigureSession(s))
}

/// Connecting happens only where a node is named and no connection attempt is running.
pub open spec fn maybe_connect_node_spec(m: WalletModel) -> WalletModel {
    if is_blank(m.rpc_server) || m.pending.contains(TaskTag::SessionConfig) {
        m
    } else {
        request_connect_node_spec(m)
    }
}

/// Asking for the state of the wallet engine.
pub open spec fn request_daemon_status_spec(m: WalletModel) -> WalletModel {
    spawned(m, CommandView::DaemonStatus)
}

/// Asking for the balance, within the session.
pub open spec fn request_balance_spec(m: WalletModel) -> WalletModel {
    after_session(m, |s: SessionConfigRequestView| CommandView::Balance(s))
}

/// Asking for the issued addresses, within the session.
pub open spec fn request_addresses_spec(m: WalletModel) -> WalletModel {
    after_session(m, |s: SessionConfigRequestView| CommandView::Addresses(s))
}

/// Asking for the next receive address, within the session.
pub open spec fn request_new_address_spec(m: WalletModel) -> WalletModel {
    after_session(m, |s: SessionConfigRequestView| CommandView::NewAddress(s))
}

/// The request for an unsigned bundle that the payment form describes.
pub open spec fn unsigned_request(m: WalletModel, policy: FeePolicyRequest) -> CreateUnsignedRequestView {
    CreateUnsignedRequestView {
        to_address: m.spend.to_address,
        amount_kas: m.spend.amount_kas,
        send_all: m.spend.send_all,
        from_addresses: list_items(m.spend.from_addresses, true),
        use_existing_change_address: m.spend.use_existing_change_address,
        fee_policy: policy,
    }
}

/// Asking for an unsigned bundle: the fee policy must be readable and a
/// node must be named; the first problem is shown in the banner.
pub open spec fn request_create_unsigned_spec(m: WalletModel, parsed_rate: Option<u64>) -> WalletModel {
    match fee_policy_spec(m.spend, parsed_rate) {
        Err(e) => with_banner(m, MessageTone::Error, e),
        Ok(policy) => after_session(
            m,
            |s: SessionConfigRequestView| CommandView::CreateUnsigned(s, unsigned_request(m, policy)),
        ),
    }
}

/// Asking to sign the current bundle with the typed password.
pub open spec fn request_sign_flow_spec(m: WalletModel) -> WalletModel {
    spawned(
        m,
        CommandView::Sign(
            SignRequestView {
                network: m.bootstrap.network.name(),
                keys_file: m.bootstrap.keys_file,
                password: m.bootstrap.password,
                transactions_hex: m.flow_hex,
            },
        ),
    )
}

/// Asking to describe the current bundle.
pub open spec fn request_parse_flow_spec(m: WalletModel) -> WalletModel {
    spawned(
        m,
        CommandView::ParseFlow(
            ParseRequestView {
                network: m.bootstrap.network.name(),
                keys_file: m.bootstrap.keys_file,
                transactions_hex: m.flow_hex,
            },
        ),
    )
}

/// Asking to broadcast the current bundle, within the session.
pub open spec fn request_broadcast_flow_spec(m: WalletModel) -> WalletModel {
    after_session(m, |s: SessionConfigRequestView| CommandView::Broadcast(s, m.flow_hex))
}

/// Whether the current bundle is fully signed.
pub open spec fn flow_fully_signed(m: WalletModel) -> bool {
    match m.flow_bundle {
        Some(b) => b.fully_signed,
        None => false,
    }
}

/// Pressing the button that generates a receive address: the next address
/// is asked for only where the engine is ready and this cosigner may issue
/// receive addresses; otherwise nothing changes.
pub open spec fn generate_receive_address_spec(m: WalletModel) -> WalletModel {
    if wallet_ready(m) && can_issue_receive(m) {
        request_new_address_spec(m)
    } else {
        m
    }
}

/// Pressing the button that sends the current bundle: it is broadcast only
/// once fully signed; otherwise nothing changes.
pub open spec fn send_now_spec(m: WalletModel) -> WalletModel {
    if flow_fully_signed(m) {
        request_broadcast_flow_spec(m)
    } else {
        m
    }
}

/// The forms with the chosen network's default wallet file and node.
pub open spec fn with_network_defaults(m: WalletModel) -> WalletModel {
    WalletModel {
        bootstrap: BootstrapFormView { keys_file: m.bootstrap.network.keys_file_default(), ..m.bootstrap },
        rpc_server: m.bootstrap.network.rpc_default(),
        ..m
    }
}

/// The network choice of one frame settled: the defaults of the chosen
/// network go in the forms where the network changed from `previous` or
/// the defaults were asked for; otherwise the forms stay as they were.
pub open spec fn settle_network_choice_spec(
    m: WalletModel,
    previous: NetworkChoice,
    use_defaults: bool,
) -> WalletModel {
    if m.bootstrap.network != previous || use_defaults {
        with_network_defaults(m)
    } else {
        m
    }
}

/// Asking to describe the bundle text in the inspector.
pub open spec fn request_parse_inspector_spec(m: WalletModel) -> WalletModel {
    spawned(
        m,
        CommandView::ParseInspector(
            ParseRequestView {
                network: m.bootstrap.network.name(),
                keys_file: m.bootstrap.keys_file,
                transactions_hex: m.inspector_hex,
            },
        ),
    )
}

/// The workspace as it first appears, with the bridge that started or the
/// error that kept it from starting.
pub open spec fn initial_model(startup: Result<Seq<char>, Seq<char>>) -> WalletModel {
    WalletModel {
        bridge: match startup {
            Ok(url) => Some(url),
            Err(_) => None,
        },
        active_page: WorkspacePage::Setup,
        bootstrap: BootstrapForm::initial(),
        rpc_server: NetworkChoice::Mainnet.rpc_default(),
        spend: SpendForm::initial(),
        inspector_hex: Seq::empty(),
        summary: None,
        secrets: None,
        daemon_status: None,
        balance: None,
        addresses: Seq::empty(),
        last_new_address: None,
        flow_hex: Seq::empty(),
        flow_bundle: None,
        inspector_bundle: None,
        last_broadcast_tx_ids: Seq::empty(),
        pending: Set::empty(),
        banner: match startup {
            Ok(_) => Some(
                (
                    MessageTone::Info,
                    "The local wallet backend is running. Start by opening, creating, or recovering a multisig wallet."@,
                ),
            ),
            Err(e) => Some((MessageTone::Error, e)),
        },
        last_status_poll: None,
        last_balance_poll: None,
        outbox: Seq::empty(),
    }
}

impl WalletApp {
    /// The workspace as it first appears, given the bridge that started or
    /// the error that kept it from starting.
    pub fn new(startup: Result<BackendClient, String>) -> (r: WalletApp)
        ensures
            r@ == initial_model(
                match startup {
                    Ok(client) => Ok(client@),
                    Err(e) => Err(e@),
                },
            ),
    {
        let bootstrap = BootstrapForm::new();
        let node_form = NodeForm::new(bootstrap.network);
        let (bridge, banner) = match startup {
            Ok(client) => (
                Some(client),
                BannerMessage {
                    tone: MessageTone::Info,
                    text: "The local wallet backend is running. Start by opening, creating, or recovering a multisig wallet.".to_owned(),
                },
            ),
            Err(err) => (None, BannerMessage { tone: MessageTone::Error, text: err }),
        };
        let r = WalletApp {
            bridge,
            active_page: WorkspacePage::Setup,
            bootstrap,
            node_form,
            spend: SpendForm::new(),
            inspector: InspectorForm::new(),
            summary: None,
            secrets: None,
            daemon_status: None,
            balance: None,
            addresses: Vec::new(),
            last_new_address: None,
            flow_hex: String::new(),
            flow_bundle: None,
            inspector_bundle: None,
            last_broadcast_tx_ids: Vec::new(),
            pending: PendingTasks::new(),
            banner: Some(banner),
            last_status_poll: None,
            last_balance_poll: None,
            outbox: Vec::new(),
        };
        assert(r.outbox@.map_values(|c: Command| c@) =~= Seq::<CommandView>::empty());
        r
    }

    /// Shows a message in the banner.
    pub fn set_banner(&mut self, tone: MessageTone, text: String)
        ensures
            final(self)@ == with_banner(old(self)@, tone, text@),
    {
        self.banner = Some(BannerMessage { tone, text });
    }

    /// Starts a bridge task where the bridge is up, and says that it is
    /// unavailable otherwise.
    fn spawn_task(&mut self, tag: TaskTag, command: Command)
        requires
            command@.tag() == tag,
        ensures
            final(self)@ == spawned(old(self)@, command@),
    {
        if self.bridge.is_none() {
            self.set_banner(MessageTone::Error, "Local Go bridge is unavailable.".to_owned());
            return;
        }
        self.pending.insert(tag);
        let ghost before = self.outbox@;
        self.outbox.push(command);
        proof {
            before.lemma_push_map_commute(|c: Command| c@, command);
        }
    }

    /// The commands queued since they were last taken, in order; the
    /// outbox is left empty.
    pub fn take_commands(&mut self) -> (r: Vec<Command>)
        ensures
            r@.map_values(|c: Command| c@) == old(self)@.outbox,
            final(self)@ == (WalletModel { outbox: Seq::empty(), ..old(self)@ }),
    {
        let mut r: Vec<Command> = Vec::new();
        std::mem::swap(&mut r, &mut self.outbox);
        assert(self.outbox@.map_values(|c: Command| c@) =~= Seq::<CommandView>::empty());
        r
    }

    /// The session request of the workspace, or the error when no node is named.
    pub fn current_session_request(&self) -> (r: Result<SessionConfigRequest, String>)
        ensures
            match r {
                Ok(req) => session_request(self@) == Ok::<SessionConfigRequestView, Seq<char>>(req@),
                Err(e) => session_request(self@) == Err::<SessionConfigRequestView, Seq<char>>(e@),
            },
    {
        if is_blank_text(&self.node_form.rpc_server) {
            return Err("Kaspa node RPC is required for sync and spend operations.".to_owned());
        }
        Ok(
            SessionConfigRequest {
                network: self.network_string(),
                keys_file: self.bootstrap.keys_file.clone(),
                rpc_server: trimmed(&self.node_form.rpc_server),
                timeout_seconds: 30,
            },
        )
    }

    /// Asks for the summary of the wallet file named in the setup form.
    pub fn request_wallet_summary(&mut self)
        ensures
            final(self)@ == request_wallet_summary_spec(old(self)@),
    {
        let request = WalletSummaryRequest {
            network: self.network_string(),
            keys_file: self.bootstrap.keys_file.clone(),
        };
        self.spawn_task(TaskTag::Summary, Command::WalletSummary(request));
    }

    /// Asks the bridge to create or recover the wallet file the setup form describes.
    pub fn request_wallet_create(&mut self)
        ensures
            final(self)@ == request_wallet_create_spec(old(self)@),
    {
        let import_mnemonics = match self.bootstrap.setup_mode {
            SetupMode::RecoverExisting => self.bootstrap.import_mnemonics_vec(),
            _ => {
                let empty: Vec<String> = Vec::new();
                assert(crate::text::strings_view(empty@) =~= Seq::<Seq<char>>::empty());
                empty
            },
        };
        let request = BootstrapCreateRequest {
            network: self.network_string(),
            keys_file: self.bootstrap.keys_file.clone(),
            password: self.bootstrap.password.clone(),
            minimum_signatures: self.bootstrap.minimum_signatures,
            num_private_keys: self.bootstrap.num_private_keys,
            num_public_keys: self.bootstrap.num_public_keys,
            remote_public_keys: self.bootstrap.remote_public_keys_vec(),
            import_mnemonics,
            ecdsa: self.bootstrap.ecdsa,
            overwrite: self.bootstrap.overwrite,
        };
        self.spawn_task(TaskTag::CreateWallet, Command::CreateWallet(request));
    }

    /// Asks for the recovery material of the wallet file.
    pub fn request_export_secrets(&mut self)
        ensures
            final(self)@ == request_export_secrets_spec(old(self)@),
    {
        let request = ExportSecretsRequest {
            network: self.network_string(),
            keys_file: self.bootstrap.keys_file.clone(),
            password: self.bootstrap.password.clone(),
        };
        self.spawn_task(TaskTag::ExportSecrets, Command::ExportSecrets(request));
    }

    /// Connects the wallet to the node, unless no node is named or a
    /// connection attempt is running.
    pub fn maybe_connect_node(&mut self)
        ensures
            final(self)@ == maybe_connect_node_spec(old(self)@),
    {
        if is_blank_text(&self.node_form.rpc_server) || self.pending.contains(
            TaskTag::SessionConfig,
        ) {
            return;
        }
        self.request_connect_node();
    }

    /// Connects the wallet to the node named in the node form.
    pub fn request_connect_node(&mut self)
        ensures
            final(self)@ == request_connect_node_spec(old(self)@),
    {
        match self.current_session_request() {
            Ok(request) => self.spawn_task(TaskTag::SessionConfig, Command::ConfigureSession(request)),
            Err(err) => self.set_banner(MessageTone::Error, err),
        }
    }

    /// Asks for the state of the wallet engine.
    pub fn request_daemon_status(&mut self)
        ensures
            final(self)@ == request_daemon_status_spec(old(self)@),
    {
        self.spawn_task(TaskTag::DaemonStatus, Command::DaemonStatus);
    }

    /// Asks for the wallet's balance.
    pub fn request_balance(&mut self)
        ensures
            final(self)@ == request_balance_spec(old(self)@),
    {
        match self.current_session_request() {
            Ok(session) => self.spawn_task(TaskTag::Balance, Command::Balance(session)),
            Err(err) => self.set_banner(MessageTone::Error, err),
        }
    }

    /// Asks for the addresses the wallet has issued.
    pub fn request_addresses(&mut self)
        ensures
            final(self)@ == request_addresses_spec(old(self)@),
    {
        match self.current_session_request() {
            Ok(session) => self.spawn_task(TaskTag::Addresses, Command::Addresses(session)),
            Err(err) => self.set_banner(MessageTone::Error, err),
        }
    }

    /// Asks for the next receive address.
    pub fn request_new_address(&mut self)
        ensures
            final(self)@ == request_new_address_spec(old(self)@),
    {
        match self.current_session_request() {
            Ok(session) => self.spawn_task(TaskTag::NewAddress, Command::NewAddress(session)),
            Err(err) => self.set_banner(MessageTone::Error, err),
        }
    }

    /// Asks for an unsigned bundle paying what the payment form describes.
    /// `parsed_rate` is what reading the trimmed fee text as a floating-point
    /// rate gave (its bit pattern), where that succeeded.
    pub fn request_create_unsigned(&mut self, parsed_rate: Option<u64>)
        ensures
            final(self)@ == request_create_unsigned_spec(old(self)@, parsed_rate),
    {
        let fee_policy = match self.spend.fee_policy(parsed_rate) {
            Ok(policy) => policy,
            Err(err) => {
                self.set_banner(MessageTone::Error, err);
                return;
            },
        };
        let session = match self.current_session_request() {
            Ok(request) => request,
            Err(err) => {
                self.set_banner(MessageTone::Error, err);
                return;
            },
        };
        let request = CreateUnsignedRequest {
            to_address: self.spend.to_address.clone(),
            amount_kas: self.spend.amount_kas.clone(),
            send_all: self.spend.send_all,
            from_addresses: self.spend.from_addresses_vec(),
            use_existing_change_address: self.spend.use_existing_change_address,
            fee_policy,
        };
        self.spawn_task(TaskTag::FlowBundle, Command::CreateUnsigned(session, request));
    }

    /// Asks the bridge to sign the current bundle.
    pub fn request_sign_flow(&mut self)
        ensures
            final(self)@ == request_sign_flow_spec(old(self)@),
    {
        let request = SignRequest {
            network: self.network_string(),
            keys_file: self.bootstrap.keys_file.clone(),
            password: self.bootstrap.password.clone(),
            transactions_hex: self.flow_hex.clone(),
        };
        self.spawn_task(TaskTag::FlowBundle, Command::Sign(request));
    }

    /// Asks the bridge to describe the current bundle.
    pub fn request_parse_flow(&mut self)
        ensures
            final(self)@ == request_parse_flow_spec(old(self)@),
    {
        let request = ParseRequest {
            network: self.network_string(),
            keys_file: self.bootstrap.keys_file.clone(),
            transactions_hex: self.flow_hex.clone(),
        };
        self.spawn_task(TaskTag::FlowBundle, Command::ParseFlow(request));
    }

    /// Asks the bridge to broadcast the current bundle.
    pub fn request_broadcast_flow(&mut self)
        ensures
            final(self)@ == request_broadcast_flow_spec(old(self)@),
    {
        let session = match self.current_session_request() {
            Ok(request) => request,
            Err(err) => {
                self.set_banner(MessageTone::Error, err);
                return;
            },
        };
        let request = BroadcastRequest { transactions_hex: self.flow_hex.clone() };
        self.spawn_task(TaskTag::Broadcast, Command::Broadcast(session, request));
    }

    /// The button that generates a receive address: asks for the next
    /// address only where the engine is ready and this cosigner may issue
    /// receive addresses.
    pub fn generate_receive_address(&mut self)
        ensures
            final(self)@ == generate_receive_address_spec(old(self)@),
    {
        if self.wallet_ready() && self.can_issue_receive() {
            self.request_new_address();
        }
    }

    /// The button that sends the current bundle: broadcasts it only once it
    /// is fully signed.
    pub fn send_now(&mut self)
        ensures
            final(self)@ == send_now_spec(old(self)@),
    {
        if self.can_broadcast_flow() {
            self.request_broadcast_flow();
        }
    }

    /// Asks the bridge to describe the bundle in the inspector.
    pub fn request_parse_inspector(&mut self)
        ensures
            final(self)@ == request_parse_inspector_spec(old(self)@),
    {
        let request = ParseRequest {
            network: self.network_string(),
            keys_file: self.bootstrap.keys_file.clone(),
            transactions_hex: self.inspector.transactions_hex.clone(),
        };
        self.spawn_task(TaskTag::Inspector, Command::ParseInspector(request));
    }
}


// ---------------------------------------------------------------------------
// Finished bridge tasks.

/// The contents after an error outcome: the banner shows the error.
pub open spec fn failed(m: WalletModel, e: Seq<char>) -> WalletModel {
    with_banner(m, MessageTone::Error, e)
}

/// After a task that changed the wallet, its state is read again unless
/// that is already under way.
pub open spec fn status_followup(m: WalletModel) -> WalletModel {
    if !m.pending.contains(TaskTag::DaemonStatus) {
        request_daemon_status_spec(m)
    } else {
        m
    }
}

/// Whether the list holds an address with these characters.
pub open spec fn has_address(list: Seq<String>, address: Seq<char>) -> bool {
    exists|i: int| 0 <= i < list.len() && (#[trigger] list[i])@ == address
}

/// The banner text after a broadcast of `n` transactions.
pub open spec fn broadcast_message(n: nat) -> Seq<char> {
    "Broadcast "@ + decimal(n) + " transaction(s)."@
}

/// The contents after a task's outcome.
pub open spec fn handle_event_spec(m: WalletModel, event: AppEvent) -> WalletModel {
    match event {
        AppEvent::WalletSummary(result) => {
            let m0 = WalletModel { pending: m.pending.remove(TaskTag::Summary), ..m };
            match result {
                Ok(summary) => maybe_connect_node_spec(
                    with_banner(
                        WalletModel {
                            bootstrap: BootstrapFormView { keys_file: summary.keys_file@, ..m0.bootstrap },
                            summary: Some(summary@),
                            active_page: WorkspacePage::Connect,
                            ..m0
                        },
                        MessageTone::Info,
                        "Wallet loaded."@,
                    ),
                ),
                Err(e) => failed(m0, e@),
            }
        },
        AppEvent::WalletCreated(result) => {
            let m0 = WalletModel { pending: m.pending.remove(TaskTag::CreateWallet), ..m };
            match result {
                Ok(created) => maybe_connect_node_spec(
                    with_banner(
                        WalletModel {
                            summary: Some(created.summary@),
                            secrets: Some(
                                ExportSecretsResponse {
                                    mnemonics: created.local_mnemonics,
                                    external_public_keys: created.local_extended_pub_keys,
                                    minimum_signatures: created.summary.minimum_signatures,
                                },
                            ),
                            bootstrap: BootstrapFormView {
                                keys_file: created.summary.keys_file@,
                                ..m0.bootstrap
                            },
                            active_page: WorkspacePage::Connect,
                            ..m0
                        },
                        MessageTone::Info,
                        if created.canonical_owner_warning@.len() == 0 {
                            "Wallet file created and fingerprint confirmed."@
                        } else {
                            created.canonical_owner_warning@
                        },
                    ),
                ),
                Err(e) => failed(m0, e@),
            }
        },
        AppEvent::SecretsExported(result) => {
            let m0 = WalletModel { pending: m.pending.remove(TaskTag::ExportSecrets), ..m };
            match result {
                Ok(secrets) => with_banner(
                    WalletModel { secrets: Some(secrets), active_page: WorkspacePage::Setup, ..m0 },
                    MessageTone::Info,
                    "Sensitive recovery material is visible below. Clear it when finished."@,
                ),
                Err(e) => failed(m0, e@),
            }
        },
        AppEvent::DaemonStatus(result) => {
            let m0 = WalletModel {
                pending: m.pending.remove(TaskTag::SessionConfig).remove(TaskTag::DaemonStatus),
                ..m
            };
            match result {
                Ok(status) => {
                    let was_ready = wallet_ready(m0);
                    let ready = status.state@ == "ready"@;
                    let m1 = WalletModel {
                        daemon_status: Some(status),
                        summary: match status.wallet {
                            Some(w) => Some(w@),
                            None => m0.summary,
                        },
                        ..m0
                    };
                    let m2 = if ready && !was_ready {
                        WalletModel {
                            active_page: if can_issue_receive(m1) {
                                WorkspacePage::Receive
                            } else {
                                WorkspacePage::Send
                            },
                            ..m1
                        }
                    } else {
                        m1
                    };
                    let m3 = with_banner(m2, MessageTone::Info, status.message@);
                    if ready && !m3.pending.contains(TaskTag::Balance) {
                        request_balance_spec(m3)
                    } else {
                        m3
                    }
                },
                Err(e) => failed(m0, e@),
            }
        },
        AppEvent::Balance(result) => {
            let m0 = WalletModel { pending: m.pending.remove(TaskTag::Balance), ..m };
            match result {
                Ok(balance) => status_followup(WalletModel { balance: Some(balance), ..m0 }),
                Err(e) => failed(m0, e@),
            }
        },
        AppEvent::Addresses(result) => {
            let m0 = WalletModel { pending: m.pending.remove(TaskTag::Addresses), ..m };
            match result {
                Ok(list) => status_followup(WalletModel { addresses: list.addresses@, ..m0 }),
                Err(e) => failed(m0, e@),
            }
        },
        AppEvent::NewAddress(result) => {
            let m0 = WalletModel { pending: m.pending.remove(TaskTag::NewAddress), ..m };
            match result {
                Ok(issued) => status_followup(
                    with_banner(
                        WalletModel {
                            last_new_address: Some(issued.address),
                            addresses: if has_address(m0.addresses, issued.address@) {
                                m0.addresses
                            } else {
                                m0.addresses.insert(0, issued.address)
                            },
                            active_page: WorkspacePage::Receive,
                            ..m0
                        },
                        MessageTone::Info,
                        "Generated the next receive address."@,
                    ),
                ),
                Err(e) => failed(m0, e@),
            }
        },
        AppEvent::FlowBundle(result) => {
            let m0 = WalletModel { pending: m.pending.remove(TaskTag::FlowBundle), ..m };
            match result {
                Ok(bundle) => status_followup(
                    with_banner(
                        WalletModel {
                            flow_hex: bundle.transactions_hex@,
                            flow_bundle: Some(bundle),
                            active_page: WorkspacePage::Send,
                            ..m0
                        },
                        MessageTone::Info,
                        "Spend bundle updated."@,
                    ),
                ),
                Err(e) => failed(m0, e@),
            }
        },
        AppEvent::InspectorBundle(result) => {
            let m0 = WalletModel { pending: m.pending.remove(TaskTag::Inspector), ..m };
            match result {
                Ok(bundle) => WalletModel {
                    inspector_bundle: Some(bundle),
                    active_page: WorkspacePage::Technical,
                    ..m0
                },
                Err(e) => failed(m0, e@),
            }
        },
        AppEvent::Broadcasted(result) => {
            let m0 = WalletModel { pending: m.pending.remove(TaskTag::Broadcast), ..m };
            match result {
                Ok(response) => status_followup(
                    with_banner(
                        WalletModel {
                            last_broadcast_tx_ids: response.tx_ids@,
                            active_page: WorkspacePage::Send,
                            ..m0
                        },
                        MessageTone::Info,
                        broadcast_message(response.tx_ids.len() as nat),
                    ),
                ),
                Err(e) => failed(m0, e@),
            }
        },
    }
}

/// The kind of task whose outcome an event brings.
pub open spec fn event_tag(event: AppEvent) -> TaskTag {
    match event {
        AppEvent::WalletSummary(_) => TaskTag::Summary,
        AppEvent::WalletCreated(_) => TaskTag::CreateWallet,
        AppEvent::SecretsExported(_) => TaskTag::ExportSecrets,
        AppEvent::DaemonStatus(_) => TaskTag::DaemonStatus,
        AppEvent::Balance(_) => TaskTag::Balance,
        AppEvent::Addresses(_) => TaskTag::Addresses,
        AppEvent::NewAddress(_) => TaskTag::NewAddress,
        AppEvent::FlowBundle(_) => TaskTag::FlowBundle,
        AppEvent::InspectorBundle(_) => TaskTag::Inspector,
        AppEvent::Broadcasted(_) => TaskTag::Broadcast,
    }
}

impl WalletApp {
    /// Applies a task's outcome: marks the task as finished, records what it
    /// brought, moves to the page where the user continues, says what
    /// happened in the banner, and starts the tasks that follow from it.
    pub fn handle_event(&mut self, event: AppEvent)
        ensures
            final(self)@ == handle_event_spec(old(self)@, event),
    {
        match event {
            AppEvent::WalletSummary(result) => self.on_wallet_summary(result),
            AppEvent::WalletCreated(result) => self.on_wallet_created(result),
            AppEvent::SecretsExported(result) => self.on_secrets_exported(result),
            AppEvent::DaemonStatus(result) => self.on_daemon_status(result),
            AppEvent::Balance(result) => self.on_balance(result),
            AppEvent::Addresses(result) => self.on_addresses(result),
            AppEvent::NewAddress(result) => self.on_new_address(result),
            AppEvent::FlowBundle(result) => self.on_flow_bundle(result),
            AppEvent::InspectorBundle(result) => self.on_inspector_bundle(result),
            AppEvent::Broadcasted(result) => self.on_broadcasted(result),
        }
    }

    fn status_followup(&mut self)
        ensures
            final(self)@ == status_followup(old(self)@),
    {
        if !self.pending.contains(TaskTag::DaemonStatus) {
            self.request_daemon_status();
        }
    }

    fn on_wallet_summary(&mut self, result: Result<WalletSummary, String>)
        ensures
            final(self)@ == handle_event_spec(old(self)@, AppEvent::WalletSummary(result)),
    {
        self.pending.remove(TaskTag::Summary);
        match result {
            Ok(summary) => {
                self.bootstrap.keys_file = summary.keys_file.clone();
                self.summary = Some(summary);
                self.active_page = WorkspacePage::Connect;
                self.set_banner(MessageTone::Info, "Wallet loaded.".to_owned());
                self.maybe_connect_node();
            },
            Err(err) => self.set_banner(MessageTone::Error, err),
        }
    }

    fn on_wallet_created(&mut self, result: Result<BootstrapCreateResponse, String>)
        ensures
            final(self)@ == handle_event_spec(old(self)@, AppEvent::WalletCreated(result)),
    {
        self.pending.remove(TaskTag::CreateWallet);
        match result {
            Ok(created) => {
                let BootstrapCreateResponse {
                    summary,
                    local_extended_pub_keys,
                    local_mnemonics,
                    canonical_owner_warning,
                } = created;
                let keys_file = summary.keys_file.clone();
                let minimum_signatures = summary.minimum_signatures;
                self.summary = Some(summary);
                self.secrets = Some(
                    ExportSecretsResponse {
                        mnemonics: local_mnemonics,
                        external_public_keys: local_extended_pub_keys,
                        minimum_signatures,
                    },
                );
                self.bootstrap.keys_file = keys_file;
                let message = if canonical_owner_warning.as_str().is_empty() {
                    "Wallet file created and fingerprint confirmed.".to_owned()
                } else {
                    canonical_owner_warning
                };
                self.active_page = WorkspacePage::Connect;
                self.set_banner(MessageTone::Info, message);
                self.maybe_connect_node();
            },
            Err(err) => self.set_banner(MessageTone::Error, err),
        }
    }

    fn on_secrets_exported(&mut self, result: Result<ExportSecretsResponse, String>)
        ensures
            final(self)@ == handle_event_spec(old(self)@, AppEvent::SecretsExported(result)),
    {
        self.pending.remove(TaskTag::ExportSecrets);
        match result {
            Ok(secrets) => {
                self.secrets = Some(secrets);
                self.active_page = WorkspacePage::Setup;
                self.set_banner(
                    MessageTone::Info,
                    "Sensitive recovery material is visible below. Clear it when finished.".to_owned(),
                );
            },
            Err(err) => self.set_banner(MessageTone::Error, err),
        }
    }

    fn on_daemon_status(&mut self, result: Result<DaemonStatus, String>)
        ensures
            final(self)@ == handle_event_spec(old(self)@, AppEvent::DaemonStatus(result)),
    {
        self.pending.remove(TaskTag::SessionConfig);
        self.pending.remove(TaskTag::DaemonStatus);
        match result {
            Ok(status) => {
                let ghost m0 = self@;
                let ghost st = status;
                let was_ready = self.wallet_ready();
                let ready = same_text(status.state.as_str(), "ready");
                let wallet_copy = match &status.wallet {
                    Some(w) => Some(w.duplicate()),
                    None => None,
                };
                let message = status.message.clone();
                self.daemon_status = Some(status);
                match wallet_copy {
                    Some(w) => {
                        self.summary = Some(w);
                    },
                    None => {},
                }
                let ghost m1 = WalletModel {
                    daemon_status: Some(st),
                    summary: match st.wallet {
                        Some(w) => Some(w@),
                        None => m0.summary,
                    },
                    ..m0
                };
                assert(self@ =~= m1);
                if ready && !was_ready {
                    self.active_page = if self.can_issue_receive() {
                        WorkspacePage::Receive
                    } else {
                        WorkspacePage::Send
                    };
                }
                self.set_banner(MessageTone::Info, message);
                let ghost m3 = self@;
                if ready && !self.pending.contains(TaskTag::Balance) {
                    self.request_balance();
                }
                assert(self@ == (if ready && !m3.pending.contains(TaskTag::Balance) {
                    request_balance_spec(m3)
                } else {
                    m3
                }));
            },
            Err(err) => self.set_banner(MessageTone::Error, err),
        }
    }

    fn on_balance(&mut self, result: Result<BalanceResponse, String>)
        ensures
            final(self)@ == handle_event_spec(old(self)@, AppEvent::Balance(result)),
    {
        self.pending.remove(TaskTag::Balance);
        match result {
            Ok(balance) => {
                self.balance = Some(balance);
                self.status_followup();
            },
            Err(err) => self.set_banner(MessageTone::Error, err),
        }
    }

    fn on_addresses(&mut self, result: Result<AddressesResponse, String>)
        ensures
            final(self)@ == handle_event_spec(old(self)@, AppEvent::Addresses(result)),
    {
        self.pending.remove(TaskTag::Addresses);
        match result {
            Ok(list) => {
                self.addresses = list.addresses;
                self.status_followup();
            },
            Err(err) => self.set_banner(MessageTone::Error, err),
        }
    }

    /// Whether the list of addresses holds this address.
    fn addresses_contain(&self, address: &String) -> (r: bool)
        ensures
            r == has_address(self.addresses@, address@),
    {
        let mut i: usize = 0;
        while i < self.addresses.len()
            invariant
                i <= self.addresses.len(),
                forall|j: int| 0 <= j < i ==> (#[trigger] self.addresses@[j])@ != address@,
            decreases self.addresses.len() - i,
        {
            if self.addresses[i] == *address {
                return true;
            }
            i = i + 1;
        }
        false
    }

    fn on_new_address(&mut self, result: Result<NewAddressResponse, String>)
        ensures
            final(self)@ == handle_event_spec(old(self)@, AppEvent::NewAddress(result)),
    {
        self.pending.remove(TaskTag::NewAddress);
        match result {
            Ok(issued) => {
                let ghost m0 = self@;
                let present = self.addresses_contain(&issued.address);
                self.last_new_address = Some(issued.address.clone());
                if !present {
                    self.addresses.insert(0, issued.address.clone());
                }
                self.active_page = WorkspacePage::Receive;
                self.set_banner(MessageTone::Info, "Generated the next receive address.".to_owned());
                let ghost m2 = with_banner(
                    WalletModel {
                        last_new_address: Some(issued.address),
                        addresses: if has_address(m0.addresses, issued.address@) {
                            m0.addresses
                        } else {
                            m0.addresses.insert(0, issued.address)
                        },
                        active_page: WorkspacePage::Receive,
                        ..m0
                    },
                    MessageTone::Info,
                    "Generated the next receive address."@,
                );
                assert(self@ =~= m2);
                self.status_followup();
            },
            Err(err) => self.set_banner(MessageTone::Error, err),
        }
    }

    fn on_flow_bundle(&mut self, result: Result<TransactionBundle, String>)
        ensures
            final(self)@ == handle_event_spec(old(self)@, AppEvent::FlowBundle(result)),
    {
        self.pending.remove(TaskTag::FlowBundle);
        match result {
            Ok(bundle) => {
                self.flow_hex = bundle.transactions_hex.clone();
                self.flow_bundle = Some(bundle);
                self.active_page = WorkspacePage::Send;
                self.set_banner(MessageTone::Info, "Spend bundle updated.".to_owned());
                self.status_followup();
            },
            Err(err) => self.set_banner(MessageTone::Error, err),
        }
    }

    fn on_inspector_bundle(&mut self, result: Result<TransactionBundle, String>)
        ensures
            final(self)@ == handle_event_spec(old(self)@, AppEvent::InspectorBundle(result)),
    {
        self.pending.remove(TaskTag::Inspector);
        match result {
            Ok(bundle) => {
                self.inspector_bundle = Some(bundle);
                self.active_page = WorkspacePage::Technical;
            },
            Err(err) => self.set_banner(MessageTone::Error, err),
        }
    }

    fn on_broadcasted(&mut self, result: Result<BroadcastResponse, String>)
        ensures
            final(self)@ == handle_event_spec(old(self)@, AppEvent::Broadcasted(result)),
    {
        self.pending.remove(TaskTag::Broadcast);
        match result {
            Ok(response) => {
                let count = response.tx_ids.len();
                let mut message = String::new();
                message.append("Broadcast ");
                let digits = decimal_text(count as u64);
                message.append(digits.as_str());
                message.append(" transaction(s).");
                self.last_broadcast_tx_ids = response.tx_ids;
                self.active_page = WorkspacePage::Send;
                self.set_banner(MessageTone::Info, message);
                self.status_followup();
            },
            Err(err) => self.set_banner(MessageTone::Error, err),
        }
    }
}


// ---------------------------------------------------------------------------
// Polling, and what the user does on the pages.

/// Whether a poll made at `last` is older than `period` at `now`; a poll
/// that never happened is always old enough.
pub open spec fn poll_due(last: Option<u64>, now: u64, period: u64) -> bool {
    match last {
        None => true,
        Some(t) => (if now >= t {
            now - t
        } else {
            0
        }) > period,
    }
}

/// The engine states in which its status is polled.
pub open spec fn engine_polled(state: Seq<char>) -> bool {
    state == "starting"@ || state == "syncing"@ || state == "running"@ || state == "ready"@
}

/// Nanoseconds between two polls of the engine's state.
pub open spec fn status_poll_period() -> u64 {
    3_000_000_000
}

/// Nanoseconds between two polls of the balance.
pub open spec fn balance_poll_period() -> u64 {
    6_000_000_000
}

/// The contents after polling at `now`: the engine's state is read again
/// while it is active, and the balance while it is ready, each no more
/// often than its period and never while the same read is running.
pub open spec fn auto_poll_spec(m: WalletModel, now: u64) -> WalletModel {
    let active = match m.daemon_status {
        Some(status) => engine_polled(status.state@),
        None => false,
    };
    let m1 = if active && !m.pending.contains(TaskTag::DaemonStatus) && poll_due(
        m.last_status_poll,
        now,
        status_poll_period(),
    ) {
        request_daemon_status_spec(WalletModel { last_status_poll: Some(now), ..m })
    } else {
        m
    };
    let ready = match m1.daemon_status {
        Some(status) => status.state@ == "ready"@,
        None => false,
    };
    if ready && !m1.pending.contains(TaskTag::Balance) && poll_due(
        m1.last_balance_poll,
        now,
        balance_poll_period(),
    ) {
        request_balance_spec(WalletModel { last_balance_poll: Some(now), ..m1 })
    } else {
        m1
    }
}

fn poll_due_at(last: Option<u64>, now: u64, period: u64) -> (r: bool)
    ensures
        r == poll_due(last, now, period),
{
    match last {
        None => true,
        Some(t) => now.saturating_sub(t) > period,
    }
}

impl WalletApp {
    /// Polls the engine's state and the balance as time passes; `now` is in
    /// nanoseconds on a monotonic clock.
    pub fn auto_poll(&mut self, now: u64)
        ensures
            final(self)@ == auto_poll_spec(old(self)@, now),
    {
        let active = match &self.daemon_status {
            Some(status) => {
                let state = status.state.as_str();
                same_text(state, "starting") || same_text(state, "syncing") || same_text(
                    state,
                    "running",
                ) || same_text(state, "ready")
            },
            None => false,
        };
        if active && !self.pending.contains(TaskTag::DaemonStatus) && poll_due_at(
            self.last_status_poll,
            now,
            3_000_000_000,
        ) {
            self.last_status_poll = Some(now);
            self.request_daemon_status();
        }
        let ready = match &self.daemon_status {
            Some(status) => same_text(status.state.as_str(), "ready"),
            None => false,
        };
        if ready && !self.pending.contains(TaskTag::Balance) && poll_due_at(
            self.last_balance_poll,
            now,
            6_000_000_000,
        ) {
            self.last_balance_poll = Some(now);
            self.request_balance();
        }
    }

    /// Whether the recovery material may be requested: a wallet is loaded
    /// and a password is typed.
    pub fn can_export_secrets(&self) -> (r: bool)
        ensures
            r == (wallet_loaded(self@) && !is_blank(self@.bootstrap.password)),
    {
        self.wallet_loaded() && !is_blank_text(&self.bootstrap.password)
    }

    /// Whether the current bundle may be signed: there is bundle text and a
    /// password is typed.
    pub fn can_sign_flow(&self) -> (r: bool)
        ensures
            r == (!is_blank(self@.flow_hex) && !is_blank(self@.bootstrap.password)),
    {
        !is_blank_text(&self.flow_hex) && !is_blank_text(&self.bootstrap.password)
    }

    /// Whether the current bundle may be reviewed: there is bundle text.
    pub fn can_review_flow(&self) -> (r: bool)
        ensures
            r == !is_blank(self@.flow_hex),
    {
        !is_blank_text(&self.flow_hex)
    }

    /// Whether the current bundle may be broadcast: it is fully signed.
    pub fn can_broadcast_flow(&self) -> (r: bool)
        ensures
            r == flow_fully_signed(self@),
    {
        match &self.flow_bundle {
            Some(bundle) => bundle.fully_signed,
            None => false,
        }
    }

    /// The pages listed in the sidebar, in order: the four main pages, and
    /// the technical page where it may be opened or is open.
    pub fn sidebar_pages(&self) -> (r: Vec<WorkspacePage>)
        ensures
            r@ == (if page_unlocked(self@, WorkspacePage::Technical) || self.active_page
                == WorkspacePage::Technical {
                seq![
                    WorkspacePage::Setup,
                    WorkspacePage::Connect,
                    WorkspacePage::Receive,
                    WorkspacePage::Send,
                    WorkspacePage::Technical,
                ]
            } else {
                seq![
                    WorkspacePage::Setup,
                    WorkspacePage::Connect,
                    WorkspacePage::Receive,
                    WorkspacePage::Send,
                ]
            }),
    {
        let mut pages: Vec<WorkspacePage> = Vec::new();
        pages.push(WorkspacePage::Setup);
        pages.push(WorkspacePage::Connect);
        pages.push(WorkspacePage::Receive);
        pages.push(WorkspacePage::Send);
        if self.page_unlocked(WorkspacePage::Technical) || self.active_page
            == WorkspacePage::Technical {
            pages.push(WorkspacePage::Technical);
        }
        assert(pages@ =~= (if page_unlocked(self@, WorkspacePage::Technical) || self.active_page
            == WorkspacePage::Technical {
            seq![
                WorkspacePage::Setup,
                WorkspacePage::Connect,
                WorkspacePage::Receive,
                WorkspacePage::Send,
                WorkspacePage::Technical,
            ]
        } else {
            seq![
                WorkspacePage::Setup,
                WorkspacePage::Connect,
                WorkspacePage::Receive,
                WorkspacePage::Send,
            ]
        }));
        pages
    }

    /// Opens a page, where it may be opened.
    pub fn select_page(&mut self, page: WorkspacePage)
        ensures
            final(self)@ == (if page_unlocked(old(self)@, page) {
                WalletModel { active_page: page, ..old(self)@ }
            } else {
                old(self)@
            }),
    {
        if self.page_unlocked(page) {
            self.active_page = page;
        }
    }

    /// Drops the current bundle, so that a new payment can be prepared.
    pub fn clear_flow(&mut self)
        ensures
            final(self)@ == (WalletModel {
                flow_hex: Seq::empty(),
                flow_bundle: None,
                last_broadcast_tx_ids: Seq::empty(),
                ..old(self)@
            }),
    {
        self.flow_hex = String::new();
        self.flow_bundle = None;
        self.last_broadcast_tx_ids.clear();
    }

    /// Copies the current bundle's text into the inspector.
    pub fn use_flow_in_inspector(&mut self)
        ensures
            final(self)@ == (WalletModel { inspector_hex: old(self)@.flow_hex, ..old(self)@ }),
    {
        self.inspector.transactions_hex = self.flow_hex.clone();
    }

    /// Hides the recovery material.
    pub fn clear_secrets(&mut self)
        ensures
            final(self)@ == (WalletModel { secrets: None, ..old(self)@ }),
    {
        self.secrets = None;
    }

    /// Puts the chosen network's default wallet file and node in the forms.
    pub fn use_network_defaults(&mut self)
        ensures
            final(self)@ == (WalletModel {
                bootstrap: BootstrapFormView {
                    keys_file: old(self).bootstrap.network.keys_file_default(),
                    ..old(self)@.bootstrap
                },
                rpc_server: old(self).bootstrap.network.rpc_default(),
                ..old(self)@
            }),
    {
        self.bootstrap.sync_defaults();
        self.node_form.sync_defaults(self.bootstrap.network);
    }

    /// Settles the network choice of one frame, given the network chosen
    /// before the frame and whether the defaults were asked for: the chosen
    /// network's default wallet file and node go in the forms where the
    /// network changed or the defaults were asked for, and nowhere else.
    pub fn settle_network_choice(&mut self, previous: NetworkChoice, use_defaults: bool)
        ensures
            final(self)@ == settle_network_choice_spec(old(self)@, previous, use_defaults),
    {
        if self.bootstrap.network != previous || use_defaults {
            self.use_network_defaults();
        }
    }
}

} // verus!
