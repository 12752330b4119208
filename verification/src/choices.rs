//! The closed sets of choices the workspace offers: networks, fee modes,
//! setup modes, pages, message tones and the accents that mark states.

use vstd::prelude::*;

verus! {

/// The Kaspa network a wallet file belongs to.
#[derive(Clone, Copy, PartialEq, Eq, Debug, Structural)]
pub enum NetworkChoice {
    Mainnet,
    Testnet,
    Devnet,
    Simnet,
}

impl NetworkChoice {
    /// The network's name as the wallet bridge expects it.
    pub open spec fn name(self) -> Seq<char> {
        match self {
            NetworkChoice::Mainnet => "mainnet"@,
            NetworkChoice::Testnet => "testnet"@,
            NetworkChoice::Devnet => "devnet"@,
            NetworkChoice::Simnet => "simnet"@,
        }
    }

    /// The network's name for display.
    pub open spec fn title(self) -> Seq<char> {
        match self {
            NetworkChoice::Mainnet => "Mainnet"@,
            NetworkChoice::Testnet => "Testnet"@,
            NetworkChoice::Devnet => "Devnet"@,
            NetworkChoice::Simnet => "Simnet"@,
        }
    }

    /// The node RPC endpoint offered by default on this network.
    pub open spec fn rpc_default(self) -> Seq<char> {
        match self {
            NetworkChoice::Mainnet => "stage-roman.igralabs.com:16210"@,
            _ => "localhost"@,
        }
    }

    /// The wallet file offered by default on this network.
    pub open spec fn keys_file_default(self) -> Seq<char> {
        "~/.kaspawallet/"@ + self.name() + "/igra_msig_keys.json"@
    }

    /// The network's name as the wallet bridge expects it.
    pub fn as_str(self) -> (r: &'static str)
        ensures
            r@ == self.name(),
    {
        match self {
            NetworkChoice::Mainnet => "mainnet",
            NetworkChoice::Testnet => "testnet",
            NetworkChoice::Devnet => "devnet",
            NetworkChoice::Simnet => "simnet",
        }
    }

    /// The network's name for display.
    pub fn display_name(self) -> (r: &'static str)
        ensures
            r@ == self.title(),
    {
        match self {
            NetworkChoice::Mainnet => "Mainnet",
            NetworkChoice::Testnet => "Testnet",
            NetworkChoice::Devnet => "Devnet",
            NetworkChoice::Simnet => "Simnet",
        }
    }

    /// The node RPC endpoint offered by default on this network.
    pub fn default_rpc_server(self) -> (r: &'static str)
        ensures
            r@ == self.rpc_default(),
    {
        match self {
            NetworkChoice::Mainnet => "stage-roman.igralabs.com:16210",
            NetworkChoice::Testnet | NetworkChoice::Devnet | NetworkChoice::Simnet => "localhost",
        }
    }

    /// The wallet file offered by default on this network.
    pub fn default_keys_file(self) -> (r: String)
        ensures
            r@ == self.keys_file_default(),
    {
        let mut out = String::new();
        out.append("~/.kaspawallet/");
        out.append(self.as_str());
        out.append("/igra_msig_keys.json");
        out
    }
}

/// How the fee of a new payment is chosen.
#[derive(Clone, Copy, PartialEq, Eq, Debug, Structural)]
pub enum FeeMode {
    Estimate,
    ExactFeeRate,
    MaxFeeRate,
    MaxFee,
}

impl FeeMode {
    /// The mode's label.
    pub open spec fn title(self) -> Seq<char> {
        match self {
            FeeMode::Estimate => "Node estimate"@,
            FeeMode::ExactFeeRate => "Exact fee rate"@,
            FeeMode::MaxFeeRate => "Cap fee rate"@,
            FeeMode::MaxFee => "Cap total fee"@,
        }
    }

    /// The mode's label.
    pub fn label(self) -> (r: &'static str)
        ensures
            r@ == self.title(),
    {
        match self {
            FeeMode::Estimate => "Node estimate",
            FeeMode::ExactFeeRate => "Exact fee rate",
            FeeMode::MaxFeeRate => "Cap fee rate",
            FeeMode::MaxFee => "Cap total fee",
        }
    }
}

/// The tone of a banner message.
#[derive(Clone, Copy, PartialEq, Eq, Debug, Structural)]
pub enum MessageTone {
    Info,
    Error,
}

/// How a wallet file is brought into the workspace.
#[derive(Clone, Copy, PartialEq, Eq, Debug, Structural)]
pub enum SetupMode {
    OpenExisting,
    CreateNew,
    RecoverExisting,
}

impl SetupMode {
    /// The mode's label.
    pub open spec fn title(self) -> Seq<char> {
        match self {
            SetupMode::OpenExisting => "Open wallet"@,
            SetupMode::CreateNew => "Create wallet"@,
            SetupMode::RecoverExisting => "Recover wallet"@,
        }
    }

    /// The sentence that explains the mode.
    pub open spec fn explanation(self) -> Seq<char> {
        match self {
            SetupMode::OpenExisting => "Load an existing multisig wallet file and inspect its role."@,
            SetupMode::CreateNew => "Create a new multisig cosigner file and collect remote public keys."@,
            SetupMode::RecoverExisting => "Recover this cosigner from mnemonic phrases and rebuild the wallet file."@,
        }
    }

    /// The mode's label.
    pub fn label(self) -> (r: &'static str)
        ensures
            r@ == self.title(),
    {
        match self {
            SetupMode::OpenExisting => "Open wallet",
            SetupMode::CreateNew => "Create wallet",
            SetupMode::RecoverExisting => "Recover wallet",
        }
    }

    /// The sentence that explains the mode.
    pub fn helper(self) -> (r: &'static str)
        ensures
            r@ == self.explanation(),
    {
        match self {
            SetupMode::OpenExisting => "Load an existing multisig wallet file and inspect its role.",
            SetupMode::CreateNew => "Create a new multisig cosigner file and collect remote public keys.",
            SetupMode::RecoverExisting => "Recover this cosigner from mnemonic phrases and rebuild the wallet file.",
        }
    }
}

/// A page of the workspace.
#[derive(Clone, Copy, PartialEq, Eq, Debug, Structural)]
pub enum WorkspacePage {
    Setup,
    Connect,
    Receive,
    Send,
    Technical,
}

impl WorkspacePage {
    /// The page's label.
    pub open spec fn title(self) -> Seq<char> {
        match self {
            WorkspacePage::Setup => "Get Started"@,
            WorkspacePage::Connect => "Connect"@,
            WorkspacePage::Receive => "Receive"@,
            WorkspacePage::Send => "Send"@,
            WorkspacePage::Technical => "Technical"@,
        }
    }

    /// The page's label.
    pub fn label(self) -> (r: &'static str)
        ensures
            r@ == self.title(),
    {
        match self {
            WorkspacePage::Setup => "Get Started",
            WorkspacePage::Connect => "Connect",
            WorkspacePage::Receive => "Receive",
            WorkspacePage::Send => "Send",
            WorkspacePage::Technical => "Technical",
        }
    }
}

/// The accent colour that marks a state in the workspace.
#[derive(Clone, Copy, PartialEq, Eq, Debug, Structural)]
pub enum Accent {
    Copper,
    Teal,
    Olive,
    WarmRed,
    Soft,
}

/// Different networks have different names, so their default wallet files
/// differ too.
pub proof fn lemma_network_names_distinct(a: NetworkChoice, b: NetworkChoice)
    requires
        a != b,
    ensures
        a.name() != b.name(),
        a.keys_file_default() != b.keys_file_default(),
{
    reveal_strlit("mainnet");
    reveal_strlit("testnet");
    reveal_strlit("devnet");
    reveal_strlit("simnet");
    reveal_strlit("~/.kaspawallet/");
    reveal_strlit("/igra_msig_keys.json");
    let p = "~/.kaspawallet/"@;
    let q = "/igra_msig_keys.json"@;
    assert(a.name()[1] != b.name()[1] || a.name().len() != b.name().len());
    if a.name().len() == b.name().len() {
        assert(a.keys_file_default()[p.len() as int + 1] == a.name()[1]);
        assert(b.keys_file_default()[p.len() as int + 1] == b.name()[1]);
    } else {
        assert(a.keys_file_default().len() == p.len() + a.name().len() + q.len());
    }
}

} // verus!
