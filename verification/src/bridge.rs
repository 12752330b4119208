//! Talking to the local wallet bridge: which endpoint each request goes to,
//! what a reply means, and how the bridge announces that it is ready.
//! The HTTP exchange and the JSON encoding happen outside this library; it
//! decides where a request goes and what its outcome is.

use vstd::prelude::*;
use crate::messages::{
    BootstrapCreateRequest, BroadcastRequest, CreateUnsignedRequest, DaemonStartRequest,
    EmptyBody, ExportSecretsRequest, ParseRequest, SignRequest, WalletSummaryRequest,
};
use crate::text::{decimal, decimal_text, is_blank, is_blank_text, strip_prefix_text, trim, trimmed};

verus! {

/// The line prefix with which the bridge reports the address it listens on.
pub open spec fn ready_prefix() -> Seq<char> {
    "READY "@
}

/// A handle on the bridge: the base URL that request paths are appended to.
#[derive(Clone, Debug)]
pub struct BackendClient {
    base_url: String,
}

impl View for BackendClient {
    type V = Seq<char>;

    closed spec fn view(&self) -> Seq<char> {
        self.base_url@
    }
}

/// A POST to the bridge, ready to be sent: the full URL, the endpoint's
/// path and the body to encode as JSON.
#[derive(Debug)]
pub struct BridgeCall<B> {
    pub url: String,
    pub path: &'static str,
    pub body: B,
}

impl BackendClient {
    /// A handle on the bridge listening at `base_url`.
    pub fn new(base_url: String) -> (r: BackendClient)
        ensures
            r@ == base_url@,
    {
        BackendClient { base_url }
    }

    /// The bridge's base URL.
    pub fn base_url(&self) -> (r: &str)
        ensures
            r@ == self@,
    {
        self.base_url.as_str()
    }

    fn post<B>(&self, path: &'static str, body: B) -> (r: BridgeCall<B>)
        ensures
            r.url@ == self@ + path@,
            r.path == path,
            r.body == body,
    {
        let mut url = self.base_url.clone();
        url.append(path);
        BridgeCall { url, path, body }
    }

    /// Reads the summary of a wallet file.
    pub fn wallet_summary<'a>(&self, request: &'a WalletSummaryRequest) -> (r: BridgeCall<
        &'a WalletSummaryRequest,
    >)
        ensures
            r.path@ == "/api/wallet/summary"@,
            r.url@ == self@ + r.path@,
            r.body == request,
    {
        self.post("/api/wallet/summary", request)
    }

    /// Creates or recovers this cosigner's wallet file.
    pub fn create_wallet<'a>(&self, request: &'a BootstrapCreateRequest) -> (r: BridgeCall<
        &'a BootstrapCreateRequest,
    >)
        ensures
            r.path@ == "/api/bootstrap/create"@,
            r.url@ == self@ + r.path@,
            r.body == request,
    {
        self.post("/api/bootstrap/create", request)
    }

    /// Reads the recovery material of a wallet file.
    pub fn export_secrets<'a>(&self, request: &'a ExportSecretsRequest) -> (r: BridgeCall<
        &'a ExportSecretsRequest,
    >)
        ensures
            r.path@ == "/api/bootstrap/export-secrets"@,
            r.url@ == self@ + r.path@,
            r.body == request,
    {
        self.post("/api/bootstrap/export-secrets", request)
    }

    /// Starts the wallet daemon.
    pub fn start_daemon<'a>(&self, request: &'a DaemonStartRequest) -> (r: BridgeCall<
        &'a DaemonStartRequest,
    >)
        ensures
            r.path@ == "/api/daemon/start"@,
            r.url@ == self@ + r.path@,
            r.body == request,
    {
        self.post("/api/daemon/start", request)
    }

    /// Stops the wallet daemon.
    pub fn stop_daemon(&self) -> (r: BridgeCall<EmptyBody>)
        ensures
            r.path@ == "/api/daemon/stop"@,
            r.url@ == self@ + r.path@,
    {
        self.post("/api/daemon/stop", EmptyBody {  })
    }

    /// Reads the state of the wallet daemon.
    pub fn daemon_status(&self) -> (r: BridgeCall<EmptyBody>)
        ensures
            r.path@ == "/api/daemon/status"@,
            r.url@ == self@ + r.path@,
    {
        self.post("/api/daemon/status", EmptyBody {  })
    }

    /// Reads the wallet's balance.
    pub fn balance(&self) -> (r: BridgeCall<EmptyBody>)
        ensures
            r.path@ == "/api/balance"@,
            r.url@ == self@ + r.path@,
    {
        self.post("/api/balance", EmptyBody {  })
    }

    /// Lists the addresses the wallet has issued.
    pub fn list_addresses(&self) -> (r: BridgeCall<EmptyBody>)
        ensures
            r.path@ == "/api/addresses/list"@,
            r.url@ == self@ + r.path@,
    {
        self.post("/api/addresses/list", EmptyBody {  })
    }

    /// Issues the next receive address.
    pub fn new_address(&self) -> (r: BridgeCall<EmptyBody>)
        ensures
            r.path@ == "/api/addresses/new"@,
            r.url@ == self@ + r.path@,
    {
        self.post("/api/addresses/new", EmptyBody {  })
    }

    /// Creates an unsigned transaction bundle.
    pub fn create_unsigned<'a>(&self, request: &'a CreateUnsignedRequest) -> (r: BridgeCall<
        &'a CreateUnsignedRequest,
    >)
        ensures
            r.path@ == "/api/transactions/create-unsigned"@,
            r.url@ == self@ + r.path@,
            r.body == request,
    {
        self.post("/api/transactions/create-unsigned", request)
    }

    /// Signs a bundle with this cosigner's keys.
    pub fn sign<'a>(&self, request: &'a SignRequest) -> (r: BridgeCall<&'a SignRequest>)
        ensures
            r.path@ == "/api/transactions/sign"@,
            r.url@ == self@ + r.path@,
            r.body == request,
    {
        self.post("/api/transactions/sign", request)
    }

    /// Broadcasts a fully signed bundle.
    pub fn broadcast<'a>(&self, request: &'a BroadcastRequest) -> (r: BridgeCall<
        &'a BroadcastRequest,
    >)
        ensures
            r.path@ == "/api/transactions/broadcast"@,
            r.url@ == self@ + r.path@,
            r.body == request,
    {
        self.post("/api/transactions/broadcast", request)
    }

    /// Describes a bundle without changing it.
    pub fn parse<'a>(&self, request: &'a ParseRequest) -> (r: BridgeCall<&'a ParseRequest>)
        ensures
            r.path@ == "/api/transactions/parse"@,
            r.url@ == self@ + r.path@,
            r.body == request,
    {
        self.post("/api/transactions/parse", request)
    }
}

/// What came back from a POST to the bridge.
#[derive(Clone, Debug)]
pub enum BridgeReply {
    /// A success status, with the body that was read.
    Body(String),
    /// A success status whose body could not be read, with the reader's error.
    Unreadable(String),
    /// An error status, with the body as read (empty where it could not be
    /// read) and the `error` field of that body where the body is the JSON
    /// error object of the bridge.
    Status { status: u16, body: String, api_error: Option<String> },
    /// No reply, with the transport's error.
    Transport(String),
}

/// A reply's outcome: the body to decode, or the error to show.
pub open spec fn reply_outcome_spec(reply: BridgeReply) -> Result<Seq<char>, Seq<char>> {
    match reply {
        BridgeReply::Body(body) => Ok(body@),
        BridgeReply::Unreadable(err) => Err("failed reading bridge response: "@ + err@),
        BridgeReply::Status { status, body, api_error } => match api_error {
            Some(message) => Err(message@),
            None => if is_blank(body@) {
                Err("bridge request failed with HTTP "@ + decimal(status as nat))
            } else {
                Err("bridge request failed with HTTP "@ + decimal(status as nat) + ": "@ + body@)
            },
        },
        BridgeReply::Transport(err) => Err("bridge transport error: "@ + err@),
    }
}

/// The characters of a textual outcome.
pub open spec fn outcome_view(r: Result<String, String>) -> Result<Seq<char>, Seq<char>> {
    match r {
        Ok(s) => Ok(s@),
        Err(e) => Err(e@),
    }
}

/// What a reply from the bridge means: the body to decode, or the error to
/// show. The bridge's own error message wins; an error status without one
/// is reported with its number, and with the body where it holds anything
/// but whitespace.
pub fn reply_outcome(reply: BridgeReply) -> (r: Result<String, String>)
    ensures
        outcome_view(r) == reply_outcome_spec(reply),
{
    match reply {
        BridgeReply::Body(body) => Ok(body),
        BridgeReply::Unreadable(err) => {
            let mut out = String::new();
            out.append("failed reading bridge response: ");
            out.append(err.as_str());
            Err(out)
        },
        BridgeReply::Status { status, body, api_error } => match api_error {
            Some(message) => Err(message),
            None => {
                let mut out = String::new();
                out.append("bridge request failed with HTTP ");
                let code = decimal_text(status as u64);
                out.append(code.as_str());
                if !is_blank_text(body.as_str()) {
                    out.append(": ");
                    out.append(body.as_str());
                }
                Err(out)
            },
        },
        BridgeReply::Transport(err) => {
            let mut out = String::new();
            out.append("bridge transport error: ");
            out.append(err.as_str());
            Err(out)
        },
    }
}

/// The error shown when a reply's body does not decode.
pub fn decode_failure_message(path: &str, err: &str) -> (r: String)
    ensures
        r@ == "failed decoding bridge response from "@ + path@ + ": "@ + err@,
{
    let mut out = String::new();
    out.append("failed decoding bridge response from ");
    out.append(path);
    out.append(": ");
    out.append(err);
    out
}

/// What the bridge's standard output can bring while its readiness is awaited.
pub enum StdoutEvent {
    Line(Seq<char>),
    ReadError(Seq<char>),
    End,
}

/// The readiness report that an output event brings, given whether one was
/// already made: the first `READY ` line gives the trimmed address after the
/// prefix; a read error or the end of the output before that gives an error.
pub open spec fn readiness_report(reported: bool, event: StdoutEvent) -> Option<
    Result<Seq<char>, Seq<char>>,
> {
    if reported {
        None
    } else {
        match event {
            StdoutEvent::Line(line) => if ready_prefix().len() <= line.len() && line.subrange(
                0,
                ready_prefix().len() as int,
            ) == ready_prefix() {
                Some(Ok(trim(line.subrange(ready_prefix().len() as int, line.len() as int))))
            } else {
                None
            },
            StdoutEvent::ReadError(err) => Some(Err("failed reading backend stdout: "@ + err)),
            StdoutEvent::End => Some(Err("backend exited before it reported readiness"@)),
        }
    }
}

/// The characters of an optional readiness report.
pub open spec fn report_view(r: Option<Result<String, String>>) -> Option<
    Result<Seq<char>, Seq<char>>,
> {
    match r {
        Some(outcome) => Some(outcome_view(outcome)),
        None => None,
    }
}

/// Watches the bridge's standard output for the line that reports where it
/// listens, and reports the outcome once.
#[derive(Debug)]
pub struct ReadinessWatch {
    reported: bool,
}

impl View for ReadinessWatch {
    type V = bool;

    /// Whether the outcome was reported.
    closed spec fn view(&self) -> bool {
        self.reported
    }
}

impl ReadinessWatch {
    /// A watch that has reported nothing.
    pub fn new() -> (r: ReadinessWatch)
        ensures
            !r@,
    {
        ReadinessWatch { reported: false }
    }

    /// Whether the outcome was reported.
    pub fn has_reported(&self) -> (r: bool)
        ensures
            r == self@,
    {
        self.reported
    }

    /// A line of output.
    pub fn on_line(&mut self, line: &str) -> (r: Option<Result<String, String>>)
        ensures
            report_view(r) == readiness_report(old(self)@, StdoutEvent::Line(line@)),
            final(self)@ == (old(self)@ || r is Some),
    {
        if self.reported {
            return None;
        }
        let prefix = "READY ";
        proof {
            reveal_strlit("READY ");
        }
        match strip_prefix_text(line, prefix) {
            Some(rest) => {
                self.reported = true;
                proof {
                    assert(line@.subrange(0, 6) =~= prefix@);
                    assert(line@.subrange(6, line@.len() as int) =~= rest@);
                }
                Some(Ok(trimmed(rest.as_str())))
            },
            None => None,
        }
    }

    /// A failure to read the output, with the reader's error.
    pub fn on_read_error(&mut self, err: &str) -> (r: Option<Result<String, String>>)
        ensures
            report_view(r) == readiness_report(old(self)@, StdoutEvent::ReadError(err@)),
            final(self)@ == (old(self)@ || r is Some),
    {
        if self.reported {
            return None;
        }
        self.reported = true;
        let mut out = String::new();
        out.append("failed reading backend stdout: ");
        out.append(err);
        Some(Err(out))
    }

    /// The end of the output.
    pub fn on_end(&mut self) -> (r: Option<Result<String, String>>)
        ensures
            report_view(r) == readiness_report(old(self)@, StdoutEvent::End),
            final(self)@ == (old(self)@ || r is Some),
    {
        if self.reported {
            return None;
        }
        self.reported = true;
        Some(Err("backend exited before it reported readiness".to_owned()))
    }
}

/// The number of readiness reports that a sequence of output events brings.
pub open spec fn reports_made(reported: bool, events: Seq<StdoutEvent>) -> nat
    decreases events.len(),
{
    if events.len() == 0 {
        0
    } else {
        let first = readiness_report(reported, events[0]);
        let now = reported || first is Some;
        (if first is Some {
            1nat
        } else {
            0nat
        }) + reports_made(now, events.drop_first())
    }
}

/// Whatever the bridge writes, its readiness is reported at most once, and
/// never again once it was.
pub proof fn lemma_readiness_reported_once(reported: bool, events: Seq<StdoutEvent>)
    ensures
        reports_made(reported, events) <= 1,
        reported ==> reports_made(reported, events) == 0,
    decreases events.len(),
{
    if events.len() > 0 {
        let first = readiness_report(reported, events[0]);
        lemma_readiness_reported_once(reported || first is Some, events.drop_first());
    }
}

} // verus!
