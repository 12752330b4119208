//! What the workspace shows about engine states, bundles and keys: accents,
//! stages, counts and the sentences that describe a bundle.

use vstd::prelude::*;
use crate::choices::Accent;
use crate::messages::{
    ExportSecretsResponse, InputSignatureProgress, ParsedTransaction, TransactionBundle,
    WalletSummary,
};
use crate::text::{decimal, decimal_text, same_text};

verus! {

/// The accent that marks an engine state; no state counts as stopped.
pub open spec fn state_accent_spec(state: Option<Seq<char>>) -> Accent {
    let s = match state {
        Some(s) => s,
        None => "stopped"@,
    };
    if s == "ready"@ {
        Accent::Olive
    } else if s == "configured"@ {
        Accent::Teal
    } else if s == "syncing"@ || s == "running"@ || s == "starting"@ {
        Accent::Copper
    } else {
        Accent::WarmRed
    }
}

/// The accent that marks an engine state.
pub fn state_color(state: Option<&str>) -> (r: Accent)
    ensures
        r == state_accent_spec(
            match state {
                Some(s) => Some(s@),
                None => None,
            },
        ),
{
    let s = match state {
        Some(s) => s,
        None => "stopped",
    };
    if same_text(s, "ready") {
        Accent::Olive
    } else if same_text(s, "configured") {
        Accent::Teal
    } else if same_text(s, "syncing") || same_text(s, "running") || same_text(s, "starting") {
        Accent::Copper
    } else {
        Accent::WarmRed
    }
}

/// Whether some input of some transaction of the bundle carries a signature.
pub open spec fn has_any_signature(bundle: TransactionBundle) -> bool {
    exists|i: int, j: int|
        0 <= i < bundle.transactions@.len() && 0 <= j < bundle.transactions@[i].signatures@.len()
            && (#[trigger] bundle.transactions@[i].signatures@[j]).signed_by > 0
}

/// The stage of the payment flow and its accent.
pub open spec fn flow_stage_spec(bundle: Option<TransactionBundle>) -> (Seq<char>, Accent) {
    match bundle {
        None => ("awaiting bundle"@, Accent::Soft),
        Some(b) => if b.fully_signed {
            ("ready to broadcast"@, Accent::Olive)
        } else if has_any_signature(b) {
            ("partially signed"@, Accent::Copper)
        } else {
            ("unsigned draft"@, Accent::Teal)
        },
    }
}

fn any_signature(bundle: &TransactionBundle) -> (r: bool)
    ensures
        r == has_any_signature(*bundle),
{
    let mut i: usize = 0;
    while i < bundle.transactions.len()
        invariant
            i <= bundle.transactions@.len(),
            forall|a: int, b: int|
                0 <= a < i && 0 <= b < bundle.transactions@[a].signatures@.len() ==> !((
                #[trigger] bundle.transactions@[a].signatures@[b]).signed_by > 0),
        decreases bundle.transactions.len() - i,
    {
        let tx = &bundle.transactions[i];
        let mut j: usize = 0;
        while j < tx.signatures.len()
            invariant
                i < bundle.transactions@.len(),
                *tx == bundle.transactions@[i as int],
                j <= tx.signatures@.len(),
                forall|b: int| 0 <= b < j ==> !((#[trigger] tx.signatures@[b]).signed_by > 0),
            decreases tx.signatures.len() - j,
        {
            if tx.signatures[j].signed_by > 0 {
                return true;
            }
            j = j + 1;
        }
        i = i + 1;
    }
    false
}

/// The stage of the payment flow and its accent.
pub fn flow_stage(bundle: Option<&TransactionBundle>) -> (r: (&'static str, Accent))
    ensures
        r.0@ == flow_stage_spec(
            match bundle {
                Some(b) => Some(*b),
                None => None,
            },
        ).0,
        r.1 == flow_stage_spec(
            match bundle {
                Some(b) => Some(*b),
                None => None,
            },
        ).1,
{
    match bundle {
        None => ("awaiting bundle", Accent::Soft),
        Some(b) => if b.fully_signed {
            ("ready to broadcast", Accent::Olive)
        } else if any_signature(b) {
            ("partially signed", Accent::Copper)
        } else {
            ("unsigned draft", Accent::Teal)
        },
    }
}

/// Whether `r` is the largest number of signatures that some input of the
/// bundle still misses, or zero where the bundle has no inputs.
pub open spec fn is_most_missing(bundle: TransactionBundle, r: u32) -> bool {
    &&& forall|i: int, j: int|
        0 <= i < bundle.transactions@.len() && 0 <= j < bundle.transactions@[i].signatures@.len()
            ==> (#[trigger] bundle.transactions@[i].signatures@[j]).missing_signatures <= r
    &&& (r == 0 || exists|i: int, j: int|
        0 <= i < bundle.transactions@.len() && 0 <= j < bundle.transactions@[i].signatures@.len()
            && (#[trigger] bundle.transactions@[i].signatures@[j]).missing_signatures == r)
}

/// The largest number of signatures that some input of the bundle still
/// misses, and zero where it has no inputs.
pub fn missing_signatures(bundle: &TransactionBundle) -> (r: u32)
    ensures
        is_most_missing(*bundle, r),
{
    let mut most: u32 = 0;
    let mut i: usize = 0;
    while i < bundle.transactions.len()
        invariant
            i <= bundle.transactions@.len(),
            forall|a: int, b: int|
                0 <= a < i && 0 <= b < bundle.transactions@[a].signatures@.len() ==> (
                #[trigger] bundle.transactions@[a].signatures@[b]).missing_signatures <= most,
            most == 0 || exists|a: int, b: int|
                0 <= a < i && 0 <= b < bundle.transactions@[a].signatures@.len() && (
                #[trigger] bundle.transactions@[a].signatures@[b]).missing_signatures == most,
        decreases bundle.transactions.len() - i,
    {
        let tx = &bundle.transactions[i];
        let mut j: usize = 0;
        while j < tx.signatures.len()
            invariant
                i < bundle.transactions@.len(),
                *tx == bundle.transactions@[i as int],
                j <= tx.signatures@.len(),
                forall|a: int, b: int|
                    0 <= a < i && 0 <= b < bundle.transactions@[a].signatures@.len() ==> (
                    #[trigger] bundle.transactions@[a].signatures@[b]).missing_signatures <= most,
                forall|b: int|
                    0 <= b < j ==> (#[trigger] tx.signatures@[b]).missing_signatures <= most,
                most == 0 || (exists|a: int, b: int|
                    0 <= a < i && 0 <= b < bundle.transactions@[a].signatures@.len() && (
                    #[trigger] bundle.transactions@[a].signatures@[b]).missing_signatures == most)
                    || (exists|b: int|
                    0 <= b < j && (#[trigger] tx.signatures@[b]).missing_signatures == most),
            decreases tx.signatures.len() - j,
        {
            let m = tx.signatures[j].missing_signatures;
            if m > most {
                most = m;
                assert(tx.signatures@[j as int].missing_signatures == most);
            }
            j = j + 1;
        }
        assert forall|a: int, b: int|
            0 <= a < i + 1 && 0 <= b < bundle.transactions@[a].signatures@.len() implies (
            #[trigger] bundle.transactions@[a].signatures@[b]).missing_signatures <= most by {
            if a == i {
                assert(bundle.transactions@[a].signatures@[b] == tx.signatures@[b]);
            }
        }
        proof {
            if most != 0 && !(exists|a: int, b: int|
                0 <= a < i && 0 <= b < bundle.transactions@[a].signatures@.len() && (
                #[trigger] bundle.transactions@[a].signatures@[b]).missing_signatures == most) {
                let b = choose|b: int|
                    0 <= b < j && (#[trigger] tx.signatures@[b]).missing_signatures == most;
                assert(bundle.transactions@[i as int].signatures@[b].missing_signatures == most);
            }
        }
        i = i + 1;
    }
    most
}

/// The public keys of this cosigner shown beside its recovery material: the
/// summary's first keys, as many as the cosigner owns, or without a summary
/// the exported keys.
pub open spec fn local_public_keys_spec(
    secrets: ExportSecretsResponse,
    summary: Option<WalletSummary>,
) -> Seq<String> {
    match summary {
        Some(s) => s.public_keys@.take(
            if s.owned_key_count <= s.public_keys@.len() {
                s.owned_key_count as int
            } else {
                s.public_keys@.len() as int
            },
        ),
        None => secrets.external_public_keys@,
    }
}

/// The public keys of this cosigner shown beside its recovery material.
pub fn local_public_keys(secrets: &ExportSecretsResponse, summary: &Option<WalletSummary>) -> (r:
    Vec<String>)
    ensures
        r@ == local_public_keys_spec(*secrets, *summary),
{
    match summary {
        Some(s) => {
            let n = if s.owned_key_count <= s.public_keys.len() {
                s.owned_key_count
            } else {
                s.public_keys.len()
            };
            let mut out: Vec<String> = Vec::new();
            let mut i: usize = 0;
            while i < n
                invariant
                    n <= s.public_keys@.len(),
                    i <= n,
                    out@ == s.public_keys@.take(i as int),
                decreases n - i,
            {
                out.push(s.public_keys[i].clone());
                i = i + 1;
                assert(out@ =~= s.public_keys@.take(i as int));
            }
            out
        },
        None => crate::text::copy_strings(&secrets.external_public_keys),
    }
}


/// The sentence that opens a bundle's breakdown.
pub open spec fn bundle_headline_spec(bundle: TransactionBundle) -> Seq<char> {
    decimal(bundle.transaction_count as nat) + " transaction(s) in bundle"@ + if bundle.fully_signed {
        ", ready to broadcast"@
    } else {
        ""@
    }
}

/// The sentence that opens a bundle's breakdown: how many transactions it
/// holds, and whether it is ready to broadcast.
pub fn bundle_headline(bundle: &TransactionBundle) -> (r: String)
    ensures
        r@ == bundle_headline_spec(*bundle),
{
    let mut out = decimal_text(bundle.transaction_count as u64);
    out.append(" transaction(s) in bundle");
    if bundle.fully_signed {
        out.append(", ready to broadcast");
    }
    proof {
        reveal_strlit("");
        assert(out@ =~= bundle_headline_spec(*bundle));
    }
    out
}

/// The title of a transaction in a breakdown.
pub fn transaction_title(tx: &ParsedTransaction) -> (r: String)
    ensures
        r@ == "Transaction #"@ + decimal(tx.index as nat),
{
    let mut out = String::new();
    out.append("Transaction #");
    let n = decimal_text(tx.index as u64);
    out.append(n.as_str());
    out
}

/// The shape of a transaction: its numbers of inputs and outputs.
pub fn transaction_shape(tx: &ParsedTransaction) -> (r: String)
    ensures
        r@ == decimal(tx.input_count as nat) + " inputs / "@ + decimal(tx.output_count as nat)
            + " outputs"@,
{
    let mut out = decimal_text(tx.input_count as u64);
    out.append(" inputs / ");
    let n = decimal_text(tx.output_count as u64);
    out.append(n.as_str());
    out.append(" outputs");
    out
}

/// How far the signing of an input has come, as a sentence.
pub fn signature_progress_line(progress: &InputSignatureProgress) -> (r: String)
    ensures
        r@ == "Input "@ + decimal(progress.input_index as nat) + ": "@ + decimal(
            progress.signed_by as nat,
        ) + " of "@ + decimal(progress.minimum_signatures as nat) + " signatures collected"@,
{
    let mut out = String::new();
    out.append("Input ");
    let a = decimal_text(progress.input_index as u64);
    out.append(a.as_str());
    out.append(": ");
    let b = decimal_text(progress.signed_by as u64);
    out.append(b.as_str());
    out.append(" of ");
    let c = decimal_text(progress.minimum_signatures as u64);
    out.append(c.as_str());
    out.append(" signatures collected");
    out
}

} // verus!
