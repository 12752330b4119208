//! Laws of the workspace: which pages it leads to, what each request
//! carries, how task outcomes settle the tasks they belong to, the address
//! list, and polling.

use vstd::prelude::*;
use crate::choices::WorkspacePage;
use crate::messages::DaemonStatus;
use crate::choices::MessageTone;
use crate::forms::fee_policy_spec;
use crate::messages::{
    ExportSecretsRequestView, ParseRequestView, SessionConfigRequestView, SignRequestView,
    WalletSummaryRequestView,
};
use crate::text::{decimal, is_blank, list_items, trim};
use crate::choices::SetupMode;
use crate::wallet::{
    auto_poll_spec, can_issue_receive, event_tag, flow_fully_signed,
    generate_receive_address_spec, handle_event_spec, has_address, page_unlocked,
    recommended_page, request_parse_flow_spec, request_parse_inspector_spec,
    request_addresses_spec, request_balance_spec, request_broadcast_flow_spec,
    request_connect_node_spec, request_create_unsigned_spec, request_export_secrets_spec,
    request_new_address_spec, request_wallet_summary_spec, request_sign_flow_spec,
    request_wallet_create_spec, send_now_spec, session_request, setup_submittable, wallet_ready, AppEvent, CommandView, TaskTag, WalletModel,
};

verus! {

/// The page that the workspace recommends may always be opened.
pub proof fn lemma_recommended_page_is_open(m: WalletModel)
    ensures
        page_unlocked(m, recommended_page(m)),
{
}

/// Once the workspace has left a page that may not be open, the page it
/// shows may be opened.
pub proof fn lemma_synced_page_is_open(m: WalletModel)
    ensures
        ({
            let synced = if page_unlocked(m, m.active_page) {
                m
            } else {
                WalletModel { active_page: recommended_page(m), ..m }
            };
            page_unlocked(synced, synced.active_page)
        }),
{
}

/// After a task's outcome is applied, no task of its kind is marked as
/// running: whatever the outcome starts in turn is of another kind.
pub proof fn lemma_event_clears_its_task(m: WalletModel, event: AppEvent)
    ensures
        !handle_event_spec(m, event).pending.contains(event_tag(event)),
{
}

/// Whether no two addresses of the list hold the same characters.
pub open spec fn distinct_addresses(list: Seq<String>) -> bool {
    forall|i: int, j: int|
        0 <= i < list.len() && 0 <= j < list.len() && i != j ==> (#[trigger] list[i])@ != (
        #[trigger] list[j])@
}

/// A newly issued address ends up in the address list, exactly once where
/// the list held no address twice.
pub proof fn lemma_new_address_listed(m: WalletModel, issued: crate::messages::NewAddressResponse)
    ensures
        has_address(
            handle_event_spec(m, AppEvent::NewAddress(Ok(issued))).addresses,
            issued.address@,
        ),
        distinct_addresses(m.addresses) ==> distinct_addresses(
            handle_event_spec(m, AppEvent::NewAddress(Ok(issued))).addresses,
        ),
{
    let post = handle_event_spec(m, AppEvent::NewAddress(Ok(issued)));
    if has_address(m.addresses, issued.address@) {
        assert(post.addresses == m.addresses);
    } else {
        let l = m.addresses.insert(0, issued.address);
        assert(post.addresses == l);
        assert(l[0] == issued.address);
        assert forall|i: int, j: int|
            distinct_addresses(m.addresses) && 0 <= i < l.len() && 0 <= j < l.len() && i != j
                implies (#[trigger] l[i])@ != (#[trigger] l[j])@ by {
            if i == 0 {
                assert(l[j] == m.addresses[j - 1]);
            } else if j == 0 {
                assert(l[i] == m.addresses[i - 1]);
            } else {
                assert(l[i] == m.addresses[i - 1]);
                assert(l[j] == m.addresses[j - 1]);
            }
        }
    }
}

/// Polling again at the same instant changes nothing.
pub proof fn lemma_poll_twice_same_instant(m: WalletModel, now: u64)
    ensures
        auto_poll_spec(auto_poll_spec(m, now), now) == auto_poll_spec(m, now),
{
}

/// Polling starts only reads that are not running: every command it queues
/// reads the engine's state or the balance, and no task of that kind was
/// running before.
pub proof fn lemma_poll_starts_only_idle_reads(m: WalletModel, now: u64, i: int)
    requires
        m.outbox.len() <= i < auto_poll_spec(m, now).outbox.len(),
    ensures
        auto_poll_spec(m, now).outbox[i].tag() == TaskTag::DaemonStatus || auto_poll_spec(
            m,
            now,
        ).outbox[i].tag() == TaskTag::Balance,
        !m.pending.contains(auto_poll_spec(m, now).outbox[i].tag()),
{
}

/// The workspace leads to the Receive page only a cosigner that may issue
/// receive addresses: it never recommends that page to another cosigner,
/// and a ready engine opens it only for that cosigner.
pub proof fn lemma_receive_page_for_address_owner(m: WalletModel, status: DaemonStatus)
    ensures
        recommended_page(m) == WorkspacePage::Receive ==> can_issue_receive(m),
        ({
            let post = handle_event_spec(m, AppEvent::DaemonStatus(Ok(status)));
            post.active_page == WorkspacePage::Receive && m.active_page != WorkspacePage::Receive
                ==> can_issue_receive(post)
        }),
{
}

/// Once the engine reports that it is ready, a read of the balance is
/// running, started then or already under way, wherever a node is named and
/// the bridge is up.
pub proof fn lemma_ready_status_reads_balance(m: WalletModel, status: DaemonStatus)
    requires
        status.state@ == "ready"@,
        m.bridge is Some,
        !is_blank(m.rpc_server),
    ensures
        handle_event_spec(m, AppEvent::DaemonStatus(Ok(status))).pending.contains(TaskTag::Balance),
{
}

/// Signing and describing bundles work offline: with the bridge up they
/// are started whether or not a node is named.
pub proof fn lemma_bundle_work_needs_no_node(m: WalletModel)
    requires
        m.bridge is Some,
    ensures
        request_sign_flow_spec(m).pending.contains(TaskTag::FlowBundle),
        request_parse_flow_spec(m).pending.contains(TaskTag::FlowBundle),
        request_parse_inspector_spec(m).pending.contains(TaskTag::Inspector),
{
}

/// A setup that may be submitted to create or recover a wallet sends a
/// consistent policy: at least one local key, no more local keys than
/// cosigners, a signature threshold between one and the number of
/// cosigners, one public key for each other cosigner, and when recovering,
/// one phrase for each local key.
pub proof fn lemma_submitted_setup_is_consistent(m: WalletModel)
    requires
        setup_submittable(m),
        m.bootstrap.setup_mode != SetupMode::OpenExisting,
        m.bridge is Some,
    ensures
        ({
            let post = request_wallet_create_spec(m);
            &&& post.outbox.len() == m.outbox.len() + 1
            &&& post.outbox.last() matches CommandView::CreateWallet(r) && {
                &&& 1 <= r.num_private_keys <= r.num_public_keys
                &&& 1 <= r.minimum_signatures <= r.num_public_keys
                &&& r.remote_public_keys.len() == r.num_public_keys - r.num_private_keys
                &&& m.bootstrap.setup_mode == SetupMode::RecoverExisting
                    ==> r.import_mnemonics.len() == r.num_private_keys
                &&& m.bootstrap.setup_mode == SetupMode::CreateNew ==> r.import_mnemonics.len() == 0
            }
        }),
{
}

/// Receive addresses are asked for only from the cosigner that owns them:
/// where pressing the button starts a request, a wallet summary is loaded
/// and names a wallet that is not multisig or this cosigner as the
/// canonical owner of its addresses, and the engine is ready.
pub proof fn lemma_receive_address_only_from_owner(m: WalletModel)
    ensures
        generate_receive_address_spec(m).outbox.len() != m.outbox.len() ==> (m.summary matches Some(
            s,
        ) && (!s.is_multisig || s.is_canonical_address_owner) && wallet_ready(m)),
{
}

/// A bundle is broadcast only once it is fully signed: where pressing the
/// button starts a request, the current bundle is fully signed.
pub proof fn lemma_broadcast_only_when_signed(m: WalletModel)
    ensures
        send_now_spec(m).outbox.len() != m.outbox.len() ==> flow_fully_signed(m),
{
}

/// A status report moves the workspace only when the engine becomes ready.
/// Where the engine had already reported "ready", or the report is of
/// another state, the user stays on the page they are on. Where the engine
/// becomes ready, the workspace opens the Receive page for a cosigner that
/// owns the wallet's receive addresses (going by the wallet the report
/// names, else the loaded one) and the Send page for any other.
pub proof fn lemma_status_moves_page_only_on_becoming_ready(m: WalletModel, status: DaemonStatus)
    ensures
        ({
            let post = handle_event_spec(m, AppEvent::DaemonStatus(Ok(status)));
            let was_ready = m.daemon_status matches Some(d) && d.state@ == "ready"@;
            let owner = match status.wallet {
                Some(w) => !w@.is_multisig || w@.is_canonical_address_owner,
                None => m.summary matches Some(w) && (!w.is_multisig
                    || w.is_canonical_address_owner),
            };
            &&& was_ready ==> post.active_page == m.active_page
            &&& status.state@ != "ready"@ ==> post.active_page == m.active_page
            &&& (status.state@ == "ready"@ && !was_ready) ==> post.active_page == (if owner {
                WorkspacePage::Receive
            } else {
                WorkspacePage::Send
            })
        }),
{
    reveal_strlit("stopped");
    reveal_strlit("ready");
    assert("stopped"@.len() != "ready"@.len());
    assert(wallet_ready(m) <==> (m.daemon_status matches Some(d) && d.state@ == "ready"@));
}

/// An engine that is starting, syncing, running or ready has its state
/// read again once the last read is more than three seconds old: where no
/// such read is running and the bridge is up, polling queues one read of
/// the engine's state behind what was queued, marks it as running and
/// records the time. An engine in any other state is not read.
pub proof fn lemma_active_engine_is_polled(m: WalletModel, now: u64)
    ensures
        ({
            let post = auto_poll_spec(m, now);
            let state_active = m.daemon_status matches Some(d) && (d.state@ == "starting"@
                || d.state@ == "syncing"@ || d.state@ == "running"@ || d.state@ == "ready"@);
            let due = match m.last_status_poll {
                None => true,
                Some(t) => t <= now && now - t > 3_000_000_000,
            };
            &&& (state_active && due && !m.pending.contains(TaskTag::DaemonStatus)
                && m.bridge is Some) ==> {
                &&& post.outbox.len() > m.outbox.len()
                &&& post.outbox[m.outbox.len() as int] == CommandView::DaemonStatus
                &&& post.pending.contains(TaskTag::DaemonStatus)
                &&& post.last_status_poll == Some(now)
            }
            &&& !state_active ==> forall|i: int|
                m.outbox.len() <= i < post.outbox.len() ==> post.outbox[i]
                    != CommandView::DaemonStatus
        }),
{
    let post = auto_poll_spec(m, now);
    assert forall|i: int| m.outbox.len() <= i < post.outbox.len() && !(m.daemon_status matches Some(
        d,
    ) && (d.state@ == "starting"@ || d.state@ == "syncing"@ || d.state@ == "running"@ || d.state@
        == "ready"@)) implies post.outbox[i] != CommandView::DaemonStatus by {
        assert(post.outbox[i].tag() == TaskTag::Balance);
    }
}

/// The wallet file that is created or recovered is the one the setup form
/// describes: with the bridge up, exactly one request is queued behind what
/// was queued, and it carries the form's network, file, password, signing
/// policy (required signatures, local keys, cosigners) and flags field by
/// field, with the listed public keys of the other cosigners, and the
/// recovery phrases only when recovering.
pub proof fn lemma_create_request_carries_the_form(m: WalletModel)
    requires
        m.bridge is Some,
    ensures
        ({
            let post = request_wallet_create_spec(m);
            let b = m.bootstrap;
            &&& post.outbox.len() == m.outbox.len() + 1
            &&& post.outbox.subrange(0, m.outbox.len() as int) == m.outbox
            &&& post.pending.contains(TaskTag::CreateWallet)
            &&& post.outbox[m.outbox.len() as int] matches CommandView::CreateWallet(r) && {
                &&& r.network == b.network.name()
                &&& r.keys_file == b.keys_file
                &&& r.password == b.password
                &&& r.minimum_signatures == b.minimum_signatures
                &&& r.num_private_keys == b.num_private_keys
                &&& r.num_public_keys == b.num_public_keys
                &&& r.remote_public_keys == list_items(b.remote_public_keys, true)
                &&& r.ecdsa == b.ecdsa
                &&& r.overwrite == b.overwrite
                &&& (b.setup_mode == SetupMode::RecoverExisting ==> r.import_mnemonics
                    == list_items(b.import_mnemonics, false))
                &&& (b.setup_mode != SetupMode::RecoverExisting ==> r.import_mnemonics.len() == 0)
            }
        }),
{
    let post = request_wallet_create_spec(m);
    assert(post.outbox.subrange(0, m.outbox.len() as int) =~= m.outbox);
}

/// The unsigned bundle asked for is the payment the form describes: where
/// the fee policy reads and a node is named and the bridge is up, one
/// request is queued behind what was queued, bound to the session of the
/// loaded wallet file and node, and carrying the form's destination,
/// amount, send-everything choice, listed source addresses, change-address
/// choice and the fee policy read from the form.
pub proof fn lemma_unsigned_request_carries_the_payment(m: WalletModel, parsed_rate: Option<u64>)
    requires
        m.bridge is Some,
        !is_blank(m.rpc_server),
        fee_policy_spec(m.spend, parsed_rate) is Ok,
    ensures
        ({
            let post = request_create_unsigned_spec(m, parsed_rate);
            let policy = fee_policy_spec(m.spend, parsed_rate)->Ok_0;
            &&& post.outbox.len() == m.outbox.len() + 1
            &&& post.outbox.subrange(0, m.outbox.len() as int) == m.outbox
            &&& post.pending.contains(TaskTag::FlowBundle)
            &&& post.outbox[m.outbox.len() as int] matches CommandView::CreateUnsigned(s, r) && {
                &&& s.network == m.bootstrap.network.name()
                &&& s.keys_file == m.bootstrap.keys_file
                &&& s.rpc_server == trim(m.rpc_server)
                &&& r.to_address == m.spend.to_address
                &&& r.amount_kas == m.spend.amount_kas
                &&& r.send_all == m.spend.send_all
                &&& r.from_addresses == list_items(m.spend.from_addresses, true)
                &&& r.use_existing_change_address == m.spend.use_existing_change_address
                &&& r.fee_policy == policy
            }
        }),
{
    let post = request_create_unsigned_spec(m, parsed_rate);
    assert(post.outbox.subrange(0, m.outbox.len() as int) =~= m.outbox);
}

/// The session binds the wallet file named in the setup form to the node
/// named in the node form: a session exists exactly when a node is named,
/// and then it carries the form's network and wallet file, the node with
/// its surrounding blanks removed, and a thirty-second timeout. Connecting
/// queues exactly that session.
pub proof fn lemma_session_binds_the_named_wallet(m: WalletModel)
    ensures
        session_request(m) is Ok <==> !is_blank(m.rpc_server),
        session_request(m) matches Ok(s) ==> {
            &&& s.network == m.bootstrap.network.name()
            &&& s.keys_file == m.bootstrap.keys_file
            &&& s.rpc_server == trim(m.rpc_server)
            &&& s.timeout_seconds == 30
        },
        (m.bridge is Some && !is_blank(m.rpc_server)) ==> {
            let post = request_connect_node_spec(m);
            &&& post.outbox.len() == m.outbox.len() + 1
            &&& post.outbox[m.outbox.len() as int] matches CommandView::ConfigureSession(s) && {
                &&& s.network == m.bootstrap.network.name()
                &&& s.keys_file == m.bootstrap.keys_file
                &&& s.rpc_server == trim(m.rpc_server)
            }
        },
{
}

/// The session of the named wallet file and node, as the bridge receives it.
pub open spec fn named_session(m: WalletModel) -> SessionConfigRequestView {
    SessionConfigRequestView {
        network: m.bootstrap.network.name(),
        keys_file: m.bootstrap.keys_file,
        rpc_server: trim(m.rpc_server),
        timeout_seconds: 30,
    }
}

/// Each read or payment step that needs the session queues exactly one
/// command behind what was queued, bound to the named wallet file and node:
/// the balance, the address list, the next receive address, and the
/// broadcast of the current bundle's text. Without a node nothing is
/// queued and the banner says a node is needed.
pub proof fn lemma_session_tasks_use_the_named_session(m: WalletModel)
    ensures
        (m.bridge is Some && !is_blank(m.rpc_server)) ==> {
            &&& request_balance_spec(m).outbox == m.outbox.push(
                CommandView::Balance(named_session(m)),
            )
            &&& request_addresses_spec(m).outbox == m.outbox.push(
                CommandView::Addresses(named_session(m)),
            )
            &&& request_new_address_spec(m).outbox == m.outbox.push(
                CommandView::NewAddress(named_session(m)),
            )
            &&& request_broadcast_flow_spec(m).outbox == m.outbox.push(
                CommandView::Broadcast(named_session(m), m.flow_hex),
            )
        },
        is_blank(m.rpc_server) ==> {
            &&& request_balance_spec(m).outbox == m.outbox
            &&& request_new_address_spec(m).outbox == m.outbox
            &&& request_broadcast_flow_spec(m).outbox == m.outbox
            &&& request_balance_spec(m).banner == Some(
                (MessageTone::Error, "Kaspa node RPC is required for sync and spend operations."@),
            )
        },
{
}

/// The steps that need no node carry the setup form's wallet file: the
/// summary read, the recovery-material export with the typed password,
/// signing the current bundle's text with the typed password, and
/// describing the current bundle or the inspector's text.
pub proof fn lemma_wallet_tasks_use_the_form(m: WalletModel)
    requires
        m.bridge is Some,
    ensures
        request_wallet_summary_spec(m).outbox == m.outbox.push(
            CommandView::WalletSummary(
                WalletSummaryRequestView {
                    network: m.bootstrap.network.name(),
                    keys_file: m.bootstrap.keys_file,
                },
            ),
        ),
        request_export_secrets_spec(m).outbox == m.outbox.push(
            CommandView::ExportSecrets(
                ExportSecretsRequestView {
                    network: m.bootstrap.network.name(),
                    keys_file: m.bootstrap.keys_file,
                    password: m.bootstrap.password,
                },
            ),
        ),
        request_sign_flow_spec(m).outbox == m.outbox.push(
            CommandView::Sign(
                SignRequestView {
                    network: m.bootstrap.network.name(),
                    keys_file: m.bootstrap.keys_file,
                    password: m.bootstrap.password,
                    transactions_hex: m.flow_hex,
                },
            ),
        ),
        request_parse_flow_spec(m).outbox == m.outbox.push(
            CommandView::ParseFlow(
                ParseRequestView {
                    network: m.bootstrap.network.name(),
                    keys_file: m.bootstrap.keys_file,
                    transactions_hex: m.flow_hex,
                },
            ),
        ),
        request_parse_inspector_spec(m).outbox == m.outbox.push(
            CommandView::ParseInspector(
                ParseRequestView {
                    network: m.bootstrap.network.name(),
                    keys_file: m.bootstrap.keys_file,
                    transactions_hex: m.inspector_hex,
                },
            ),
        ),
{
}

/// Without the bridge no task starts: nothing is queued, nothing is marked
/// as running, and the banner says that the bridge is unavailable.
pub proof fn lemma_no_bridge_no_tasks(m: WalletModel)
    requires
        m.bridge is None,
    ensures
        request_wallet_summary_spec(m).outbox == m.outbox,
        request_wallet_create_spec(m).outbox == m.outbox,
        request_sign_flow_spec(m).outbox == m.outbox,
        request_wallet_create_spec(m).pending == m.pending,
        request_wallet_create_spec(m).banner == Some(
            (MessageTone::Error, "Local Go bridge is unavailable."@),
        ),
        !is_blank(m.rpc_server) ==> request_balance_spec(m).outbox == m.outbox,
{
}

/// A failed task changes nothing but its own mark and the banner: the
/// error is shown, the task is no longer marked as running, and the page,
/// the loaded wallet, the current bundle and the queue stay as they were.
pub proof fn lemma_failure_only_reports(m: WalletModel, event: AppEvent, e: String)
    requires
        event == AppEvent::WalletSummary(Err(e)) || event == AppEvent::WalletCreated(Err(e))
            || event == AppEvent::SecretsExported(Err(e)) || event == AppEvent::DaemonStatus(
            Err(e),
        ) || event == AppEvent::Balance(Err(e)) || event == AppEvent::Addresses(Err(e)) || event
            == AppEvent::NewAddress(Err(e)) || event == AppEvent::FlowBundle(Err(e)) || event
            == AppEvent::InspectorBundle(Err(e)) || event == AppEvent::Broadcasted(Err(e)),
    ensures
        ({
            let post = handle_event_spec(m, event);
            &&& post.banner == Some((MessageTone::Error, e@))
            &&& !post.pending.contains(event_tag(event))
            &&& post.pending.subset_of(m.pending)
            &&& post.active_page == m.active_page
            &&& post.summary == m.summary
            &&& post.daemon_status == m.daemon_status
            &&& post.balance == m.balance
            &&& post.addresses == m.addresses
            &&& post.flow_hex == m.flow_hex
            &&& post.flow_bundle == m.flow_bundle
            &&& post.outbox == m.outbox
        }),
{
}

/// What a successful task brought is kept: the issued address becomes the
/// current one, a bundle becomes the current bundle with its text, a read
/// balance replaces the old one, the bridge's transaction ids of a
/// broadcast are kept and counted in the banner (where the bridge is up to
/// take the status read that follows), the loaded wallet of a summary read
/// is the one described, and a status report is kept with the wallet it
/// names, if any, as the loaded one.
pub proof fn lemma_outcomes_are_kept(
    m: WalletModel,
    issued: crate::messages::NewAddressResponse,
    bundle: crate::messages::TransactionBundle,
    balance: crate::messages::BalanceResponse,
    sent: crate::messages::BroadcastResponse,
    summary: crate::messages::WalletSummary,
    status: DaemonStatus,
)
    ensures
        handle_event_spec(m, AppEvent::NewAddress(Ok(issued))).last_new_address == Some(
            issued.address,
        ),
        handle_event_spec(m, AppEvent::FlowBundle(Ok(bundle))).flow_bundle == Some(bundle),
        handle_event_spec(m, AppEvent::FlowBundle(Ok(bundle))).flow_hex == bundle.transactions_hex@,
        handle_event_spec(m, AppEvent::InspectorBundle(Ok(bundle))).inspector_bundle == Some(
            bundle,
        ),
        handle_event_spec(m, AppEvent::InspectorBundle(Ok(bundle))).flow_bundle == m.flow_bundle,
        handle_event_spec(m, AppEvent::Balance(Ok(balance))).balance == Some(balance),
        handle_event_spec(m, AppEvent::Broadcasted(Ok(sent))).last_broadcast_tx_ids == sent.tx_ids@,
        m.bridge is Some ==> handle_event_spec(m, AppEvent::Broadcasted(Ok(sent))).banner == Some(
            (MessageTone::Info, "Broadcast "@ + decimal(sent.tx_ids@.len()) + " transaction(s)."@),
        ),
        handle_event_spec(m, AppEvent::WalletSummary(Ok(summary))).summary == Some(summary@),
        handle_event_spec(m, AppEvent::DaemonStatus(Ok(status))).daemon_status == Some(status),
        handle_event_spec(m, AppEvent::DaemonStatus(Ok(status))).summary == (match status.wallet {
            Some(w) => Some(w@),
            None => m.summary,
        }),
        handle_event_spec(m, AppEvent::WalletSummary(Ok(summary))).bootstrap.keys_file
            == summary.keys_file@,
{
}

/// The balance of a ready engine is read again once the last read is more
/// than six seconds old, where no such read is running, a node is named
/// and the bridge is up; an engine that is not ready has no balance read
/// started by polling.
pub proof fn lemma_ready_engine_balance_is_polled(m: WalletModel, now: u64)
    ensures
        ({
            let post = auto_poll_spec(m, now);
            let ready = m.daemon_status matches Some(d) && d.state@ == "ready"@;
            let due = match m.last_balance_poll {
                None => true,
                Some(t) => t <= now && now - t > 6_000_000_000,
            };
            &&& (ready && due && !m.pending.contains(TaskTag::Balance) && m.bridge is Some
                && !is_blank(m.rpc_server)) ==> {
                &&& post.pending.contains(TaskTag::Balance)
                &&& post.outbox.last() == CommandView::Balance(named_session(m))
                &&& post.last_balance_poll == Some(now)
            }
            &&& !ready ==> forall|i: int|
                m.outbox.len() <= i < post.outbox.len() ==> post.outbox[i].tag()
                    != TaskTag::Balance
        }),
{
    let post = auto_poll_spec(m, now);
    assert forall|i: int|
        m.outbox.len() <= i < post.outbox.len() && !(m.daemon_status matches Some(d)
            && d.state@ == "ready"@) implies post.outbox[i].tag() != TaskTag::Balance by {
        assert(post.outbox[i] == CommandView::DaemonStatus);
    }
}

} // verus!

