//! The instance actor's own endpoints: the profile projection, an
//! always-empty outbox, and the inbox receive pipeline. The embedding
//! application does the HTTP, signature-verification and dispatch work and
//! reports their outcomes; every decision — what is admitted, in what
//! order, what is answered, what is recorded — is made and proved here.

use vstd::prelude::*;
use vstd::string::StringExecFns;
use crate::actors::{Actor, ActorType, PublicKey};
use crate::audit::{ActivityLog, RecordModel, log_after_insert, log_contains_id, log_wf};
use crate::policy::{domain_blocked, lemma_blocklist_precedence, FederationConfig,
    check_apub_id_valid_with_strictness, strictness_decision};
use crate::urls::{ApubUrl, UrlModel, url_text};

verus! {

/// A parsed, signed inbound envelope, as the embedding application hands it
/// over after reading the request body.
#[derive(Debug)]
pub struct ActivityEnvelope {
    /// The activity's unique identifier URL, as text.
    pub id: String,
    /// The sender actor's identifier.
    pub actor: ApubUrl,
    /// The raw JSON payload.
    pub payload: String,
    /// Whether the activity is marked sensitive.
    pub sensitive: bool,
}

/// Spec-level image of an inbound envelope.
#[verifier::ext_equal]
pub ghost struct EnvelopeModel {
    pub id: Seq<char>,
    pub actor: UrlModel,
    pub payload: Seq<char>,
    pub sensitive: bool,
}

impl View for ActivityEnvelope {
    type V = EnvelopeModel;

    open spec fn view(&self) -> EnvelopeModel {
        EnvelopeModel {
            id: self.id@,
            actor: self.actor@,
            payload: self.payload@,
            sensitive: self.sensitive,
        }
    }
}

/// The view of an optional envelope.
pub open spec fn opt_envelope(p: Option<ActivityEnvelope>) -> Option<EnvelopeModel> {
    match p {
        Some(e) => Some(e@),
        None => None,
    }
}

/// The admission decision for one inbound request, taken strictly in
/// order: the body must have parsed, the HTTP signature must have verified
/// against the sender's public key, and the sender's identifier must pass
/// the lenient domain policy. The first failure answers with its client
/// error status; an admitted envelope goes on to dispatch.
pub open spec fn admission(
    parsed: Option<EnvelopeModel>,
    signature_valid: bool,
    c: FederationConfig,
) -> Result<EnvelopeModel, u16> {
    match parsed {
        None => Err(400u16),
        Some(e) => if !signature_valid {
            Err(401u16)
        } else if strictness_decision(e.actor, false, c) is Err {
            Err(403u16)
        } else {
            Ok(e)
        },
    }
}

/// What one inbox request came to: the HTTP status answered, whether the
/// activity reached its type-specific handler, and whether a new audit row
/// was written.
#[derive(Debug)]
pub struct InboxOutcome {
    /// The HTTP status answered to the sender.
    pub status: u16,
    /// Whether the activity was handed to its type-specific handler.
    pub dispatched: bool,
    /// Whether a new audit row was written.
    pub audited: bool,
}

/// Admits or refuses one inbound request, without touching any state: the
/// pure decision the receive pipeline runs on. `Err` carries the client
/// error status to answer.
pub fn admit_site_activity(
    parsed: &Option<ActivityEnvelope>,
    signature_valid: bool,
    config: &FederationConfig,
) -> (r: Result<(), u16>)
    ensures
        match admission(opt_envelope(*parsed), signature_valid, *config) {
            Ok(_) => r is Ok,
            Err(s) => r == Err::<(), u16>(s),
        },
{
    let e = match parsed {
        Some(e) => e,
        None => {
            return Err(400);
        },
    };
    if !signature_valid {
        return Err(401);
    }
    match check_apub_id_valid_with_strictness(&e.actor, false, config) {
        Err(_) => Err(403),
        Ok(()) => Ok(()),
    }
}

/// Runs the whole receive pipeline for one POST to the site inbox. The
/// application reports how parsing and signature verification went and, for
/// an admitted activity, what its type-specific handler returned
/// (`dispatch_ok`); that last report is consulted only after admission, in
/// keeping with the ordering: policy strictly precedes dispatch, dispatch
/// strictly precedes the audit row. A refused or failed request commits
/// nothing; an accepted one answers 200 and records the activity as remote
/// (`local` false), idempotently by identifier.
pub fn get_apub_site_inbox(
    parsed: Option<ActivityEnvelope>,
    signature_valid: bool,
    dispatch_ok: bool,
    config: &FederationConfig,
    log: &mut ActivityLog,
) -> (r: InboxOutcome)
    requires
        log_wf(old(log)@),
    ensures
        log_wf(final(log)@),
        match admission(opt_envelope(parsed), signature_valid, *config) {
            Err(s) => r.status == s && !r.dispatched && !r.audited && final(log)@ == old(log)@,
            Ok(e) => r.dispatched && (if dispatch_ok {
                r.status == 200 && r.audited == !log_contains_id(old(log)@, e.id) && final(log)@
                    == log_after_insert(
                    old(log)@,
                    (RecordModel {
                        ap_id: e.id,
                        data: e.payload,
                        local: false,
                        sensitive: e.sensitive,
                    }),
                )
            } else {
                r.status == 500 && !r.audited && final(log)@ == old(log)@
            }),
        },
{
    let e = match parsed {
        Some(e) => e,
        None => {
            return InboxOutcome { status: 400, dispatched: false, audited: false };
        },
    };
    if !signature_valid {
        return InboxOutcome { status: 401, dispatched: false, audited: false };
    }
    match check_apub_id_valid_with_strictness(&e.actor, false, config) {
        Err(_) => {
            return InboxOutcome { status: 403, dispatched: false, audited: false };
        },
        Ok(()) => (),
    }
    if !dispatch_ok {
        return InboxOutcome { status: 500, dispatched: true, audited: false };
    }
    let audited = log.insert_activity(e.id, e.payload, false, e.sensitive);
    InboxOutcome { status: 200, dispatched: true, audited }
}

/// An inbound activity whose sender's domain stands on the block-list (and
/// is not the local hostname) is refused before dispatch, whatever its
/// signature: the pipeline answers a client error and, by the receive
/// contract, commits nothing.
pub proof fn lemma_blocked_sender_never_admitted(
    e: EnvelopeModel,
    signature_valid: bool,
    c: FederationConfig,
)
    requires
        e.actor.host is Some,
        e.actor.host.unwrap() != c.hostname@,
        domain_blocked(c, e.actor.host.unwrap()),
    ensures
        admission(Some(e), signature_valid, c) is Err,
{
    lemma_blocklist_precedence(e.actor, false, c);
}

/// With neither an allow-list nor a block-list configured, a parsed
/// envelope with a valid signature from a scheme-matching sender is always
/// admitted while federation is enabled.
pub proof fn lemma_clean_config_admits(e: EnvelopeModel, c: FederationConfig)
    requires
        e.actor.host is Some,
        e.actor.scheme == c.scheme@,
        c.federation_enabled,
        c.allowed_instances is None,
        c.blocked_instances is None,
    ensures
        admission(Some(e), true, c) == Ok::<EnvelopeModel, u16>(e),
{
}

/// The instance actor's outbox document: a paginated collection that is
/// always empty, since the instance actor publishes no first-class objects
/// of its own — it exists to hold the shared inbox.
#[derive(Debug)]
pub struct EmptyOutbox {
    /// The collection's own address.
    pub id: ApubUrl,
    /// How many items the collection holds: always zero.
    pub total_items: usize,
    /// The items themselves: always none.
    pub ordered_items: Vec<String>,
}

/// Answers a GET on the site outbox: the statically built collection at
/// `{scheme}://{hostname}/site_outbox`, empty whatever activity volume came
/// before — the answer reads no state at all.
pub fn get_apub_site_outbox(config: &FederationConfig) -> (r: EmptyOutbox)
    ensures
        r.total_items == 0,
        r.ordered_items@ == Seq::<String>::empty(),
        r.id@ == (UrlModel {
            scheme: config.scheme@,
            host: Some(config.hostname@),
            port: None,
            path: "/site_outbox"@,
        }),
{
    let id = ApubUrl {
        scheme: config.scheme.clone(),
        host: Some(config.hostname.clone()),
        port: None,
        path: String::from_str("/site_outbox"),
    };
    let out = EmptyOutbox { id, total_items: 0, ordered_items: Vec::new() };
    proof {
        assert(out.ordered_items@ =~= Seq::<String>::empty());
    }
    out
}

/// The federation projection of the local site record: what a GET on the
/// instance actor's profile path answers.
#[derive(Debug)]
pub struct SiteProfile {
    /// The instance actor's canonical identifier.
    pub actor_id: ApubUrl,
    /// The instance actor's inbox: the identifier with its path replaced by
    /// `/site_inbox`.
    pub inbox: ApubUrl,
    /// The instance actor's outbox: the identifier with its path replaced
    /// by `/site_outbox`.
    pub outbox: ApubUrl,
    /// The instance actor's main public key.
    pub public_key: PublicKey,
}

/// Answers a GET on the instance actor's profile path: a read-only
/// projection of the site actor record the application read — it never
/// mutates state.
pub fn get_apub_site_http(site: &Actor) -> (r: SiteProfile)
    ensures
        r.actor_id@ == site.id@,
        r.inbox@ == (UrlModel { path: "/site_inbox"@, ..site.id@ }),
        r.outbox@ == (UrlModel { path: "/site_outbox"@, ..site.id@ }),
        r.public_key.owner@ == site.id@,
        r.public_key.public_key_pem@ == site.public_key_pem@,
        r.public_key.id@ == url_text(site.id@) + "#main-key"@,
{
    let inbox = crate::endpoints::generate_site_inbox_url(&site.id);
    let mut outbox = site.id.copied();
    outbox.path = String::from_str("/site_outbox");
    SiteProfile {
        actor_id: site.id.copied(),
        inbox,
        outbox,
        public_key: site.get_public_key(),
    }
}

} // verus!
