use fedgate::actors::{Actor, ActorKind, ActorType};
use fedgate::audit::ActivityLog;
use fedgate::policy::FederationConfig;
use fedgate::site::{admit_site_activity, get_apub_site_http, get_apub_site_inbox,
    get_apub_site_outbox, ActivityEnvelope};
use fedgate::urls::ApubUrl;

fn config(blocked: Option<Vec<&str>>) -> FederationConfig {
    FederationConfig {
        federation_enabled: true,
        scheme: String::from("https"),
        hostname: String::from("local.example"),
        allowed_instances: None,
        blocked_instances: blocked.map(|v| v.into_iter().map(String::from).collect()),
        strict_allowlist: false,
    }
}

fn envelope(id: &str, actor: &str) -> ActivityEnvelope {
    ActivityEnvelope {
        id: String::from(id),
        actor: ApubUrl::parse(actor).expect("absolute URL"),
        payload: String::from("{\"type\":\"Follow\"}"),
        sensitive: false,
    }
}

#[test]
fn blocked_sender_is_refused_without_trace() {
    let c = config(Some(vec!["evil.example"]));
    let mut log = ActivityLog::new();
    let e = envelope("https://evil.example/activity/1", "https://evil.example/u/mal");
    let out = get_apub_site_inbox(Some(e), true, true, &c, &mut log);
    assert_eq!(out.status, 403);
    assert!(!out.dispatched);
    assert!(!out.audited);
    assert_eq!(log.records.len(), 0);
}

#[test]
fn valid_signed_activity_is_accepted_and_audited() {
    let c = config(None);
    let mut log = ActivityLog::new();
    let e = envelope("https://remote.example/activity/1", "https://remote.example/u/ann");
    let out = get_apub_site_inbox(Some(e), true, true, &c, &mut log);
    assert_eq!(out.status, 200);
    assert!(out.dispatched);
    assert!(out.audited);
    assert_eq!(log.records.len(), 1);
    assert_eq!(log.records[0].ap_id, "https://remote.example/activity/1");
    assert!(!log.records[0].local);
}

#[test]
fn unparsable_body_answers_bad_request() {
    let c = config(None);
    let mut log = ActivityLog::new();
    let out = get_apub_site_inbox(None, true, true, &c, &mut log);
    assert_eq!(out.status, 400);
    assert!(!out.dispatched);
    assert_eq!(log.records.len(), 0);
}

#[test]
fn bad_signature_answers_unauthorized() {
    let c = config(None);
    let mut log = ActivityLog::new();
    let e = envelope("https://remote.example/activity/1", "https://remote.example/u/ann");
    let out = get_apub_site_inbox(Some(e), false, true, &c, &mut log);
    assert_eq!(out.status, 401);
    assert!(!out.dispatched);
    assert_eq!(log.records.len(), 0);
}

#[test]
fn failed_dispatch_commits_nothing() {
    let c = config(None);
    let mut log = ActivityLog::new();
    let e = envelope("https://remote.example/activity/1", "https://remote.example/u/ann");
    let out = get_apub_site_inbox(Some(e), true, false, &c, &mut log);
    assert_eq!(out.status, 500);
    assert!(out.dispatched);
    assert!(!out.audited);
    assert_eq!(log.records.len(), 0);
}

#[test]
fn redelivery_of_one_activity_is_idempotent() {
    let c = config(None);
    let mut log = ActivityLog::new();
    let first = get_apub_site_inbox(
        Some(envelope("https://remote.example/activity/1", "https://remote.example/u/ann")),
        true,
        true,
        &c,
        &mut log,
    );
    let second = get_apub_site_inbox(
        Some(envelope("https://remote.example/activity/1", "https://remote.example/u/ann")),
        true,
        true,
        &c,
        &mut log,
    );
    assert!(first.audited);
    assert_eq!(second.status, 200);
    assert!(!second.audited);
    assert_eq!(log.records.len(), 1);
}

#[test]
fn admission_matches_the_pipeline() {
    let c = config(Some(vec!["evil.example"]));
    let blocked = Some(envelope("https://evil.example/a/1", "https://evil.example/u/mal"));
    assert_eq!(admit_site_activity(&blocked, true, &c), Err(403));
    let fine = Some(envelope("https://ok.example/a/1", "https://ok.example/u/ann"));
    assert_eq!(admit_site_activity(&fine, true, &c), Ok(()));
    assert_eq!(admit_site_activity(&fine, false, &c), Err(401));
    assert_eq!(admit_site_activity(&None, true, &c), Err(400));
}

#[test]
fn outbox_is_always_empty() {
    let c = config(None);
    let mut log = ActivityLog::new();
    // Prior activity volume changes nothing: the outbox reads no state.
    for i in 0..4 {
        let id = format!("https://remote.example/activity/{}", i);
        get_apub_site_inbox(
            Some(envelope(&id, "https://remote.example/u/ann")),
            true,
            true,
            &c,
            &mut log,
        );
    }
    let outbox = get_apub_site_outbox(&c);
    assert_eq!(outbox.total_items, 0);
    assert!(outbox.ordered_items.is_empty());
    assert_eq!(outbox.id.to_text(), "https://local.example/site_outbox");
}

#[test]
fn site_profile_is_a_pure_projection() {
    let site = Actor {
        kind: ActorKind::Instance,
        id: ApubUrl::parse("https://local.example/").unwrap(),
        inbox: ApubUrl::parse("https://local.example/site_inbox").unwrap(),
        shared_inbox: None,
        public_key_pem: String::from("PEM PUBLIC KEY"),
        private_key_pem: Some(String::from("SECRET-REDACTED")),
    };
    let profile = get_apub_site_http(&site);
    assert_eq!(profile.actor_id.to_text(), "https://local.example/");
    assert_eq!(profile.inbox.path, "/site_inbox");
    assert_eq!(profile.outbox.path, "/site_outbox");
    assert_eq!(profile.public_key.id, "https://local.example/#main-key");
    assert_eq!(profile.public_key.owner.to_text(), "https://local.example/");
    assert_eq!(profile.public_key.public_key_pem, "PEM PUBLIC KEY");
    assert_eq!(site.get_public_key().id, profile.public_key.id);
}

#[test]
fn delivery_prefers_the_shared_inbox() {
    let with_shared = Actor {
        kind: ActorKind::Person,
        id: ApubUrl::parse("https://remote.example/u/ann").unwrap(),
        inbox: ApubUrl::parse("https://remote.example/u/ann/inbox").unwrap(),
        shared_inbox: Some(ApubUrl::parse("https://remote.example/inbox").unwrap()),
        public_key_pem: String::from("PEM"),
        private_key_pem: None,
    };
    assert_eq!(
        with_shared.shared_inbox_or_inbox_url().to_text(),
        "https://remote.example/inbox"
    );
    let without = Actor { shared_inbox: None, ..with_shared };
    assert_eq!(
        without.shared_inbox_or_inbox_url().to_text(),
        "https://remote.example/u/ann/inbox"
    );
    assert_eq!(without.private_key(), None);
    assert_eq!(without.actor_id().to_text(), "https://remote.example/u/ann");
}
