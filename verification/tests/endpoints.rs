use fedgate::endpoints::{generate_followers_url, generate_inbox_url, generate_local_apub_endpoint,
    generate_moderators_url, generate_outbox_url, generate_shared_inbox_url,
    generate_site_inbox_url, EndpointType, IdentifierError};
use fedgate::urls::ApubUrl;

fn url(s: &str) -> ApubUrl {
    ApubUrl::parse(s).expect("absolute URL")
}

#[test]
fn local_endpoint_paths() {
    let cases = [
        (EndpointType::Community, "/c/town"),
        (EndpointType::Person, "/u/town"),
        (EndpointType::Post, "/post/town"),
        (EndpointType::Comment, "/comment/town"),
        (EndpointType::PrivateMessage, "/private_message/town"),
    ];
    for (t, expected) in cases {
        let u = generate_local_apub_endpoint(t, "town", "https://local.example").unwrap();
        assert_eq!(u.scheme, "https");
        assert_eq!(u.host.as_deref(), Some("local.example"));
        assert_eq!(u.path, expected);
    }
}

#[test]
fn endpoint_generation_deterministic() {
    let a = generate_local_apub_endpoint(EndpointType::Person, "alice", "https://local.example")
        .unwrap();
    let b = generate_local_apub_endpoint(EndpointType::Person, "alice", "https://local.example")
        .unwrap();
    assert_eq!(a.to_text(), b.to_text());
}

#[test]
fn endpoint_types_never_collide() {
    let types = || {
        vec![
            EndpointType::Community,
            EndpointType::Person,
            EndpointType::Post,
            EndpointType::Comment,
            EndpointType::PrivateMessage,
        ]
    };
    let mut texts: Vec<String> = types()
        .into_iter()
        .map(|t| {
            generate_local_apub_endpoint(t, "same", "https://local.example")
                .unwrap()
                .to_text()
        })
        .collect();
    texts.sort();
    texts.dedup();
    assert_eq!(texts.len(), 5);
}

#[test]
fn malformed_base_is_rejected() {
    let r = generate_local_apub_endpoint(EndpointType::Person, "alice", "not a base");
    assert_eq!(r.unwrap_err(), IdentifierError::Malformed);
}

#[test]
fn actor_suffix_urls() {
    let actor = url("https://local.example/c/town");
    assert_eq!(generate_followers_url(&actor).path, "/c/town/followers");
    assert_eq!(generate_inbox_url(&actor).path, "/c/town/inbox");
    assert_eq!(generate_outbox_url(&actor).path, "/c/town/outbox");
    assert_eq!(generate_moderators_url(&actor).path, "/c/town/moderators");
    // The site inbox replaces the whole path instead of appending.
    assert_eq!(generate_site_inbox_url(&actor).path, "/site_inbox");
}

#[test]
fn shared_inbox_is_host_level() {
    let alice = url("https://example.org:8080/u/alice");
    let shared = generate_shared_inbox_url(&alice).unwrap();
    assert_eq!(shared.to_text(), "https://example.org:8080/inbox");
    assert_eq!(shared.scheme, "https");
    assert_eq!(shared.host.as_deref(), Some("example.org"));
    assert_eq!(shared.port, Some(8080));
    assert_eq!(shared.path, "/inbox");
}

#[test]
fn shared_inbox_needs_a_host() {
    let no_host = url("mailto:someone@example.org");
    assert_eq!(
        generate_shared_inbox_url(&no_host).unwrap_err(),
        IdentifierError::MissingHost
    );
}

#[test]
fn parse_normalizes_case_and_default_port() {
    // The url crate normalizes while parsing; what comes back is not the
    // input text handed in.
    let u = url("HTTPS://Example.ORG/u/Alice");
    assert_eq!(u.scheme, "https");
    assert_eq!(u.host.as_deref(), Some("example.org"));
    assert_eq!(u.port, None);
    assert_eq!(u.path, "/u/Alice");
    assert!(ApubUrl::parse("/u/alice").is_none());
}

#[test]
fn text_rendering_round_trips() {
    for text in [
        "https://example.org:8080/u/alice",
        "https://local.example/c/town",
        "http://a.example/",
    ] {
        assert_eq!(url(text).to_text(), text);
    }
}
