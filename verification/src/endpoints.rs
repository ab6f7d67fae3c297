//! Canonical federation addresses: every local object, and every derived
//! actor endpoint (followers, inbox, outbox, moderators, shared inbox), gets
//! a stable URL composed by the rules in this module.

use vstd::prelude::*;
use vstd::string::StringExecFns;
use crate::urls::{ApubUrl, UrlModel, parsed_url};

verus! {

/// The kinds of local object that get a canonical federation address.
pub enum EndpointType {
    Community,
    Person,
    Post,
    Comment,
    PrivateMessage,
}

/// Failures of address derivation: the base identifier is unusable. Such a
/// failure is a caller or data bug, never retried.
#[derive(Clone, Copy, Debug, PartialEq, Eq, Structural)]
pub enum IdentifierError {
    /// The composed text is not an absolute URL.
    Malformed,
    /// The base URL carries no host, so no host-level address exists.
    MissingHost,
}

/// The path segment that names each endpoint type in a canonical address.
pub open spec fn endpoint_segment(t: EndpointType) -> Seq<char> {
    match t {
        EndpointType::Community => seq!['c'],
        EndpointType::Person => seq!['u'],
        EndpointType::Post => seq!['p', 'o', 's', 't'],
        EndpointType::Comment => seq!['c', 'o', 'm', 'm', 'e', 'n', 't'],
        EndpointType::PrivateMessage => seq![
            'p',
            'r',
            'i',
            'v',
            'a',
            't',
            'e',
            '_',
            'm',
            'e',
            's',
            's',
            'a',
            'g',
            'e',
        ],
    }
}

fn endpoint_segment_text(t: &EndpointType) -> (r: &'static str)
    ensures
        r@ == endpoint_segment(*t),
{
    match t {
        EndpointType::Community => {
            let r = "c";
            proof {
                reveal_strlit("c");
                assert(r@ =~= endpoint_segment(*t));
            }
            r
        },
        EndpointType::Person => {
            let r = "u";
            proof {
                reveal_strlit("u");
                assert(r@ =~= endpoint_segment(*t));
            }
            r
        },
        EndpointType::Post => {
            let r = "post";
            proof {
                reveal_strlit("post");
                assert(r@ =~= endpoint_segment(*t));
            }
            r
        },
        EndpointType::Comment => {
            let r = "comment";
            proof {
                reveal_strlit("comment");
                assert(r@ =~= endpoint_segment(*t));
            }
            r
        },
        EndpointType::PrivateMessage => {
            let r = "private_message";
            proof {
                reveal_strlit("private_message");
                assert(r@ =~= endpoint_segment(*t));
            }
            r
        },
    }
}

/// The canonical identifier text of a local object:
/// `{domain}/{segment}/{name}`.
pub open spec fn local_endpoint_text(t: EndpointType, name: Seq<char>, domain: Seq<char>) -> Seq<
    char,
> {
    domain + seq!['/'] + endpoint_segment(t) + seq!['/'] + name
}

/// A copy of `base` whose path carries `suffix` appended.
pub open spec fn with_path_suffix(base: UrlModel, suffix: Seq<char>) -> UrlModel {
    UrlModel { path: base.path + suffix, ..base }
}

/// A copy of `base` whose whole path is `path`.
pub open spec fn with_path(base: UrlModel, path: Seq<char>) -> UrlModel {
    UrlModel { path: path, ..base }
}

/// Derives the canonical federation address of a local object,
/// `{domain}/{c|u|post|comment|private_message}/{name}`, where `domain` is
/// the instance base such as `https://example.com`. The composed text is
/// validated by the `url` crate; invalid input is rejected, never coerced.
pub fn generate_local_apub_endpoint(endpoint_type: EndpointType, name: &str, domain: &str) -> (r:
    Result<ApubUrl, IdentifierError>)
    ensures
        match r {
            Ok(u) => parsed_url(local_endpoint_text(endpoint_type, name@, domain@)) == Some(u@)
                && u@.wf(),
            Err(e) => parsed_url(local_endpoint_text(endpoint_type, name@, domain@)) is None && e
                == IdentifierError::Malformed,
        },
{
    let mut s = String::from_str(domain);
    s.append("/");
    s.append(endpoint_segment_text(&endpoint_type));
    s.append("/");
    s.append(name);
    proof {
        reveal_strlit("/");
        assert(s@ =~= local_endpoint_text(endpoint_type, name@, domain@));
    }
    match ApubUrl::parse(s.as_str()) {
        Some(u) => Ok(u),
        None => Err(IdentifierError::Malformed),
    }
}

/// The followers collection of an actor: `{actor_id}/followers`.
pub fn generate_followers_url(actor_id: &ApubUrl) -> (r: ApubUrl)
    ensures
        r@ == with_path_suffix(actor_id@, "/followers"@),
{
    append_to_path(actor_id, "/followers")
}

/// The inbox of an actor: `{actor_id}/inbox`.
pub fn generate_inbox_url(actor_id: &ApubUrl) -> (r: ApubUrl)
    ensures
        r@ == with_path_suffix(actor_id@, "/inbox"@),
{
    append_to_path(actor_id, "/inbox")
}

/// The outbox of an actor: `{actor_id}/outbox`.
pub fn generate_outbox_url(actor_id: &ApubUrl) -> (r: ApubUrl)
    ensures
        r@ == with_path_suffix(actor_id@, "/outbox"@),
{
    append_to_path(actor_id, "/outbox")
}

/// The moderators collection of a community: `{community_id}/moderators`.
pub fn generate_moderators_url(community_id: &ApubUrl) -> (r: ApubUrl)
    ensures
        r@ == with_path_suffix(community_id@, "/moderators"@),
{
    append_to_path(community_id, "/moderators")
}

/// The inbox of the instance actor itself: the base URL with its whole path
/// replaced by `/site_inbox`.
pub fn generate_site_inbox_url(actor_id: &ApubUrl) -> (r: ApubUrl)
    ensures
        r@ == with_path(actor_id@, "/site_inbox"@),
{
    let mut u = actor_id.copied();
    u.path = String::from_str("/site_inbox");
    u
}

/// The host-level shared inbox reached from an actor's own address: the
/// actor's scheme, host and port with the whole path replaced by `/inbox`.
/// Shared inboxes are host-level, so the actor-specific path is discarded;
/// an address without a host has no shared inbox.
pub fn generate_shared_inbox_url(actor_id: &ApubUrl) -> (r: Result<ApubUrl, IdentifierError>)
    ensures
        match r {
            Ok(u) => actor_id@.host is Some && u@ == with_path(actor_id@, "/inbox"@),
            Err(e) => actor_id@.host is None && e == IdentifierError::MissingHost,
        },
{
    match &actor_id.host {
        Some(_) => {
            let mut u = actor_id.copied();
            u.path = String::from_str("/inbox");
            Ok(u)
        },
        None => Err(IdentifierError::MissingHost),
    }
}

fn append_to_path(base: &ApubUrl, suffix: &str) -> (r: ApubUrl)
    ensures
        r@ == with_path_suffix(base@, suffix@),
{
    let mut u = base.copied();
    u.path.append(suffix);
    u
}

/// Canonical address derivation is deterministic: the identifier text, and
/// with it the parsed address, is a function of the endpoint type, the name
/// and the domain alone.
pub proof fn lemma_endpoint_generation_deterministic(
    t1: EndpointType,
    t2: EndpointType,
    name1: Seq<char>,
    name2: Seq<char>,
    domain1: Seq<char>,
    domain2: Seq<char>,
)
    requires
        t1 == t2,
        name1 == name2,
        domain1 == domain2,
    ensures
        local_endpoint_text(t1, name1, domain1) == local_endpoint_text(t2, name2, domain2),
        parsed_url(local_endpoint_text(t1, name1, domain1)) == parsed_url(
            local_endpoint_text(t2, name2, domain2),
        ),
{
}

/// Distinct endpoint types never collide: for one domain and one name, two
/// distinct endpoint types compose distinct canonical identifier texts.
pub proof fn lemma_endpoint_types_never_collide(
    t1: EndpointType,
    t2: EndpointType,
    name: Seq<char>,
    domain: Seq<char>,
)
    requires
        t1 != t2,
    ensures
        local_endpoint_text(t1, name, domain) != local_endpoint_text(t2, name, domain),
{
    let s1 = local_endpoint_text(t1, name, domain);
    let s2 = local_endpoint_text(t2, name, domain);
    let g1 = endpoint_segment(t1);
    let g2 = endpoint_segment(t2);
    assert(s1.len() == domain.len() + 1 + g1.len() + 1 + name.len());
    assert(s2.len() == domain.len() + 1 + g2.len() + 1 + name.len());
    if g1.len() == g2.len() {
        // The only distinct types whose segments share a length are
        // communities (`c`) and persons (`u`); they differ in their first
        // character.
        assert(s1[domain.len() as int + 1] == g1[0]);
        assert(s2[domain.len() as int + 1] == g2[0]);
        assert(g1[0] != g2[0]);
    }
}

} // verus!
