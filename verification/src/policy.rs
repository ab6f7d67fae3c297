//! The domain-trust policy: the pure decision whether a candidate
//! identifier may be federated with, given the local configuration.

use vstd::prelude::*;
use crate::urls::{ApubUrl, UrlModel};

verus! {

/// The process-wide federation policy configuration, captured from the
/// instance settings. The allow-list and block-list are administrator-curated
/// sets of lowercase domains.
#[derive(Debug)]
pub struct FederationConfig {
    /// Whether federation is enabled at all.
    pub federation_enabled: bool,
    /// The protocol scheme this instance federates over, `http` or `https`.
    pub scheme: String,
    /// The local hostname, without a port.
    pub hostname: String,
    /// Domains explicitly permitted to federate, where an allow-list is
    /// configured.
    pub allowed_instances: Option<Vec<String>>,
    /// Domains forbidden to federate, where a block-list is configured.
    pub blocked_instances: Option<Vec<String>>,
    /// Whether every federated object must pass the allow-list, not only
    /// communities.
    pub strict_allowlist: bool,
}

/// Why a candidate identifier was refused. `InvalidIdentifier` marks an
/// unusable identifier — a caller or data bug; every other variant is an
/// expected policy rejection, surfaced to inbound callers as a client error
/// and never retried.
#[derive(Clone, Copy, Debug, PartialEq, Eq, Structural)]
pub enum PolicyError {
    /// The identifier has no domain to judge.
    InvalidIdentifier,
    /// Federation is disabled instance-wide.
    FederationDisabled,
    /// The identifier's scheme differs from the configured protocol scheme.
    InvalidScheme,
    /// The domain stands on the block-list.
    DomainBlocked,
    /// An allow-list is configured and the domain is not on it.
    NotInAllowlist,
    /// The strictness-aware check consulted the allow-list and the domain is
    /// neither on it nor the local hostname.
    ForbiddenByStrictAllowlist,
}

/// Membership of the text `d` in a list of strings.
pub open spec fn contains_text(l: Seq<String>, d: Seq<char>) -> bool {
    exists|i: int| 0 <= i < l.len() && l[i]@ == d
}

/// Whether the configuration blocks domain `d`.
pub open spec fn domain_blocked(c: FederationConfig, d: Seq<char>) -> bool {
    c.blocked_instances is Some && contains_text(c.blocked_instances.unwrap()@, d)
}

/// The basic decision over a candidate URL and the configuration, in order:
/// local traffic always passes; then federation must be enabled, the scheme
/// must match, the domain must not be blocked, and where an allow-list is
/// configured the domain must stand on it.
pub open spec fn basic_decision(u: UrlModel, c: FederationConfig) -> Result<(), PolicyError> {
    if u.host is None {
        Err(PolicyError::InvalidIdentifier)
    } else {
        let d = u.host.unwrap();
        if d == c.hostname@ {
            Ok(())
        } else if !c.federation_enabled {
            Err(PolicyError::FederationDisabled)
        } else if u.scheme != c.scheme@ {
            Err(PolicyError::InvalidScheme)
        } else if domain_blocked(c, d) {
            Err(PolicyError::DomainBlocked)
        } else if c.allowed_instances is Some && !contains_text(c.allowed_instances.unwrap()@, d) {
            Err(PolicyError::NotInAllowlist)
        } else {
            Ok(())
        }
    }
}

/// The strictness-aware decision: as the basic decision, except that the
/// allow-list is consulted only when the caller validates a community (or a
/// post or comment of a locally hosted community, `is_strict`) or the
/// instance-wide strict-allowlist mode is on — and then with the local
/// hostname implicitly admitted, so that local objects embedded in a remote
/// payload are never rejected.
pub open spec fn strictness_decision(u: UrlModel, is_strict: bool, c: FederationConfig) -> Result<
    (),
    PolicyError,
> {
    if u.host is None {
        Err(PolicyError::InvalidIdentifier)
    } else {
        let d = u.host.unwrap();
        if d == c.hostname@ {
            Ok(())
        } else if !c.federation_enabled {
            Err(PolicyError::FederationDisabled)
        } else if u.scheme != c.scheme@ {
            Err(PolicyError::InvalidScheme)
        } else if domain_blocked(c, d) {
            Err(PolicyError::DomainBlocked)
        } else if c.allowed_instances is Some && (is_strict || c.strict_allowlist)
            && !contains_text(c.allowed_instances.unwrap()@.push(c.hostname), d) {
            Err(PolicyError::ForbiddenByStrictAllowlist)
        } else {
            Ok(())
        }
    }
}

fn list_contains(l: &Vec<String>, d: &String) -> (r: bool)
    ensures
        r == contains_text(l@, d@),
{
    let mut i: usize = 0;
    while i < l.len()
        invariant
            0 <= i <= l@.len(),
            forall|j: int| 0 <= j < i ==> l@[j]@ != d@,
        decreases l@.len() - i,
    {
        if l[i] == *d {
            return true;
        }
        i = i + 1;
    }
    false
}

/// Membership in a list extended by one element.
proof fn lemma_contains_push(l: Seq<String>, h: String, d: Seq<char>)
    ensures
        contains_text(l.push(h), d) <==> (contains_text(l, d) || h@ == d),
{
    if contains_text(l.push(h), d) {
        let i = choose|i: int| 0 <= i < l.push(h).len() && l.push(h)[i]@ == d;
        if i < l.len() {
            assert(l[i]@ == d);
        } else {
            assert(l.push(h)[l.len() as int]@ == d);
        }
    }
    if contains_text(l, d) {
        let i = choose|i: int| 0 <= i < l.len() && l[i]@ == d;
        assert(l.push(h)[i]@ == d);
    }
    if h@ == d {
        assert(l.push(h)[l.len() as int]@ == d);
    }
}

/// Decides whether the identifier is allowed for sending or receiving,
/// under the basic rule that consults a configured allow-list for every
/// candidate. Pure: no side effects, recomputed per check.
pub fn check_apub_id_valid(apub_id: &ApubUrl, config: &FederationConfig) -> (r: Result<
    (),
    PolicyError,
>)
    ensures
        r == basic_decision(apub_id@, *config),
{
    let d = match &apub_id.host {
        Some(d) => d,
        None => {
            return Err(PolicyError::InvalidIdentifier);
        },
    };
    if *d == config.hostname {
        return Ok(());
    }
    if !config.federation_enabled {
        return Err(PolicyError::FederationDisabled);
    }
    if apub_id.scheme != config.scheme {
        return Err(PolicyError::InvalidScheme);
    }
    match &config.blocked_instances {
        Some(blocked) => {
            if list_contains(blocked, d) {
                return Err(PolicyError::DomainBlocked);
            }
        },
        None => (),
    }
    match &config.allowed_instances {
        Some(allowed) => {
            if !list_contains(allowed, d) {
                return Err(PolicyError::NotInAllowlist);
            }
        },
        None => (),
    }
    Ok(())
}

/// Decides whether the identifier is allowed for sending or receiving.
/// `is_strict` is true exactly when the caller validates a community
/// identifier, or a post or comment that belongs to a locally hosted
/// community; every other validation passes false and the allow-list is then
/// consulted only if the instance-wide strict-allowlist mode is on.
pub fn check_apub_id_valid_with_strictness(
    apub_id: &ApubUrl,
    is_strict: bool,
    config: &FederationConfig,
) -> (r: Result<(), PolicyError>)
    ensures
        r == strictness_decision(apub_id@, is_strict, *config),
{
    let d = match &apub_id.host {
        Some(d) => d,
        None => {
            return Err(PolicyError::InvalidIdentifier);
        },
    };
    if *d == config.hostname {
        return Ok(());
    }
    if !config.federation_enabled {
        return Err(PolicyError::FederationDisabled);
    }
    if apub_id.scheme != config.scheme {
        return Err(PolicyError::InvalidScheme);
    }
    match &config.blocked_instances {
        Some(blocked) => {
            if list_contains(blocked, d) {
                return Err(PolicyError::DomainBlocked);
            }
        },
        None => (),
    }
    match &config.allowed_instances {
        Some(allowed) => {
            if is_strict || config.strict_allowlist {
                // The local hostname is implicitly on the effective
                // allow-list; this branch is reached only when the domain
                // differs from it.
                proof {
                    lemma_contains_push(allowed@, config.hostname, d@);
                }
                if !list_contains(allowed, d) {
                    return Err(PolicyError::ForbiddenByStrictAllowlist);
                }
            }
        },
        None => (),
    }
    Ok(())
}

/// Local traffic bypasses every federation gate: a candidate whose domain is
/// the local hostname is allowed whatever the allow-list, block-list,
/// strictness and federation-enabled state say.
pub proof fn lemma_local_domain_always_allowed(u: UrlModel, is_strict: bool, c: FederationConfig)
    requires
        u.host == Some(c.hostname@),
    ensures
        basic_decision(u, c) == Ok::<(), PolicyError>(()),
        strictness_decision(u, is_strict, c) == Ok::<(), PolicyError>(()),
{
}

/// The block-list takes precedence: a remote domain on it is denied, even
/// where it also stands on the allow-list, under both decisions. (A blocked
/// domain equal to the local hostname is still served: local traffic
/// bypasses the gates.)
pub proof fn lemma_blocklist_precedence(u: UrlModel, is_strict: bool, c: FederationConfig)
    requires
        u.host is Some,
        u.host.unwrap() != c.hostname@,
        domain_blocked(c, u.host.unwrap()),
    ensures
        basic_decision(u, c) is Err,
        strictness_decision(u, is_strict, c) is Err,
        c.federation_enabled && u.scheme == c.scheme@ ==> basic_decision(u, c) == Err::<
            (),
            PolicyError,
        >(PolicyError::DomainBlocked),
        c.federation_enabled && u.scheme == c.scheme@ ==> strictness_decision(u, is_strict, c)
            == Err::<(), PolicyError>(PolicyError::DomainBlocked),
{
}

/// With an allow-list configured, a remote domain absent from it is denied
/// under the strict check; under the lenient check with the instance-wide
/// strict-allowlist mode off, the allow-list is not consulted and the domain
/// is allowed, absent a block-list match.
pub proof fn lemma_allowlist_strictness(u: UrlModel, c: FederationConfig)
    requires
        u.host is Some,
        u.host.unwrap() != c.hostname@,
        c.allowed_instances is Some,
        !contains_text(c.allowed_instances.unwrap()@, u.host.unwrap()),
    ensures
        strictness_decision(u, true, c) is Err,
        c.federation_enabled && u.scheme == c.scheme@ && !c.strict_allowlist && !domain_blocked(
            c,
            u.host.unwrap(),
        ) ==> strictness_decision(u, false, c) == Ok::<(), PolicyError>(()),
{
    lemma_contains_push(c.allowed_instances.unwrap()@, c.hostname, u.host.unwrap());
}

} // verus!
