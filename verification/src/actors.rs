//! The actor capability set: what any federated actor — server instance,
//! person, or community — must expose so that deliveries can be addressed
//! and requests signed. Private key material is held only for actors this
//! server owns; remote actors never carry it.

use vstd::prelude::*;
use vstd::string::StringExecFns;
use crate::urls::{ApubUrl, UrlModel, opt_text, url_text};

verus! {

/// A public-key descriptor, published with an actor's profile and used to
/// authenticate signed requests.
#[derive(Debug)]
pub struct PublicKey {
    /// The key's own identifier: the owner's identifier with the fragment
    /// `#main-key`.
    pub id: String,
    /// The actor that owns the key.
    pub owner: ApubUrl,
    /// The PEM-encoded public key material.
    pub public_key_pem: String,
}

impl PublicKey {
    /// The main-key descriptor of the actor at `owner_id`.
    pub fn new_main_key(owner_id: ApubUrl, public_key_pem: String) -> (r: PublicKey)
        ensures
            r.id@ == url_text(owner_id@) + "#main-key"@,
            r.owner == owner_id,
            r.public_key_pem == public_key_pem,
    {
        let mut id = owner_id.to_text();
        id.append("#main-key");
        PublicKey { id, owner: owner_id, public_key_pem }
    }
}

/// The capability set of a federated actor. This is an interface, not a
/// class hierarchy: each actor kind provides the capabilities
/// independently, and the two derived capabilities follow from them.
pub trait ActorType {
    /// The model of the actor's canonical, stable identifier — the
    /// federation-wide primary key.
    spec fn actor_id_spec(&self) -> UrlModel;

    /// The model of the actor's own inbox address.
    spec fn inbox_spec(&self) -> UrlModel;

    /// The model of the actor's host-level shared inbox, where one exists.
    spec fn shared_inbox_spec(&self) -> Option<UrlModel>;

    /// The actor's private key material, held only for locally owned
    /// actors.
    spec fn private_key_spec(&self) -> Option<Seq<char>>;

    /// The actor's PEM-encoded public key material.
    spec fn public_key_spec(&self) -> Seq<char>;

    /// The actor's canonical identifier.
    fn actor_id(&self) -> (r: ApubUrl)
        ensures
            r@ == self.actor_id_spec(),
    ;

    /// The actor's own inbox address.
    fn inbox_url(&self) -> (r: ApubUrl)
        ensures
            r@ == self.inbox_spec(),
    ;

    /// The actor's shared inbox address, where one exists.
    fn shared_inbox_url(&self) -> (r: Option<ApubUrl>)
        ensures
            match r {
                Some(u) => self.shared_inbox_spec() == Some(u@),
                None => self.shared_inbox_spec() is None,
            },
    ;

    /// The actor's private key material, for locally owned actors.
    fn private_key(&self) -> (r: Option<String>)
        ensures
            opt_text(r) == self.private_key_spec(),
    ;

    /// The actor's raw public key material.
    fn public_key(&self) -> (r: String)
        ensures
            r@ == self.public_key_spec(),
    ;

    /// Where a delivery to this actor goes: the shared inbox where one
    /// exists, else the actor's own inbox — so deliveries to many actors on
    /// one remote host can be batched.
    fn shared_inbox_or_inbox_url(&self) -> (r: ApubUrl)
        ensures
            r@ == (match self.shared_inbox_spec() {
                Some(u) => u,
                None => self.inbox_spec(),
            }),
    {
        match self.shared_inbox_url() {
            Some(u) => u,
            None => self.inbox_url(),
        }
    }

    /// The public-key descriptor published with the actor's profile: its
    /// main key, owned by the actor itself.
    fn get_public_key(&self) -> (r: PublicKey)
        ensures
            r.owner@ == self.actor_id_spec(),
            r.public_key_pem@ == self.public_key_spec(),
            r.id@ == url_text(self.actor_id_spec()) + "#main-key"@,
    {
        PublicKey::new_main_key(self.actor_id(), self.public_key())
    }
}

/// The kinds of actor this platform federates: a closed, enumerable set.
#[derive(Clone, Copy, Debug, PartialEq, Eq, Structural)]
pub enum ActorKind {
    /// The server-level actor of one instance.
    Instance,
    /// A person.
    Person,
    /// A community.
    Community,
}

/// One federated actor record, of any kind.
#[derive(Debug)]
pub struct Actor {
    /// Which kind of actor this is.
    pub kind: ActorKind,
    /// The canonical identifier.
    pub id: ApubUrl,
    /// The actor's own inbox.
    pub inbox: ApubUrl,
    /// The host-level shared inbox, where the actor's server has one.
    pub shared_inbox: Option<ApubUrl>,
    /// The PEM-encoded public key material.
    pub public_key_pem: String,
    /// The private key material; present only for locally owned actors.
    pub private_key_pem: Option<String>,
}

impl ActorType for Actor {
    open spec fn actor_id_spec(&self) -> UrlModel {
        self.id@
    }

    open spec fn inbox_spec(&self) -> UrlModel {
        self.inbox@
    }

    open spec fn shared_inbox_spec(&self) -> Option<UrlModel> {
        match self.shared_inbox {
            Some(u) => Some(u@),
            None => None,
        }
    }

    open spec fn private_key_spec(&self) -> Option<Seq<char>> {
        opt_text(self.private_key_pem)
    }

    open spec fn public_key_spec(&self) -> Seq<char> {
        self.public_key_pem@
    }

    fn actor_id(&self) -> (r: ApubUrl) {
        self.id.copied()
    }

    fn inbox_url(&self) -> (r: ApubUrl) {
        self.inbox.copied()
    }

    fn shared_inbox_url(&self) -> (r: Option<ApubUrl>) {
        match &self.shared_inbox {
            Some(u) => Some(u.copied()),
            None => None,
        }
    }

    fn private_key(&self) -> (r: Option<String>) {
        match &self.private_key_pem {
            Some(k) => Some(k.clone()),
            None => None,
        }
    }

    fn public_key(&self) -> (r: String) {
        self.public_key_pem.clone()
    }
}

} // verus!
