//! Users: the bots served here and the remote users that talk to them, with
//! what the federation protocol reads of an actor.

use vstd::prelude::*;

use crate::errors::AmallgamError;
use crate::model_config::ModelId;
use crate::urls::{domain_of, join_url, joined_url, opt_view, url_domain};

verus! {

/// The id of the main key of an actor: the actor's id followed by `#main-key`.
pub open spec fn main_key_id(owner: Seq<char>) -> Seq<char> {
    owner + "#main-key"@
}

/// The public key of an actor.
#[derive(Debug)]
pub struct PublicKey {
    pub id: String,
    pub owner: String,
    pub public_key_pem: String,
}

pub struct PublicKeyView {
    pub id: Seq<char>,
    pub owner: Seq<char>,
    pub public_key_pem: Seq<char>,
}

impl View for PublicKey {
    type V = PublicKeyView;

    open spec fn view(&self) -> PublicKeyView {
        PublicKeyView { id: self.id@, owner: self.owner@, public_key_pem: self.public_key_pem@ }
    }
}

impl Clone for PublicKey {
    fn clone(&self) -> (res: Self)
        ensures
            res@ == self@,
    {
        PublicKey { id: self.id.clone(), owner: self.owner.clone(), public_key_pem: self.public_key_pem.clone() }
    }
}

impl PublicKey {
    /// The main key of `owner`, with the given PEM.
    pub fn new(owner: String, public_key_pem: String) -> (res: PublicKey)
        ensures
            res@ == (PublicKeyView { id: main_key_id(owner@), owner: owner@, public_key_pem: public_key_pem@ }),
    {
        let id = owner.clone().concat("#main-key");
        PublicKey { id, owner, public_key_pem }
    }
}

/// The endpoints that an actor publishes.
#[derive(Debug)]
pub struct Endpoints {
    pub shared_inbox: String,
}

impl Clone for Endpoints {
    fn clone(&self) -> (res: Self)
        ensures
            res.shared_inbox@ == self.shared_inbox@,
    {
        Endpoints { shared_inbox: self.shared_inbox.clone() }
    }
}

/// The view of optional endpoints: the shared inbox, where there is one.
pub open spec fn endpoints_view(e: Option<Endpoints>) -> Option<Seq<char>> {
    match e {
        Some(e) => Some(e.shared_inbox@),
        None => None,
    }
}

/// A user as the federation protocol sends it.
#[derive(Debug)]
pub struct ProtocolUser {
    pub id: String,
    pub preferred_username: String,
    pub name: String,
    pub inbox: String,
    pub outbox: String,
    pub public_key: PublicKey,
    pub endpoints: Option<Endpoints>,
}

pub struct ProtocolUserView {
    pub id: Seq<char>,
    pub preferred_username: Seq<char>,
    pub name: Seq<char>,
    pub inbox: Seq<char>,
    pub outbox: Seq<char>,
    pub public_key: PublicKeyView,
    pub shared_inbox: Option<Seq<char>>,
}

impl View for ProtocolUser {
    type V = ProtocolUserView;

    open spec fn view(&self) -> ProtocolUserView {
        ProtocolUserView {
            id: self.id@,
            preferred_username: self.preferred_username@,
            name: self.name@,
            inbox: self.inbox@,
            outbox: self.outbox@,
            public_key: self.public_key@,
            shared_inbox: endpoints_view(self.endpoints),
        }
    }
}

impl Clone for ProtocolUser {
    fn clone(&self) -> (res: Self)
        ensures
            res@ == self@,
    {
        let endpoints = match &self.endpoints {
            Some(e) => Some(e.clone()),
            None => None,
        };
        ProtocolUser {
            id: self.id.clone(),
            preferred_username: self.preferred_username.clone(),
            name: self.name.clone(),
            inbox: self.inbox.clone(),
            outbox: self.outbox.clone(),
            public_key: self.public_key.clone(),
            endpoints,
        }
    }
}

/// A user: a bot served by this instance, or a user of another instance.
#[derive(Debug)]
pub enum User {
    Local {
        base_url: String,
        user_id: String,
        display_name: String,
        public_key_pem: String,
        private_key_pem: String,
        model_id: ModelId,
        system_prompt: String,
    },
    Remote(ProtocolUser),
}

pub enum UserView {
    Local {
        base_url: Seq<char>,
        user_id: Seq<char>,
        display_name: Seq<char>,
        public_key_pem: Seq<char>,
        private_key_pem: Seq<char>,
        model_id: Seq<char>,
        system_prompt: Seq<char>,
    },
    Remote(ProtocolUserView),
}

impl View for User {
    type V = UserView;

    open spec fn view(&self) -> UserView {
        match self {
            User::Local { base_url, user_id, display_name, public_key_pem, private_key_pem, model_id, system_prompt } =>
                UserView::Local {
                    base_url: base_url@,
                    user_id: user_id@,
                    display_name: display_name@,
                    public_key_pem: public_key_pem@,
                    private_key_pem: private_key_pem@,
                    model_id: model_id@,
                    system_prompt: system_prompt@,
                },
            User::Remote(p) => UserView::Remote(p@),
        }
    }
}

impl Clone for User {
    fn clone(&self) -> (res: Self)
        ensures
            res@ == self@,
    {
        match self {
            User::Local { base_url, user_id, display_name, public_key_pem, private_key_pem, model_id, system_prompt } =>
                User::Local {
                    base_url: base_url.clone(),
                    user_id: user_id.clone(),
                    display_name: display_name.clone(),
                    public_key_pem: public_key_pem.clone(),
                    private_key_pem: private_key_pem.clone(),
                    model_id: model_id.clone(),
                    system_prompt: system_prompt.clone(),
                },
            User::Remote(p) => User::Remote(p.clone()),
        }
    }
}

impl UserView {
    /// The user's id: a bot's base URL, or the id that a remote user sent.
    pub open spec fn id(self) -> Seq<char> {
        match self {
            UserView::Local { base_url, .. } => base_url,
            UserView::Remote(p) => p.id,
        }
    }

    pub open spec fn display_name(self) -> Seq<char> {
        match self {
            UserView::Local { display_name, .. } => display_name,
            UserView::Remote(p) => p.name,
        }
    }

    pub open spec fn public_key_pem(self) -> Seq<char> {
        match self {
            UserView::Local { public_key_pem, .. } => public_key_pem,
            UserView::Remote(p) => p.public_key.public_key_pem,
        }
    }

    /// Only bots hold a private key.
    pub open spec fn private_key_pem(self) -> Option<Seq<char>> {
        match self {
            UserView::Local { private_key_pem, .. } => Some(private_key_pem),
            UserView::Remote(_) => None,
        }
    }

    /// A bot's inbox is `./inbox` below its base URL (`None` where that join
    /// fails); a remote user's is the one it sent.
    pub open spec fn inbox(self) -> Option<Seq<char>> {
        match self {
            UserView::Local { base_url, .. } => joined_url(base_url, "./inbox"@),
            UserView::Remote(p) => Some(p.inbox),
        }
    }

    pub open spec fn outbox(self) -> Option<Seq<char>> {
        match self {
            UserView::Local { base_url, .. } => joined_url(base_url, "./outbox"@),
            UserView::Remote(p) => Some(p.outbox),
        }
    }

    /// Bots have no shared inbox; a remote user's is the one in its endpoints.
    pub open spec fn shared_inbox(self) -> Option<Seq<char>> {
        match self {
            UserView::Local { .. } => None,
            UserView::Remote(p) => p.shared_inbox,
        }
    }

    /// Where activities for the user are delivered: its shared inbox where it
    /// has one, else its inbox.
    pub open spec fn shared_inbox_or_inbox(self) -> Option<Seq<char>> {
        match self.shared_inbox() {
            Some(s) => Some(s),
            None => self.inbox(),
        }
    }

    /// The main key of the user, built from its id and its public key PEM.
    pub open spec fn public_key(self) -> PublicKeyView {
        PublicKeyView { id: main_key_id(self.id()), owner: self.id(), public_key_pem: self.public_key_pem() }
    }

    /// The protocol form of the user. A bot's is built from its base URL,
    /// user id, display name and key (`None` where its inbox or outbox URL
    /// cannot be built); a remote user's is the one it sent.
    pub open spec fn protocol(self) -> Option<ProtocolUserView> {
        match self {
            UserView::Local { base_url, user_id, display_name, .. } => {
                match (self.inbox(), self.outbox()) {
                    (Some(inbox), Some(outbox)) => Some(ProtocolUserView {
                        id: base_url,
                        preferred_username: user_id,
                        name: display_name,
                        inbox,
                        outbox,
                        public_key: self.public_key(),
                        shared_inbox: None,
                    }),
                    _ => None,
                }
            },
            UserView::Remote(p) => Some(p),
        }
    }
}

impl User {
    pub fn display_name(&self) -> (res: &str)
        ensures
            res@ == self@.display_name(),
    {
        match self {
            User::Local { display_name, .. } => display_name.as_str(),
            User::Remote(p) => p.name.as_str(),
        }
    }

    /// A bot's user id; remote users have none.
    pub fn local_user_id(&self) -> (res: Option<String>)
        ensures
            match self@ {
                UserView::Local { user_id, .. } => opt_view(res) == Some(user_id),
                UserView::Remote(_) => res is None,
            },
    {
        match self {
            User::Local { user_id, .. } => Some(user_id.clone()),
            User::Remote(_) => None,
        }
    }

    pub fn id(&self) -> (res: String)
        ensures
            res@ == self@.id(),
    {
        match self {
            User::Local { base_url, .. } => base_url.clone(),
            User::Remote(p) => p.id.clone(),
        }
    }

    pub fn public_key_pem(&self) -> (res: &str)
        ensures
            res@ == self@.public_key_pem(),
    {
        match self {
            User::Local { public_key_pem, .. } => public_key_pem.as_str(),
            User::Remote(p) => p.public_key.public_key_pem.as_str(),
        }
    }

    pub fn private_key_pem(&self) -> (res: Option<String>)
        ensures
            opt_view(res) == self@.private_key_pem(),
    {
        match self {
            User::Local { private_key_pem, .. } => Some(private_key_pem.clone()),
            User::Remote(_) => None,
        }
    }

    /// The user's inbox; `None` where a bot's inbox URL cannot be built.
    pub fn inbox(&self) -> (res: Option<String>)
        ensures
            opt_view(res) == self@.inbox(),
    {
        match self {
            User::Local { base_url, .. } => join_url(base_url.as_str(), "./inbox"),
            User::Remote(p) => Some(p.inbox.clone()),
        }
    }

    pub fn shared_inbox(&self) -> (res: Option<String>)
        ensures
            opt_view(res) == self@.shared_inbox(),
    {
        match self {
            User::Local { .. } => None,
            User::Remote(p) => match &p.endpoints {
                Some(e) => Some(e.shared_inbox.clone()),
                None => None,
            },
        }
    }

    pub fn shared_inbox_or_inbox(&self) -> (res: Option<String>)
        ensures
            opt_view(res) == self@.shared_inbox_or_inbox(),
    {
        match self.shared_inbox() {
            Some(s) => Some(s),
            None => self.inbox(),
        }
    }

    pub fn public_key(&self) -> (res: PublicKey)
        ensures
            res@ == self@.public_key(),
    {
        let pem = String::from_str(self.public_key_pem());
        PublicKey::new(self.id(), pem)
    }

    /// The protocol form of the user; `None` where a bot's inbox or outbox URL
    /// cannot be built.
    pub fn into_json(self) -> (res: Option<ProtocolUser>)
        ensures
            match res {
                Some(p) => self@.protocol() == Some(p@),
                None => self@.protocol() is None,
            },
    {
        let public_key = self.public_key();
        match self {
            User::Local { base_url, user_id, display_name, .. } => {
                let inbox = join_url(base_url.as_str(), "./inbox");
                let outbox = join_url(base_url.as_str(), "./outbox");
                match (inbox, outbox) {
                    (Some(inbox), Some(outbox)) => Some(ProtocolUser {
                        id: base_url,
                        preferred_username: user_id,
                        name: display_name,
                        inbox,
                        outbox,
                        public_key,
                        endpoints: None,
                    }),
                    _ => None,
                }
            },
            User::Remote(p) => Some(p),
        }
    }

    /// A user received over the protocol is a remote user.
    pub fn from_json(json: ProtocolUser) -> (res: User)
        ensures
            res@ == UserView::Remote(json@),
    {
        User::Remote(json)
    }

    /// A received user is accepted only where its id is on the domain it was
    /// fetched from.
    pub fn verify(json: &ProtocolUser, expected_domain: &str) -> (res: Result<(), AmallgamError>)
        ensures
            res is Ok <==> url_domain(json.id@) == url_domain(expected_domain@),
            res matches Err(e) ==> e is DomainsDoNotMatch,
    {
        verify_domains_match(json.id.as_str(), expected_domain)
    }
}

/// Two URLs whose domains are `a` and `b` pass the domain check where the
/// domains are equal (both or neither naming one).
pub fn check_domains(a: &Option<String>, b: &Option<String>) -> (res: Result<(), AmallgamError>)
    ensures
        res is Ok <==> opt_view(*a) == opt_view(*b),
        res matches Err(e) ==> e is DomainsDoNotMatch,
{
    let same = match (a, b) {
        (Some(x), Some(y)) => *x == *y,
        (None, None) => true,
        _ => false,
    };
    if same {
        Ok(())
    } else {
        Err(AmallgamError::DomainsDoNotMatch)
    }
}

/// Two URLs name the same domain (both or neither naming one).
pub fn verify_domains_match(a: &str, b: &str) -> (res: Result<(), AmallgamError>)
    ensures
        res is Ok <==> url_domain(a@) == url_domain(b@),
        res matches Err(e) ==> e is DomainsDoNotMatch,
{
    let da = domain_of(a);
    let db = domain_of(b);
    check_domains(&da, &db)
}

/// A user received over the protocol and turned back into its protocol form
/// is what was received.
pub proof fn lemma_remote_user_roundtrip(p: ProtocolUserView)
    ensures
        UserView::Remote(p).protocol() == Some(p),
{
}

/// The protocol form of a user carries the user's id, inbox, shared inbox and
/// public key PEM, and for a bot its main key.
pub proof fn lemma_protocol_form_agrees(u: UserView)
    requires
        u.protocol() is Some,
    ensures
        u.protocol()->0.id == u.id(),
        Some(u.protocol()->0.inbox) == u.inbox(),
        Some(u.protocol()->0.outbox) == u.outbox(),
        u.protocol()->0.shared_inbox == u.shared_inbox(),
        u.protocol()->0.public_key.public_key_pem == u.public_key_pem(),
        u is Local ==> u.protocol()->0.public_key == u.public_key(),
{
}

} // verus!
