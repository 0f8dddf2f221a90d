//! The load tester: a single test user that sends notes mentioning a target
//! bot, and the timing of the replies it gets back.

use vstd::prelude::*;

use crate::activities::{
    create_below, create_id_may_fail, is_create_below, is_note_below, mentions_view, note_below,
    note_id_may_fail, public_audience, public_audience_text, strings_view, Create, Mention, Note,
};
use crate::ids::generate_actor_keypair;
use crate::urls::{join_url, joined_url, opt_view, parse_url, parsed_url};
use crate::users::{main_key_id, PublicKey, PublicKeyView};

verus! {

/// The tester's user, as the federation protocol sends it.
#[derive(Debug)]
pub struct User {
    pub id: String,
    pub preferred_username: String,
    pub name: String,
    pub inbox: String,
    pub outbox: String,
    pub public_key: PublicKey,
    pub private_key: Option<String>,
}

pub struct UserView {
    pub id: Seq<char>,
    pub preferred_username: Seq<char>,
    pub name: Seq<char>,
    pub inbox: Seq<char>,
    pub outbox: Seq<char>,
    pub public_key: PublicKeyView,
    pub private_key: Option<Seq<char>>,
}

impl View for User {
    type V = UserView;

    open spec fn view(&self) -> UserView {
        UserView {
            id: self.id@,
            preferred_username: self.preferred_username@,
            name: self.name@,
            inbox: self.inbox@,
            outbox: self.outbox@,
            public_key: self.public_key@,
            private_key: opt_view(self.private_key),
        }
    }
}

impl Clone for User {
    fn clone(&self) -> (res: Self)
        ensures
            res@ == self@,
    {
        User {
            id: self.id.clone(),
            preferred_username: self.preferred_username.clone(),
            name: self.name.clone(),
            inbox: self.inbox.clone(),
            outbox: self.outbox.clone(),
            public_key: self.public_key.clone(),
            private_key: match &self.private_key {
                Some(k) => Some(k.clone()),
                None => None,
            },
        }
    }
}

/// Why the tester could not be set up.
#[derive(Debug)]
pub enum TesterSetupError {
    /// One of the tester's URLs could not be built.
    BadUrl,
    /// The key pair could not be generated.
    KeyPair,
}

/// The tester's base URL: `https://{domain}/`, parsed.
pub open spec fn tester_base_url(domain: Seq<char>) -> Option<Seq<char>> {
    parsed_url("https://"@ + domain + "/"@)
}

/// The test user's URL: `./user/{test_user}` below the base URL.
pub open spec fn tester_user_url(domain: Seq<char>, test_user: Seq<char>) -> Option<Seq<char>> {
    match tester_base_url(domain) {
        Some(base) => joined_url(base, "./user/"@ + test_user),
        None => None,
    }
}

/// All of the tester's URLs can be built.
pub open spec fn tester_urls_build(domain: Seq<char>, test_user: Seq<char>) -> bool {
    &&& tester_user_url(domain, test_user) is Some
    &&& joined_url(tester_user_url(domain, test_user)->0, "./inbox"@) is Some
    &&& joined_url(tester_user_url(domain, test_user)->0, "./outbox"@) is Some
}

pub struct AmallgamTesterContextView {
    pub base_url: Seq<char>,
    pub user: UserView,
    pub target_user: Seq<char>,
}

/// `ctx` is the tester set up for `domain` with the test user `test_user`
/// targeting `target`: its base URL is `https://{domain}/`, its user's URL
/// `./user/{test_user}` below it, the user's inbox and outbox `./inbox` and
/// `./outbox` below that, its main key the user URL's, and it holds a private
/// key.
pub open spec fn tester_context_of(ctx: AmallgamTesterContextView, domain: Seq<char>, test_user: Seq<char>, target: Seq<char>) -> bool {
    let user_url = tester_user_url(domain, test_user)->0;
    &&& tester_urls_build(domain, test_user)
    &&& tester_base_url(domain) == Some(ctx.base_url)
    &&& ctx.user.id == user_url
    &&& ctx.user.preferred_username == test_user
    &&& ctx.user.name == test_user
    &&& joined_url(user_url, "./inbox"@) == Some(ctx.user.inbox)
    &&& joined_url(user_url, "./outbox"@) == Some(ctx.user.outbox)
    &&& ctx.user.public_key.id == main_key_id(user_url)
    &&& ctx.user.public_key.owner == user_url
    &&& ctx.user.private_key is Some
    &&& ctx.target_user == target
}

/// The tester's state that its logic reads.
#[derive(Debug)]
pub struct AmallgamTesterContext {
    pub base_url: String,
    pub user: User,
    pub target_user: String,
}

impl View for AmallgamTesterContext {
    type V = AmallgamTesterContextView;

    open spec fn view(&self) -> AmallgamTesterContextView {
        AmallgamTesterContextView { base_url: self.base_url@, user: self.user@, target_user: self.target_user@ }
    }
}

impl AmallgamTesterContext {
    /// The tester for `domain_name`, with the test user `test_user` (its name
    /// and preferred username), a fresh key pair, and the bot it targets.
    pub fn new(domain_name: &str, test_user: &str, target_user: String) -> (res: Result<AmallgamTesterContext, TesterSetupError>)
        ensures
            match res {
                Ok(ctx) => tester_context_of(ctx@, domain_name@, test_user@, target_user@),
                Err(TesterSetupError::BadUrl) => !tester_urls_build(domain_name@, test_user@),
                Err(TesterSetupError::KeyPair) => true,
            },
    {
        let (private_key, public_key_pem) = match generate_actor_keypair() {
            Some(kp) => kp,
            None => return Err(TesterSetupError::KeyPair),
        };
        match AmallgamTesterContext::with_keys(domain_name, test_user, target_user, private_key, public_key_pem) {
            Some(ctx) => Ok(ctx),
            None => Err(TesterSetupError::BadUrl),
        }
    }

    /// The tester for `domain_name`, with the test user `test_user`, the given
    /// key pair, and the bot it targets; `None` where one of its URLs cannot
    /// be built.
    pub fn with_keys(
        domain_name: &str,
        test_user: &str,
        target_user: String,
        private_key: String,
        public_key_pem: String,
    ) -> (res: Option<AmallgamTesterContext>)
        ensures
            match res {
                Some(ctx) => {
                    &&& tester_context_of(ctx@, domain_name@, test_user@, target_user@)
                    &&& ctx.user@.private_key == Some(private_key@)
                    &&& ctx.user@.public_key.public_key_pem == public_key_pem@
                },
                None => !tester_urls_build(domain_name@, test_user@),
            },
    {
        let base_text = String::from_str("https://").concat(domain_name).concat("/");
        let base_url = match parse_url(base_text.as_str()) {
            Some(b) => b,
            None => return None,
        };
        let user_path = String::from_str("./user/").concat(test_user);
        let user_url = match join_url(base_url.as_str(), user_path.as_str()) {
            Some(u) => u,
            None => return None,
        };
        let inbox = match join_url(user_url.as_str(), "./inbox") {
            Some(u) => u,
            None => return None,
        };
        let outbox = match join_url(user_url.as_str(), "./outbox") {
            Some(u) => u,
            None => return None,
        };
        let user = User {
            id: user_url.clone(),
            preferred_username: String::from_str(test_user),
            name: String::from_str(test_user),
            inbox,
            outbox,
            public_key: PublicKey::new(user_url, public_key_pem),
            private_key: Some(private_key),
        };
        Some(AmallgamTesterContext { base_url, user, target_user })
    }

    /// A `Create` activity with a fresh id below the tester's base URL;
    /// `None` where its id cannot be built.
    pub fn new_create_activity<T: View>(&self, actor: String, to: Vec<String>, cc: Vec<String>, object: T) -> (res: Option<Create<T>>)
        ensures
            match res {
                Some(c) => is_create_below(self.base_url@, c@, actor@, strings_view(to@), strings_view(cc@), object@),
                None => create_id_may_fail(self.base_url@),
            },
    {
        create_below(self.base_url.as_str(), actor, to, cc, object)
    }

    /// The note of a test run: an empty note by the test user to the target,
    /// mentioning it, in a public `Create` activity whose actor is the
    /// target. `None` where an id cannot be built.
    pub fn test_note(&self) -> (res: Option<Create<Note>>)
        ensures
            match res {
                Some(c) => {
                    &&& is_note_below(
                        self.base_url@,
                        c@.object,
                        self.user@.id,
                        seq![self.target_user@],
                        Seq::empty(),
                        Seq::empty(),
                        None,
                        seq![self.target_user@],
                    )
                    &&& is_create_below(self.base_url@, c@, self.target_user@, seq![public_audience_text()], Seq::empty(), c@.object)
                },
                None => create_id_may_fail(self.base_url@) || note_id_may_fail(self.base_url@),
            },
    {
        let mut note_to: Vec<String> = Vec::new();
        note_to.push(self.target_user.clone());
        let note_cc: Vec<String> = Vec::new();
        let mut tag: Vec<Mention> = Vec::new();
        tag.push(Mention::for_user(self.target_user.clone()));
        assert(strings_view(note_to@) =~= seq![self.target_user@]);
        assert(strings_view(note_cc@) =~= Seq::<Seq<char>>::empty());
        assert(mentions_view(tag@) =~= seq![self.target_user@]);
        let note = match note_below(self.base_url.as_str(), self.user.id.clone(), note_to, note_cc, String::new(), None, tag) {
            Some(n) => n,
            None => return None,
        };
        let mut to: Vec<String> = Vec::new();
        to.push(public_audience());
        let cc: Vec<String> = Vec::new();
        assert(strings_view(to@) =~= seq![public_audience_text()]);
        assert(strings_view(cc@) =~= Seq::<Seq<char>>::empty());
        self.new_create_activity(self.target_user.clone(), to, cc, note)
    }

    /// Whether the tester serves the user named `user_id`: only its test user.
    pub fn serves_user(&self, user_id: &str) -> (res: bool)
        ensures
            res == (user_id@ == self.user@.name),
    {
        String::from_str(user_id) == self.user.name
    }

    /// The actor with the given id: the test user, or nobody.
    pub fn actor_for(&self, object_id: &str) -> (res: Option<User>)
        ensures
            match res {
                Some(u) => object_id@ == self.user@.id && u@ == self.user@,
                None => object_id@ != self.user@.id,
            },
    {
        if String::from_str(object_id) == self.user.id {
            Some(self.user.clone())
        } else {
            None
        }
    }
}

/// The pause between two test notes at `rate` notes per second, in
/// nanoseconds: one second divided by the rate, as `Duration` divides.
pub fn send_gap_nanos(rate: u32) -> (res: u64)
    requires
        rate > 0,
    ensures
        res == 1_000_000_000int / (rate as int),
{
    1_000_000_000u64 / (rate as u64)
}

} // verus!
