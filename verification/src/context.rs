//! The server's configuration and what it derives from it: its URLs, its bot
//! users, how users are stored and looked up, and the activities it builds.

use vstd::prelude::*;

use crate::activities::{
    create_below, create_id_may_fail, is_create_below, is_note_below, mentions_view, note_below,
    note_id_may_fail, public_audience, public_audience_text, strings_view, Create, Mention, Note,
    PendingActivity,
};
use crate::errors::AmallgamError;
use crate::ids::generate_actor_keypair;
use crate::model_config::ModelId;
use crate::sessions::SessionSlots;
use crate::text::{is_local_url, url_is_local, user_id_from_path, user_id_in_path};
use crate::urls::{join_url, joined_url, opt_view, parse_url, parsed_url, path_of, url_path};
use crate::users::{ProtocolUser, ProtocolUserView, User, UserView};

verus! {

/// The server's configuration.
#[derive(Debug)]
pub struct AmallgamConfig {
    /// Domain name to listen for federation requests on
    pub domain_name: String,
    /// URL to database
    pub db_url: String,
    /// Path to models
    pub models_folder: String,
    /// Maximum number of LLM sessions that can run simultaneously
    pub max_simultaneous_sessions: usize,
    /// Number of CPU cores assigned for each session
    pub num_cores_per_session: u32,
}

/// The URL of the database below the server's root folder.
pub open spec fn database_url_text(root: Seq<char>) -> Seq<char> {
    "sqlite://"@ + root + "/data/data.db"@
}

impl AmallgamConfig {
    /// The URL of the database kept in `data/data.db` below the root folder;
    /// `None` where that text does not parse as a URL.
    pub fn database_url(root: &str) -> (res: Option<String>)
        ensures
            opt_view(res) == parsed_url(database_url_text(root@)),
    {
        let text = String::from_str("sqlite://").concat(root).concat("/data/data.db");
        parse_url(text.as_str())
    }
}

/// The text that the server's base URL is parsed from.
pub open spec fn base_url_text(domain: Seq<char>) -> Seq<char> {
    "https://"@ + domain
}

/// The path, relative to the server's base URL, of a bot user.
pub open spec fn user_path_text(user_id: Seq<char>) -> Seq<char> {
    "./user/"@ + user_id + "/"@
}

/// The columns that the database stores for a bot user.
#[derive(Debug)]
pub struct BotUserRow {
    pub id: String,
    pub display_name: String,
    pub public_key: String,
    pub private_key: String,
    pub model_id: String,
    pub system_prompt: String,
}

pub struct BotUserRowView {
    pub id: Seq<char>,
    pub display_name: Seq<char>,
    pub public_key: Seq<char>,
    pub private_key: Seq<char>,
    pub model_id: Seq<char>,
    pub system_prompt: Seq<char>,
}

impl View for BotUserRow {
    type V = BotUserRowView;

    open spec fn view(&self) -> BotUserRowView {
        BotUserRowView {
            id: self.id@,
            display_name: self.display_name@,
            public_key: self.public_key@,
            private_key: self.private_key@,
            model_id: self.model_id@,
            system_prompt: self.system_prompt@,
        }
    }
}

/// Where a user is kept: remote users in the cache under their id, bots in
/// the database.
#[derive(Debug)]
pub enum UserRecord {
    Cached { key: String, user: ProtocolUser },
    Persisted(BotUserRow),
}

pub enum UserRecordView {
    Cached { key: Seq<char>, user: ProtocolUserView },
    Persisted(BotUserRowView),
}

impl View for UserRecord {
    type V = UserRecordView;

    open spec fn view(&self) -> UserRecordView {
        match self {
            UserRecord::Cached { key, user } => UserRecordView::Cached { key: key@, user: user@ },
            UserRecord::Persisted(row) => UserRecordView::Persisted(row@),
        }
    }
}

/// How a user is kept: a remote user is cached under its id; a bot is
/// persisted with its id, display name, keys, model and system prompt (its
/// base URL is derived from its id when it is read back).
pub open spec fn user_record(u: UserView) -> UserRecordView {
    match u {
        UserView::Remote(p) => UserRecordView::Cached { key: p.id, user: p },
        UserView::Local { user_id, display_name, public_key_pem, private_key_pem, model_id, system_prompt, .. } =>
            UserRecordView::Persisted(BotUserRowView {
                id: user_id,
                display_name,
                public_key: public_key_pem,
                private_key: private_key_pem,
                model_id,
                system_prompt,
            }),
    }
}

/// How a user is to be stored.
pub fn record_for_user(user: User) -> (res: UserRecord)
    ensures
        res@ == user_record(user@),
{
    match user {
        User::Remote(p) => {
            let key = p.id.clone();
            UserRecord::Cached { key, user: p }
        },
        User::Local { base_url: _, user_id, display_name, public_key_pem, private_key_pem, model_id, system_prompt } =>
            UserRecord::Persisted(BotUserRow {
                id: user_id,
                display_name,
                public_key: public_key_pem,
                private_key: private_key_pem,
                model_id: model_id.0,
                system_prompt,
            }),
    }
}

/// What looking a user up by its URL asks for.
#[derive(Debug)]
pub enum UserLookup {
    /// A local URL: the bot with this user id, from the database.
    LocalBot { user_id: String },
    /// A URL of another instance: nothing is looked up.
    NotLocal,
}

/// Why a bot user could not be made.
#[derive(Debug)]
pub enum BotUserError {
    /// The key pair could not be generated.
    KeyPair,
    /// The bot's URL could not be built.
    BadUrl,
}

/// The server's configuration and its base URL.
pub struct AmallgamContext {
    config: AmallgamConfig,
    server_base_url: String,
}

impl AmallgamContext {
    /// The domain the server listens on.
    pub closed spec fn domain(&self) -> Seq<char> {
        self.config.domain_name@
    }

    /// The server's base URL.
    pub closed spec fn base_url(&self) -> Seq<char> {
        self.server_base_url@
    }

    pub closed spec fn max_sessions(&self) -> nat {
        self.config.max_simultaneous_sessions as nat
    }

    pub closed spec fn cores_per_session(&self) -> u32 {
        self.config.num_cores_per_session
    }

    pub closed spec fn db_url(&self) -> Seq<char> {
        self.config.db_url@
    }

    pub closed spec fn models_folder(&self) -> Seq<char> {
        self.config.models_folder@
    }

    /// The context of a configuration: its base URL is `https://` followed by
    /// the domain, parsed; `None` where that does not parse.
    pub fn new(config: AmallgamConfig) -> (res: Option<AmallgamContext>)
        ensures
            match res {
                Some(c) => {
                    &&& parsed_url(base_url_text(config.domain_name@)) == Some(c.base_url())
                    &&& c.domain() == config.domain_name@
                    &&& c.db_url() == config.db_url@
                    &&& c.models_folder() == config.models_folder@
                    &&& c.max_sessions() == config.max_simultaneous_sessions
                    &&& c.cores_per_session() == config.num_cores_per_session
                },
                None => parsed_url(base_url_text(config.domain_name@)) is None,
            },
    {
        let text = String::from_str("https://").concat(config.domain_name.as_str());
        match parse_url(text.as_str()) {
            Some(server_base_url) => Some(AmallgamContext { config, server_base_url }),
            None => None,
        }
    }

    pub fn domain_name(&self) -> (res: &str)
        ensures
            res@ == self.domain(),
    {
        self.config.domain_name.as_str()
    }

    pub fn db_url_text(&self) -> (res: &str)
        ensures
            res@ == self.db_url(),
    {
        self.config.db_url.as_str()
    }

    pub fn models_folder_text(&self) -> (res: &str)
        ensures
            res@ == self.models_folder(),
    {
        self.config.models_folder.as_str()
    }

    /// The number of CPU cores that each LLM session runs on.
    pub fn num_cores_per_session(&self) -> (res: u32)
        ensures
            res == self.cores_per_session(),
    {
        self.config.num_cores_per_session
    }

    /// An empty session pool sized by the configuration.
    pub fn new_session_slots(&self) -> (res: SessionSlots)
        ensures
            res.running() == 0,
            res.capacity() == self.max_sessions(),
    {
        SessionSlots::new(self.config.max_simultaneous_sessions)
    }

    /// `suffix` joined onto the server's base URL.
    pub fn server_relative_url(&self, suffix: &str) -> (res: Option<String>)
        ensures
            opt_view(res) == joined_url(self.base_url(), suffix@),
    {
        join_url(self.server_base_url.as_str(), suffix)
    }

    /// The base URL of a bot: `./user/{user_id}/` below the server's.
    pub open spec fn user_base_url_of(&self, user_id: Seq<char>) -> Option<Seq<char>> {
        joined_url(self.base_url(), user_path_text(user_id))
    }

    pub fn user_base_url(&self, user_id: &str) -> (res: Option<String>)
        ensures
            opt_view(res) == self.user_base_url_of(user_id@),
    {
        let path = String::from_str("./user/").concat(user_id).concat("/");
        self.server_relative_url(path.as_str())
    }

    /// A new bot: its URL derives from its id, its display name is its id, and
    /// it gets a fresh key pair.
    pub fn new_bot_user(&self, user_id: &str, model_id: ModelId, system_prompt: String) -> (res: Result<User, BotUserError>)
        ensures
            match res {
                Ok(u) => match u@ {
                    UserView::Local { base_url, user_id: id, display_name, model_id: m, system_prompt: p, .. } => {
                        &&& self.user_base_url_of(user_id@) == Some(base_url)
                        &&& id == user_id@
                        &&& display_name == user_id@
                        &&& m == model_id@
                        &&& p == system_prompt@
                    },
                    UserView::Remote(_) => false,
                },
                Err(BotUserError::BadUrl) => self.user_base_url_of(user_id@) is None,
                Err(BotUserError::KeyPair) => true,
            },
    {
        let (private_key_pem, public_key_pem) = match generate_actor_keypair() {
            Some(kp) => kp,
            None => return Err(BotUserError::KeyPair),
        };
        match self.bot_user_with_keys(user_id, model_id, system_prompt, private_key_pem, public_key_pem) {
            Some(u) => Ok(u),
            None => Err(BotUserError::BadUrl),
        }
    }

    /// The bot with the given id, model, system prompt and key pair: its URL
    /// derives from its id, and its display name is its id. `None` where its
    /// URL cannot be built.
    pub fn bot_user_with_keys(
        &self,
        user_id: &str,
        model_id: ModelId,
        system_prompt: String,
        private_key_pem: String,
        public_key_pem: String,
    ) -> (res: Option<User>)
        ensures
            match res {
                Some(u) => u@ == (UserView::Local {
                    base_url: self.user_base_url_of(user_id@)->0,
                    user_id: user_id@,
                    display_name: user_id@,
                    public_key_pem: public_key_pem@,
                    private_key_pem: private_key_pem@,
                    model_id: model_id@,
                    system_prompt: system_prompt@,
                }) && self.user_base_url_of(user_id@) is Some,
                None => self.user_base_url_of(user_id@) is None,
            },
    {
        let base_url = match self.user_base_url(user_id) {
            Some(b) => b,
            None => return None,
        };
        Some(User::Local {
            base_url,
            user_id: String::from_str(user_id),
            display_name: String::from_str(user_id),
            public_key_pem,
            private_key_pem,
            model_id,
            system_prompt,
        })
    }

    /// The bot that a stored row describes.
    pub open spec fn user_from_row(&self, row: BotUserRowView) -> Option<UserView> {
        match self.user_base_url_of(row.id) {
            Some(base_url) => Some(UserView::Local {
                base_url,
                user_id: row.id,
                display_name: row.display_name,
                public_key_pem: row.public_key,
                private_key_pem: row.private_key,
                model_id: row.model_id,
                system_prompt: row.system_prompt,
            }),
            None => None,
        }
    }

    /// The bot that a stored row describes; `None` where its URL cannot be
    /// built.
    pub fn bot_user_from_row(&self, row: BotUserRow) -> (res: Option<User>)
        ensures
            match res {
                Some(u) => self.user_from_row(row@) == Some(u@),
                None => self.user_from_row(row@) is None,
            },
    {
        match self.user_base_url(row.id.as_str()) {
            Some(base_url) => Some(User::Local {
                base_url,
                user_id: row.id,
                display_name: row.display_name,
                public_key_pem: row.public_key,
                private_key_pem: row.private_key,
                model_id: ModelId(row.model_id),
                system_prompt: row.system_prompt,
            }),
            None => None,
        }
    }

    /// Whether a URL refers to this instance.
    pub fn is_local(&self, url: &str) -> (res: bool)
        ensures
            res == url_is_local(url@, self.domain()),
    {
        is_local_url(url, self.config.domain_name.as_str())
    }

    /// What looking up a user by its URL asks for: for a local URL, the bot
    /// whose id ends the URL's path; for any other URL, nothing.
    pub open spec fn lookup_of(&self, url: Seq<char>) -> Result<Seq<char>, ()> {
        match url_path(url) {
            Some(path) => match user_id_in_path(path) {
                Some(id) => Ok(id),
                None => Err(()),
            },
            None => Err(()),
        }
    }

    pub fn user_lookup(&self, object_id: &str) -> (res: Result<UserLookup, AmallgamError>)
        ensures
            !url_is_local(object_id@, self.domain()) ==> res matches Ok(UserLookup::NotLocal),
            url_is_local(object_id@, self.domain()) ==> match res {
                Ok(UserLookup::LocalBot { user_id }) => self.lookup_of(object_id@) == Ok::<Seq<char>, ()>(user_id@),
                Ok(UserLookup::NotLocal) => false,
                Err(e) => e is BadLocalUserUrl && self.lookup_of(object_id@) is Err,
            },
    {
        if !self.is_local(object_id) {
            return Ok(UserLookup::NotLocal);
        }
        match path_of(object_id) {
            Some(path) => match user_id_from_path(path.as_str()) {
                Some(user_id) => Ok(UserLookup::LocalBot { user_id }),
                None => Err(AmallgamError::BadLocalUserUrl),
            },
            None => Err(AmallgamError::BadLocalUserUrl),
        }
    }
}

impl AmallgamContext {
    /// A `Create` activity with a fresh id below the server's base URL;
    /// `None` where its id cannot be built.
    pub fn new_create_activity<T: View>(&self, actor: String, to: Vec<String>, cc: Vec<String>, object: T) -> (res: Option<Create<T>>)
        ensures
            match res {
                Some(c) => is_create_below(self.base_url(), c@, actor@, strings_view(to@), strings_view(cc@), object@),
                None => create_id_may_fail(self.base_url()),
            },
    {
        create_below(self.server_base_url.as_str(), actor, to, cc, object)
    }

    /// A note with a fresh id below the server's base URL; `None` where its id
    /// cannot be built.
    pub fn new_note(
        &self,
        attributed_to: String,
        to: Vec<String>,
        cc: Vec<String>,
        content: String,
        in_reply_to: Option<String>,
        tag: Vec<Mention>,
    ) -> (res: Option<Note>)
        ensures
            match res {
                Some(n) => is_note_below(
                    self.base_url(),
                    n@,
                    attributed_to@,
                    strings_view(to@),
                    strings_view(cc@),
                    content@,
                    opt_view(in_reply_to),
                    mentions_view(tag@),
                ),
                None => note_id_may_fail(self.base_url()),
            },
    {
        note_below(self.server_base_url.as_str(), attributed_to, to, cc, content, in_reply_to, tag)
    }

    /// The reply that a bot sends to a note: a public note by the bot, copied
    /// to the note's author, in reply to the note, mentioning its author, and
    /// carrying the completion; wrapped in a public `Create` activity by the
    /// bot, to be delivered to the author's shared inbox or inbox. `None`
    /// where one of the URLs cannot be built.
    pub fn reply_activity(&self, bot: &User, note: &Note, note_sender: &User, completion: String) -> (res: Option<PendingActivity<Create<Note>>>)
        ensures
            match res {
                Some(p) => {
                    &&& is_note_below(
                        self.base_url(),
                        p@.activity.object,
                        bot@.id(),
                        seq![public_audience_text()],
                        seq![note@.attributed_to],
                        completion@,
                        Some(note@.id),
                        seq![note@.attributed_to],
                    )
                    &&& is_create_below(self.base_url(), p@.activity, bot@.id(), seq![public_audience_text()], Seq::empty(), p@.activity.object)
                    &&& note_sender@.shared_inbox_or_inbox() == Some(p@.target_inboxes[0])
                    &&& p@.target_inboxes.len() == 1
                },
                None => note_sender@.shared_inbox_or_inbox() is None || create_id_may_fail(self.base_url()) || note_id_may_fail(self.base_url()),
            },
    {
        let bot_id = bot.id();
        let sender_id = note.attributed_to.clone();
        let mut to: Vec<String> = Vec::new();
        to.push(public_audience());
        let mut cc: Vec<String> = Vec::new();
        cc.push(sender_id.clone());
        let mut tag: Vec<Mention> = Vec::new();
        tag.push(Mention::for_user(sender_id));
        assert(strings_view(to@) =~= seq![public_audience_text()]);
        assert(strings_view(cc@) =~= seq![note@.attributed_to]);
        assert(mentions_view(tag@) =~= seq![note@.attributed_to]);
        let reply = match self.new_note(bot_id.clone(), to, cc, completion, Some(note.id.clone()), tag) {
            Some(n) => n,
            None => return None,
        };
        let ghost reply_view = reply@;
        let mut create_to: Vec<String> = Vec::new();
        create_to.push(public_audience());
        let create_cc: Vec<String> = Vec::new();
        assert(strings_view(create_to@) =~= seq![public_audience_text()]);
        assert(strings_view(create_cc@) =~= Seq::<Seq<char>>::empty());
        let activity = match self.new_create_activity(bot_id, create_to, create_cc, reply) {
            Some(a) => a,
            None => return None,
        };
        let inbox = match note_sender.shared_inbox_or_inbox() {
            Some(i) => i,
            None => return None,
        };
        let mut target_inboxes: Vec<String> = Vec::new();
        target_inboxes.push(inbox);
        let res = PendingActivity { activity, target_inboxes };
        assert(strings_view(res.target_inboxes@) =~= seq![res.target_inboxes@[0]@]);
        Some(res)
    }

    /// The activity that hands a note over to an alias of the bot: the note,
    /// in a public `Create` activity by the bot, to be delivered to the
    /// alias's shared inbox or inbox. `None` where one of the URLs cannot be
    /// built.
    pub fn offload_activity(&self, bot: &User, note: &Note, offload_bot: &User) -> (res: Option<PendingActivity<Create<Note>>>)
        ensures
            match res {
                Some(p) => {
                    &&& is_create_below(self.base_url(), p@.activity, bot@.id(), seq![public_audience_text()], Seq::empty(), note@)
                    &&& offload_bot@.shared_inbox_or_inbox() == Some(p@.target_inboxes[0])
                    &&& p@.target_inboxes.len() == 1
                },
                None => offload_bot@.shared_inbox_or_inbox() is None || create_id_may_fail(self.base_url()),
            },
    {
        let mut to: Vec<String> = Vec::new();
        to.push(public_audience());
        let cc: Vec<String> = Vec::new();
        assert(strings_view(to@) =~= seq![public_audience_text()]);
        assert(strings_view(cc@) =~= Seq::<Seq<char>>::empty());
        let activity = match self.new_create_activity(bot.id(), to, cc, note.clone()) {
            Some(a) => a,
            None => return None,
        };
        let inbox = match offload_bot.shared_inbox_or_inbox() {
            Some(i) => i,
            None => return None,
        };
        let mut target_inboxes: Vec<String> = Vec::new();
        target_inboxes.push(inbox);
        let res = PendingActivity { activity, target_inboxes };
        assert(strings_view(res.target_inboxes@) =~= seq![res.target_inboxes@[0]@]);
        Some(res)
    }
}

/// A bot that is stored and read back is the bot that was stored, where its
/// base URL is the one that its id derives.
pub proof fn lemma_bot_user_read_back(ctx: AmallgamContext, u: UserView)
    requires
        u is Local,
        ctx.user_base_url_of(u->Local_user_id) == Some(u->Local_base_url),
    ensures
        user_record(u) is Persisted,
        ctx.user_from_row(user_record(u)->Persisted_0) == Some(u),
{
}

} // verus!
