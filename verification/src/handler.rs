//! How the server handles a note that reaches a bot's inbox in a `Create`
//! activity. The handler decides; the caller performs each action (lookups,
//! queueing, delivery) and reports back what came of it.
//!
//! A note whose `Create` comes from someone other than its author is an
//! offload: an alias of one of our bots hands it over, and the local bot of
//! that alias takes it or refuses it. Any other note goes to the first local
//! bot it mentions that exists; where that bot's session pool is full, the
//! note is offered to the bot's aliases, in random order, until one takes it.

use vstd::prelude::*;

use crate::activities::{strings_view, Note};
use crate::context::AmallgamContext;
use crate::errors::{AmallgamError, AmallgamErrorView};
use crate::ids::shuffle_strings;
use crate::text::url_is_local;
use crate::urls::opt_view;

verus! {

/// Where the handler stands.
#[derive(Debug)]
pub enum NoteStage {
    Start,
    AwaitOffloadBot,
    AwaitOffloadQueue,
    AwaitMentionedBot { index: usize },
    /// The bot that was found; `None` where it is not a local bot.
    AwaitNormalQueue { bot_user_id: Option<String> },
    AwaitAliases,
    AwaitAlias { next: usize },
    AwaitOffloadSent { next: usize },
    Finished,
}

pub enum NoteStageView {
    Start,
    AwaitOffloadBot,
    AwaitOffloadQueue,
    AwaitMentionedBot { index: int },
    AwaitNormalQueue { bot_user_id: Option<Seq<char>> },
    AwaitAliases,
    AwaitAlias { next: int },
    AwaitOffloadSent { next: int },
    Finished,
}

impl View for NoteStage {
    type V = NoteStageView;

    open spec fn view(&self) -> NoteStageView {
        match self {
            NoteStage::Start => NoteStageView::Start,
            NoteStage::AwaitOffloadBot => NoteStageView::AwaitOffloadBot,
            NoteStage::AwaitOffloadQueue => NoteStageView::AwaitOffloadQueue,
            NoteStage::AwaitMentionedBot { index } => NoteStageView::AwaitMentionedBot { index: *index as int },
            NoteStage::AwaitNormalQueue { bot_user_id } => NoteStageView::AwaitNormalQueue { bot_user_id: opt_view(*bot_user_id) },
            NoteStage::AwaitAliases => NoteStageView::AwaitAliases,
            NoteStage::AwaitAlias { next } => NoteStageView::AwaitAlias { next: *next as int },
            NoteStage::AwaitOffloadSent { next } => NoteStageView::AwaitOffloadSent { next: *next as int },
            NoteStage::Finished => NoteStageView::Finished,
        }
    }
}

/// What the caller reports back.
#[derive(Debug)]
pub enum NoteEvent {
    /// Whether a local bot is an alias of the user that offloaded the note.
    OffloadBotFound(bool),
    /// The mentioned bot exists; its user id where it is a local bot.
    MentionedBotFound { bot_user_id: Option<String> },
    /// The mentioned bot does not exist.
    MentionedBotMissing,
    /// Whether the bot's session pool took the note.
    Queued(bool),
    /// The aliases of the bot.
    AliasesFetched(Vec<String>),
    /// Whether the alias could be looked up.
    AliasFound(bool),
    /// Whether the alias took the note.
    OffloadSent(bool),
}

pub enum NoteEventView {
    OffloadBotFound(bool),
    MentionedBotFound { bot_user_id: Option<Seq<char>> },
    MentionedBotMissing,
    Queued(bool),
    AliasesFetched(Seq<Seq<char>>),
    AliasFound(bool),
    OffloadSent(bool),
}

impl View for NoteEvent {
    type V = NoteEventView;

    open spec fn view(&self) -> NoteEventView {
        match self {
            NoteEvent::OffloadBotFound(b) => NoteEventView::OffloadBotFound(*b),
            NoteEvent::MentionedBotFound { bot_user_id } => NoteEventView::MentionedBotFound { bot_user_id: opt_view(*bot_user_id) },
            NoteEvent::MentionedBotMissing => NoteEventView::MentionedBotMissing,
            NoteEvent::Queued(b) => NoteEventView::Queued(*b),
            NoteEvent::AliasesFetched(v) => NoteEventView::AliasesFetched(strings_view(v@)),
            NoteEvent::AliasFound(b) => NoteEventView::AliasFound(*b),
            NoteEvent::OffloadSent(b) => NoteEventView::OffloadSent(*b),
        }
    }
}

/// What the handler asks the caller to do.
#[derive(Debug)]
pub enum NoteAction {
    /// Find the local bot that the given user is an alias of.
    FindOffloadBot { alias: String },
    /// Look up the bot that the note's mention at `index` names.
    LookUpMentionedBot { index: usize },
    /// Try to queue up a reply by the bot that was found.
    QueueReply,
    /// Fetch the aliases of the local bot with this user id.
    FetchAliases { user_id: String },
    /// Look up this alias.
    LookUpAlias { alias: String },
    /// Hand the note over to the alias that was just looked up.
    SendOffload,
    /// The note is handled, with this outcome.
    Finish(Result<(), AmallgamError>),
}

pub enum NoteActionView {
    FindOffloadBot { alias: Seq<char> },
    LookUpMentionedBot { index: int },
    QueueReply,
    FetchAliases { user_id: Seq<char> },
    LookUpAlias { alias: Seq<char> },
    SendOffload,
    Finish(Result<(), AmallgamErrorView>),
}

impl View for NoteAction {
    type V = NoteActionView;

    open spec fn view(&self) -> NoteActionView {
        match self {
            NoteAction::FindOffloadBot { alias } => NoteActionView::FindOffloadBot { alias: alias@ },
            NoteAction::LookUpMentionedBot { index } => NoteActionView::LookUpMentionedBot { index: *index as int },
            NoteAction::QueueReply => NoteActionView::QueueReply,
            NoteAction::FetchAliases { user_id } => NoteActionView::FetchAliases { user_id: user_id@ },
            NoteAction::LookUpAlias { alias } => NoteActionView::LookUpAlias { alias: alias@ },
            NoteAction::SendOffload => NoteActionView::SendOffload,
            NoteAction::Finish(r) => NoteActionView::Finish(match r {
                Ok(()) => Ok(()),
                Err(e) => Err(e@),
            }),
        }
    }
}

/// The handler of one received note.
pub struct NoteHandler {
    offload_from: Option<String>,
    local_mentions: Vec<bool>,
    aliases: Vec<String>,
    stage: NoteStage,
}

pub struct NoteHandlerView {
    /// The user that offloaded the note, where it is an offload.
    pub offload_from: Option<Seq<char>>,
    /// For each mention of the note, whether it names a local user.
    pub local_mentions: Seq<bool>,
    /// The bot's aliases, in the order they are tried.
    pub aliases: Seq<Seq<char>>,
    pub stage: NoteStageView,
}

impl View for NoteHandler {
    type V = NoteHandlerView;

    closed spec fn view(&self) -> NoteHandlerView {
        NoteHandlerView {
            offload_from: opt_view(self.offload_from),
            local_mentions: self.local_mentions@,
            aliases: strings_view(self.aliases@),
            stage: self.stage@,
        }
    }
}

/// The first local mention at or after position `i`.
pub open spec fn first_local_from(locals: Seq<bool>, i: int) -> Option<int>
    decreases locals.len() - i,
{
    if i < 0 || i >= locals.len() {
        None
    } else if locals[i] {
        Some(i)
    } else {
        first_local_from(locals, i + 1)
    }
}

/// Scanning the mentions from position `i`: look up the first local one, or
/// finish without error where there is none.
pub open spec fn scan_from(locals: Seq<bool>, i: int) -> (NoteStageView, NoteActionView) {
    match first_local_from(locals, i) {
        Some(j) => (NoteStageView::AwaitMentionedBot { index: j }, NoteActionView::LookUpMentionedBot { index: j }),
        None => (NoteStageView::Finished, NoteActionView::Finish(Ok(()))),
    }
}

/// Trying the aliases from position `k`: look up the alias there, or, with
/// every alias tried, give up.
pub open spec fn try_alias_from(aliases: Seq<Seq<char>>, k: int) -> (NoteStageView, NoteActionView) {
    if 0 <= k < aliases.len() {
        (NoteStageView::AwaitAlias { next: k }, NoteActionView::LookUpAlias { alias: aliases[k] })
    } else {
        (NoteStageView::Finished, NoteActionView::Finish(Err(AmallgamErrorView::ResourcesUnavailable)))
    }
}

/// The first action: an offload looks up the local bot of the alias that sent
/// it; any other note scans its mentions.
pub open spec fn start_of(h: NoteHandlerView) -> (NoteStageView, NoteActionView) {
    match h.offload_from {
        Some(alias) => (NoteStageView::AwaitOffloadBot, NoteActionView::FindOffloadBot { alias }),
        None => scan_from(h.local_mentions, 0),
    }
}

/// The events that the handler waits for in its stage. A full session pool
/// cannot be reported for a mentioned bot that is not local: the server does
/// not serve such a note.
pub open spec fn expects(h: NoteHandlerView, e: NoteEventView) -> bool {
    match (h.stage, e) {
        (NoteStageView::AwaitOffloadBot, NoteEventView::OffloadBotFound(_)) => true,
        (NoteStageView::AwaitOffloadQueue, NoteEventView::Queued(_)) => true,
        (NoteStageView::AwaitMentionedBot { .. }, NoteEventView::MentionedBotFound { .. }) => true,
        (NoteStageView::AwaitMentionedBot { .. }, NoteEventView::MentionedBotMissing) => true,
        (NoteStageView::AwaitNormalQueue { bot_user_id }, NoteEventView::Queued(q)) => q || bot_user_id is Some,
        (NoteStageView::AwaitAliases, NoteEventView::AliasesFetched(_)) => true,
        (NoteStageView::AwaitAlias { .. }, NoteEventView::AliasFound(_)) => true,
        (NoteStageView::AwaitOffloadSent { .. }, NoteEventView::OffloadSent(_)) => true,
        _ => false,
    }
}

/// The next stage and action after event `e`, where `aliases` is the order in
/// which the aliases are tried.
pub open spec fn transition(h: NoteHandlerView, e: NoteEventView, aliases: Seq<Seq<char>>) -> (NoteStageView, NoteActionView) {
    match (h.stage, e) {
        (NoteStageView::AwaitOffloadBot, NoteEventView::OffloadBotFound(found)) =>
            if found {
                (NoteStageView::AwaitOffloadQueue, NoteActionView::QueueReply)
            } else {
                (NoteStageView::Finished, NoteActionView::Finish(Err(AmallgamErrorView::OffloadBotNotFound { alias: h.offload_from->0 })))
            },
        (NoteStageView::AwaitOffloadQueue, NoteEventView::Queued(q)) =>
            if q {
                (NoteStageView::Finished, NoteActionView::Finish(Ok(())))
            } else {
                (NoteStageView::Finished, NoteActionView::Finish(Err(AmallgamErrorView::SessionQueueFull)))
            },
        (NoteStageView::AwaitMentionedBot { .. }, NoteEventView::MentionedBotFound { bot_user_id }) =>
            (NoteStageView::AwaitNormalQueue { bot_user_id }, NoteActionView::QueueReply),
        (NoteStageView::AwaitMentionedBot { index }, NoteEventView::MentionedBotMissing) =>
            scan_from(h.local_mentions, index + 1),
        (NoteStageView::AwaitNormalQueue { bot_user_id }, NoteEventView::Queued(q)) =>
            if q {
                (NoteStageView::Finished, NoteActionView::Finish(Ok(())))
            } else {
                (NoteStageView::AwaitAliases, NoteActionView::FetchAliases { user_id: bot_user_id->0 })
            },
        (NoteStageView::AwaitAliases, NoteEventView::AliasesFetched(_)) => try_alias_from(aliases, 0),
        (NoteStageView::AwaitAlias { next }, NoteEventView::AliasFound(found)) =>
            if found {
                (NoteStageView::AwaitOffloadSent { next }, NoteActionView::SendOffload)
            } else {
                try_alias_from(aliases, next + 1)
            },
        (NoteStageView::AwaitOffloadSent { next }, NoteEventView::OffloadSent(ok)) =>
            if ok {
                (NoteStageView::Finished, NoteActionView::Finish(Ok(())))
            } else {
                try_alias_from(aliases, next + 1)
            },
        // an event that the stage does not wait for; `expects` rules it out
        _ => (h.stage, NoteActionView::QueueReply),
    }
}

/// How far the handler is from its end: its phase, and within the phase how
/// many mentions or aliases are left.
pub open spec fn phase(s: NoteStageView) -> nat {
    match s {
        NoteStageView::Start => 5,
        NoteStageView::AwaitOffloadBot => 4,
        NoteStageView::AwaitMentionedBot { .. } => 4,
        NoteStageView::AwaitOffloadQueue => 3,
        NoteStageView::AwaitNormalQueue { .. } => 3,
        NoteStageView::AwaitAliases => 2,
        NoteStageView::AwaitAlias { .. } => 1,
        NoteStageView::AwaitOffloadSent { .. } => 1,
        NoteStageView::Finished => 0,
    }
}

pub open spec fn left_in_phase(h: NoteHandlerView) -> int {
    match h.stage {
        NoteStageView::AwaitMentionedBot { index } => h.local_mentions.len() - index,
        NoteStageView::AwaitAlias { next } => 2 * (h.aliases.len() - next),
        NoteStageView::AwaitOffloadSent { next } => 2 * (h.aliases.len() - next) - 1,
        _ => 0,
    }
}

/// `b` is further along than `a`.
pub open spec fn advances(a: NoteHandlerView, b: NoteHandlerView) -> bool {
    ||| phase(b.stage) < phase(a.stage)
    ||| (phase(b.stage) == phase(a.stage) && 0 <= left_in_phase(b) < left_in_phase(a))
}

impl NoteHandler {
    #[verifier::type_invariant]
    closed spec fn well_formed(&self) -> bool {
        &&& self.stage matches NoteStage::AwaitMentionedBot { index } ==> index < self.local_mentions.len()
        &&& self.stage matches NoteStage::AwaitAlias { next } ==> next < self.aliases.len()
        &&& self.stage matches NoteStage::AwaitOffloadSent { next } ==> next < self.aliases.len()
        &&& self.stage matches NoteStage::AwaitOffloadBot ==> self.offload_from is Some
        &&& self.stage matches NoteStage::AwaitOffloadQueue ==> self.offload_from is Some
    }

    /// The handler of `note`, received in a `Create` activity by
    /// `create_actor`. The note is an offload where the activity's actor is
    /// not the note's author.
    pub fn new(ctx: &AmallgamContext, create_actor: &str, note: &Note) -> (res: NoteHandler)
        ensures
            res@.offload_from == (if create_actor@ != note@.attributed_to { Some(create_actor@) } else { None::<Seq<char>> }),
            res@.local_mentions.len() == note@.tag.len(),
            forall|i: int| 0 <= i < note@.tag.len() ==>
                #[trigger] res@.local_mentions[i] == url_is_local(note@.tag[i], ctx.domain()),
            res@.aliases.len() == 0,
            res@.stage == NoteStageView::Start,
    {
        let actor = String::from_str(create_actor);
        let offload_from = if actor == note.attributed_to { None } else { Some(actor) };
        let mut local_mentions: Vec<bool> = Vec::new();
        let mut i: usize = 0;
        while i < note.tag.len()
            invariant
                i <= note.tag.len(),
                local_mentions@.len() == i,
                forall|j: int| 0 <= j < i ==>
                    #[trigger] local_mentions@[j] == url_is_local(note@.tag[j], ctx.domain()),
            decreases note.tag.len() - i,
        {
            let local = ctx.is_local(note.tag[i].href.as_str());
            local_mentions.push(local);
            i = i + 1;
        }
        let aliases: Vec<String> = Vec::new();
        assert(strings_view(aliases@) =~= Seq::<Seq<char>>::empty());
        NoteHandler { offload_from, local_mentions, aliases, stage: NoteStage::Start }
    }

    /// Whether the handler waits for `e`.
    pub fn accepts(&self, e: &NoteEvent) -> (res: bool)
        ensures
            res == expects(self@, e@),
    {
        match (&self.stage, e) {
            (NoteStage::AwaitOffloadBot, NoteEvent::OffloadBotFound(_)) => true,
            (NoteStage::AwaitOffloadQueue, NoteEvent::Queued(_)) => true,
            (NoteStage::AwaitMentionedBot { .. }, NoteEvent::MentionedBotFound { .. }) => true,
            (NoteStage::AwaitMentionedBot { .. }, NoteEvent::MentionedBotMissing) => true,
            (NoteStage::AwaitNormalQueue { bot_user_id }, NoteEvent::Queued(q)) => *q || bot_user_id.is_some(),
            (NoteStage::AwaitAliases, NoteEvent::AliasesFetched(_)) => true,
            (NoteStage::AwaitAlias { .. }, NoteEvent::AliasFound(_)) => true,
            (NoteStage::AwaitOffloadSent { .. }, NoteEvent::OffloadSent(_)) => true,
            _ => false,
        }
    }

    fn scan(&self, from: usize) -> (res: (NoteStage, NoteAction))
        requires
            from <= self.local_mentions.len(),
        ensures
            (res.0@, res.1@) == scan_from(self@.local_mentions, from as int),
            res.0 matches NoteStage::AwaitMentionedBot { index } ==> index < self.local_mentions.len(),
    {
        let mut j: usize = from;
        while j < self.local_mentions.len() && !self.local_mentions[j]
            invariant
                from <= j <= self.local_mentions.len(),
                first_local_from(self.local_mentions@, from as int) == first_local_from(self.local_mentions@, j as int),
            decreases self.local_mentions.len() - j,
        {
            j = j + 1;
        }
        if j < self.local_mentions.len() {
            (NoteStage::AwaitMentionedBot { index: j }, NoteAction::LookUpMentionedBot { index: j })
        } else {
            (NoteStage::Finished, NoteAction::Finish(Ok(())))
        }
    }

    fn try_alias(&self, k: usize) -> (res: (NoteStage, NoteAction))
        requires
            k <= self.aliases.len(),
        ensures
            (res.0@, res.1@) == try_alias_from(self@.aliases, k as int),
            res.0 matches NoteStage::AwaitAlias { next } ==> next < self.aliases.len(),
    {
        if k < self.aliases.len() {
            (NoteStage::AwaitAlias { next: k }, NoteAction::LookUpAlias { alias: self.aliases[k].clone() })
        } else {
            (NoteStage::Finished, NoteAction::Finish(Err(AmallgamError::ResourcesUnavailable)))
        }
    }

    /// The first action of the handler.
    pub fn start(&mut self) -> (action: NoteAction)
        requires
            old(self)@.stage == NoteStageView::Start,
        ensures
            (final(self)@.stage, action@) == start_of(old(self)@),
            final(self)@.offload_from == old(self)@.offload_from,
            final(self)@.local_mentions == old(self)@.local_mentions,
            final(self)@.aliases == old(self)@.aliases,
            advances(old(self)@, final(self)@),
    {
        proof { use_type_invariant(&*self); }
        let (stage, action) = match &self.offload_from {
            Some(alias) => (NoteStage::AwaitOffloadBot, NoteAction::FindOffloadBot { alias: alias.clone() }),
            None => self.scan(0),
        };
        self.stage = stage;
        action
    }

    /// The next action after event `e`.
    pub fn step(&mut self, e: NoteEvent) -> (action: NoteAction)
        requires
            expects(old(self)@, e@),
        ensures
            final(self)@.offload_from == old(self)@.offload_from,
            final(self)@.local_mentions == old(self)@.local_mentions,
            e@ is AliasesFetched ==> final(self)@.aliases.to_multiset() == e@->AliasesFetched_0.to_multiset(),
            e@ is AliasesFetched ==> final(self)@.aliases.len() == e@->AliasesFetched_0.len(),
            !(e@ is AliasesFetched) ==> final(self)@.aliases == old(self)@.aliases,
            (final(self)@.stage, action@) == transition(old(self)@, e@, final(self)@.aliases),
            advances(old(self)@, final(self)@),
    {
        proof { use_type_invariant(&*self); }
        let ghost e_view = e@;
        let (stage, action) = match e {
            NoteEvent::OffloadBotFound(found) => {
                if found {
                    (NoteStage::AwaitOffloadQueue, NoteAction::QueueReply)
                } else {
                    let alias = match &self.offload_from {
                        Some(a) => a.clone(),
                        None => String::new(),
                    };
                    (NoteStage::Finished, NoteAction::Finish(Err(AmallgamError::OffloadBotNotFound { alias })))
                }
            },
            NoteEvent::MentionedBotFound { bot_user_id } => (NoteStage::AwaitNormalQueue { bot_user_id }, NoteAction::QueueReply),
            NoteEvent::MentionedBotMissing => {
                let index = match &self.stage {
                    NoteStage::AwaitMentionedBot { index } => *index,
                    _ => 0,
                };
                proof { lemma_scan_picks_first_local(self.local_mentions@, index + 1); }
                self.scan(index + 1)
            },
            NoteEvent::Queued(q) => {
                match &self.stage {
                    NoteStage::AwaitOffloadQueue => {
                        if q {
                            (NoteStage::Finished, NoteAction::Finish(Ok(())))
                        } else {
                            (NoteStage::Finished, NoteAction::Finish(Err(AmallgamError::SessionQueueFull)))
                        }
                    },
                    NoteStage::AwaitNormalQueue { bot_user_id } => {
                        if q {
                            (NoteStage::Finished, NoteAction::Finish(Ok(())))
                        } else {
                            let user_id = match bot_user_id {
                                Some(u) => u.clone(),
                                None => String::new(),
                            };
                            (NoteStage::AwaitAliases, NoteAction::FetchAliases { user_id })
                        }
                    },
                    _ => (NoteStage::Finished, NoteAction::Finish(Ok(()))),
                }
            },
            NoteEvent::AliasesFetched(aliases) => {
                let mut aliases = aliases;
                shuffle_strings(&mut aliases);
                self.aliases = aliases;
                self.try_alias(0)
            },
            NoteEvent::AliasFound(found) => {
                let next = match &self.stage {
                    NoteStage::AwaitAlias { next } => *next,
                    _ => 0,
                };
                if found {
                    (NoteStage::AwaitOffloadSent { next }, NoteAction::SendOffload)
                } else {
                    self.try_alias(next + 1)
                }
            },
            NoteEvent::OffloadSent(ok) => {
                let next = match &self.stage {
                    NoteStage::AwaitOffloadSent { next } => *next,
                    _ => 0,
                };
                if ok {
                    (NoteStage::Finished, NoteAction::Finish(Ok(())))
                } else {
                    self.try_alias(next + 1)
                }
            },
        };
        self.stage = stage;
        action
    }
}

/// A bot is looked up only for a local mention, the first local one at or
/// after the scan position; where no local mention is left, the note is
/// handled without error and without reply.
pub proof fn lemma_scan_picks_first_local(locals: Seq<bool>, i: int)
    requires
        0 <= i,
    ensures
        match first_local_from(locals, i) {
            Some(j) => i <= j < locals.len() && locals[j] && forall|k: int| i <= k < j ==> !locals[k],
            None => forall|k: int| i <= k < locals.len() ==> !locals[k],
        },
    decreases locals.len() - i,
{
    if i < locals.len() && !locals[i] {
        lemma_scan_picks_first_local(locals, i + 1);
    }
}

/// A note is given up with `ResourcesUnavailable` only when the alias
/// position has passed the last alias, i.e. every alias was tried.
pub proof fn lemma_gives_up_after_all_aliases(aliases: Seq<Seq<char>>, k: int)
    requires
        0 <= k,
    ensures
        try_alias_from(aliases, k).1 == NoteActionView::Finish(Err(AmallgamErrorView::ResourcesUnavailable))
            <==> k >= aliases.len(),
{
}

/// A note that names no existing local bot is dropped quietly: when the bot of
/// the mention at `index` is missing and no later mention is local, the
/// handler finishes without error (so the sending server does not retry).
pub proof fn lemma_missing_last_bot_finishes_quietly(h: NoteHandlerView, index: int, aliases: Seq<Seq<char>>)
    requires
        h.stage == (NoteStageView::AwaitMentionedBot { index }),
        0 <= index,
        forall|j: int| index < j < h.local_mentions.len() ==> !h.local_mentions[j],
    ensures
        transition(h, NoteEventView::MentionedBotMissing, aliases)
            == (NoteStageView::Finished, NoteActionView::Finish(Ok::<(), AmallgamErrorView>(()))),
{
    lemma_scan_picks_first_local(h.local_mentions, index + 1);
}

/// When the bot of a mention is missing, the next local mention, if any, is
/// looked up; nothing else is done.
pub proof fn lemma_missing_bot_tries_next_local(h: NoteHandlerView, index: int, next: int, aliases: Seq<Seq<char>>)
    requires
        h.stage == (NoteStageView::AwaitMentionedBot { index }),
        0 <= index < next < h.local_mentions.len(),
        h.local_mentions[next],
        forall|j: int| index < j < next ==> !h.local_mentions[j],
    ensures
        transition(h, NoteEventView::MentionedBotMissing, aliases).1 == (NoteActionView::LookUpMentionedBot { index: next }),
{
    lemma_scan_picks_first_local(h.local_mentions, index + 1);
}

/// On the normal path (not an offload), a note is finished with an error only
/// after a bot was found and its pool refused the note: only once its aliases
/// were fetched.
pub proof fn lemma_normal_errors_only_after_refusal(h: NoteHandlerView, e: NoteEventView, aliases: Seq<Seq<char>>)
    requires
        !(h.stage is AwaitOffloadBot),
        !(h.stage is AwaitOffloadQueue),
        expects(h, e),
        transition(h, e, aliases).1 matches NoteActionView::Finish(Err(_)),
    ensures
        h.stage is AwaitAliases || h.stage is AwaitAlias || h.stage is AwaitOffloadSent,
{
    match h.stage {
        NoteStageView::AwaitMentionedBot { index } => {
            lemma_scan_picks_first_local(h.local_mentions, index + 1);
        },
        _ => {},
    }
}

/// An alias that cannot be looked up, or that refuses the note, is skipped:
/// the next alias is looked up where there is one.
pub proof fn lemma_failed_alias_tries_next(h: NoteHandlerView, e: NoteEventView, k: int, aliases: Seq<Seq<char>>)
    requires
        0 <= k,
        k + 1 < aliases.len(),
        (h.stage == (NoteStageView::AwaitAlias { next: k }) && e == NoteEventView::AliasFound(false))
            || (h.stage == (NoteStageView::AwaitOffloadSent { next: k }) && e == NoteEventView::OffloadSent(false)),
    ensures
        transition(h, e, aliases) == (NoteStageView::AwaitAlias { next: k + 1 }, NoteActionView::LookUpAlias { alias: aliases[k + 1] }),
{
}

/// `ResourcesUnavailable` is answered only once every alias has been tried:
/// from the last alias, or from an empty alias list.
pub proof fn lemma_unavailable_only_after_last_alias(h: NoteHandlerView, e: NoteEventView, aliases: Seq<Seq<char>>)
    requires
        expects(h, e),
        transition(h, e, aliases).1 == NoteActionView::Finish(Err(AmallgamErrorView::ResourcesUnavailable)),
    ensures
        match h.stage {
            NoteStageView::AwaitAlias { next } => !(0 <= next + 1 < aliases.len()),
            NoteStageView::AwaitOffloadSent { next } => !(0 <= next + 1 < aliases.len()),
            NoteStageView::AwaitAliases => aliases.len() == 0,
            _ => false,
        },
{
    match h.stage {
        NoteStageView::AwaitMentionedBot { index } => {
            lemma_scan_picks_first_local(h.local_mentions, index + 1);
        },
        _ => {},
    }
}

/// A note whose reply was queued is answered with success, whether it came
/// from a mention or was offloaded by an alias; `SessionQueueFull` is answered
/// only where an offloaded note's pool refused it.
pub proof fn lemma_queued_note_succeeds(h: NoteHandlerView, q: bool, aliases: Seq<Seq<char>>)
    requires
        h.stage is AwaitOffloadQueue || h.stage is AwaitNormalQueue,
        expects(h, NoteEventView::Queued(q)),
    ensures
        q ==> transition(h, NoteEventView::Queued(q), aliases).1 == NoteActionView::Finish(Ok::<(), AmallgamErrorView>(())),
        transition(h, NoteEventView::Queued(q), aliases).1 == NoteActionView::Finish(Err(AmallgamErrorView::SessionQueueFull))
            <==> (!q && h.stage is AwaitOffloadQueue),
        !q && h.stage is AwaitNormalQueue ==> transition(h, NoteEventView::Queued(q), aliases).1 is FetchAliases,
{
}

} // verus!
