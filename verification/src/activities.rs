//! Notes, the activities that carry them, and the activities waiting to be
//! delivered.

use vstd::prelude::*;

use crate::errors::AmallgamError;
use crate::ids::{is_uuid_text, new_uuid_v7};
use crate::urls::{join_url, joined_url, opt_view, url_domain};
use crate::users::verify_domains_match;

verus! {

/// The address of the public audience.
pub open spec fn public_audience_text() -> Seq<char> {
    "https://www.w3.org/ns/activitystreams#Public"@
}

/// The address of the public audience.
pub fn public_audience() -> (res: String)
    ensures
        res@ == public_audience_text(),
{
    String::from_str("https://www.w3.org/ns/activitystreams#Public")
}

/// The view of a list of strings.
pub open spec fn strings_view(v: Seq<String>) -> Seq<Seq<char>> {
    v.map_values(|s: String| s@)
}

/// A copy of a list of strings.
pub fn copy_strings(v: &Vec<String>) -> (res: Vec<String>)
    ensures
        strings_view(res@) == strings_view(v@),
{
    let mut res: Vec<String> = Vec::new();
    let mut i: usize = 0;
    while i < v.len()
        invariant
            i <= v.len(),
            strings_view(res@) == strings_view(v@.subrange(0, i as int)),
        decreases v.len() - i,
    {
        let ghost prev = res@;
        res.push(v[i].clone());
        assert(v@.subrange(0, i + 1) =~= v@.subrange(0, i as int).push(v@[i as int]));
        assert(strings_view(res@) =~= strings_view(prev).push(v@[i as int]@));
        assert(strings_view(v@.subrange(0, i + 1)) =~= strings_view(v@.subrange(0, i as int)).push(v@[i as int]@));
        i = i + 1;
    }
    assert(v@.subrange(0, v.len() as int) =~= v@);
    res
}

/// A mention of an actor in a note.
#[derive(Debug)]
pub struct Mention {
    pub href: String,
}

impl Mention {
    /// The mention of a user.
    pub fn for_user(user_id: String) -> (res: Mention)
        ensures
            res.href@ == user_id@,
    {
        Mention { href: user_id }
    }
}

/// The view of a list of mentions: the mentioned addresses.
pub open spec fn mentions_view(v: Seq<Mention>) -> Seq<Seq<char>> {
    v.map_values(|m: Mention| m.href@)
}

/// A copy of a list of mentions.
pub fn copy_mentions(v: &Vec<Mention>) -> (res: Vec<Mention>)
    ensures
        mentions_view(res@) == mentions_view(v@),
{
    let mut res: Vec<Mention> = Vec::new();
    let mut i: usize = 0;
    while i < v.len()
        invariant
            i <= v.len(),
            mentions_view(res@) == mentions_view(v@.subrange(0, i as int)),
        decreases v.len() - i,
    {
        let ghost prev = res@;
        res.push(Mention { href: v[i].href.clone() });
        assert(v@.subrange(0, i + 1) =~= v@.subrange(0, i as int).push(v@[i as int]));
        assert(mentions_view(res@) =~= mentions_view(prev).push(v@[i as int].href@));
        assert(mentions_view(v@.subrange(0, i + 1)) =~= mentions_view(v@.subrange(0, i as int)).push(v@[i as int].href@));
        i = i + 1;
    }
    assert(v@.subrange(0, v.len() as int) =~= v@);
    res
}

/// A note.
#[derive(Debug)]
pub struct Note {
    pub id: String,
    pub attributed_to: String,
    pub to: Vec<String>,
    pub cc: Vec<String>,
    pub content: String,
    pub in_reply_to: Option<String>,
    pub tag: Vec<Mention>,
}

pub struct NoteView {
    pub id: Seq<char>,
    pub attributed_to: Seq<char>,
    pub to: Seq<Seq<char>>,
    pub cc: Seq<Seq<char>>,
    pub content: Seq<char>,
    pub in_reply_to: Option<Seq<char>>,
    pub tag: Seq<Seq<char>>,
}

impl View for Note {
    type V = NoteView;

    open spec fn view(&self) -> NoteView {
        NoteView {
            id: self.id@,
            attributed_to: self.attributed_to@,
            to: strings_view(self.to@),
            cc: strings_view(self.cc@),
            content: self.content@,
            in_reply_to: match self.in_reply_to {
                Some(r) => Some(r@),
                None => None,
            },
            tag: mentions_view(self.tag@),
        }
    }
}

impl Clone for Note {
    fn clone(&self) -> (res: Self)
        ensures
            res@ == self@,
    {
        let in_reply_to = match &self.in_reply_to {
            Some(r) => Some(r.clone()),
            None => None,
        };
        Note {
            id: self.id.clone(),
            attributed_to: self.attributed_to.clone(),
            to: copy_strings(&self.to),
            cc: copy_strings(&self.cc),
            content: self.content.clone(),
            in_reply_to,
            tag: copy_mentions(&self.tag),
        }
    }
}

impl Note {
    /// A received note is accepted only where its id is on the domain it was
    /// fetched from.
    pub fn verify(json: &Note, expected_domain: &str) -> (res: Result<(), AmallgamError>)
        ensures
            res is Ok <==> url_domain(json.id@) == url_domain(expected_domain@),
            res matches Err(e) ==> e is DomainsDoNotMatch,
    {
        verify_domains_match(json.id.as_str(), expected_domain)
    }
}

/// A `Create` activity.
#[derive(Debug)]
pub struct Create<T> {
    pub id: String,
    pub actor: String,
    pub to: Vec<String>,
    pub cc: Vec<String>,
    pub object: T,
}

pub struct CreateView<V> {
    pub id: Seq<char>,
    pub actor: Seq<char>,
    pub to: Seq<Seq<char>>,
    pub cc: Seq<Seq<char>>,
    pub object: V,
}

impl<T: View> View for Create<T> {
    type V = CreateView<T::V>;

    open spec fn view(&self) -> CreateView<T::V> {
        CreateView {
            id: self.id@,
            actor: self.actor@,
            to: strings_view(self.to@),
            cc: strings_view(self.cc@),
            object: self.object@,
        }
    }
}

/// An activity and the inboxes it is to be delivered to.
#[derive(Debug)]
pub struct PendingActivity<T> {
    pub activity: T,
    pub target_inboxes: Vec<String>,
}

pub struct PendingActivityView<V> {
    pub activity: V,
    pub target_inboxes: Seq<Seq<char>>,
}

impl<T: View> View for PendingActivity<T> {
    type V = PendingActivityView<T::V>;

    open spec fn view(&self) -> PendingActivityView<T::V> {
        PendingActivityView { activity: self.activity@, target_inboxes: strings_view(self.target_inboxes@) }
    }
}

/// The id of a `Create` activity: `./creates/{uuid}` below `base`.
pub open spec fn create_id_below(base: Seq<char>, uuid: Seq<char>) -> Option<Seq<char>> {
    joined_url(base, "./creates/"@ + uuid)
}

/// The id of a note: `./notes/{uuid}` below `base`.
pub open spec fn note_id_below(base: Seq<char>, uuid: Seq<char>) -> Option<Seq<char>> {
    joined_url(base, "./notes/"@ + uuid)
}

/// `c` is a `Create` activity with a fresh id below `base`, by `actor`,
/// addressed to `to` and `cc`, of `object`.
pub open spec fn is_create_below<V>(base: Seq<char>, c: CreateView<V>, actor: Seq<char>, to: Seq<Seq<char>>, cc: Seq<Seq<char>>, object: V) -> bool {
    &&& exists|u: Seq<char>| #[trigger] is_uuid_text(u) && create_id_below(base, u) == Some(c.id)
    &&& c.actor == actor
    &&& c.to == to
    &&& c.cc == cc
    &&& c.object == object
}

/// `n` is a note with a fresh id below `base`, and the given fields.
pub open spec fn is_note_below(
    base: Seq<char>,
    n: NoteView,
    attributed_to: Seq<char>,
    to: Seq<Seq<char>>,
    cc: Seq<Seq<char>>,
    content: Seq<char>,
    in_reply_to: Option<Seq<char>>,
    tag: Seq<Seq<char>>,
) -> bool {
    &&& exists|u: Seq<char>| #[trigger] is_uuid_text(u) && note_id_below(base, u) == Some(n.id)
    &&& n.attributed_to == attributed_to
    &&& n.to == to
    &&& n.cc == cc
    &&& n.content == content
    &&& n.in_reply_to == in_reply_to
    &&& n.tag == tag
}

/// Some fresh id of a `Create` activity below `base` cannot be built.
pub open spec fn create_id_may_fail(base: Seq<char>) -> bool {
    exists|u: Seq<char>| #[trigger] is_uuid_text(u) && create_id_below(base, u) is None
}

/// Some fresh id of a note below `base` cannot be built.
pub open spec fn note_id_may_fail(base: Seq<char>) -> bool {
    exists|u: Seq<char>| #[trigger] is_uuid_text(u) && note_id_below(base, u) is None
}

/// A `Create` activity with the id `./creates/{uuid}` below `base`; `None`
/// where that id cannot be built.
pub fn create_with_uuid<T: View>(base: &str, uuid: &str, actor: String, to: Vec<String>, cc: Vec<String>, object: T) -> (res: Option<Create<T>>)
    ensures
        match res {
            Some(c) => {
                &&& create_id_below(base@, uuid@) == Some(c@.id)
                &&& c@.actor == actor@
                &&& c@.to == strings_view(to@)
                &&& c@.cc == strings_view(cc@)
                &&& c@.object == object@
            },
            None => create_id_below(base@, uuid@) is None,
        },
{
    let path = String::from_str("./creates/").concat(uuid);
    match join_url(base, path.as_str()) {
        Some(id) => Some(Create { id, actor, to, cc, object }),
        None => None,
    }
}

/// A `Create` activity with a fresh id below `base`; `None` where its id
/// cannot be built.
pub fn create_below<T: View>(base: &str, actor: String, to: Vec<String>, cc: Vec<String>, object: T) -> (res: Option<Create<T>>)
    ensures
        match res {
            Some(c) => is_create_below(base@, c@, actor@, strings_view(to@), strings_view(cc@), object@),
            None => create_id_may_fail(base@),
        },
{
    let uuid = new_uuid_v7();
    create_with_uuid(base, uuid.as_str(), actor, to, cc, object)
}

/// A note with the id `./notes/{uuid}` below `base`; `None` where that id
/// cannot be built.
pub fn note_with_uuid(
    base: &str,
    uuid: &str,
    attributed_to: String,
    to: Vec<String>,
    cc: Vec<String>,
    content: String,
    in_reply_to: Option<String>,
    tag: Vec<Mention>,
) -> (res: Option<Note>)
    ensures
        match res {
            Some(n) => {
                &&& note_id_below(base@, uuid@) == Some(n@.id)
                &&& n@.attributed_to == attributed_to@
                &&& n@.to == strings_view(to@)
                &&& n@.cc == strings_view(cc@)
                &&& n@.content == content@
                &&& n@.in_reply_to == opt_view(in_reply_to)
                &&& n@.tag == mentions_view(tag@)
            },
            None => note_id_below(base@, uuid@) is None,
        },
{
    let path = String::from_str("./notes/").concat(uuid);
    match join_url(base, path.as_str()) {
        Some(id) => Some(Note { id, attributed_to, to, cc, content, in_reply_to, tag }),
        None => None,
    }
}

/// A note with a fresh id below `base`; `None` where its id cannot be built.
pub fn note_below(
    base: &str,
    attributed_to: String,
    to: Vec<String>,
    cc: Vec<String>,
    content: String,
    in_reply_to: Option<String>,
    tag: Vec<Mention>,
) -> (res: Option<Note>)
    ensures
        match res {
            Some(n) => is_note_below(
                base@,
                n@,
                attributed_to@,
                strings_view(to@),
                strings_view(cc@),
                content@,
                opt_view(in_reply_to),
                mentions_view(tag@),
            ),
            None => note_id_may_fail(base@),
        },
{
    let uuid = new_uuid_v7();
    note_with_uuid(base, uuid.as_str(), attributed_to, to, cc, content, in_reply_to, tag)
}

/// The activities that a user's inbox accepts.
#[derive(Debug)]
pub enum UserAllowedActivities {
    CreateNote(Create<Note>),
}

} // verus!
