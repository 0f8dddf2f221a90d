//! The tester's record of when each test note was sent and when its reply
//! came back, and the statistics of a run.

use vstd::prelude::*;

verus! {

/// A list of `(note id, time)` pairs read as a map: the time of the first pair
/// with the given id.
pub open spec fn lookup(s: Seq<(Seq<char>, u64)>, k: Seq<char>) -> Option<u64>
    decreases s.len(),
{
    if s.len() == 0 {
        None
    } else if s[0].0 == k {
        Some(s[0].1)
    } else {
        lookup(s.drop_first(), k)
    }
}

/// No note id occurs twice.
pub open spec fn keys_unique(s: Seq<(Seq<char>, u64)>) -> bool {
    forall|i: int, j: int| 0 <= i < j < s.len() ==> s[i].0 != s[j].0
}

/// The time from `start` to `end`; zero where `end` comes first (as
/// `Instant::duration_since` saturates).
pub open spec fn elapsed(start: u64, end: u64) -> nat {
    if end >= start { (end - start) as nat } else { 0 }
}

/// The statistics of a run: how many sent notes got a reply, how many did
/// not, and the total time that the replies took.
pub open spec fn run_stats(starts: Seq<(Seq<char>, u64)>, ends: Seq<(Seq<char>, u64)>) -> (nat, nat, nat)
    decreases starts.len(),
{
    if starts.len() == 0 {
        (0, 0, 0)
    } else {
        let r = run_stats(starts.drop_last(), ends);
        match lookup(ends, starts.last().0) {
            Some(end) => (r.0 + 1, r.1, r.2 + elapsed(starts.last().1, end)),
            None => (r.0, r.1 + 1, r.2),
        }
    }
}

/// The longest `Duration`, in nanoseconds.
pub const MAX_DURATION_NANOS: u128 = 18_446_744_073_709_551_615_999_999_999u128;

/// The statistics of a run.
#[derive(Debug)]
pub struct RunStats {
    pub successful: u128,
    pub not_replied: u128,
    pub total_nanos: u128,
}

/// The times at which test notes were sent and their replies received, in
/// nanoseconds since the tester started.
pub struct NoteTimings {
    starts: Vec<(String, u64)>,
    ends: Vec<(String, u64)>,
}

pub struct NoteTimingsView {
    pub starts: Seq<(Seq<char>, u64)>,
    pub ends: Seq<(Seq<char>, u64)>,
}

pub open spec fn pairs_view(v: Seq<(String, u64)>) -> Seq<(Seq<char>, u64)> {
    v.map_values(|p: (String, u64)| (p.0@, p.1))
}

impl View for NoteTimings {
    type V = NoteTimingsView;

    closed spec fn view(&self) -> NoteTimingsView {
        NoteTimingsView { starts: pairs_view(self.starts@), ends: pairs_view(self.ends@) }
    }
}

proof fn lemma_lookup_absent(s: Seq<(Seq<char>, u64)>, k: Seq<char>)
    requires
        forall|j: int| 0 <= j < s.len() ==> s[j].0 != k,
    ensures
        lookup(s, k) is None,
    decreases s.len(),
{
    if s.len() > 0 {
        lemma_lookup_absent(s.drop_first(), k);
    }
}

proof fn lemma_lookup_push(s: Seq<(Seq<char>, u64)>, k: Seq<char>, v: u64, k2: Seq<char>)
    requires
        forall|j: int| 0 <= j < s.len() ==> s[j].0 != k,
    ensures
        lookup(s.push((k, v)), k2) == (if k2 == k { Some(v) } else { lookup(s, k2) }),
    decreases s.len(),
{
    if s.len() == 0 {
        assert(s.push((k, v)).drop_first() =~= s);
    } else {
        assert(s.push((k, v)).drop_first() =~= s.drop_first().push((k, v)));
        lemma_lookup_push(s.drop_first(), k, v, k2);
    }
}

proof fn lemma_lookup_update(s: Seq<(Seq<char>, u64)>, i: int, v: u64, k2: Seq<char>)
    requires
        0 <= i < s.len(),
        forall|j: int| 0 <= j < i ==> s[j].0 != s[i].0,
    ensures
        lookup(s.update(i, (s[i].0, v)), k2) == (if k2 == s[i].0 { Some(v) } else { lookup(s, k2) }),
    decreases s.len(),
{
    if i == 0 {
        assert(s.update(0, (s[0].0, v)).drop_first() =~= s.drop_first());
    } else {
        assert(s.update(i, (s[i].0, v)).drop_first() =~= s.drop_first().update(i - 1, (s[i].0, v)));
        lemma_lookup_update(s.drop_first(), i - 1, v, k2);
    }
}

/// Every sent note is counted once: as replied or as not replied.
pub proof fn lemma_every_note_counted(starts: Seq<(Seq<char>, u64)>, ends: Seq<(Seq<char>, u64)>)
    ensures
        run_stats(starts, ends).0 + run_stats(starts, ends).1 == starts.len(),
    decreases starts.len(),
{
    if starts.len() > 0 {
        lemma_every_note_counted(starts.drop_last(), ends);
    }
}

proof fn lemma_total_grows(starts: Seq<(Seq<char>, u64)>, ends: Seq<(Seq<char>, u64)>, i: int)
    requires
        0 <= i <= starts.len(),
    ensures
        run_stats(starts.subrange(0, i), ends).2 <= run_stats(starts, ends).2,
    decreases starts.len() - i,
{
    if i < starts.len() {
        lemma_total_grows(starts, ends, i + 1);
        assert(starts.subrange(0, i + 1).drop_last() =~= starts.subrange(0, i));
    } else {
        assert(starts.subrange(0, i) =~= starts);
    }
}

/// The position of the first pair with id `key`.
fn find_key(v: &Vec<(String, u64)>, key: &String) -> (res: Option<usize>)
    ensures
        match res {
            Some(i) => i < v.len() && pairs_view(v@)[i as int].0 == key@
                && forall|j: int| 0 <= j < i ==> pairs_view(v@)[j].0 != key@,
            None => forall|j: int| 0 <= j < v.len() ==> pairs_view(v@)[j].0 != key@,
        },
{
    let mut i: usize = 0;
    while i < v.len()
        invariant
            i <= v.len(),
            forall|j: int| 0 <= j < i ==> pairs_view(v@)[j].0 != key@,
        decreases v.len() - i,
    {
        if v[i].0 == *key {
            return Some(i);
        }
        i = i + 1;
    }
    None
}

/// The time of `key` in `v`.
fn time_of(v: &Vec<(String, u64)>, key: &String) -> (res: Option<u64>)
    ensures
        res == lookup(pairs_view(v@), key@),
{
    let ghost s = pairs_view(v@);
    let mut i: usize = 0;
    assert(s.subrange(0, s.len() as int) =~= s);
    while i < v.len()
        invariant
            i <= v.len(),
            s == pairs_view(v@),
            lookup(s, key@) == lookup(s.subrange(i as int, s.len() as int), key@),
        decreases v.len() - i,
    {
        assert(s.subrange(i as int, s.len() as int).drop_first() =~= s.subrange(i + 1, s.len() as int));
        if v[i].0 == *key {
            return Some(v[i].1);
        }
        i = i + 1;
    }
    None
}

/// Sets the time of `key`, replacing an earlier one.
fn set_time(v: &mut Vec<(String, u64)>, key: String, at: u64)
    requires
        keys_unique(pairs_view(old(v)@)),
    ensures
        keys_unique(pairs_view(final(v)@)),
        forall|k: Seq<char>| #[trigger] lookup(pairs_view(final(v)@), k)
            == (if k == key@ { Some(at) } else { lookup(pairs_view(old(v)@), k) }),
{
    let ghost s = pairs_view(v@);
    let ghost kv = key@;
    match find_key(v, &key) {
        Some(i) => {
            v.set(i, (key, at));
            assert(pairs_view(v@) =~= s.update(i as int, (s[i as int].0, at)));
            assert forall|k: Seq<char>| #[trigger] lookup(pairs_view(v@), k) == (if k == kv { Some(at) } else { lookup(s, k) }) by {
                lemma_lookup_update(s, i as int, at, k);
            }
        },
        None => {
            v.push((key, at));
            assert(pairs_view(v@) =~= s.push((kv, at)));
            assert forall|k: Seq<char>| #[trigger] lookup(pairs_view(v@), k) == (if k == kv { Some(at) } else { lookup(s, k) }) by {
                lemma_lookup_push(s, kv, at, k);
            }
        },
    }
}

impl NoteTimings {
    #[verifier::type_invariant]
    closed spec fn unique(&self) -> bool {
        keys_unique(pairs_view(self.starts@)) && keys_unique(pairs_view(self.ends@))
    }

    /// No note recorded yet.
    pub fn new() -> (res: NoteTimings)
        ensures
            res@.starts.len() == 0,
            res@.ends.len() == 0,
    {
        let res = NoteTimings { starts: Vec::new(), ends: Vec::new() };
        assert(pairs_view(res.starts@) =~= Seq::<(Seq<char>, u64)>::empty());
        assert(pairs_view(res.ends@) =~= Seq::<(Seq<char>, u64)>::empty());
        res
    }

    /// Records when the note `key` was sent, replacing an earlier record.
    pub fn record_start(&mut self, key: String, at: u64)
        ensures
            forall|k: Seq<char>| #[trigger] lookup(final(self)@.starts, k)
                == (if k == key@ { Some(at) } else { lookup(old(self)@.starts, k) }),
            final(self)@.ends == old(self)@.ends,
            keys_unique(final(self)@.starts),
    {
        proof { use_type_invariant(&*self); }
        let mut starts: Vec<(String, u64)> = Vec::new();
        std::mem::swap(&mut starts, &mut self.starts);
        set_time(&mut starts, key, at);
        self.starts = starts;
    }

    /// Records when the reply to the note `key` came back, replacing an
    /// earlier record.
    pub fn record_end(&mut self, key: String, at: u64)
        ensures
            forall|k: Seq<char>| #[trigger] lookup(final(self)@.ends, k)
                == (if k == key@ { Some(at) } else { lookup(old(self)@.ends, k) }),
            final(self)@.starts == old(self)@.starts,
            keys_unique(final(self)@.ends),
    {
        proof { use_type_invariant(&*self); }
        let mut ends: Vec<(String, u64)> = Vec::new();
        std::mem::swap(&mut ends, &mut self.ends);
        set_time(&mut ends, key, at);
        self.ends = ends;
    }

    /// The statistics of the run; `None` where the total time does not fit in
    /// a `Duration`.
    pub fn stats(&self) -> (res: Option<RunStats>)
        ensures
            match res {
                Some(s) => {
                    let r = run_stats(self@.starts, self@.ends);
                    &&& s.successful == r.0
                    &&& s.not_replied == r.1
                    &&& s.total_nanos == r.2
                    &&& r.2 <= MAX_DURATION_NANOS
                },
                None => run_stats(self@.starts, self@.ends).2 > MAX_DURATION_NANOS,
            },
    {
        let ghost starts = self@.starts;
        let ghost ends = self@.ends;
        let mut successful: u128 = 0;
        let mut not_replied: u128 = 0;
        let mut total: u128 = 0;
        let mut i: usize = 0;
        assert(starts.subrange(0, 0) =~= Seq::<(Seq<char>, u64)>::empty());
        while i < self.starts.len()
            invariant
                i <= self.starts.len(),
                starts == pairs_view(self.starts@),
                ends == pairs_view(self.ends@),
                (successful as nat, not_replied as nat, total as nat) == run_stats(starts.subrange(0, i as int), ends),
                successful + not_replied == i,
                total <= MAX_DURATION_NANOS,
            decreases self.starts.len() - i,
        {
            proof { lemma_every_note_counted(starts.subrange(0, i + 1), ends); }
            assert(starts.subrange(0, i + 1).drop_last() =~= starts.subrange(0, i as int));
            let start = self.starts[i].1;
            match time_of(&self.ends, &self.starts[i].0) {
                Some(end) => {
                    let took: u64 = if end >= start { end - start } else { 0 };
                    if total + (took as u128) > MAX_DURATION_NANOS {
                        proof { lemma_total_grows(starts, ends, i + 1); }
                        return None;
                    }
                    successful = successful + 1;
                    total = total + (took as u128);
                },
                None => {
                    not_replied = not_replied + 1;
                },
            }
            i = i + 1;
        }
        assert(starts.subrange(0, i as int) =~= starts);
        Some(RunStats { successful, not_replied, total_nanos: total })
    }
}

impl RunStats {
    /// The average time a reply took, in milliseconds: the total, in whole
    /// milliseconds, divided by the number of replies.
    pub fn average_reply_millis(&self) -> (res: u128)
        requires
            self.successful > 0,
        ensures
            res == (self.total_nanos / 1_000_000) / self.successful,
    {
        (self.total_nanos / 1_000_000) / self.successful
    }
}

/// Each note sent at `start` whose reply came back at `end` adds exactly
/// `end - start` to the total reply time (nothing where the reply's clock
/// reads earlier), counts as one reply, and leaves the other counts alone; a
/// note without reply adds one missing reply and no time.
pub proof fn lemma_note_adds_its_reply_time(starts: Seq<(Seq<char>, u64)>, ends: Seq<(Seq<char>, u64)>, key: Seq<char>, start: u64)
    ensures
        ({
            let before = run_stats(starts, ends);
            let after = run_stats(starts.push((key, start)), ends);
            match lookup(ends, key) {
                Some(end) => {
                    &&& after.0 == before.0 + 1
                    &&& after.1 == before.1
                    &&& end >= start ==> after.2 == before.2 + (end - start)
                    &&& end < start ==> after.2 == before.2
                },
                None => {
                    &&& after.0 == before.0
                    &&& after.1 == before.1 + 1
                    &&& after.2 == before.2
                },
            }
        }),
{
    assert(starts.push((key, start)).drop_last() =~= starts);
}

/// A run of one note sent at `start` and answered at `end >= start` has one
/// reply, no missing reply, and a total of `end - start`.
pub proof fn lemma_single_reply_total(key: Seq<char>, start: u64, end: u64, ends: Seq<(Seq<char>, u64)>)
    requires
        lookup(ends, key) == Some(end),
        end >= start,
    ensures
        run_stats(seq![(key, start)], ends) == (1nat, 0nat, (end - start) as nat),
{
    lemma_note_adds_its_reply_time(Seq::empty(), ends, key, start);
    assert(Seq::<(Seq<char>, u64)>::empty().push((key, start)) =~= seq![(key, start)]);
}

} // verus!
