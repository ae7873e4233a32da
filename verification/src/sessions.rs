//! Session resolution of a drained batch: events of one website and
//! visitor share one session, and what the batch adds to each session
//! (pageviews, last activity, bot verdict) is accumulated once per visitor.
use vstd::prelude::*;

use crate::bot::BotReason;
use crate::ingest::{event_needs_session_resolution, SESSION_ID_PENDING};
use crate::routes::collect::Event;
use crate::text::{chars_eq, chars_of};

verus! {

/// What the batch has gathered for one website and visitor.
pub struct SessionAccumulator {
    pub session_id: String,
    pub count: u32,
    pub last_seen_at_us: i64,
    pub base_count_already_recorded: bool,
    pub website_id: String,
    pub visitor_id: String,
    pub is_bot: bool,
    pub bot_score: i32,
    pub bot_reason: Option<BotReason>,
}

/// What resolving a batch does to one session.
pub struct SessionResolvedEffect {
    pub session_id: String,
    pub additional_pageviews: u32,
    pub last_seen_at_us: i64,
    pub website_id: String,
    pub visitor_id: String,
    pub is_bot: bool,
    pub bot_score: i32,
    pub bot_reason: Option<BotReason>,
}

/// Abstract accumulator: key (website, visitor), session, count, last
/// activity, whether the session's first pageview is already stored, and
/// the bot verdict.
pub struct AccView {
    pub website: Seq<char>,
    pub visitor: Seq<char>,
    pub session: Seq<char>,
    pub count: u32,
    pub last_seen: i64,
    pub base_recorded: bool,
    pub is_bot: bool,
    pub bot_score: i32,
    pub bot_reason: Option<BotReason>,
}

/// The model of one accumulator.
pub open spec fn acc_view(a: SessionAccumulator) -> AccView {
    AccView {
        website: a.website_id@,
        visitor: a.visitor_id@,
        session: a.session_id@,
        count: a.count,
        last_seen: a.last_seen_at_us,
        base_recorded: a.base_count_already_recorded,
        is_bot: a.is_bot,
        bot_score: a.bot_score,
        bot_reason: a.bot_reason,
    }
}

/// Accumulators of a batch, one per website and visitor.
pub struct SessionAccumulators {
    pub entries: Vec<SessionAccumulator>,
}

impl View for SessionAccumulators {
    type V = Seq<AccView>;

    open spec fn view(&self) -> Seq<AccView> {
        self.entries@.map_values(|a: SessionAccumulator| acc_view(a))
    }
}

/// No two accumulators share a website and visitor.
pub open spec fn keys_distinct(s: Seq<AccView>) -> bool {
    forall|i: int, j: int|
        0 <= i < s.len() && 0 <= j < s.len() && i != j ==> !(#[trigger] s[i].website == #[trigger] s[j].website
            && s[i].visitor == s[j].visitor)
}

/// The accumulator after one more event of its visitor: one more pageview
/// (saturating), the later activity, the verdict of the event when its
/// score is at least as high, and bot when either is.
pub open spec fn absorbed(a: AccView, created_at: i64, is_bot: bool, bot_score: i32, bot_reason: Option<BotReason>) -> AccView {
    AccView {
        count: if a.count < u32::MAX {
            (a.count + 1) as u32
        } else {
            a.count
        },
        last_seen: if created_at > a.last_seen {
            created_at
        } else {
            a.last_seen
        },
        bot_score: if bot_score >= a.bot_score {
            bot_score
        } else {
            a.bot_score
        },
        bot_reason: if bot_score >= a.bot_score {
            bot_reason
        } else {
            a.bot_reason
        },
        is_bot: a.is_bot || is_bot,
        ..a
    }
}

/// Pageviews a batch adds to a session: all of them, less the first when
/// opening the session already stored it.
pub open spec fn additional_pageviews(a: AccView) -> u32 {
    if a.base_recorded {
        if a.count > 0 {
            (a.count - 1) as u32
        } else {
            0
        }
    } else {
        a.count
    }
}

fn clone_str(s: &String) -> (r: String)
    ensures
        r@ == s@,
{
    s.clone()
}

impl SessionAccumulators {
    /// No accumulator yet.
    pub fn new() -> (r: Self)
        ensures
            r@ == Seq::<AccView>::empty(),
    {
        let r = SessionAccumulators { entries: Vec::new() };
        assert(r@ =~= Seq::<AccView>::empty());
        r
    }

    /// Position of the accumulator of a website and visitor.
    pub fn find(&self, website_id: &str, visitor_id: &str) -> (r: Option<usize>)
        ensures
            match r {
                Some(i) => i < self@.len() && self@[i as int].website == website_id@
                    && self@[i as int].visitor == visitor_id@,
                None => forall|j: int|
                    0 <= j < self@.len() ==> !(#[trigger] self@[j].website == website_id@ && self@[j].visitor
                        == visitor_id@),
            },
    {
        let w = chars_of(website_id);
        let v = chars_of(visitor_id);
        let mut i: usize = 0;
        while i < self.entries.len()
            invariant
                i <= self.entries@.len(),
                w@ == website_id@,
                v@ == visitor_id@,
                forall|j: int|
                    0 <= j < i ==> !(#[trigger] self@[j].website == website_id@ && self@[j].visitor
                        == visitor_id@),
            decreases self.entries@.len() - i,
        {
            let a = &self.entries[i];
            let aw = chars_of(a.website_id.as_str());
            let av = chars_of(a.visitor_id.as_str());
            assert(self@[i as int] == acc_view(self.entries@[i as int]));
            if chars_eq(aw.as_slice(), w.as_slice()) && chars_eq(av.as_slice(), v.as_slice()) {
                return Some(i);
            }
            i = i + 1;
        }
        None
    }

    /// Adds one more event of the visitor at `i` and returns its session.
    pub fn absorb(&mut self, i: usize, created_at_us: i64, is_bot: bool, bot_score: i32, bot_reason: Option<BotReason>) -> (sid: String)
        requires
            i < old(self)@.len(),
        ensures
            final(self)@ == old(self)@.update(
                i as int,
                absorbed(old(self)@[i as int], created_at_us, is_bot, bot_score, bot_reason),
            ),
            sid@ == old(self)@[i as int].session,
    {
        let ghost before = self@;
        let mut a = self.entries.remove(i);
        assert(acc_view(a) == before[i as int]);
        a.count = a.count.saturating_add(1);
        if created_at_us > a.last_seen_at_us {
            a.last_seen_at_us = created_at_us;
        }
        if bot_score >= a.bot_score {
            a.bot_score = bot_score;
            a.bot_reason = bot_reason;
        }
        a.is_bot = a.is_bot || is_bot;
        let sid = clone_str(&a.session_id);
        self.entries.insert(i, a);
        assert(self@ =~= before.update(
            i as int,
            absorbed(before[i as int], created_at_us, is_bot, bot_score, bot_reason),
        ));
        sid
    }

    /// Opens the accumulator of a visitor met for the first time, with the
    /// session found for its first event.
    pub fn open(
        &mut self,
        website_id: &str,
        visitor_id: &str,
        session_id: &str,
        created_at_us: i64,
        base_count_already_recorded: bool,
        is_bot: bool,
        bot_score: i32,
        bot_reason: Option<BotReason>,
    )
        ensures
            final(self)@ == old(self)@.push(
                AccView {
                    website: website_id@,
                    visitor: visitor_id@,
                    session: session_id@,
                    count: 1,
                    last_seen: created_at_us,
                    base_recorded: base_count_already_recorded,
                    is_bot,
                    bot_score,
                    bot_reason,
                },
            ),
    {
        let ghost before = self@;
        self.entries.push(
            SessionAccumulator {
                session_id: session_id.to_owned(),
                count: 1,
                last_seen_at_us: created_at_us,
                base_count_already_recorded,
                website_id: website_id.to_owned(),
                visitor_id: visitor_id.to_owned(),
                is_bot,
                bot_score,
                bot_reason,
            },
        );
        assert(self@ =~= before.push(
            AccView {
                website: website_id@,
                visitor: visitor_id@,
                session: session_id@,
                count: 1,
                last_seen: created_at_us,
                base_recorded: base_count_already_recorded,
                is_bot,
                bot_score,
                bot_reason,
            },
        ));
    }

    /// What the batch does to each session, one effect per accumulator.
    pub fn effects(&self) -> (r: Vec<SessionResolvedEffect>)
        ensures
            r@.len() == self@.len(),
            forall|k: int|
                0 <= k < r@.len() ==> {
                    let a = #[trigger] self@[k];
                    &&& r@[k].session_id@ == a.session
                    &&& r@[k].additional_pageviews == additional_pageviews(a)
                    &&& r@[k].last_seen_at_us == a.last_seen
                    &&& r@[k].website_id@ == a.website
                    &&& r@[k].visitor_id@ == a.visitor
                    &&& r@[k].is_bot == a.is_bot
                    &&& r@[k].bot_score == a.bot_score
                    &&& r@[k].bot_reason == a.bot_reason
                },
    {
        let mut out: Vec<SessionResolvedEffect> = Vec::new();
        let mut i: usize = 0;
        while i < self.entries.len()
            invariant
                i <= self.entries@.len(),
                out@.len() == i,
                forall|k: int|
                    0 <= k < i ==> {
                        let a = #[trigger] self@[k];
                        &&& out@[k].session_id@ == a.session
                        &&& out@[k].additional_pageviews == additional_pageviews(a)
                        &&& out@[k].last_seen_at_us == a.last_seen
                        &&& out@[k].website_id@ == a.website
                        &&& out@[k].visitor_id@ == a.visitor
                        &&& out@[k].is_bot == a.is_bot
                        &&& out@[k].bot_score == a.bot_score
                        &&& out@[k].bot_reason == a.bot_reason
                    },
            decreases self.entries@.len() - i,
        {
            let a = &self.entries[i];
            assert(self@[i as int] == acc_view(self.entries@[i as int]));
            let extra: u32 = if a.base_count_already_recorded {
                a.count.saturating_sub(1)
            } else {
                a.count
            };
            out.push(
                SessionResolvedEffect {
                    session_id: clone_str(&a.session_id),
                    additional_pageviews: extra,
                    last_seen_at_us: a.last_seen_at_us,
                    website_id: clone_str(&a.website_id),
                    visitor_id: clone_str(&a.visitor_id),
                    is_bot: a.is_bot,
                    bot_score: a.bot_score,
                    bot_reason: a.bot_reason,
                },
            );
            i = i + 1;
        }
        out
    }
}

/// What resolving one event of a batch takes.
#[derive(Clone, Copy, Debug, PartialEq, Eq, Structural)]
pub enum SessionStep {
    /// The event already has a session.
    Skip,
    /// An earlier event of its visitor gave it that visitor's session.
    Joined,
    /// Its visitor is new to the batch: a session must be looked up.
    NeedsSession,
}

/// Whether an event still waits for its session.
pub open spec fn pending(e: Event) -> bool {
    e.session_id@.len() == 0 || e.session_id@ == SESSION_ID_PENDING@
}

/// Position of the accumulator of an event's visitor, if any.
pub open spec fn has_key(s: Seq<AccView>, website: Seq<char>, visitor: Seq<char>, i: int) -> bool {
    0 <= i < s.len() && s[i].website == website && s[i].visitor == visitor
}

impl SessionAccumulators {
    /// Resolves an event from the batch so far: an event with a session is
    /// left alone; one whose visitor was met before joins that visitor's
    /// session and adds to it; otherwise a session must be looked up.
    pub fn step(&mut self, e: &mut Event) -> (st: SessionStep)
        ensures
            !pending(*old(e)) ==> st is Skip && *final(e) == *old(e) && final(self)@ == old(self)@,
            pending(*old(e)) && (forall|j: int| !has_key(old(self)@, old(e).website_id@, old(e).visitor_id@, j))
                ==> st is NeedsSession && *final(e) == *old(e) && final(self)@ == old(self)@,
            pending(*old(e)) && (exists|j: int| has_key(old(self)@, old(e).website_id@, old(e).visitor_id@, j))
                ==> st is Joined && exists|j: int| {
                    &&& has_key(old(self)@, old(e).website_id@, old(e).visitor_id@, j)
                    &&& final(self)@ == old(self)@.update(
                        j,
                        absorbed(old(self)@[j], old(e).created_at_us, old(e).is_bot, old(e).bot_score, old(e).bot_reason),
                    )
                    &&& final(e).session_id@ == old(self)@[j].session
                    &&& *final(e) == (Event { session_id: final(e).session_id, ..*old(e) })
                },
    {
        if !event_needs_session_resolution(e.session_id.as_str()) {
            return SessionStep::Skip;
        }
        match self.find(e.website_id.as_str(), e.visitor_id.as_str()) {
            None => {
                proof {
                    assert forall|j: int| !has_key(old(self)@, old(e).website_id@, old(e).visitor_id@, j) by {
                        if 0 <= j < old(self)@.len() {
                            assert(!(old(self)@[j].website == old(e).website_id@ && old(self)@[j].visitor == old(e).visitor_id@));
                        }
                    }
                }
                SessionStep::NeedsSession
            },
            Some(i) => {
                let sid = self.absorb(i, e.created_at_us, e.is_bot, e.bot_score, e.bot_reason);
                e.session_id = sid;
                proof {
                    assert(has_key(old(self)@, old(e).website_id@, old(e).visitor_id@, i as int));
                }
                SessionStep::Joined
            },
        }
    }

    /// Gives an event whose visitor is new to the batch the session found
    /// for it, and opens that visitor's accumulator.
    pub fn open_for(&mut self, e: &mut Event, session_id: String, base_count_already_recorded: bool)
        ensures
            final(self)@ == old(self)@.push(
                AccView {
                    website: old(e).website_id@,
                    visitor: old(e).visitor_id@,
                    session: session_id@,
                    count: 1,
                    last_seen: old(e).created_at_us,
                    base_recorded: base_count_already_recorded,
                    is_bot: old(e).is_bot,
                    bot_score: old(e).bot_score,
                    bot_reason: old(e).bot_reason,
                },
            ),
            final(e).session_id@ == session_id@,
            *final(e) == (Event { session_id: final(e).session_id, ..*old(e) }),
    {
        self.open(
            e.website_id.as_str(),
            e.visitor_id.as_str(),
            session_id.as_str(),
            e.created_at_us,
            base_count_already_recorded,
            e.is_bot,
            e.bot_score,
            e.bot_reason,
        );
        e.session_id = session_id;
    }
}

/// Opening an accumulator only for a visitor that has none keeps the
/// accumulators one per website and visitor; absorbing keeps them too.
pub proof fn lemma_accumulators_stay_distinct(
    s: Seq<AccView>,
    opened: AccView,
    i: int,
    created_at: i64,
    is_bot: bool,
    bot_score: i32,
    bot_reason: Option<BotReason>,
)
    requires
        keys_distinct(s),
        forall|j: int| 0 <= j < s.len() ==> !(#[trigger] s[j].website == opened.website && s[j].visitor == opened.visitor),
        0 <= i < s.len(),
    ensures
        keys_distinct(s.push(opened)),
        keys_distinct(s.update(i, absorbed(s[i], created_at, is_bot, bot_score, bot_reason))),
{
    let p = s.push(opened);
    assert forall|a: int, b: int|
        0 <= a < p.len() && 0 <= b < p.len() && a != b implies !(#[trigger] p[a].website == #[trigger] p[b].website
            && p[a].visitor == p[b].visitor) by {
        if a < s.len() && b < s.len() {
            assert(p[a] == s[a] && p[b] == s[b]);
        } else if a < s.len() {
            assert(p[a] == s[a]);
        } else {
            assert(p[b] == s[b]);
        }
    }
    let u = s.update(i, absorbed(s[i], created_at, is_bot, bot_score, bot_reason));
    assert forall|a: int, b: int|
        0 <= a < u.len() && 0 <= b < u.len() && a != b implies !(#[trigger] u[a].website == #[trigger] u[b].website
            && u[a].visitor == u[b].visitor) by {
        assert(u[a].website == s[a].website && u[a].visitor == s[a].visitor);
        assert(u[b].website == s[b].website && u[b].visitor == s[b].visitor);
    }
}

/// An absorbed event adds exactly one pageview to its visitor's session
/// (which counts at least the event that opened it), unless the count is
/// already at its largest value.
pub proof fn lemma_absorb_counts_one(a: AccView, created_at: i64, is_bot: bool, bot_score: i32, bot_reason: Option<BotReason>)
    requires
        1 <= a.count < u32::MAX,
    ensures
        absorbed(a, created_at, is_bot, bot_score, bot_reason).count == a.count + 1,
        additional_pageviews(absorbed(a, created_at, is_bot, bot_score, bot_reason)) == additional_pageviews(a) + 1,
        absorbed(a, created_at, is_bot, bot_score, bot_reason).last_seen >= a.last_seen,
        absorbed(a, created_at, is_bot, bot_score, bot_reason).bot_score >= a.bot_score,
        absorbed(a, created_at, is_bot, bot_score, bot_reason).session == a.session,
{
}

} // verus!
