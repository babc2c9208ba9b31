use vstd::prelude::*;

use crate::rest::events::{Event, EventType};
use crate::routes::{events_path_and_query, events_query};

verus! {

/// An envelope whose payload did not decode as the shape its tag demands.
/// The envelope fields are kept so the failure can be reported in place.
#[derive(Clone, Debug, PartialEq)]
pub struct DecodeFault {
    pub id: u64,
    pub global_id: u64,
    pub time: String,
    pub message: String,
}

/// One entry of a fetched batch: a decoded event, or the record of a payload
/// that failed to decode. Decoding is per entry, so one malformed payload
/// leaves the rest of its batch intact.
#[derive(Clone, Debug, PartialEq)]
pub enum FetchedEvent {
    Decoded(Event),
    Malformed(DecodeFault),
}

impl FetchedEvent {
    /// The envelope identifier, which is present whether or not the payload
    /// decoded.
    pub open spec fn id_spec(&self) -> u64 {
        match self {
            FetchedEvent::Decoded(e) => e.id,
            FetchedEvent::Malformed(f) => f.id,
        }
    }

    /// Reads the envelope identifier.
    pub fn id(&self) -> (r: u64)
        ensures
            r == self.id_spec(),
    {
        match self {
            FetchedEvent::Decoded(e) => e.id,
            FetchedEvent::Malformed(f) => f.id,
        }
    }
}

/// The envelope identifiers of a batch, in batch order.
pub open spec fn entry_ids(entries: Seq<FetchedEvent>) -> Seq<u64> {
    entries.map_values(|e: FetchedEvent| e.id_spec())
}

pub open spec fn strictly_ascending(ids: Seq<u64>) -> bool {
    forall|i: int, j: int| 0 <= i < j < ids.len() ==> ids[i] < ids[j]
}

/// Whether `id` lies beyond the cursor, so that delivering it cannot repeat
/// an already delivered event.
pub open spec fn after_cursor(cursor: Option<u64>, id: u64) -> bool {
    match cursor {
        Some(n) => n < id,
        None => true,
    }
}

/// What the engine demands of a batch before buffering it: identifiers in
/// strictly ascending order, all beyond the cursor.
pub open spec fn batch_admissible(ids: Seq<u64>, cursor: Option<u64>) -> bool {
    &&& strictly_ascending(ids)
    &&& forall|i: int| 0 <= i < ids.len() ==> after_cursor(cursor, ids[i])
}

/// One fetch of the event-listing endpoint: which types to ask for, from
/// which cursor, and with which limit.
#[derive(Clone, Debug, PartialEq)]
pub struct EventsRequest {
    pub events: Vec<EventType>,
    pub since: Option<u64>,
    pub limit: Option<u64>,
}

impl EventsRequest {
    /// Builds the path and query of this fetch.
    pub fn path_and_query(&self) -> (r: String)
        ensures
            r@ == events_query(self.events@, self.since, self.limit),
    {
        events_path_and_query(&self.events, self.since, self.limit)
    }
}

fn copy_filter(v: &Vec<EventType>) -> (r: Vec<EventType>)
    ensures
        r@ == v@,
{
    let mut r: Vec<EventType> = Vec::new();
    let mut i: usize = 0;
    while i < v.len()
        invariant
            0 <= i <= v.len(),
            r@ == v@.take(i as int),
        decreases v.len() - i,
    {
        r.push(v[i]);
        proof {
            assert(v@.take(i as int).push(v@[i as int]) =~= v@.take(i + 1 as int));
        }
        i = i + 1;
    }
    proof {
        assert(v@.take(v@.len() as int) =~= v@);
    }
    r
}

/// The engine that turns repeated bounded fetches of the event log into one
/// ordered sequence of events.
///
/// The engine is always in one of two conditions: awaiting a fetch (the
/// caller performs the request described by [`Self::current_request`] and
/// reports its outcome) or draining a buffer of fetched, not yet delivered
/// entries. The cursor holds the identifier of the most recently delivered
/// entry and advances only on delivery, never on a failed fetch.
pub struct EventStream {
    filter: Vec<EventType>,
    since: Option<u64>,
    fetching: bool,
    limit: Option<u64>,
    buffer: Vec<FetchedEvent>,
    delivered: Ghost<Seq<u64>>,
}

impl EventStream {
    /// The immutable type filter given at subscription time.
    pub closed spec fn filter(&self) -> Seq<EventType> {
        self.filter@
    }

    /// The cursor: the identifier of the most recently delivered entry, or
    /// `None` before the first delivery.
    pub closed spec fn cursor(&self) -> Option<u64> {
        self.since
    }

    /// Whether the engine is awaiting a fetch.
    pub closed spec fn is_fetching(&self) -> bool {
        self.fetching
    }

    /// The limit the pending fetch asks for (meaningful while fetching).
    pub closed spec fn fetch_limit(&self) -> Option<u64> {
        self.limit
    }

    /// The fetched, not yet delivered entries, oldest first.
    pub closed spec fn buffered(&self) -> Seq<FetchedEvent> {
        self.buffer@
    }

    /// The identifiers of all entries delivered so far, in delivery order.
    pub closed spec fn delivered(&self) -> Seq<u64> {
        self.delivered@
    }

    /// The engine's invariant: deliveries so far are strictly ascending, the
    /// cursor is exactly the last of them, the buffer is strictly ascending
    /// beyond the cursor, and no buffer is held while a fetch is awaited.
    pub open spec fn wf(&self) -> bool {
        &&& strictly_ascending(self.delivered())
        &&& match self.cursor() {
            None => self.delivered().len() == 0,
            Some(n) => self.delivered().len() > 0 && self.delivered().last() == n,
        }
        &&& batch_admissible(entry_ids(self.buffered()), self.cursor())
        &&& (self.is_fetching() ==> self.buffered().len() == 0)
    }

    /// A fresh subscription: no cursor yet, and a first fetch with limit 1,
    /// to establish the cursor quickly instead of pulling the whole backlog.
    pub fn new(filter: Vec<EventType>) -> (s: EventStream)
        ensures
            s.wf(),
            s.filter() == filter@,
            s.cursor() is None,
            s.delivered() == Seq::<u64>::empty(),
            s.is_fetching(),
            s.fetch_limit() == Some(1u64),
    {
        EventStream {
            filter,
            since: None,
            fetching: true,
            limit: Some(1),
            buffer: Vec::new(),
            delivered: Ghost(Seq::empty()),
        }
    }

    /// The fetch the caller should perform now, if one is awaited: the
    /// subscription's filter, the current cursor, and the pending limit.
    pub fn current_request(&self) -> (r: Option<EventsRequest>)
        ensures
            self.is_fetching() <==> r is Some,
            r is Some ==> r->0.events@ == self.filter() && r->0.since == self.cursor() && r->0.limit
                == self.fetch_limit(),
    {
        if self.fetching {
            Some(
                EventsRequest {
                    events: copy_filter(&self.filter),
                    since: self.since,
                    limit: self.limit,
                },
            )
        } else {
            None
        }
    }

    /// Reads the cursor.
    pub fn cursor_value(&self) -> (r: Option<u64>)
        ensures
            r == self.cursor(),
    {
        self.since
    }

    /// Records that the awaited fetch failed. The cursor does not move, and
    /// the next fetch repeats it without a limit, so nothing is skipped: the
    /// caller surfaces the failure as one error item and polls on.
    pub fn fetch_failed(&mut self)
        requires
            old(self).wf(),
            old(self).is_fetching(),
        ensures
            final(self).wf(),
            final(self).is_fetching(),
            final(self).fetch_limit() is None,
            final(self).cursor() == old(self).cursor(),
            final(self).delivered() == old(self).delivered(),
            final(self).filter() == old(self).filter(),
            final(self).buffered() == old(self).buffered(),
    {
        self.limit = None;
    }

    /// Takes the batch an awaited fetch returned. A batch whose identifiers
    /// are not strictly ascending beyond the cursor is refused, and the
    /// engine schedules a retry exactly as after a failed fetch; an accepted
    /// batch becomes the buffer, to be delivered in order.
    pub fn accept_batch(&mut self, batch: Vec<FetchedEvent>) -> (accepted: bool)
        requires
            old(self).wf(),
            old(self).is_fetching(),
        ensures
            final(self).wf(),
            final(self).cursor() == old(self).cursor(),
            final(self).delivered() == old(self).delivered(),
            final(self).filter() == old(self).filter(),
            accepted == batch_admissible(entry_ids(batch@), old(self).cursor()),
            accepted ==> !final(self).is_fetching() && final(self).buffered() == batch@,
            !accepted ==> final(self).is_fetching() && final(self).fetch_limit() is None
                && final(self).buffered() == old(self).buffered(),
    {
        let ghost ids = entry_ids(batch@);
        let mut prev = self.since;
        let mut i: usize = 0;
        let mut ok = true;
        while i < batch.len() && ok
            invariant
                0 <= i <= batch@.len(),
                ids == entry_ids(batch@),
                ids.len() == batch@.len(),
                forall|k: int| 0 <= k < batch@.len() ==> ids[k] == batch@[k].id_spec(),
                ok ==> batch_admissible(ids.take(i as int), self.since),
                ok && i == 0 ==> prev == self.since,
                ok && i > 0 ==> prev == Some(ids[i - 1]),
                !ok ==> !batch_admissible(ids, self.since),
            decreases batch@.len() - i,
        {
            let id = batch[i].id();
            let step_ok = match prev {
                Some(p) => p < id,
                None => true,
            };
            if step_ok {
                proof {
                    let pre = ids.take(i as int);
                    let cur = ids.take(i + 1 as int);
                    assert(cur.drop_last() =~= pre);
                    assert(cur.last() == ids[i as int]);
                    assert forall|k1: int, k2: int| 0 <= k1 < k2 < cur.len() implies cur[k1]
                        < cur[k2] by {
                        if k2 < i {
                        } else {
                            if i > 0 && k1 < i - 1 {
                                assert(pre[k1] < pre[i - 1]);
                            }
                        }
                    }
                    assert forall|k: int| 0 <= k < cur.len() implies after_cursor(
                        self.since,
                        cur[k],
                    ) by {
                        if k < i {
                        } else {
                            if i > 0 {
                                assert(after_cursor(self.since, ids[i - 1]));
                            }
                        }
                    }
                }
                prev = Some(id);
            } else {
                proof {
                    if i == 0 {
                        assert(!after_cursor(self.since, ids[0]));
                    } else {
                        assert(!(ids[i - 1] < ids[i as int]));
                    }
                }
                ok = false;
            }
            i = i + 1;
        }
        proof {
            if ok {
                assert(ids.take(batch@.len() as int) =~= ids);
            }
        }
        if ok {
            self.fetching = false;
            self.limit = None;
            self.buffer = batch;
        } else {
            self.limit = None;
        }
        ok
    }

    /// Delivers the earliest buffered entry, advancing the cursor to its
    /// identifier. With nothing buffered it delivers nothing: if the engine
    /// was draining, it now awaits a fetch from the unchanged cursor with no
    /// limit; if it was already awaiting one, nothing changes and the caller
    /// should perform that fetch.
    pub fn try_next(&mut self) -> (r: Option<FetchedEvent>)
        requires
            old(self).wf(),
        ensures
            final(self).wf(),
            final(self).filter() == old(self).filter(),
            old(self).is_fetching() ==> r is None && *final(self) == *old(self),
            !old(self).is_fetching() && old(self).buffered().len() == 0 ==> r is None && final(self).is_fetching() && final(self).fetch_limit() is None && final(self).cursor() == old(self).cursor() && final(self).delivered() == old(self).delivered(),
            !old(self).is_fetching() && old(self).buffered().len() > 0 ==> r == Some(
                old(self).buffered()[0],
            ) && !final(self).is_fetching() && final(self).buffered() == old(self).buffered().drop_first() && final(self).cursor() == Some(
                old(self).buffered()[0].id_spec(),
            ) && final(self).delivered() == old(self).delivered().push(
                old(self).buffered()[0].id_spec(),
            ),
    {
        if self.fetching {
            return None;
        }
        if self.buffer.len() == 0 {
            self.fetching = true;
            self.limit = None;
            return None;
        }
        let e = self.buffer.remove(0);
        let id = e.id();
        proof {
            let old_ids = entry_ids(old(self).buffered());
            assert(old_ids[0] == id);
            assert(after_cursor(old(self).cursor(), id));
            assert forall|k: int| 0 <= k < old(self).delivered().len() implies old(self).delivered()[k] < id by {
                let d = old(self).delivered();
                match old(self).cursor() {
                    None => {
                    },
                    Some(n) => {
                        if k < d.len() - 1 {
                            assert(d[k] < d[d.len() - 1]);
                        }
                    },
                }
            }
        }
        self.since = Some(id);
        self.delivered = Ghost(self.delivered@.push(id));
        proof {
            let old_ids = entry_ids(old(self).buffered());
            let new_ids = entry_ids(self.buffer@);
            assert(self.buffer@ =~= old(self).buffered().drop_first());
            assert(new_ids =~= old_ids.drop_first());
            assert forall|k: int| 0 <= k < new_ids.len() implies after_cursor(
                Some(id),
                new_ids[k],
            ) by {
                assert(old_ids[0] < old_ids[k + 1]);
            }
            assert(strictly_ascending(new_ids));
            let d = self.delivered@;
            assert(d.last() == id);
            assert forall|k1: int, k2: int| 0 <= k1 < k2 < d.len() implies d[k1] < d[k2] by {
                if k2 < d.len() - 1 {
                    assert(old(self).delivered()[k1] < old(self).delivered()[k2]);
                }
            }
        }
        Some(e)
    }
}

/// Ordering of delivery: of any two entries delivered over the stream's
/// lifetime, the earlier one has the strictly smaller identifier.
pub proof fn lemma_delivery_ordered(s: &EventStream, i: int, j: int)
    requires
        s.wf(),
        0 <= i < j < s.delivered().len(),
    ensures
        s.delivered()[i] < s.delivered()[j],
{
}

/// Cursor advance: the cursor is exactly the identifier of the most recently
/// delivered entry, and is unset before anything was delivered.
pub proof fn lemma_cursor_is_last_delivery(s: &EventStream)
    requires
        s.wf(),
    ensures
        s.cursor() is None <==> s.delivered().len() == 0,
        s.delivered().len() > 0 ==> s.cursor() == Some(s.delivered().last()),
{
}

/// At-most-once delivery: with the cursor at `n`, everything delivered so
/// far has an identifier at most `n`, and everything still buffered lies
/// strictly beyond `n` — so no entry is ever delivered twice, and a retried
/// fetch (which reuses the unchanged cursor) cannot re-deliver.
pub proof fn lemma_at_most_once(s: &EventStream, n: u64)
    requires
        s.wf(),
        s.cursor() == Some(n),
    ensures
        forall|i: int| 0 <= i < s.delivered().len() ==> s.delivered()[i] <= n,
        forall|i: int|
            0 <= i < s.buffered().len() ==> entry_ids(s.buffered())[i] > n,
{
    let d = s.delivered();
    assert forall|i: int| 0 <= i < d.len() implies d[i] <= n by {
        if i < d.len() - 1 {
            assert(d[i] < d[d.len() - 1]);
        }
    }
}

} // verus!
