//! Handled-cursor acknowledgement. Separate from waiter-link attach.

use crate::admission::{ArmModel, KnownArm, HISTORY_CAP};
use crate::protocol;
use crate::protocol::{format_time, HandledCursor, HandledCursorError, HandledModel};
use crate::table::Record;
use crate::text;
use crate::text::{copy_optional_text, copy_texts, same_text, same_texts};
use crate::text_table;
use crate::text_table::TextTable;
use crate::timestamp::Timestamp;
use vstd::prelude::*;

verus! {

/// One claimed signal and what was delivered for it.
pub struct SignalBatch {
    arm_id: String,
    generation: u64,
    delivered: Vec<String>,
    drain_snapshot: Vec<String>,
    after_bound: Vec<String>,
    handled: Option<String>,
    closed: bool,
}

/// What a [`SignalBatch`] holds.
pub struct BatchModel {
    pub arm_id: Seq<char>,
    pub generation: u64,
    pub delivered: Seq<Seq<char>>,
    pub drain_snapshot: Seq<Seq<char>>,
    pub after_bound: Seq<Seq<char>>,
    pub handled: Option<Seq<char>>,
    pub closed: bool,
}

impl View for SignalBatch {
    type V = BatchModel;

    closed spec fn view(&self) -> BatchModel {
        BatchModel {
            arm_id: self.arm_id@,
            generation: self.generation,
            delivered: text::texts(self.delivered@),
            drain_snapshot: text::texts(self.drain_snapshot@),
            after_bound: text::texts(self.after_bound@),
            handled: text::optional_text(self.handled),
            closed: self.closed,
        }
    }
}

impl Record for SignalBatch {
    fn dup(&self) -> (copy: SignalBatch) {
        SignalBatch {
            arm_id: self.arm_id.clone(),
            generation: self.generation,
            delivered: copy_texts(&self.delivered),
            drain_snapshot: copy_texts(&self.drain_snapshot),
            after_bound: copy_texts(&self.after_bound),
            handled: copy_optional_text(&self.handled),
            closed: self.closed,
        }
    }
}

/// A request and the reply that it got.
pub struct HistoryEntry {
    request: HandledCursor,
    reply: HandledCursor,
}

/// What a [`HistoryEntry`] holds.
pub struct HistoryModel {
    pub request: HandledModel,
    pub reply: HandledModel,
}

impl View for HistoryEntry {
    type V = HistoryModel;

    closed spec fn view(&self) -> HistoryModel {
        HistoryModel { request: self.request@, reply: self.reply@ }
    }
}

impl Record for HistoryEntry {
    fn dup(&self) -> (copy: HistoryEntry) {
        HistoryEntry { request: self.request.clone(), reply: self.reply.clone() }
    }
}

/// The arm, the signals and the requests of one acknowledgement authority.
#[verifier::ext_equal]
pub struct AckModel {
    pub arm: Option<ArmModel>,
    pub signals: Map<Seq<char>, BatchModel>,
    pub history: Map<Seq<char>, HistoryModel>,
}

/// Where a text stands first in a list.
pub open spec fn stands_first(list: Seq<Seq<char>>, wanted: Seq<char>, i: int) -> bool {
    &&& 0 <= i < list.len()
    &&& list[i] == wanted
    &&& forall|j: int| 0 <= j < i ==> #[trigger] list[j] != wanted
}

/// The first place of a text in a list.
pub open spec fn first_place(list: Seq<Seq<char>>, wanted: Seq<char>) -> Option<int> {
    if exists|i: int| stands_first(list, wanted, i) {
        Some(choose|i: int| stands_first(list, wanted, i))
    } else {
        None
    }
}

/// What is wrong with a delivered slice of a drain, if anything is.
pub open spec fn prefix_fault(delivered: Seq<Seq<char>>, drain: Seq<Seq<char>>) -> Option<
    Seq<char>,
> {
    if !drain.no_duplicates() {
        Some("duplicate drain ref"@)
    } else if !delivered.no_duplicates() {
        Some("duplicate event_ref"@)
    } else if drain.len() < delivered.len() || drain.take(delivered.len() as int) != delivered {
        Some("delivered not leading prefix"@)
    } else {
        None
    }
}

impl AckModel {
    /// Another signal of the generation is open.
    pub open spec fn other_open(self, generation: u64, signal_id: Seq<char>) -> bool {
        exists|id: Seq<char>|
            {
                &&& #[trigger] self.signals.dom().contains(id)
                &&& id != signal_id
                &&& self.signals[id].generation == generation
                &&& !self.signals[id].closed
            }
    }

    /// The batch that a delivery makes.
    pub open spec fn batch_of(
        arm: ArmModel,
        delivered: Seq<Seq<char>>,
        drain: Seq<Seq<char>>,
    ) -> BatchModel {
        BatchModel {
            arm_id: arm.arm_id,
            generation: arm.generation,
            delivered,
            drain_snapshot: drain,
            after_bound: drain.skip(delivered.len() as int),
            handled: None,
            closed: false,
        }
    }

    /// A delivery is noted: once for a signal, and again only unchanged.
    pub open spec fn note_delivered(
        self,
        signal_id: Seq<char>,
        delivered: Seq<Seq<char>>,
        drain: Seq<Seq<char>>,
    ) -> (AckModel, Result<(), Seq<char>>) {
        match self.arm {
            None => (self, Err("unknown_arm"@)),
            Some(arm) => if delivered.len() == 0 {
                (self, Err("empty delivery"@))
            } else if prefix_fault(delivered, drain) is Some {
                (self, Err(prefix_fault(delivered, drain)->0))
            } else if self.other_open(arm.generation, signal_id) {
                (self, Err("signal conflict"@))
            } else if self.signals.dom().contains(signal_id) {
                let existing = self.signals[signal_id];
                let same_authority = existing.arm_id == arm.arm_id && existing.generation
                    == arm.generation;
                if same_authority && existing.delivered.len() == 0 && !existing.closed
                    && existing.handled is None {
                    (
                        AckModel {
                            signals: self.signals.insert(
                                signal_id,
                                AckModel::batch_of(arm, delivered, drain),
                            ),
                            ..self
                        },
                        Ok(()),
                    )
                } else if same_authority && existing.delivered == delivered
                    && existing.drain_snapshot == drain {
                    (self, Ok(()))
                } else {
                    (self, Err("signal conflict"@))
                }
            } else {
                (
                    AckModel {
                        signals: self.signals.insert(
                            signal_id,
                            AckModel::batch_of(arm, delivered, drain),
                        ),
                        ..self
                    },
                    Ok(()),
                )
            },
        }
    }

    /// A signal is claimed before anything is delivered for it.
    pub open spec fn note_claimed(self, signal_id: Seq<char>) -> (
        AckModel,
        Result<(), Seq<char>>,
    ) {
        match self.arm {
            None => (self, Err("unknown_arm"@)),
            Some(arm) => if self.other_open(arm.generation, signal_id) {
                (self, Err("signal conflict"@))
            } else if self.signals.dom().contains(signal_id) {
                let existing = self.signals[signal_id];
                if existing.arm_id == arm.arm_id && existing.generation == arm.generation
                    && existing.delivered.len() == 0 && !existing.closed {
                    (self, Ok(()))
                } else {
                    (self, Err("signal conflict"@))
                }
            } else {
                (
                    AckModel {
                        signals: self.signals.insert(
                            signal_id,
                            AckModel::batch_of(arm, Seq::empty(), Seq::empty()),
                        ),
                        ..self
                    },
                    Ok(()),
                )
            },
        }
    }

    /// Why a request is refused, if it is.
    pub open spec fn refusal(self, request: HandledModel) -> Option<Seq<char>> {
        match request {
            HandledModel::Request {
                request_id,
                arm_id,
                generation,
                seat_id,
                signal_id,
                cursor,
                observed_at,
            } => match self.arm {
                None => Some("unknown_arm"@),
                Some(arm) => if arm.arm_id != arm_id {
                    Some("unknown_arm"@)
                } else if arm.seat_id != seat_id {
                    Some("seat_mismatch"@)
                } else if generation != arm.generation {
                    Some("stale_generation"@)
                } else if !self.signals.dom().contains(signal_id) {
                    Some("unknown_signal"@)
                } else {
                    let batch = self.signals[signal_id];
                    if batch.closed || batch.generation != arm.generation {
                        Some("stale_generation"@)
                    } else if batch.delivered.len() == 0 {
                        Some("ack_before_delivery"@)
                    } else if first_place(batch.after_bound, cursor) is Some {
                        Some("cursor_beyond_delivered"@)
                    } else {
                        match first_place(batch.delivered, cursor) {
                            None => Some("cursor_not_member"@),
                            Some(position) => {
                                let behind = match batch.handled {
                                    Some(handled) => first_place(
                                        batch.delivered,
                                        handled,
                                    ) matches Some(at) && position < at,
                                    None => false,
                                };
                                if behind {
                                    Some("stale_cursor"@)
                                } else {
                                    None
                                }
                            },
                        }
                    }
                },
            },
            _ => None,
        }
    }

    /// A valid request is decided: the cursor moves where it is not refused.
    pub open spec fn decide(self, request: HandledModel, now: Timestamp) -> (
        AckModel,
        HandledModel,
    )
        recommends
            request is Request,
    {
        let request_id = request->Request_request_id;
        match self.refusal(request) {
            Some(code) => (
                self,
                HandledModel::Rejected {
                    request_id,
                    code,
                    observed_at: protocol::time_chars(now),
                },
            ),
            None => {
                let signal_id = request->Request_signal_id;
                let cursor = request->Request_cursor;
                (
                    AckModel {
                        signals: self.signals.insert(
                            signal_id,
                            BatchModel { handled: Some(cursor), ..self.signals[signal_id] },
                        ),
                        ..self
                    },
                    HandledModel::Accepted {
                        request_id,
                        arm_id: request->Request_arm_id,
                        generation: request->Request_generation,
                        signal_id,
                        cursor,
                        accepted_at: protocol::time_chars(now),
                    },
                )
            },
        }
    }

    /// A request is recorded: a known one gets its reply again.
    pub open spec fn record_handled(self, request: HandledModel, now: Timestamp) -> (
        AckModel,
        Result<HandledModel, Seq<char>>,
    ) {
        match request {
            HandledModel::Request { request_id, .. } => if self.history.dom().contains(
                request_id,
            ) {
                if self.history[request_id].request == request {
                    (self, Ok(self.history[request_id].reply))
                } else {
                    (self, Err("request_id conflict"@))
                }
            } else if self.history.dom().len() >= HISTORY_CAP {
                (self, Err("request history full"@))
            } else {
                let (decided, reply) = self.decide(request, now);
                (
                    AckModel {
                        history: self.history.insert(request_id, HistoryModel { request, reply }),
                        ..decided
                    },
                    Ok(reply),
                )
            },
            _ => (self, Err("expected request"@)),
        }
    }

    /// The signal is closed at its cursor and the generation moves on.
    pub open spec fn rearm(self, signal_id: Seq<char>) -> (AckModel, Result<Seq<char>, Seq<char>>) {
        match self.arm {
            None => (self, Err("unknown_arm"@)),
            Some(arm) => if !self.signals.dom().contains(signal_id) {
                (self, Err("unknown_signal"@))
            } else {
                let batch = self.signals[signal_id];
                if batch.generation != arm.generation {
                    (self, Err("stale_generation"@))
                } else if batch.handled is None {
                    (self, Err("ack_before_delivery"@))
                } else if batch.closed {
                    (self, Err("stale_generation"@))
                } else if arm.generation == u64::MAX {
                    (self, Err("generation overflow"@))
                } else {
                    (
                        AckModel {
                            arm: Some(
                                ArmModel { generation: (arm.generation + 1) as u64, ..arm },
                            ),
                            signals: self.signals.insert(
                                signal_id,
                                BatchModel { closed: true, ..batch },
                            ),
                            ..self
                        },
                        Ok(batch.handled->0),
                    )
                }
            },
        }
    }

    /// A request is recorded and, where it was accepted and its signal is still
    /// open, the coverage rearms.
    pub open spec fn apply(self, request: HandledModel, now: Timestamp) -> (
        AckModel,
        Result<ServeModel, Seq<char>>,
    ) {
        let (recorded, reply) = self.record_handled(request, now);
        match reply {
            Err(reason) => (recorded, Err(reason)),
            Ok(reply) => match reply {
                HandledModel::Accepted { signal_id, cursor, .. } => {
                    let (rearmed, closed) = recorded.rearm(signal_id);
                    match closed {
                        Ok(_) => (
                            rearmed,
                            Ok(
                                ServeModel {
                                    reply,
                                    rearm: Some(
                                        RearmModel {
                                            after: cursor,
                                            generation: rearmed.arm->0.generation,
                                            signal_id,
                                        },
                                    ),
                                },
                            ),
                        ),
                        Err(reason) => if reason == "stale_generation"@ {
                            (rearmed, Ok(ServeModel { reply, rearm: None }))
                        } else {
                            (rearmed, Err(reason))
                        },
                    }
                },
                _ => (recorded, Ok(ServeModel { reply, rearm: None })),
            },
        }
    }

    /// Signals never outrun their arm, and at most one signal of the current
    /// generation is open.
    pub open spec fn orderly(self) -> bool {
        match self.arm {
            None => self.signals.dom() =~= Set::empty(),
            Some(arm) => {
                &&& forall|id: Seq<char>| #[trigger]
                    self.signals.dom().contains(id) ==> self.signals[id].generation
                        <= arm.generation
                &&& forall|a: Seq<char>, b: Seq<char>|
                    #![trigger self.signals.dom().contains(a), self.signals.dom().contains(b)]
                    self.signals.dom().contains(a) && self.signals.dom().contains(b)
                        && self.signals[a].generation == arm.generation && !self.signals[a].closed
                        && self.signals[b].generation == arm.generation && !self.signals[b].closed
                        ==> a == b
            },
        }
    }
}

/// In-memory ACK authority for one daemon arm.
pub struct AckStore {
    arm: Option<KnownArm>,
    signals: TextTable<SignalBatch>,
    history: TextTable<HistoryEntry>,
}

impl View for AckStore {
    type V = AckModel;

    closed spec fn view(&self) -> AckModel {
        AckModel {
            arm: match self.arm {
                Some(arm) => Some(arm@),
                None => None,
            },
            signals: self.signals@,
            history: self.history@,
        }
    }
}

impl Clone for AckStore {
    fn clone(&self) -> (copy: AckStore)
        ensures
            copy@ == self@,
    {
        AckStore {
            arm: match &self.arm {
                Some(arm) => Some(arm.clone()),
                None => None,
            },
            signals: self.signals.clone(),
            history: self.history.clone(),
        }
    }
}

impl Default for AckStore {
    fn default() -> (store: AckStore)
        ensures
            store@ == (AckModel { arm: None, signals: Map::empty(), history: Map::empty() }),
    {
        AckStore { arm: None, signals: TextTable::new(), history: TextTable::new() }
    }
}

/// Whether a list names something twice.
fn has_duplicates(list: &Vec<String>) -> (duplicates: bool)
    ensures
        duplicates == !text::texts(list@).no_duplicates(),
{
    let ghost models = text::texts(list@);
    let mut i: usize = 0;
    while i < list.len()
        invariant
            i <= list@.len(),
            models == text::texts(list@),
            forall|a: int, b: int| 0 <= a < b < i ==> models[a] != models[b],
        decreases list.len() - i,
    {
        let mut j: usize = 0;
        while j < i
            invariant
                j <= i < list@.len(),
                models == text::texts(list@),
                forall|a: int| 0 <= a < j ==> models[a] != models[i as int],
            decreases i - j,
        {
            if same_text(list[j].as_str(), list[i].as_str()) {
                assert(models[j as int] == models[i as int]);
                return true;
            }
            assert(models[j as int] != models[i as int]);
            j += 1;
        }
        i += 1;
    }
    false
}

/// The first place of a text in a list.
fn place_of(list: &Vec<String>, wanted: &str) -> (place: Option<usize>)
    ensures
        match place {
            Some(i) => first_place(text::texts(list@), wanted@) == Some(i as int),
            None => first_place(text::texts(list@), wanted@) is None,
        },
{
    let ghost models = text::texts(list@);
    let mut i: usize = 0;
    while i < list.len()
        invariant
            i <= list@.len(),
            models == text::texts(list@),
            forall|j: int| 0 <= j < i ==> #[trigger] models[j] != wanted@,
        decreases list.len() - i,
    {
        if same_text(list[i].as_str(), wanted) {
            proof {
                assert(stands_first(models, wanted@, i as int));
                let chosen = choose|k: int| stands_first(models, wanted@, k);
                if chosen < i {
                    assert(models[chosen] != wanted@);
                } else if chosen > i {
                    assert(models[i as int] != wanted@);
                }
            }
            return Some(i);
        }
        assert(models[i as int] != wanted@);
        i += 1;
    }
    None
}

/// Accepts exactly the deliveries that lead their drain without naming an event
/// twice.
fn validate_leading_prefix(delivered: &Vec<String>, drain: &Vec<String>) -> (result: Result<
    (),
    HandledCursorError,
>)
    ensures
        match result {
            Ok(()) => prefix_fault(text::texts(delivered@), text::texts(drain@)) is None,
            Err(error) => prefix_fault(text::texts(delivered@), text::texts(drain@)) == Some(
                error@,
            ),
        },
{
    let ghost d = text::texts(delivered@);
    let ghost s = text::texts(drain@);
    if has_duplicates(drain) {
        return Err(HandledCursorError::Semantic("duplicate drain ref"));
    }
    if has_duplicates(delivered) {
        return Err(HandledCursorError::Semantic("duplicate event_ref"));
    }
    if drain.len() < delivered.len() {
        return Err(HandledCursorError::Semantic("delivered not leading prefix"));
    }
    let mut i: usize = 0;
    while i < delivered.len()
        invariant
            i <= delivered@.len() <= drain@.len(),
            d == text::texts(delivered@),
            s == text::texts(drain@),
            s.no_duplicates(),
            d.no_duplicates(),
            forall|j: int| 0 <= j < i ==> #[trigger] d[j] == s[j],
        decreases delivered.len() - i,
    {
        if !same_text(delivered[i].as_str(), drain[i].as_str()) {
            proof {
                assert(d[i as int] != s[i as int]);
                assert(s.take(d.len() as int)[i as int] == s[i as int]);
            }
            return Err(HandledCursorError::Semantic("delivered not leading prefix"));
        }
        assert(d[i as int] == s[i as int]);
        i += 1;
    }
    assert(s.take(d.len() as int) =~= d);
    Ok(())
}

/// The end of a list.
fn tail_of(list: &Vec<String>, from: usize) -> (tail: Vec<String>)
    requires
        from <= list@.len(),
    ensures
        text::texts(tail@) == text::texts(list@).skip(from as int),
{
    let mut tail: Vec<String> = Vec::new();
    let mut i: usize = from;
    while i < list.len()
        invariant
            from <= i <= list@.len(),
            tail@.len() == i - from,
            forall|j: int| 0 <= j < tail@.len() ==> (#[trigger] tail@[j])@ == list@[from + j]@,
        decreases list.len() - i,
    {
        tail.push(list[i].clone());
        i += 1;
    }
    assert(text::texts(tail@) =~= text::texts(list@).skip(from as int));
    tail
}

impl AckStore {
    /// Bind the live arm.
    pub fn with_arm(arm: KnownArm) -> (store: AckStore)
        ensures
            store@ == (AckModel {
                arm: Some(arm@),
                signals: Map::empty(),
                history: Map::empty(),
            }),
    {
        AckStore { arm: Some(arm), signals: TextTable::new(), history: TextTable::new() }
    }

    /// Live arm, if any.
    pub fn arm(&self) -> (arm: Option<&KnownArm>)
        ensures
            match arm {
                Some(arm) => self@.arm == Some(arm@),
                None => self@.arm is None,
            },
    {
        match &self.arm {
            Some(arm) => Some(arm),
            None => None,
        }
    }

    fn has_other_open(&self, generation: u64, signal_id: &str) -> (open: bool)
        ensures
            open == self@.other_open(generation, signal_id@),
    {
        let count: usize = self.signals.len();
        proof {
            self.signals.key_order_lists();
        }
        let ghost order = self.signals.key_order();
        let mut i: usize = 0;
        while i < count
            invariant
                count == order.len(),
                order == self.signals.key_order(),
                self@.signals == self.signals@,
                i <= count,
                forall|key: Seq<char>| #[trigger]
                    self.signals@.dom().contains(key) <==> text_table::listed(order, key),
                forall|j: int|
                    0 <= j < i ==> {
                        let id = #[trigger] order[j];
                        id == signal_id@ || self.signals@[id].generation != generation
                            || self.signals@[id].closed
                    },
            decreases count - i,
        {
            let id = self.signals.key_at(i);
            if !same_text(id, signal_id) {
                if let Some(batch) = self.signals.get(id) {
                    if batch.generation == generation && !batch.closed {
                        assert(self@.signals.dom().contains(id@));
                        return true;
                    }
                }
            }
            i += 1;
        }
        assert forall|id: Seq<char>| #[trigger] self@.signals.dom().contains(id) implies !(id
            != signal_id@ && self@.signals[id].generation == generation
            && !self@.signals[id].closed) by {
            assert(text_table::listed(order, id));
            let j = choose|j: int| 0 <= j < order.len() && #[trigger] order[j] == id;
            assert(order[j] == id);
        }
        false
    }

    /// Record a delivered batch for `signal_id`.
    ///
    /// Exact replay of the same snapshots is idempotent. A different body for
    /// the same signal is a hard conflict. Never resets handled or closed state.
    pub fn note_delivered(
        &mut self,
        signal_id: String,
        delivered: Vec<String>,
        drain_snapshot: &Vec<String>,
    ) -> (result: Result<(), HandledCursorError>)
        ensures
            final(self)@ == old(self)@.note_delivered(
                signal_id@,
                text::texts(delivered@),
                text::texts(drain_snapshot@),
            ).0,
            match result {
                Ok(()) => old(self)@.note_delivered(
                    signal_id@,
                    text::texts(delivered@),
                    text::texts(drain_snapshot@),
                ).1 is Ok,
                Err(error) => old(self)@.note_delivered(
                    signal_id@,
                    text::texts(delivered@),
                    text::texts(drain_snapshot@),
                ).1 == Err::<(), Seq<char>>(error@),
            },
    {
        let (arm_id, generation) = match &self.arm {
            Some(arm) => (arm.arm_id.clone(), arm.generation),
            None => return Err(HandledCursorError::Semantic("unknown_arm")),
        };
        if delivered.len() == 0 {
            return Err(HandledCursorError::Semantic("empty delivery"));
        }
        match validate_leading_prefix(&delivered, drain_snapshot) {
            Ok(()) => {},
            Err(error) => return Err(error),
        }
        if self.has_other_open(generation, signal_id.as_str()) {
            return Err(HandledCursorError::Semantic("signal conflict"));
        }
        if let Some(existing) = self.signals.get(signal_id.as_str()) {
            let same_authority = same_text(existing.arm_id.as_str(), arm_id.as_str())
                && existing.generation == generation;
            let fresh = existing.delivered.len() == 0 && !existing.closed
                && existing.handled.is_none();
            if !(same_authority && fresh) {
                if same_authority && same_texts(&existing.delivered, &delivered) && same_texts(
                    &existing.drain_snapshot,
                    drain_snapshot,
                ) {
                    return Ok(());
                }
                return Err(HandledCursorError::Semantic("signal conflict"));
            }
        }
        let after_bound = tail_of(drain_snapshot, delivered.len());
        let batch = SignalBatch {
            arm_id,
            generation,
            delivered,
            drain_snapshot: copy_texts(drain_snapshot),
            after_bound,
            handled: None,
            closed: false,
        };
        self.signals.insert(signal_id, batch);
        Ok(())
    }

    /// Register a claimed signal before any events are delivered.
    pub fn note_claimed(&mut self, signal_id: String) -> (result: Result<(), HandledCursorError>)
        ensures
            final(self)@ == old(self)@.note_claimed(signal_id@).0,
            match result {
                Ok(()) => old(self)@.note_claimed(signal_id@).1 is Ok,
                Err(error) => old(self)@.note_claimed(signal_id@).1 == Err::<(), Seq<char>>(error@),
            },
    {
        let (arm_id, generation) = match &self.arm {
            Some(arm) => (arm.arm_id.clone(), arm.generation),
            None => return Err(HandledCursorError::Semantic("unknown_arm")),
        };
        if self.has_other_open(generation, signal_id.as_str()) {
            return Err(HandledCursorError::Semantic("signal conflict"));
        }
        if let Some(existing) = self.signals.get(signal_id.as_str()) {
            if same_text(existing.arm_id.as_str(), arm_id.as_str()) && existing.generation
                == generation && existing.delivered.len() == 0 && !existing.closed {
                return Ok(());
            }
            return Err(HandledCursorError::Semantic("signal conflict"));
        }
        let batch = SignalBatch {
            arm_id,
            generation,
            delivered: Vec::new(),
            drain_snapshot: Vec::new(),
            after_bound: Vec::new(),
            handled: None,
            closed: false,
        };
        proof {
            assert(batch@.delivered =~= Seq::<Seq<char>>::empty());
            assert(batch@.drain_snapshot =~= Seq::<Seq<char>>::empty());
            assert(batch@.after_bound =~= Seq::<Seq<char>>::empty().skip(0));
        }
        self.signals.insert(signal_id, batch);
        Ok(())
    }
}

/// Why a request is refused, if it is.
fn refuse(store: &AckStore, request: &HandledCursor) -> (code: Option<&'static str>)
    requires
        request is Request,
    ensures
        match code {
            Some(code) => store@.refusal(request@) == Some(code@),
            None => store@.refusal(request@) is None,
        },
{
    let (arm_id, generation, seat_id, signal_id, cursor) = match request {
        HandledCursor::Request {
            request_id: _,
            arm_id,
            generation,
            seat_id,
            signal_id,
            cursor,
            observed_at: _,
        } => (arm_id, *generation, seat_id, signal_id, cursor),
        _ => return None,
    };
    let arm = match &store.arm {
        Some(arm) => arm,
        None => return Some("unknown_arm"),
    };
    if !same_text(arm.arm_id.as_str(), arm_id.as_str()) {
        return Some("unknown_arm");
    }
    if !same_text(arm.seat_id.as_str(), seat_id.as_str()) {
        return Some("seat_mismatch");
    }
    if generation != arm.generation {
        return Some("stale_generation");
    }
    let batch = match store.signals.get(signal_id.as_str()) {
        Some(batch) => batch,
        None => return Some("unknown_signal"),
    };
    if batch.closed || batch.generation != arm.generation {
        return Some("stale_generation");
    }
    if batch.delivered.len() == 0 {
        return Some("ack_before_delivery");
    }
    if place_of(&batch.after_bound, cursor.as_str()).is_some() {
        return Some("cursor_beyond_delivered");
    }
    let position = match place_of(&batch.delivered, cursor.as_str()) {
        Some(position) => position,
        None => return Some("cursor_not_member"),
    };
    if let Some(handled) = &batch.handled {
        if let Some(at) = place_of(&batch.delivered, handled.as_str()) {
            if position < at {
                return Some("stale_cursor");
            }
        }
    }
    None
}

/// Decides a request that is new: moves the cursor or refuses.
pub fn decide(store: &mut AckStore, request: &HandledCursor, now: Timestamp) -> (reply:
    HandledCursor)
    requires
        request is Request,
    ensures
        (final(store)@, reply@) == old(store)@.decide(request@, now),
{
    let refused = refuse(store, request);
    match request {
        HandledCursor::Request {
            request_id,
            arm_id,
            generation,
            seat_id: _,
            signal_id,
            cursor,
            observed_at: _,
        } => {
            if let Some(code) = refused {
                return HandledCursor::Rejected {
                    request_id: request_id.clone(),
                    code: code.to_owned(),
                    observed_at: format_time(now),
                };
            }
            let mut batch = match store.signals.get(signal_id.as_str()) {
                Some(batch) => batch.dup(),
                None => {
                    assert(false);
                    return HandledCursor::Rejected {
                        request_id: request_id.clone(),
                        code: "unknown_signal".to_owned(),
                        observed_at: format_time(now),
                    };
                },
            };
            batch.handled = Some(cursor.clone());
            store.signals.insert(signal_id.clone(), batch);
            HandledCursor::Accepted {
                request_id: request_id.clone(),
                arm_id: arm_id.clone(),
                generation: *generation,
                signal_id: signal_id.clone(),
                cursor: cursor.clone(),
                accepted_at: format_time(now),
            }
        },
        _ => {
            assert(false);
            request.clone()
        },
    }
}

/// Record an ACK, with the verdict on whether its message is valid. An invalid
/// message gets that verdict's error and changes nothing.
pub fn record_handled_checked(
    store: &mut AckStore,
    request: HandledCursor,
    now: Timestamp,
    valid: Result<(), HandledCursorError>,
) -> (result: Result<HandledCursor, HandledCursorError>)
    ensures
        match valid {
            Err(error) => final(store)@ == old(store)@ && result == Err::<
                HandledCursor,
                HandledCursorError,
            >(error),
            Ok(()) => {
                &&& final(store)@ == old(store)@.record_handled(request@, now).0
                &&& match result {
                    Ok(reply) => old(store)@.record_handled(request@, now).1 == Ok::<
                        HandledModel,
                        Seq<char>,
                    >(reply@),
                    Err(error) => old(store)@.record_handled(request@, now).1 == Err::<
                        HandledModel,
                        Seq<char>,
                    >(error@),
                }
            },
        },
{
    match valid {
        Ok(()) => record_handled(store, request, now),
        Err(error) => Err(error),
    }
}

/// Record an ACK. Does not re-arm. The message is taken to be valid;
/// [`record_handled_checked`] takes the verdict on that.
pub fn record_handled(store: &mut AckStore, request: HandledCursor, now: Timestamp) -> (result:
    Result<HandledCursor, HandledCursorError>)
    ensures
        final(store)@ == old(store)@.record_handled(request@, now).0,
        match result {
            Ok(reply) => old(store)@.record_handled(request@, now).1 == Ok::<
                HandledModel,
                Seq<char>,
            >(reply@),
            Err(error) => old(store)@.record_handled(request@, now).1 == Err::<
                HandledModel,
                Seq<char>,
            >(error@),
        },
{
    let request_id = match &request {
        HandledCursor::Request {
            request_id,
            arm_id: _,
            generation: _,
            seat_id: _,
            signal_id: _,
            cursor: _,
            observed_at: _,
        } => request_id.clone(),
        _ => return Err(HandledCursorError::Semantic("expected request")),
    };
    if let Some(existing) = store.history.get(request_id.as_str()) {
        if existing.request.same(&request) {
            return Ok(existing.reply.clone());
        }
        return Err(HandledCursorError::Semantic("request_id conflict"));
    }
    if store.history.len() >= HISTORY_CAP {
        return Err(HandledCursorError::Semantic("request history full"));
    }
    let reply = decide(store, &request, now);
    let kept = reply.clone();
    store.history.insert(request_id, HistoryEntry { request, reply: kept });
    Ok(reply)
}

/// Close the signal at the last recorded cursor and bump generation.
pub fn rearm_from_handled(store: &mut AckStore, signal_id: &str) -> (result: Result<
    String,
    HandledCursorError,
>)
    ensures
        final(store)@ == old(store)@.rearm(signal_id@).0,
        match result {
            Ok(cursor) => old(store)@.rearm(signal_id@).1 == Ok::<Seq<char>, Seq<char>>(cursor@),
            Err(error) => old(store)@.rearm(signal_id@).1 == Err::<Seq<char>, Seq<char>>(error@),
        },
{
    let mut arm = match &store.arm {
        Some(arm) => arm.clone(),
        None => return Err(HandledCursorError::Semantic("unknown_arm")),
    };
    let mut batch = match store.signals.get(signal_id) {
        Some(batch) => batch.dup(),
        None => return Err(HandledCursorError::Semantic("unknown_signal")),
    };
    if batch.generation != arm.generation {
        return Err(HandledCursorError::Semantic("stale_generation"));
    }
    let cursor = match &batch.handled {
        Some(cursor) => cursor.clone(),
        None => return Err(HandledCursorError::Semantic("ack_before_delivery")),
    };
    if batch.closed {
        return Err(HandledCursorError::Semantic("stale_generation"));
    }
    if arm.generation == u64::MAX {
        return Err(HandledCursorError::Semantic("generation overflow"));
    }
    arm.generation = arm.generation + 1;
    batch.closed = true;
    store.signals.insert(signal_id.to_owned(), batch);
    store.arm = Some(arm);
    Ok(cursor)
}

/// Coverage successor after the first accepted ACK for an open signal.
#[derive(Debug, PartialEq, Eq)]
pub struct AckRearm {
    /// Exclusive `--after` cursor for the successor drain.
    pub after: String,
    /// Live generation after the bump.
    pub generation: u64,
    /// Closed signal.
    pub signal_id: String,
}

/// What an [`AckRearm`] says.
pub struct RearmModel {
    pub after: Seq<char>,
    pub generation: u64,
    pub signal_id: Seq<char>,
}

impl View for AckRearm {
    type V = RearmModel;

    open spec fn view(&self) -> RearmModel {
        RearmModel {
            after: self.after@,
            generation: self.generation,
            signal_id: self.signal_id@,
        }
    }
}

/// Record an ACK; rearm only on the first accepted reply for an open signal.
#[derive(Debug, PartialEq, Eq)]
pub struct HandledServe {
    /// Reply to write on the ACK connection.
    pub reply: HandledCursor,
    /// Present only when this request closed the signal and bumped generation.
    pub rearm: Option<AckRearm>,
}

/// What a [`HandledServe`] says.
pub struct ServeModel {
    pub reply: HandledModel,
    pub rearm: Option<RearmModel>,
}

impl View for HandledServe {
    type V = ServeModel;

    open spec fn view(&self) -> ServeModel {
        ServeModel {
            reply: self.reply@,
            rearm: match self.rearm {
                Some(rearm) => Some(rearm@),
                None => None,
            },
        }
    }
}

/// Record `request`, then rearm exactly once if it was newly accepted.
///
/// Exact history replay returns the same reply and does not bump generation
/// again. A failed reply write does not undo the record.
pub fn apply_handled_request(store: &mut AckStore, request: HandledCursor, now: Timestamp) -> (
    result: Result<HandledServe, HandledCursorError>)
    ensures
        final(store)@ == old(store)@.apply(request@, now).0,
        match result {
            Ok(served) => old(store)@.apply(request@, now).1 == Ok::<ServeModel, Seq<char>>(
                served@,
            ),
            Err(error) => old(store)@.apply(request@, now).1 == Err::<ServeModel, Seq<char>>(
                error@,
            ),
        },
{
    let reply = match record_handled(store, request, now) {
        Ok(reply) => reply,
        Err(error) => return Err(error),
    };
    let (signal_id, cursor) = match &reply {
        HandledCursor::Accepted {
            request_id: _,
            arm_id: _,
            generation: _,
            signal_id,
            cursor,
            accepted_at: _,
        } => (signal_id.clone(), cursor.clone()),
        _ => return Ok(HandledServe { reply, rearm: None }),
    };
    match rearm_from_handled(store, signal_id.as_str()) {
        Ok(_) => {
            let generation = match &store.arm {
                Some(arm) => arm.generation,
                None => {
                    assert(false);
                    return Err(HandledCursorError::Semantic("unknown_arm"));
                },
            };
            Ok(
                HandledServe {
                    reply,
                    rearm: Some(AckRearm { after: cursor, generation, signal_id }),
                },
            )
        },
        Err(HandledCursorError::Semantic(reason)) => if same_text(reason, "stale_generation") {
            Ok(HandledServe { reply, rearm: None })
        } else {
            Err(HandledCursorError::Semantic(reason))
        },
    }
}

/// A new store is orderly.
pub proof fn new_store_is_orderly(arm: ArmModel)
    ensures
        (AckModel {
            arm: Some(arm),
            signals: Map::<Seq<char>, BatchModel>::empty(),
            history: Map::<Seq<char>, HistoryModel>::empty(),
        }).orderly(),
{
}

/// Every operation keeps a store orderly: one open signal per live generation.
pub proof fn operations_keep_order(
    store: AckModel,
    signal_id: Seq<char>,
    delivered: Seq<Seq<char>>,
    drain: Seq<Seq<char>>,
    request: HandledModel,
    now: Timestamp,
)
    requires
        store.orderly(),
    ensures
        store.note_delivered(signal_id, delivered, drain).0.orderly(),
        store.note_claimed(signal_id).0.orderly(),
        store.record_handled(request, now).0.orderly(),
        store.rearm(signal_id).0.orderly(),
        store.apply(request, now).0.orderly(),
{
    record_keeps_order(store, request, now);
    let recorded = store.record_handled(request, now).0;
    if let Ok(HandledModel::Accepted { signal_id: closed, .. }) = store.record_handled(
        request,
        now,
    ).1 {
        rearm_keeps_order(recorded, closed);
    }
    rearm_keeps_order(store, signal_id);
}

proof fn record_keeps_order(store: AckModel, request: HandledModel, now: Timestamp)
    requires
        store.orderly(),
    ensures
        store.record_handled(request, now).0.orderly(),
{
    let after = store.record_handled(request, now).0;
    assert(after.signals.dom() =~= store.signals.dom());
    assert forall|id: Seq<char>| #[trigger] after.signals.dom().contains(id) implies
        after.signals[id].generation == store.signals[id].generation && after.signals[id].closed
        == store.signals[id].closed by {
        assert(store.signals.dom().contains(id));
    }
}

proof fn rearm_keeps_order(store: AckModel, signal_id: Seq<char>)
    requires
        store.orderly(),
    ensures
        store.rearm(signal_id).0.orderly(),
{
    let after = store.rearm(signal_id).0;
    assert(after.signals.dom() =~= store.signals.dom());
    assert forall|id: Seq<char>| #[trigger] after.signals.dom().contains(id) implies
        after.signals[id].generation == store.signals[id].generation by {
        assert(store.signals.dom().contains(id));
    }
}

/// A request that was answered is answered the same for ever, also after a
/// rearm: neither time nor other changes to arm and signals matter.
pub proof fn recorded_request_replays(
    store: AckModel,
    later: AckModel,
    request: HandledModel,
    now: Timestamp,
    then: Timestamp,
)
    requires
        request is Request,
        store.record_handled(request, now).1 is Ok,
        later.history == store.record_handled(request, now).0.history,
    ensures
        later.record_handled(request, then) == (later, store.record_handled(request, now).1),
{
}

/// No operation forgets or changes an answered request.
pub proof fn history_only_grows(
    store: AckModel,
    signal_id: Seq<char>,
    delivered: Seq<Seq<char>>,
    drain: Seq<Seq<char>>,
    request: HandledModel,
    now: Timestamp,
)
    ensures
        store.history.submap_of(store.record_handled(request, now).0.history),
        store.history.submap_of(store.apply(request, now).0.history),
        store.note_delivered(signal_id, delivered, drain).0.history == store.history,
        store.note_claimed(signal_id).0.history == store.history,
        store.rearm(signal_id).0.history == store.history,
{
    let grown = store.record_handled(request, now).0.history;
    assert(store.history.submap_of(grown));
}

/// Applying a request a second time gives the same reply, rearms nothing and
/// leaves the store alone, once the first one rearmed.
pub proof fn applied_request_rearms_once(
    store: AckModel,
    request: HandledModel,
    now: Timestamp,
    then: Timestamp,
)
    requires
        request is Request,
        store.apply(request, now).1 matches Ok(served) && served.rearm is Some,
    ensures
        ({
            let (after, first) = store.apply(request, now);
            let (again, second) = after.apply(request, then);
            &&& again == after
            &&& second == Ok::<ServeModel, Seq<char>>(
                ServeModel { reply: first->Ok_0.reply, rearm: None },
            )
        }),
{
}

/// The handled cursor of an open signal never moves back: an acceptance names a
/// delivered event at or after the one handled before.
pub proof fn cursor_is_monotone(store: AckModel, request: HandledModel, now: Timestamp)
    requires
        request is Request,
        store.decide(request, now).1 is Accepted,
    ensures
        ({
            let signal_id = request->Request_signal_id;
            let before = store.signals[signal_id];
            let after = store.decide(request, now).0.signals[signal_id];
            &&& after.handled == Some(request->Request_cursor)
            &&& after.delivered == before.delivered
            &&& first_place(before.delivered, request->Request_cursor) is Some
            &&& before.handled matches Some(handled) ==> first_place(
                before.delivered,
                handled,
            ) matches Some(at) ==> at <= first_place(
                before.delivered,
                request->Request_cursor,
            )->0
        }),
{
}

/// A refused request changes nothing but the history.
pub proof fn refused_request_moves_nothing(store: AckModel, request: HandledModel, now: Timestamp)
    requires
        request is Request,
        store.record_handled(request, now).1 matches Ok(HandledModel::Rejected { .. }),
    ensures
        store.record_handled(request, now).0.arm == store.arm,
        !store.history.dom().contains(request->Request_request_id) ==> store.record_handled(
            request,
            now,
        ).0.signals == store.signals,
{
}

/// Noting a delivery twice in a row changes nothing the second time.
pub proof fn noted_delivery_replays(
    store: AckModel,
    signal_id: Seq<char>,
    delivered: Seq<Seq<char>>,
    drain: Seq<Seq<char>>,
)
    requires
        store.note_delivered(signal_id, delivered, drain).1 is Ok,
    ensures
        ({
            let after = store.note_delivered(signal_id, delivered, drain).0;
            after.note_delivered(signal_id, delivered, drain) == (after, Ok::<(), Seq<char>>(()))
        }),
{
    let after = store.note_delivered(signal_id, delivered, drain).0;
    let arm = store.arm->0;
    assert(!after.other_open(arm.generation, signal_id)) by {
        if after.other_open(arm.generation, signal_id) {
            let id = choose|id: Seq<char>|
                {
                    &&& #[trigger] after.signals.dom().contains(id)
                    &&& id != signal_id
                    &&& after.signals[id].generation == arm.generation
                    &&& !after.signals[id].closed
                };
            assert(store.signals.dom().contains(id));
        }
    }
}

/// Closing a signal moves the arm to the next generation and never further; a
/// closed signal cannot be closed again.
pub proof fn rearm_is_single(store: AckModel, signal_id: Seq<char>)
    requires
        store.rearm(signal_id).1 is Ok,
    ensures
        store.rearm(signal_id).0.arm->0.generation == store.arm->0.generation + 1,
        store.rearm(signal_id).0.rearm(signal_id) == (
            store.rearm(signal_id).0,
            Err::<Seq<char>, Seq<char>>("stale_generation"@),
        ),
{
}

} // verus!
