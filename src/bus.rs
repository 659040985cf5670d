//! The event bus around the state machine: the bounded input queue that feeds
//! it, the broadcast ring that fans committed transitions out to subscribers,
//! and the handler that joins them, fault-recovery delay included.
use vstd::prelude::*;
use crate::bindings::{
    input_channel_clear, input_channel_len, input_channel_new, input_channel_try_receive,
    input_channel_try_send, queued_inputs, InputChannel,
};
use crate::charger::{next_state, Charger, ChargerState, InputEvent, OutputEvent};
use crate::response::{decode_response, payload_effect, ResponseEffect};

verus! {

/// Capacity of the input queue.
pub const INPUT_QUEUE_CAPACITY: usize = 10;

/// Number of broadcast records a subscriber may fall behind before it lags.
pub const BROADCAST_DEPTH: usize = 8;

/// Largest number of broadcast subscribers.
pub const MAX_SUBSCRIBERS: usize = 6;

/// Time the handler waits in `Faulted` before it recovers, in milliseconds.
pub const FAULT_RECOVERY_MS: u64 = 5000;

/// The bounded FIFO of input events (capacity 10), consumed by the handler.
pub struct InputQueue {
    channel: InputChannel,
}

impl View for InputQueue {
    type V = Seq<InputEvent>;

    closed spec fn view(&self) -> Seq<InputEvent> {
        queued_inputs(self.channel)
    }
}

impl InputQueue {
    pub fn new() -> (r: InputQueue)
        ensures
            r@ == Seq::<InputEvent>::empty(),
    {
        InputQueue { channel: input_channel_new() }
    }

    /// Enqueues without blocking; a full queue refuses the event and is unchanged.
    pub fn try_send(&mut self, e: InputEvent) -> (r: bool)
        ensures
            r == (old(self)@.len() < INPUT_QUEUE_CAPACITY),
            r ==> final(self)@ == old(self)@.push(e),
            !r ==> final(self)@ == old(self)@,
    {
        input_channel_try_send(&mut self.channel, e)
    }

    /// Takes the oldest event, if any.
    pub fn try_receive(&mut self) -> (r: Option<InputEvent>)
        ensures
            old(self)@.len() == 0 ==> r is None && final(self)@ == old(self)@,
            old(self)@.len() > 0 ==> r == Some(old(self)@[0]) && final(self)@ == old(
                self,
            )@.drop_first(),
    {
        input_channel_try_receive(&mut self.channel)
    }

    pub fn clear(&mut self)
        ensures
            final(self)@ == Seq::<InputEvent>::empty(),
    {
        input_channel_clear(&mut self.channel)
    }

    pub fn len(&self) -> (r: usize)
        ensures
            r == self@.len(),
    {
        input_channel_len(&self.channel)
    }
}

/// A committed transition as the bus carries it: the new state and the
/// output events that the transition authorized (at most two; the bus
/// accepts no more).
pub struct BroadcastRecord {
    pub state: ChargerState,
    pub outputs: Vec<OutputEvent>,
}

impl View for BroadcastRecord {
    type V = (ChargerState, Seq<OutputEvent>);

    open spec fn view(&self) -> (ChargerState, Seq<OutputEvent>) {
        (self.state, self.outputs@)
    }
}

impl BroadcastRecord {
    /// An equal copy of the record.
    pub fn duplicate(&self) -> (r: BroadcastRecord)
        ensures
            r@ == self@,
    {
        let mut outputs: Vec<OutputEvent> = Vec::new();
        let mut i: usize = 0;
        while i < self.outputs.len()
            invariant
                i <= self.outputs@.len(),
                outputs@ == self.outputs@.subrange(0, i as int),
            decreases self.outputs@.len() - i,
        {
            outputs.push(self.outputs[i]);
            i += 1;
            assert(outputs@ =~= self.outputs@.subrange(0, i as int));
        }
        assert(outputs@ =~= self.outputs@);
        BroadcastRecord { state: self.state, outputs }
    }

    /// Whether the record's outputs hold `e`.
    pub fn has_output(&self, e: OutputEvent) -> (r: bool)
        ensures
            r == self.outputs@.contains(e),
    {
        let mut i: usize = 0;
        while i < self.outputs.len()
            invariant
                i <= self.outputs@.len(),
                forall|j: int| 0 <= j < i ==> self.outputs@[j] != e,
            decreases self.outputs@.len() - i,
        {
            if self.outputs[i] == e {
                return true;
            }
            i += 1;
        }
        false
    }
}

/// What a subscriber gets from the bus.
pub enum BusMessage {
    /// The subscriber fell behind and missed this many records; its cursor now
    /// points at the oldest record still held.
    Lagged(u64),
    /// The next record in publish order.
    Message(BroadcastRecord),
}

/// The broadcast ring: single publisher, up to `MAX_SUBSCRIBERS` subscribers,
/// each with its own cursor; the last `BROADCAST_DEPTH` records are held.
///
/// embassy-sync's `PubSubChannel` is not used here. Verus refuses its
/// declaration (its mutex parameter is bound by an outside trait), and the
/// fallback, a struct hiding the channel, would have to hold subscriber
/// handles that borrow that same channel. Its lag result also depends on
/// per-record counts of readers, so no short contract holds of it. The ring
/// below keeps its observable behaviour: a subscriber more than
/// `BROADCAST_DEPTH` records behind is told how many it missed and resumes at
/// the oldest record held.
pub struct Broadcast {
    records: Vec<BroadcastRecord>,
    next_id: u64,
    cursors: Vec<u64>,
    history: Ghost<Seq<(ChargerState, Seq<OutputEvent>)>>,
}

/// Number of records that the ring holds after `n` publications.
pub open spec fn held(n: int) -> int {
    if n < BROADCAST_DEPTH as int {
        n
    } else {
        BROADCAST_DEPTH as int
    }
}

/// What a subscriber whose cursor is `c` receives from a ring that has
/// published `history`, and where its cursor goes: `None` when nothing is new.
pub open spec fn next_for(history: Seq<(ChargerState, Seq<OutputEvent>)>, c: int) -> Option<
    (Result<(ChargerState, Seq<OutputEvent>), int>, int),
> {
    let start = history.len() - held(history.len() as int);
    if c < start {
        Some((Err(start - c), start))
    } else if c < history.len() {
        Some((Ok(history[c]), c + 1))
    } else {
        None
    }
}

/// A subscriber that has not polled for more than `BROADCAST_DEPTH`
/// publications gets a distinct lag signal, which counts exactly the records
/// it missed, and then resumes at the oldest record still held; it never
/// silently resumes at an arbitrary record.
pub proof fn lemma_slow_subscriber_lags(history: Seq<(ChargerState, Seq<OutputEvent>)>, c: int)
    requires
        0 <= c,
        history.len() - c > BROADCAST_DEPTH,
    ensures
        next_for(history, c) == Some(
            (
                Err::<(ChargerState, Seq<OutputEvent>), int>(history.len() - BROADCAST_DEPTH - c),
                history.len() - BROADCAST_DEPTH as int,
            ),
        ),
{
}

/// A subscriber within `BROADCAST_DEPTH` publications of the newest record
/// receives every record, in publish order.
pub proof fn lemma_timely_subscriber_reads_in_order(
    history: Seq<(ChargerState, Seq<OutputEvent>)>,
    c: int,
)
    requires
        0 <= c < history.len(),
        history.len() - c <= BROADCAST_DEPTH,
    ensures
        next_for(history, c) == Some(
            (Ok::<(ChargerState, Seq<OutputEvent>), int>(history[c]), c + 1),
        ),
{
}

impl Broadcast {
    /// Everything published so far, oldest first.
    pub closed spec fn history(&self) -> Seq<(ChargerState, Seq<OutputEvent>)> {
        self.history@
    }

    /// Id of the next record each subscriber reads, by subscriber index.
    pub closed spec fn cursors(&self) -> Seq<u64> {
        self.cursors@
    }

    pub closed spec fn wf(&self) -> bool {
        &&& self.history@.len() == self.next_id
        &&& self.records@.len() == held(self.next_id as int)
        &&& forall|k: int|
            0 <= k < self.records@.len() ==> (#[trigger] self.records@[k])@ == self.history@[self.next_id
                - self.records@.len() + k]
        &&& forall|k: int| 0 <= k < self.history@.len() ==> (#[trigger] self.history@[k]).1.len() <= 2
        &&& self.cursors@.len() <= MAX_SUBSCRIBERS
        &&& forall|s: int| 0 <= s < self.cursors@.len() ==> #[trigger] self.cursors@[s] <= self.next_id
    }

    pub fn new() -> (r: Broadcast)
        ensures
            r.wf(),
            r.history() == Seq::<(ChargerState, Seq<OutputEvent>)>::empty(),
            r.cursors() == Seq::<u64>::empty(),
    {
        Broadcast {
            records: Vec::new(),
            next_id: 0,
            cursors: Vec::new(),
            history: Ghost(Seq::empty()),
        }
    }

    /// Number of records published so far.
    pub fn published(&self) -> (r: u64)
        requires
            self.wf(),
        ensures
            r == self.history().len(),
    {
        self.next_id
    }

    pub fn subscriber_count(&self) -> (r: usize)
        ensures
            r == self.cursors().len(),
    {
        self.cursors.len()
    }

    /// Adds a subscriber that will receive only what is published from now on;
    /// `None` once `MAX_SUBSCRIBERS` are registered.
    pub fn subscribe(&mut self) -> (r: Option<usize>)
        requires
            old(self).wf(),
        ensures
            final(self).wf(),
            final(self).history() == old(self).history(),
            old(self).cursors().len() < MAX_SUBSCRIBERS ==> r == Some(old(self).cursors().len() as usize)
                && final(self).cursors() == old(self).cursors().push(
                old(self).history().len() as u64,
            ),
            old(self).cursors().len() >= MAX_SUBSCRIBERS ==> r is None && final(self).cursors()
                == old(self).cursors(),
    {
        if self.cursors.len() < MAX_SUBSCRIBERS {
            let id = self.cursors.len();
            self.cursors.push(self.next_id);
            Some(id)
        } else {
            None
        }
    }

    /// Publishes a record; never blocks. When the ring is full the oldest
    /// record is dropped.
    pub fn publish(&mut self, record: BroadcastRecord)
        requires
            old(self).wf(),
            old(self).history().len() < u64::MAX,
            record.outputs@.len() <= 2,
        ensures
            final(self).wf(),
            final(self).history() == old(self).history().push(record@),
            final(self).cursors() == old(self).cursors(),
    {
        let ghost rec = record@;
        let ghost old_records = self.records@;
        if self.records.len() == BROADCAST_DEPTH {
            self.records.remove(0);
        }
        self.records.push(record);
        self.next_id = self.next_id + 1;
        self.history = Ghost(self.history@.push(rec));
        assert forall|k: int| 0 <= k < self.records@.len() implies (
        #[trigger] self.records@[k])@ == self.history@[self.next_id - self.records@.len() + k] by {
            if k < self.records@.len() - 1 {
                if old_records.len() == BROADCAST_DEPTH {
                    assert(self.records@[k] == old_records[k + 1]);
                } else {
                    assert(self.records@[k] == old_records[k]);
                }
            }
        }
        assert forall|s: int| 0 <= s < self.cursors@.len() implies #[trigger] self.cursors@[s]
            <= self.next_id by {}
    }

    /// Takes the next record for subscriber `sub` without waiting: a
    /// subscriber that fell more than `BROADCAST_DEPTH` records behind is told
    /// how many it missed; `None` means nothing new yet.
    pub fn try_next(&mut self, sub: usize) -> (r: Option<BusMessage>)
        requires
            old(self).wf(),
            sub < old(self).cursors().len(),
        ensures
            final(self).wf(),
            final(self).history() == old(self).history(),
            final(self).cursors().len() == old(self).cursors().len(),
            forall|s: int|
                0 <= s < old(self).cursors().len() && s != sub ==> final(self).cursors()[s] == old(
                    self,
                ).cursors()[s],
            match next_for(old(self).history(), old(self).cursors()[sub as int] as int) {
                None => r is None && final(self).cursors()[sub as int] == old(self).cursors()[sub as int],
                Some((Err(n), c)) => r matches Some(BusMessage::Lagged(m)) && m == n
                    && final(self).cursors()[sub as int] == c,
                Some((Ok(rec), c)) => r matches Some(BusMessage::Message(x)) && x@ == rec
                    && final(self).cursors()[sub as int] == c,
            },
            r matches Some(BusMessage::Message(x)) ==> x.outputs@.len() <= 2,
    {
        let c = self.cursors[sub];
        let start = self.next_id - self.records.len() as u64;
        if c < start {
            self.cursors.set(sub, start);
            Some(BusMessage::Lagged(start - c))
        } else if c < self.next_id {
            let idx = (c - start) as usize;
            let rec = self.records[idx].duplicate();
            self.cursors.set(sub, c + 1);
            Some(BusMessage::Message(rec))
        } else {
            None
        }
    }
}

/// What one step of the handler did.
pub enum StepOutcome {
    /// No input was waiting.
    Idle,
    /// The fault-recovery delay is still running: no input was taken.
    Recovering,
    /// An input arrived in `Faulted`: the recovery delay started.
    RecoveryStarted,
    /// The delay elapsed: queued inputs were dropped and the charger is back to `Available`.
    Recovered,
    /// An input was applied; `published` tells whether the state changed and
    /// the record went out on the bus.
    Applied { state: ChargerState, outputs: Vec<OutputEvent>, published: bool },
}

/// The state-machine handler: owns the charger, its input queue and the bus.
/// The only writer of the charger's state.
pub struct StateMachine {
    charger: Charger,
    inputs: InputQueue,
    bus: Broadcast,
    recovery: Option<(u64, InputEvent)>,
}

/// End of a recovery delay that starts at `now`.
pub open spec fn recovery_deadline(now: u64) -> u64 {
    if now > u64::MAX - FAULT_RECOVERY_MS {
        u64::MAX
    } else {
        (now + FAULT_RECOVERY_MS) as u64
    }
}

impl StateMachine {
    pub closed spec fn wf(&self) -> bool {
        &&& self.bus.wf()
        &&& self.recovery is Some ==> self.charger.spec_state() == ChargerState::Faulted
    }

    pub closed spec fn state(&self) -> ChargerState {
        self.charger.spec_state()
    }

    pub closed spec fn transaction(&self) -> i32 {
        self.charger.spec_transaction_id()
    }

    pub closed spec fn pending(&self) -> Seq<InputEvent> {
        self.inputs@
    }

    pub closed spec fn bus_history(&self) -> Seq<(ChargerState, Seq<OutputEvent>)> {
        self.bus.history()
    }

    pub closed spec fn bus_cursors(&self) -> Seq<u64> {
        self.bus.cursors()
    }

    /// Deadline of the running recovery delay, if one runs.
    pub closed spec fn recovery_until(&self) -> Option<u64> {
        match self.recovery {
            Some((d, _)) => Some(d),
            None => None,
        }
    }

    /// A handler whose charger starts in `initial` (the state probed at boot).
    pub fn new(initial: ChargerState) -> (r: StateMachine)
        ensures
            r.wf(),
            r.state() == initial,
            r.transaction() == 0,
            r.pending() == Seq::<InputEvent>::empty(),
            r.bus_history() == Seq::<(ChargerState, Seq<OutputEvent>)>::empty(),
            r.bus_cursors() == Seq::<u64>::empty(),
            r.recovery_until() is None,
    {
        let mut charger = Charger::new();
        charger.set_state(initial);
        StateMachine { charger, inputs: InputQueue::new(), bus: Broadcast::new(), recovery: None }
    }

    pub fn get_state(&self) -> (r: ChargerState)
        ensures
            r == self.state(),
    {
        self.charger.get_state()
    }

    pub fn get_transaction_id(&self) -> (r: i32)
        ensures
            r == self.transaction(),
    {
        self.charger.get_transaction_id()
    }

    /// Records the transaction id that the management system assigned. It
    /// stays until the next one: a stop transaction does not reset it.
    pub fn set_transaction_id(&mut self, id: i32)
        requires
            old(self).wf(),
        ensures
            final(self).wf(),
            final(self).transaction() == id,
            final(self).state() == old(self).state(),
            final(self).pending() == old(self).pending(),
            final(self).bus_history() == old(self).bus_history(),
            final(self).bus_cursors() == old(self).bus_cursors(),
            final(self).recovery_until() == old(self).recovery_until(),
    {
        self.charger.set_transaction_id(id)
    }

    pub fn pending_inputs(&self) -> (r: usize)
        ensures
            r == self.pending().len(),
    {
        self.inputs.len()
    }

    pub fn published(&self) -> (r: u64)
        requires
            self.wf(),
        ensures
            r == self.bus_history().len(),
    {
        self.bus.published()
    }

    /// Enqueues an input without blocking; a full queue drops it.
    pub fn send_input(&mut self, e: InputEvent) -> (r: bool)
        requires
            old(self).wf(),
        ensures
            final(self).wf(),
            r == (old(self).pending().len() < INPUT_QUEUE_CAPACITY),
            r ==> final(self).pending() == old(self).pending().push(e),
            !r ==> final(self).pending() == old(self).pending(),
            final(self).state() == old(self).state(),
            final(self).transaction() == old(self).transaction(),
            final(self).bus_history() == old(self).bus_history(),
            final(self).bus_cursors() == old(self).bus_cursors(),
            final(self).recovery_until() == old(self).recovery_until(),
    {
        self.inputs.try_send(e)
    }

    /// Registers a bus subscriber.
    pub fn subscribe(&mut self) -> (r: Option<usize>)
        requires
            old(self).wf(),
        ensures
            final(self).wf(),
            old(self).bus_cursors().len() < MAX_SUBSCRIBERS ==> r == Some(
                old(self).bus_cursors().len() as usize,
            ) && final(self).bus_cursors() == old(self).bus_cursors().push(
                old(self).bus_history().len() as u64,
            ),
            old(self).bus_cursors().len() >= MAX_SUBSCRIBERS ==> r is None && final(self).bus_cursors()
                == old(self).bus_cursors(),
            final(self).state() == old(self).state(),
            final(self).transaction() == old(self).transaction(),
            final(self).pending() == old(self).pending(),
            final(self).bus_history() == old(self).bus_history(),
            final(self).recovery_until() == old(self).recovery_until(),
    {
        self.bus.subscribe()
    }

    /// Publishes a record on the bus (the boot-time announcement uses this).
    pub fn announce(&mut self, record: BroadcastRecord)
        requires
            old(self).wf(),
            old(self).bus_history().len() < u64::MAX,
            record.outputs@.len() <= 2,
        ensures
            final(self).wf(),
            final(self).bus_history() == old(self).bus_history().push(record@),
            final(self).bus_cursors() == old(self).bus_cursors(),
            final(self).state() == old(self).state(),
            final(self).transaction() == old(self).transaction(),
            final(self).pending() == old(self).pending(),
            final(self).recovery_until() == old(self).recovery_until(),
    {
        self.bus.publish(record)
    }

    /// Takes the next bus message for subscriber `sub` without waiting.
    pub fn next_message(&mut self, sub: usize) -> (r: Option<BusMessage>)
        requires
            old(self).wf(),
            sub < old(self).bus_cursors().len(),
        ensures
            final(self).wf(),
            final(self).bus_history() == old(self).bus_history(),
            final(self).bus_cursors().len() == old(self).bus_cursors().len(),
            forall|s: int|
                0 <= s < old(self).bus_cursors().len() && s != sub ==> final(self).bus_cursors()[s]
                    == old(self).bus_cursors()[s],
            match next_for(old(self).bus_history(), old(self).bus_cursors()[sub as int] as int) {
                None => r is None && final(self).bus_cursors()[sub as int] == old(
                    self,
                ).bus_cursors()[sub as int],
                Some((Err(n), c)) => r matches Some(BusMessage::Lagged(m)) && m == n
                    && final(self).bus_cursors()[sub as int] == c,
                Some((Ok(rec), c)) => r matches Some(BusMessage::Message(x)) && x@ == rec
                    && final(self).bus_cursors()[sub as int] == c,
            },
            r matches Some(BusMessage::Message(x)) ==> x.outputs@.len() <= 2,
            final(self).state() == old(self).state(),
            final(self).transaction() == old(self).transaction(),
            final(self).pending() == old(self).pending(),
            final(self).recovery_until() == old(self).recovery_until(),
    {
        self.bus.try_next(sub)
    }

    /// One step of the handler at time `now` (milliseconds, monotonic).
    ///
    /// While a recovery delay runs, no input is taken. Once it has elapsed the
    /// queue is cleared and the charger returns to `Available`. Otherwise the
    /// oldest input is taken: in `Faulted` it starts the recovery delay; in
    /// any other state it goes through the transition table, the new state is
    /// committed, and the record is published if and only if the state changed.
    pub fn step(&mut self, now: u64) -> (r: StepOutcome)
        requires
            old(self).wf(),
            old(self).bus_history().len() < u64::MAX,
        ensures
            final(self).wf(),
            final(self).transaction() == old(self).transaction(),
            final(self).bus_cursors() == old(self).bus_cursors(),
            match old(self).recovery_until() {
                Some(d) => if now < d {
                    &&& r is Recovering
                    &&& final(self).state() == old(self).state()
                    &&& final(self).pending() == old(self).pending()
                    &&& final(self).bus_history() == old(self).bus_history()
                    &&& final(self).recovery_until() == old(self).recovery_until()
                } else {
                    &&& r is Recovered
                    &&& final(self).state() == ChargerState::Available
                    &&& final(self).pending() == Seq::<InputEvent>::empty()
                    &&& final(self).bus_history() == old(self).bus_history().push(
                        (ChargerState::Available, Seq::<OutputEvent>::empty()),
                    )
                    &&& final(self).recovery_until() is None
                },
                None => if old(self).pending().len() == 0 {
                    &&& r is Idle
                    &&& final(self).state() == old(self).state()
                    &&& final(self).pending() == old(self).pending()
                    &&& final(self).bus_history() == old(self).bus_history()
                    &&& final(self).recovery_until() is None
                } else if old(self).state() == ChargerState::Faulted {
                    &&& r is RecoveryStarted
                    &&& final(self).state() == ChargerState::Faulted
                    &&& final(self).pending() == old(self).pending().drop_first()
                    &&& final(self).bus_history() == old(self).bus_history()
                    &&& final(self).recovery_until() == Some(recovery_deadline(now))
                } else {
                    let e = old(self).pending()[0];
                    let (s, outs) = next_state(old(self).state(), e);
                    &&& r matches StepOutcome::Applied { state, outputs, published } && state == s
                        && outputs@ == outs && published == (s != old(self).state())
                    &&& final(self).state() == s
                    &&& final(self).pending() == old(self).pending().drop_first()
                    &&& final(self).bus_history() == if s != old(self).state() {
                        old(self).bus_history().push((s, outs))
                    } else {
                        old(self).bus_history()
                    }
                    &&& final(self).recovery_until() is None
                },
            },
    {
        match self.recovery {
            Some((deadline, trigger)) => {
                if now < deadline {
                    return StepOutcome::Recovering;
                }
                self.inputs.clear();
                let (state, outputs) = self.charger.transition(trigger);
                self.recovery = None;
                self.bus.publish(BroadcastRecord { state, outputs });
                StepOutcome::Recovered
            },
            None => {
                let e = match self.inputs.try_receive() {
                    Some(e) => e,
                    None => return StepOutcome::Idle,
                };
                let before = self.charger.get_state();
                if before == ChargerState::Faulted {
                    let deadline = if now > u64::MAX - FAULT_RECOVERY_MS {
                        u64::MAX
                    } else {
                        now + FAULT_RECOVERY_MS
                    };
                    self.recovery = Some((deadline, e));
                    return StepOutcome::RecoveryStarted;
                }
                let (state, outputs) = self.charger.transition(e);
                let published = state != before;
                if published {
                    let record = BroadcastRecord { state, outputs };
                    let copy = record.duplicate();
                    self.bus.publish(record);
                    StepOutcome::Applied { state, outputs: copy.outputs, published }
                } else {
                    StepOutcome::Applied { state, outputs, published }
                }
            },
        }
    }

    /// Acts on an inbound protocol payload: an authorization result becomes an
    /// input event (dropped when the queue is full); a transaction id is
    /// recorded on the charger. Anything else changes nothing.
    pub fn handle_inbound(&mut self, payload: &[u8]) -> (r: ResponseEffect)
        requires
            old(self).wf(),
        ensures
            final(self).wf(),
            r == payload_effect(payload@),
            final(self).state() == old(self).state(),
            final(self).bus_history() == old(self).bus_history(),
            final(self).bus_cursors() == old(self).bus_cursors(),
            final(self).recovery_until() == old(self).recovery_until(),
            match r {
                ResponseEffect::Input(e) => {
                    &&& final(self).transaction() == old(self).transaction()
                    &&& final(self).pending() == if old(self).pending().len()
                        < INPUT_QUEUE_CAPACITY {
                        old(self).pending().push(e)
                    } else {
                        old(self).pending()
                    }
                },
                ResponseEffect::TransactionStarted(id) => {
                    &&& final(self).transaction() == id
                    &&& final(self).pending() == old(self).pending()
                },
                ResponseEffect::Ignored => {
                    &&& final(self).transaction() == old(self).transaction()
                    &&& final(self).pending() == old(self).pending()
                },
            },
    {
        let effect = decode_response(payload);
        match effect {
            ResponseEffect::Input(e) => {
                self.inputs.try_send(e);
            },
            ResponseEffect::TransactionStarted(id) => {
                self.charger.set_transaction_id(id);
            },
            ResponseEffect::Ignored => {},
        }
        effect
    }
}

} // verus!
