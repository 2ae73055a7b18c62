//! Decisions of the consume loop. The loop itself (waiting on the shutdown
//! signal, the acknowledgement channel, the flush timer and the broker) runs
//! outside; each thing that happens is handed to [`ConsumerLoop::step`],
//! which says what to do next.

use vstd::prelude::*;

use super::commit::{ack_key, distinct_keys, lemma_offsets_len, offsets_of, CommitAck, CommitState};
use super::message::MQMessage;
use super::pipeline::TopicPlan;
use crate::config::setting_mq::KafkaTopicSetting;
use crate::text::{str_eq, views};

verus! {

/// Pending offsets are committed as soon as this many partitions wait.
pub const COMMIT_BATCH: usize = 64;

/// Milliseconds between two periodic commits.
pub const FLUSH_INTERVAL_MS: u64 = 100;

/// Capacity of the channel that carries acknowledgements from the workers.
pub const ACK_CHANNEL_CAPACITY: usize = 2048;

/// Something the consume loop observed.
#[derive(Debug)]
pub enum LoopEvent {
    /// The shutdown flag changed; it now reads the given value.
    Shutdown(bool),
    /// A worker acknowledged a handled message.
    Ack(CommitAck),
    /// Every worker has finished: the acknowledgement channel is closed.
    AcksClosed,
    /// The periodic flush timer fired.
    Tick,
    /// The broker delivered a message.
    Message(MQMessage),
    /// Subscribing to the planned topics failed.
    SubscribeFailed,
}

/// What the consume loop does next.
#[derive(Debug)]
pub enum LoopAction {
    /// Nothing.
    Idle,
    /// Commit these offsets (asynchronously).
    Commit(Vec<CommitAck>),
    /// Unsubscribe from the broker and close the topic queues so the
    /// workers drain and stop.
    StopIntake,
    /// Put the message on the queue of its topic.
    Enqueue(MQMessage),
    /// No pipeline takes this topic (any more): drop the message.
    Discard(MQMessage),
    /// Commit these offsets, if any, and leave the loop.
    Finish(Option<Vec<CommitAck>>),
    /// Leave the loop at once, without waiting for the workers or
    /// committing.
    Abandon,
}

/// State of the consume loop.
pub struct ConsumerLoop {
    commit: CommitState,
    topics: Vec<String>,
    shutting_down: bool,
    finished: bool,
}

impl ConsumerLoop {
    #[verifier::type_invariant]
    spec fn inv(self) -> bool {
        self.commit@.len() < COMMIT_BATCH
    }

    /// Offsets acknowledged and not yet committed.
    pub closed spec fn pending(&self) -> Map<(Seq<char>, i32), i64> {
        self.commit@
    }

    /// Topics that a pipeline serves.
    pub closed spec fn topics(&self) -> Seq<Seq<char>> {
        views(self.topics@)
    }

    /// Shutdown was requested.
    pub closed spec fn is_shutting_down(&self) -> bool {
        self.shutting_down
    }

    /// The loop has been left.
    pub closed spec fn is_finished(&self) -> bool {
        self.finished
    }

    /// A loop that serves the planned topics, with nothing pending.
    pub fn new(plans: &Vec<TopicPlan>) -> (l: Self)
        ensures
            l.pending() == Map::<(Seq<char>, i32), i64>::empty(),
            l.topics() == plans@.map_values(|p: TopicPlan| p.name@),
            !l.is_shutting_down(),
            !l.is_finished(),
    {
        let mut topics: Vec<String> = Vec::new();
        let n = plans.len();
        let mut i: usize = 0;
        while i < n
            invariant
                i <= n,
                n == plans@.len(),
                views(topics@) =~= plans@.map_values(|p: TopicPlan| p.name@).take(i as int),
            decreases n - i,
        {
            let ghost prev = topics@;
            let name = plans[i].name.clone();
            topics.push(name);
            assert(views(topics@) =~= views(prev).push(plans@[i as int].name@));
            i = i + 1;
        }
        assert(plans@.map_values(|p: TopicPlan| p.name@).take(n as int) =~= plans@.map_values(
            |p: TopicPlan| p.name@,
        ));
        let commit = CommitState::new();
        proof {
            assert(commit@.len() == 0);
        }
        ConsumerLoop { commit, topics, shutting_down: false, finished: false }
    }

    /// Whether the loop should still take messages from the broker.
    pub fn accepts_messages(&self) -> (b: bool)
        ensures
            b == !self.is_shutting_down(),
    {
        !self.shutting_down
    }

    /// Whether the loop has been left.
    pub fn finished(&self) -> (b: bool)
        ensures
            b == self.is_finished(),
    {
        self.finished
    }

    /// Number of partitions with an offset waiting.
    pub fn pending_len(&self) -> (n: usize)
        ensures
            n == self.pending().len(),
            n < COMMIT_BATCH,
    {
        proof {
            use_type_invariant(self);
        }
        self.commit.pending_len()
    }

    fn serves_topic(&self, topic: &str) -> (b: bool)
        ensures
            b == self.topics().contains(topic@),
    {
        let n = self.topics.len();
        let mut i: usize = 0;
        while i < n
            invariant
                i <= n,
                n == self.topics@.len(),
                forall|j: int| 0 <= j < i ==> self.topics@[j]@ != topic@,
            decreases n - i,
        {
            if str_eq(self.topics[i].as_str(), topic) {
                assert(self.topics()[i as int] == topic@);
                return true;
            }
            i = i + 1;
        }
        proof {
            if self.topics().contains(topic@) {
                let j = choose|j: int| 0 <= j < self.topics().len() && self.topics()[j] == topic@;
                assert(self.topics@[j]@ == topic@);
            }
        }
        false
    }

    /// Decides what to do about `event`.
    ///
    /// - A shutdown flag that turns on stops the intake once: no message is
    ///   taken afterwards and the topic queues are closed.
    /// - An acknowledgement is remembered; when `COMMIT_BATCH` partitions
    ///   wait, everything pending is committed at once.
    /// - The timer commits whatever is pending.
    /// - A closed acknowledgement channel commits what is pending and ends
    ///   the loop.
    /// - A message goes to its topic's queue while the intake runs and a
    ///   pipeline serves the topic; otherwise it is dropped.
    /// - A failed subscription abandons the loop.
    ///
    /// No acknowledged offset is lost: what was pending, together with the
    /// new acknowledgement, is either still pending or in the commit that
    /// the action carries.
    pub fn step(&mut self, event: LoopEvent) -> (action: LoopAction)
        requires
            !old(self).is_finished(),
        ensures
            final(self).topics() == old(self).topics(),
            final(self).pending().len() < COMMIT_BATCH,
            step_offsets(old(self).pending(), event, action_commit(action), final(self).pending()),
            match event {
                LoopEvent::Shutdown(on) => {
                    &&& final(self).pending() == old(self).pending()
                    &&& final(self).is_shutting_down() == (old(self).is_shutting_down() || on)
                    &&& !final(self).is_finished()
                    &&& if on && !old(self).is_shutting_down() {
                        action is StopIntake
                    } else {
                        action is Idle
                    }
                },
                LoopEvent::Ack(ack) => {
                    let all = old(self).pending().insert(ack_key(ack), ack.next_offset);
                    &&& final(self).is_shutting_down() == old(self).is_shutting_down()
                    &&& !final(self).is_finished()
                    &&& if all.len() >= COMMIT_BATCH {
                        &&& action matches LoopAction::Commit(list)
                        &&& offsets_of(list@) == all
                        &&& distinct_keys(list@)
                        &&& final(self).pending() == Map::<(Seq<char>, i32), i64>::empty()
                    } else {
                        &&& action is Idle
                        &&& final(self).pending() == all
                    }
                },
                LoopEvent::Tick => {
                    &&& final(self).is_shutting_down() == old(self).is_shutting_down()
                    &&& !final(self).is_finished()
                    &&& final(self).pending() == Map::<(Seq<char>, i32), i64>::empty()
                    &&& if old(self).pending().len() == 0 {
                        action is Idle
                    } else {
                        &&& action matches LoopAction::Commit(list)
                        &&& offsets_of(list@) == old(self).pending()
                        &&& distinct_keys(list@)
                    }
                },
                LoopEvent::AcksClosed => {
                    &&& final(self).is_shutting_down() == old(self).is_shutting_down()
                    &&& final(self).is_finished()
                    &&& final(self).pending() == Map::<(Seq<char>, i32), i64>::empty()
                    &&& action matches LoopAction::Finish(commit)
                    &&& match commit {
                        None => old(self).pending().len() == 0,
                        Some(list) => {
                            &&& old(self).pending().len() > 0
                            &&& offsets_of(list@) == old(self).pending()
                            &&& distinct_keys(list@)
                        },
                    }
                },
                LoopEvent::SubscribeFailed => {
                    &&& final(self).pending() == old(self).pending()
                    &&& final(self).is_shutting_down() == old(self).is_shutting_down()
                    &&& final(self).is_finished()
                    &&& action is Abandon
                },
                LoopEvent::Message(msg) => {
                    &&& final(self).pending() == old(self).pending()
                    &&& final(self).is_shutting_down() == old(self).is_shutting_down()
                    &&& !final(self).is_finished()
                    &&& if !old(self).is_shutting_down() && old(self).topics().contains(msg.topic@) {
                        action matches LoopAction::Enqueue(m) && m == msg
                    } else {
                        action matches LoopAction::Discard(m) && m == msg
                    }
                },
            },
    {
        proof {
            use_type_invariant(&*self);
        }
        match event {
            LoopEvent::Shutdown(on) => {
                if on && !self.shutting_down {
                    self.shutting_down = true;
                    LoopAction::StopIntake
                } else {
                    LoopAction::Idle
                }
            },
            LoopEvent::Ack(ack) => {
                let mut commit = CommitState::new();
                std::mem::swap(&mut commit, &mut self.commit);
                commit.record(ack);
                if commit.pending_len() >= COMMIT_BATCH {
                    let flushed = commit.flush();
                    self.commit = commit;
                    match flushed {
                        Some(list) => LoopAction::Commit(list),
                        None => LoopAction::Idle,
                    }
                } else {
                    self.commit = commit;
                    LoopAction::Idle
                }
            },
            LoopEvent::Tick => {
                let mut commit = CommitState::new();
                std::mem::swap(&mut commit, &mut self.commit);
                let flushed = commit.flush();
                proof {
                    if flushed is Some {
                        lemma_offsets_len(flushed->0@);
                    }
                }
                self.commit = commit;
                match flushed {
                    Some(list) => LoopAction::Commit(list),
                    None => LoopAction::Idle,
                }
            },
            LoopEvent::AcksClosed => {
                let mut commit = CommitState::new();
                std::mem::swap(&mut commit, &mut self.commit);
                let flushed = commit.flush();
                proof {
                    if flushed is Some {
                        lemma_offsets_len(flushed->0@);
                    }
                }
                self.commit = commit;
                self.finished = true;
                LoopAction::Finish(flushed)
            },
            LoopEvent::SubscribeFailed => {
                self.finished = true;
                LoopAction::Abandon
            },
            LoopEvent::Message(msg) => {
                if !self.shutting_down && self.serves_topic(msg.topic.as_str()) {
                    LoopAction::Enqueue(msg)
                } else {
                    LoopAction::Discard(msg)
                }
            },
        }
    }

    /// After the loop: the last commit, if anything is still pending.
    pub fn finish(&mut self) -> (r: Option<Vec<CommitAck>>)
        ensures
            final(self).pending() == Map::<(Seq<char>, i32), i64>::empty(),
            final(self).is_finished(),
            final(self).topics() == old(self).topics(),
            match r {
                None => old(self).pending().len() == 0,
                Some(list) => old(self).pending().len() > 0 && offsets_of(list@) == old(
                    self,
                ).pending(),
            },
    {
        let mut commit = CommitState::new();
        std::mem::swap(&mut commit, &mut self.commit);
        let flushed = commit.flush();
        proof {
            if flushed is Some {
                lemma_offsets_len(flushed->0@);
            }
        }
        self.commit = commit;
        self.finished = true;
        flushed
    }
}

/// The (topic, partition) and offset that an event acknowledges, if any.
pub open spec fn event_ack(e: LoopEvent) -> Option<((Seq<char>, i32), i64)> {
    match e {
        LoopEvent::Ack(a) => Some((ack_key(a), a.next_offset)),
        _ => None,
    }
}

/// The offsets that an action commits, if any.
pub open spec fn action_commit(a: LoopAction) -> Option<Map<(Seq<char>, i32), i64>> {
    match a {
        LoopAction::Commit(list) => Some(offsets_of(list@)),
        LoopAction::Finish(Some(list)) => Some(offsets_of(list@)),
        _ => None,
    }
}

/// One step of the offset bookkeeping: the acknowledgement (if any) joins
/// the pending offsets; then either everything pending is committed and
/// nothing stays pending, or nothing is committed and everything stays.
pub open spec fn commit_step(
    old: Map<(Seq<char>, i32), i64>,
    ack: Option<((Seq<char>, i32), i64)>,
    commit: Option<Map<(Seq<char>, i32), i64>>,
    new: Map<(Seq<char>, i32), i64>,
) -> bool {
    let all = match ack {
        Some(a) => old.insert(a.0, a.1),
        None => old,
    };
    match commit {
        None => new == all,
        Some(c) => c == all && new == Map::<(Seq<char>, i32), i64>::empty(),
    }
}

/// Each acknowledged (topic, partition) with its last acknowledged offset.
pub open spec fn acked(acks: Seq<Option<((Seq<char>, i32), i64)>>) -> Map<(Seq<char>, i32), i64>
    decreases acks.len(),
{
    if acks.len() == 0 {
        Map::empty()
    } else {
        let m = acked(acks.drop_last());
        match acks.last() {
            Some(a) => m.insert(a.0, a.1),
            None => m,
        }
    }
}

/// Each committed (topic, partition) with the offset of its last commit.
pub open spec fn committed(commits: Seq<Option<Map<(Seq<char>, i32), i64>>>) -> Map<
    (Seq<char>, i32),
    i64,
>
    decreases commits.len(),
{
    if commits.len() == 0 {
        Map::empty()
    } else {
        let m = committed(commits.drop_last());
        match commits.last() {
            Some(c) => m.union_prefer_right(c),
            None => m,
        }
    }
}

/// At-least-once delivery: over any run of the loop from an empty start,
/// the offsets committed so far, overlaid with those still pending, are
/// exactly each acknowledged (topic, partition) at its last acknowledged
/// offset. Once the loop has finished nothing is pending, so every
/// acknowledgement has been committed.
pub proof fn lemma_acks_are_committed(
    acks: Seq<Option<((Seq<char>, i32), i64)>>,
    commits: Seq<Option<Map<(Seq<char>, i32), i64>>>,
    states: Seq<Map<(Seq<char>, i32), i64>>,
)
    requires
        commits.len() == acks.len(),
        states.len() == acks.len() + 1,
        states[0] == Map::<(Seq<char>, i32), i64>::empty(),
        forall|i: int|
            0 <= i < acks.len() ==> commit_step(
                #[trigger] states[i],
                acks[i],
                commits[i],
                states[i + 1],
            ),
    ensures
        committed(commits).union_prefer_right(states.last()) == acked(acks),
    decreases acks.len(),
{
    let n = acks.len() as int;
    if n == 0 {
        assert(committed(commits).union_prefer_right(states.last()) =~= acked(acks));
    } else {
        let a0 = acks.drop_last();
        let c0 = commits.drop_last();
        let s0 = states.drop_last();
        assert forall|i: int| 0 <= i < a0.len() implies commit_step(
            #[trigger] s0[i],
            a0[i],
            c0[i],
            s0[i + 1],
        ) by {
            assert(commit_step(states[i], acks[i], commits[i], states[i + 1]));
        }
        lemma_acks_are_committed(a0, c0, s0);
        let prev = states[n - 1];
        assert(commit_step(states[n - 1], acks[n - 1], commits[n - 1], states[n]));
        let base = committed(c0);
        let all = match acks.last() {
            Some(a) => prev.insert(a.0, a.1),
            None => prev,
        };
        assert(base.union_prefer_right(all) =~= acked(acks)) by {
            match acks.last() {
                Some(a) => {
                    assert(base.union_prefer_right(prev.insert(a.0, a.1)) =~= base.union_prefer_right(
                        prev,
                    ).insert(a.0, a.1));
                },
                None => {},
            }
        }
        match commits.last() {
            Some(c) => {
                assert(committed(commits).union_prefer_right(states.last()) =~= base.union_prefer_right(
                    all,
                ));
            },
            None => {
                assert(committed(commits).union_prefer_right(states.last()) =~= base.union_prefer_right(
                    all,
                ));
            },
        }
    }
}

/// An acknowledgement among the first ones of a run is remembered in what
/// they acknowledge.
proof fn lemma_acked_has_key(acks: Seq<Option<((Seq<char>, i32), i64)>>, i: int)
    requires
        0 <= i < acks.len(),
        acks[i] is Some,
    ensures
        acked(acks).contains_key((acks[i]->0).0),
    decreases acks.len(),
{
    if i < acks.len() - 1 {
        lemma_acked_has_key(acks.drop_last(), i);
    }
}

/// Bounded delay before a commit: whenever a step of the loop leaves
/// nothing pending (as every tick of the flush timer, the acknowledgement
/// that brings `COMMIT_BATCH` partitions, and the end of the loop do, by
/// the contract of `ConsumerLoop::step`), every acknowledgement made up to
/// and including that step has been committed, at the last offset
/// acknowledged for its (topic, partition).
pub proof fn lemma_committed_by_next_flush(
    acks: Seq<Option<((Seq<char>, i32), i64)>>,
    commits: Seq<Option<Map<(Seq<char>, i32), i64>>>,
    states: Seq<Map<(Seq<char>, i32), i64>>,
    j: int,
)
    requires
        commits.len() == acks.len(),
        states.len() == acks.len() + 1,
        states[0] == Map::<(Seq<char>, i32), i64>::empty(),
        forall|i: int|
            0 <= i < acks.len() ==> commit_step(
                #[trigger] states[i],
                acks[i],
                commits[i],
                states[i + 1],
            ),
        0 <= j < acks.len(),
        states[j + 1] == Map::<(Seq<char>, i32), i64>::empty(),
    ensures
        committed(commits.take(j + 1)) == acked(acks.take(j + 1)),
        forall|i: int|
            0 <= i <= j && #[trigger] acks[i] is Some ==> committed(
                commits.take(j + 1),
            ).contains_key((acks[i]->0).0),
{
    let a = acks.take(j + 1);
    let c = commits.take(j + 1);
    let s = states.take(j + 2);
    assert forall|i: int| 0 <= i < a.len() implies commit_step(
        #[trigger] s[i],
        a[i],
        c[i],
        s[i + 1],
    ) by {
        assert(commit_step(states[i], acks[i], commits[i], states[i + 1]));
    }
    lemma_acks_are_committed(a, c, s);
    assert(committed(c).union_prefer_right(s.last()) =~= committed(c));
    assert forall|i: int| 0 <= i <= j && #[trigger] acks[i] is Some implies committed(
        c,
    ).contains_key((acks[i]->0).0) by {
        assert(a[i] == acks[i]);
        lemma_acked_has_key(a, i);
    }
}

/// Whether a step on `event`, with `pending` waiting before it, commits
/// everything: every tick of the flush timer, the end of the
/// acknowledgements, and the acknowledgement that brings `COMMIT_BATCH`
/// partitions to wait.
pub open spec fn flush_due(pending: Map<(Seq<char>, i32), i64>, event: LoopEvent) -> bool {
    match event {
        LoopEvent::Tick => true,
        LoopEvent::AcksClosed => true,
        LoopEvent::Ack(a) => pending.insert(ack_key(a), a.next_offset).len() >= COMMIT_BATCH,
        _ => false,
    }
}

/// One step of the loop as far as offsets go: the bookkeeping of
/// `commit_step`, with nothing left pending where a flush is due.
pub open spec fn step_offsets(
    old: Map<(Seq<char>, i32), i64>,
    event: LoopEvent,
    commit: Option<Map<(Seq<char>, i32), i64>>,
    new: Map<(Seq<char>, i32), i64>,
) -> bool {
    &&& commit_step(old, event_ack(event), commit, new)
    &&& flush_due(old, event) ==> new == Map::<(Seq<char>, i32), i64>::empty()
}

/// What each event of a run acknowledges.
pub open spec fn run_acks(events: Seq<LoopEvent>) -> Seq<Option<((Seq<char>, i32), i64)>> {
    Seq::new(events.len(), |k: int| event_ack(events[k]))
}

/// The last acknowledgement of a (topic, partition) is what `acked` keeps:
/// it is one made at or after any given acknowledgement of it.
proof fn lemma_acked_is_a_later_ack(acks: Seq<Option<((Seq<char>, i32), i64)>>, i: int)
    requires
        0 <= i < acks.len(),
        acks[i] is Some,
    ensures
        exists|k: int|
            i <= k < acks.len() && #[trigger] acks[k] is Some && (acks[k]->0).0 == (acks[i]->0).0
                && acked(acks)[(acks[i]->0).0] == (acks[k]->0).1,
    decreases acks.len(),
{
    let n = acks.len() - 1;
    let key = (acks[i]->0).0;
    if acks[n] is Some && (acks[n]->0).0 == key {
        assert(acked(acks)[key] == (acks[n]->0).1);
    } else {
        let init = acks.drop_last();
        assert(i < n);
        assert(init[i] == acks[i]);
        lemma_acked_is_a_later_ack(init, i);
        let k = choose|k: int|
            i <= k < init.len() && #[trigger] init[k] is Some && (init[k]->0).0 == key
                && acked(init)[key] == (init[k]->0).1;
        assert(acks[k] == init[k]);
        assert(acked(acks)[key] == acked(init)[key]);
    }
}

/// Bounded delay before a commit, over any run of `ConsumerLoop::step`
/// from an empty start: an acknowledgement of (topic, partition) is
/// committed no later than the first step after it at which a flush is due
/// (the next tick, the acknowledgement that brings `COMMIT_BATCH`
/// partitions, or the end of the acknowledgements), at its own offset or
/// at that of a later acknowledgement of the same partition.
pub proof fn lemma_ack_committed_by_flush(
    events: Seq<LoopEvent>,
    commits: Seq<Option<Map<(Seq<char>, i32), i64>>>,
    states: Seq<Map<(Seq<char>, i32), i64>>,
    i: int,
    j: int,
)
    requires
        commits.len() == events.len(),
        states.len() == events.len() + 1,
        states[0] == Map::<(Seq<char>, i32), i64>::empty(),
        forall|k: int|
            0 <= k < events.len() ==> step_offsets(
                #[trigger] states[k],
                events[k],
                commits[k],
                states[k + 1],
            ),
        0 <= i <= j < events.len(),
        events[i] is Ack,
        flush_due(states[j], events[j]),
    ensures
        ({
            let key = ack_key(events[i]->Ack_0);
            &&& committed(commits.take(j + 1)).contains_key(key)
            &&& exists|k: int|
                i <= k <= j && #[trigger] events[k] is Ack && ack_key(events[k]->Ack_0) == key
                    && committed(commits.take(j + 1))[key] == (events[k]->Ack_0).next_offset
        }),
{
    let acks = run_acks(events);
    assert forall|k: int| 0 <= k < acks.len() implies commit_step(
        #[trigger] states[k],
        acks[k],
        commits[k],
        states[k + 1],
    ) by {
        assert(step_offsets(states[k], events[k], commits[k], states[k + 1]));
    }
    assert(step_offsets(states[j], events[j], commits[j], states[j + 1]));
    lemma_committed_by_next_flush(acks, commits, states, j);
    assert(acks[i] is Some);
    let a = acks.take(j + 1);
    assert(a[i] == acks[i]);
    lemma_acked_is_a_later_ack(a, i);
    let key = ack_key(events[i]->Ack_0);
    let k = choose|k: int|
        i <= k < a.len() && #[trigger] a[k] is Some && (a[k]->0).0 == (a[i]->0).0
            && acked(a)[(a[i]->0).0] == (a[k]->0).1;
    assert(a[k] == event_ack(events[k]));
    assert(events[k] is Ack);
}

/// The topics the consumer serves: `None` when no topic is configured, in
/// which case the consumer does not start.
pub fn configured_topics(topics: &Option<Vec<KafkaTopicSetting>>) -> (r: Option<&Vec<KafkaTopicSetting>>)
    ensures
        match topics {
            Some(t) => if t@.len() > 0 {
                r == Some(t)
            } else {
                r is None
            },
            None => r is None,
        },
{
    match topics {
        Some(t) => if t.len() > 0 {
            Some(t)
        } else {
            None
        },
        None => None,
    }
}

} // verus!
