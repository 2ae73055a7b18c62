//! Per-topic processing pipelines: how many workers a topic gets, how large
//! its queues are, which worker takes a message, and what a handled message
//! acknowledges.

use vstd::prelude::*;

use super::commit::CommitAck;
use super::message::MQMessage;
use crate::config::setting_mq::KafkaTopicSetting;

verus! {

/// The shape of one topic's pipeline.
#[derive(Debug, Clone)]
pub struct TopicPlan {
    /// Topic to subscribe to.
    pub name: String,
    /// Handler that processes the topic's messages.
    pub handler: String,
    /// Number of worker tasks, at least one.
    pub workers: usize,
    /// Capacity of the topic queue, at least one.
    pub buffer_size: usize,
    /// Capacity of each worker queue, at least one.
    pub worker_buffer: usize,
}

/// The larger of `a` and `b`.
pub open spec fn max_nat(a: nat, b: nat) -> nat {
    if a >= b {
        a
    } else {
        b
    }
}

/// The pipeline that a topic setting asks for: the handler defaults to the
/// topic name, worker count and queue size are at least one, and the topic
/// queue's capacity is shared out evenly among the workers (at least one
/// slot each).
pub open spec fn topic_plan_matches(cfg: KafkaTopicSetting, plan: TopicPlan) -> bool {
    let workers = max_nat(cfg.workers as nat, 1);
    let buffer = max_nat(cfg.buffer_size as nat, 1);
    &&& plan.name@ == cfg.name@
    &&& plan.handler@ == (if cfg.handler@.len() == 0 {
        cfg.name@
    } else {
        cfg.handler@
    })
    &&& plan.workers as nat == workers
    &&& plan.buffer_size as nat == buffer
    &&& plan.worker_buffer as nat == max_nat(1, buffer / workers)
}

/// Plans the pipeline of one topic.
pub fn plan_topic(cfg: &KafkaTopicSetting) -> (plan: TopicPlan)
    ensures
        topic_plan_matches(*cfg, plan),
{
    let name = cfg.name.clone();
    let handler = if cfg.handler.as_str().is_empty() {
        cfg.name.clone()
    } else {
        cfg.handler.clone()
    };
    proof {
        if cfg.handler@.len() == 0 {
            assert(cfg.handler@ =~= Seq::<char>::empty());
        }
    }
    let workers = if cfg.workers > 1 {
        cfg.workers
    } else {
        1
    };
    let buffer_size = if cfg.buffer_size > 1 {
        cfg.buffer_size
    } else {
        1
    };
    let share = buffer_size / workers;
    let worker_buffer = if share > 1 {
        share
    } else {
        1
    };
    TopicPlan { name, handler, workers, buffer_size, worker_buffer }
}

/// Plans every configured topic, in the configured order. Each plan has
/// at least one worker; its router hands a message to
/// `TopicPlan::worker_for` of the message's partition, and its workers
/// acknowledge as `TopicPlan::worker_ack` says (`acks_as_handled`).
pub fn build_topic_pipelines(topics_cfg: &Vec<KafkaTopicSetting>) -> (plans: Vec<TopicPlan>)
    ensures
        plans@.len() == topics_cfg@.len(),
        forall|i: int| 0 <= i < plans@.len() ==> #[trigger] plans@[i].workers > 0,
        forall|i: int|
            0 <= i < plans@.len() ==> topic_plan_matches(topics_cfg@[i], #[trigger] plans@[i]),
{
    let mut plans: Vec<TopicPlan> = Vec::new();
    let n = topics_cfg.len();
    let mut i: usize = 0;
    while i < n
        invariant
            i <= n,
            n == topics_cfg@.len(),
            plans@.len() == i,
            forall|j: int|
                0 <= j < i ==> topic_plan_matches(topics_cfg@[j], #[trigger] plans@[j]),
        decreases n - i,
    {
        plans.push(plan_topic(&topics_cfg[i]));
        i = i + 1;
    }
    plans
}

/// The worker of a pipeline that takes messages of `partition`: the
/// partition number, read as an unsigned index, modulo the worker count.
pub fn worker_for_partition(partition: i32, workers: usize) -> (w: usize)
    requires
        workers > 0,
    ensures
        w == (partition as usize) % workers,
        w < workers,
{
    (partition as usize) % workers
}

/// Positions, in arrival order, of the messages (given by their partitions)
/// that a topic's router hands to worker `w` of `workers`: each message goes
/// to the worker that `worker_for_partition` picks.
pub open spec fn routed_positions(partitions: Seq<i32>, workers: usize, w: usize) -> Seq<int>
    decreases partitions.len(),
{
    if partitions.len() == 0 {
        Seq::empty()
    } else {
        let prev = routed_positions(partitions.drop_last(), workers, w);
        if (partitions.last() as usize) % workers == w {
            prev.push(partitions.len() - 1)
        } else {
            prev
        }
    }
}

proof fn lemma_routed_positions(partitions: Seq<i32>, workers: usize, w: usize)
    ensures
        forall|k: int, l: int|
            0 <= k < l < routed_positions(partitions, workers, w).len() ==> #[trigger] routed_positions(
                partitions,
                workers,
                w,
            )[k] < #[trigger] routed_positions(partitions, workers, w)[l],
        forall|k: int|
            0 <= k < routed_positions(partitions, workers, w).len() ==> 0 <= #[trigger] routed_positions(
                partitions,
                workers,
                w,
            )[k] < partitions.len(),
        forall|i: int|
            0 <= i < partitions.len() && (#[trigger] partitions[i] as usize) % workers == w ==> exists|
                k: int,
            |
                0 <= k < routed_positions(partitions, workers, w).len() && #[trigger] routed_positions(
                    partitions,
                    workers,
                    w,
                )[k] == i,
    decreases partitions.len(),
{
    if partitions.len() > 0 {
        let init = partitions.drop_last();
        lemma_routed_positions(init, workers, w);
        let prev = routed_positions(init, workers, w);
        let q = routed_positions(partitions, workers, w);
        assert forall|i: int|
            0 <= i < partitions.len() && (#[trigger] partitions[i] as usize) % workers
                == w implies exists|k: int| 0 <= k < q.len() && #[trigger] q[k] == i by {
            if i < partitions.len() - 1 {
                assert(init[i] == partitions[i]);
                let k = choose|k: int| 0 <= k < prev.len() && #[trigger] prev[k] == i;
                assert(q[k] == i);
            } else {
                assert(q[q.len() - 1] == i);
            }
        }
    }
}

/// Per-partition order: of two messages of one partition, the earlier is
/// handed to the same worker as the later, and ahead of it in that
/// worker's queue (`partitions` lists the partitions of a topic's messages
/// in arrival order; each worker handles its queue one message at a time).
pub proof fn lemma_partition_order_kept(partitions: Seq<i32>, workers: usize, i: int, j: int)
    requires
        workers > 0,
        0 <= i < j < partitions.len(),
        partitions[i] == partitions[j],
    ensures
        ({
            let w = ((partitions[i] as usize) % workers) as usize;
            let q = routed_positions(partitions, workers, w);
            exists|k: int, l: int| 0 <= k < l < q.len() && q[k] == i && q[l] == j
        }),
{
    let w = ((partitions[i] as usize) % workers) as usize;
    lemma_routed_positions(partitions, workers, w);
    let q = routed_positions(partitions, workers, w);
    assert((partitions[i] as usize) % workers == w);
    assert((partitions[j] as usize) % workers == w);
    let k = choose|k: int| 0 <= k < q.len() && #[trigger] q[k] == i;
    let l = choose|l: int| 0 <= l < q.len() && #[trigger] q[l] == j;
    if l <= k {
        if l < k {
            assert(q[l] < q[k]);
        }
        assert(false);
    }
    assert(0 <= k < l < q.len() && q[k] == i && q[l] == j);
}

/// A worker's acknowledgement after its handler ran on `msg`: on success
/// exactly one, for the message's topic and partition at the offset after
/// it; on failure none, so the offset stays uncommitted.
pub open spec fn acks_as_handled(msg: MQMessage, handled: bool, ack: Option<CommitAck>) -> bool {
    if handled {
        ack matches Some(a) && a.topic@ == msg.topic@ && a.partition == msg.partition
            && a.next_offset == msg.offset + 1
    } else {
        ack is None
    }
}

/// What a worker acknowledges after its handler ran: on success the offset
/// after the message, on failure nothing (the offset stays uncommitted).
pub fn ack_after_handling(msg: &MQMessage, handled: bool) -> (ack: Option<CommitAck>)
    requires
        msg.offset < i64::MAX,
    ensures
        acks_as_handled(*msg, handled, ack),
{
    if handled {
        Some(CommitAck { topic: msg.topic.clone(), partition: msg.partition, next_offset: msg.offset + 1 })
    } else {
        None
    }
}

impl TopicPlan {
    /// The worker of this pipeline that takes messages of `partition`.
    pub fn worker_for(&self, partition: i32) -> (w: usize)
        requires
            self.workers > 0,
        ensures
            w == (partition as usize) % self.workers,
            w < self.workers,
    {
        worker_for_partition(partition, self.workers)
    }

    /// What a worker of this pipeline acknowledges once its handler ran on
    /// `msg` (`handled`: the handler succeeded).
    pub fn worker_ack(&self, msg: &MQMessage, handled: bool) -> (ack: Option<CommitAck>)
        requires
            msg.offset < i64::MAX,
        ensures
            acks_as_handled(*msg, handled, ack),
    {
        ack_after_handling(msg, handled)
    }
}

} // verus!
