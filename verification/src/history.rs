//! The serialized-history model of the queue, and its FIFO laws.
//!
//! The mutex serializes every push and pop into one total order, so a whole
//! concurrent execution is, as far as the buffer is concerned, a sequence of
//! [`QueueOp`] steps applied to an initially empty queue. [`QueueModel::step`]
//! is exactly the transition the locked sections of [`crate::MpmcQueue::push`]
//! and [`crate::MpmcQueue::pop`] are verified to perform: a push appends to
//! the buffer, a completed pop removes the head, and a pop that finds the
//! buffer empty changes nothing (the calling thread is still waiting).
//!
//! Over this model the proofs below state the queue's data guarantees for
//! every serialized run: the popped values are exactly a prefix of the pushed
//! values in push order, and nothing is ever lost or duplicated.

use vstd::prelude::*;
use vstd::seq_lib::lemma_multiset_commutative;

verus! {

/// One serialized operation on the queue: an insertion carrying its value, or
/// a removal attempt.
pub enum QueueOp<T> {
    Push(T),
    Pop,
}

/// The queue's state after some serialized operations: the elements still
/// pending (oldest first) and the values already handed out, in the order the
/// serialization handed them out.
pub struct QueueModel<T> {
    pub pending: Seq<T>,
    pub delivered: Seq<T>,
}

impl<T> QueueModel<T> {
    /// The state of a freshly created queue: nothing pending, nothing
    /// delivered.
    pub open spec fn init() -> QueueModel<T> {
        QueueModel { pending: Seq::empty(), delivered: Seq::empty() }
    }

    /// One step of the queue under the lock. A pop on an empty buffer is the
    /// step of a consumer that must keep waiting: it delivers nothing and
    /// leaves the state unchanged.
    pub open spec fn step(self, op: QueueOp<T>) -> QueueModel<T> {
        match op {
            QueueOp::Push(value) => QueueModel {
                pending: self.pending.push(value),
                delivered: self.delivered,
            },
            QueueOp::Pop => {
                if self.pending.len() > 0 {
                    QueueModel {
                        pending: self.pending.drop_first(),
                        delivered: self.delivered.push(self.pending.first()),
                    }
                } else {
                    self
                }
            },
        }
    }

    /// The state reached from the initial state by running `ops` in order.
    pub open spec fn run(ops: Seq<QueueOp<T>>) -> QueueModel<T>
        decreases ops.len(),
    {
        if ops.len() == 0 {
            QueueModel::init()
        } else {
            QueueModel::run(ops.drop_last()).step(ops.last())
        }
    }
}

/// The values pushed during `ops`, in push order.
pub open spec fn pushed_values<T>(ops: Seq<QueueOp<T>>) -> Seq<T>
    decreases ops.len(),
{
    if ops.len() == 0 {
        Seq::empty()
    } else {
        let rest = pushed_values(ops.drop_last());
        match ops.last() {
            QueueOp::Push(value) => rest.push(value),
            QueueOp::Pop => rest,
        }
    }
}

/// Conservation: after any serialized run, the delivered values followed by
/// the still-pending values are exactly the pushed values, in push order.
/// This is the single fact the order and no-loss laws below read off.
pub proof fn lemma_conservation<T>(ops: Seq<QueueOp<T>>)
    ensures
        QueueModel::run(ops).delivered + QueueModel::run(ops).pending == pushed_values(ops),
    decreases ops.len(),
{
    if ops.len() == 0 {
        assert(QueueModel::run(ops).delivered + QueueModel::run(ops).pending =~= pushed_values(
            ops,
        ));
    } else {
        lemma_conservation(ops.drop_last());
        let prev = QueueModel::run(ops.drop_last());
        match ops.last() {
            QueueOp::Push(value) => {
                assert(prev.delivered + prev.pending.push(value) =~= (prev.delivered
                    + prev.pending).push(value));
            },
            QueueOp::Pop => {
                if prev.pending.len() > 0 {
                    assert(prev.delivered.push(prev.pending.first()) + prev.pending.drop_first()
                        =~= prev.delivered + prev.pending);
                }
            },
        }
    }
}

/// FIFO order: in every serialized run, the values delivered so far are
/// exactly the first pushed values, in the order they were pushed — the n-th
/// successful pop returns the n-th pushed element.
pub proof fn lemma_fifo_order<T>(ops: Seq<QueueOp<T>>)
    ensures
        QueueModel::run(ops).delivered == pushed_values(ops).take(
            QueueModel::run(ops).delivered.len() as int,
        ),
        forall|n: int|
            0 <= n < QueueModel::run(ops).delivered.len() ==> QueueModel::run(ops).delivered[n]
                == pushed_values(ops)[n],
{
    lemma_conservation(ops);
    let state = QueueModel::run(ops);
    assert(state.delivered =~= (state.delivered + state.pending).take(
        state.delivered.len() as int,
    ));
}

/// No loss, no duplication: counted with multiplicity, the delivered values
/// and the still-pending values together are exactly the pushed values. Every
/// pushed element is therefore delivered by at most one pop, and never
/// invented nor dropped.
pub proof fn lemma_no_loss_no_duplication<T>(ops: Seq<QueueOp<T>>)
    ensures
        QueueModel::run(ops).delivered.to_multiset().add(
            QueueModel::run(ops).pending.to_multiset(),
        ) == pushed_values(ops).to_multiset(),
{
    lemma_conservation(ops);
    let state = QueueModel::run(ops);
    lemma_multiset_commutative(state.delivered, state.pending);
}

/// Completed delivery: a run that ends with an empty buffer has delivered
/// every pushed value exactly once, in push order. With N elements pushed,
/// exactly N pops succeed, each returning a distinct pushed element.
pub proof fn lemma_drained_delivers_all<T>(ops: Seq<QueueOp<T>>)
    requires
        QueueModel::run(ops).pending.len() == 0,
    ensures
        QueueModel::run(ops).delivered == pushed_values(ops),
{
    lemma_conservation(ops);
    let state = QueueModel::run(ops);
    assert(state.delivered =~= state.delivered + state.pending);
}

} // verus!
