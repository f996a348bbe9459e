//! Cross-thread dispatch and the message-loop stepper.
//!
//! Any thread may submit a task; the UI thread drains one message per loop
//! step. The queue keeps a ghost history of every task accepted and every
//! task handed to execution, and its well-formedness ties the two together:
//! tasks are never lost, never duplicated and never reordered.

use vstd::prelude::*;

verus! {

/// A unit of work submitted for execution on the UI thread: the function
/// and its opaque argument, each carried as the numeric value of the
/// pointer the host supplied.
#[derive(Clone, Copy, PartialEq, Eq, Structural, Debug)]
pub struct Task {
    pub func: usize,
    pub arg: usize,
}

/// One message in the UI thread's queue: a native windowing event (with the
/// host's numeric event code), a dispatched task, or the quit signal.
#[derive(Clone, Copy, PartialEq, Eq, Structural, Debug)]
pub enum QueueMessage {
    Native(u64),
    Dispatch(Task),
    Quit,
}

/// What one step of the message loop reports to the host.
#[derive(Clone, Copy, PartialEq, Eq, Structural, Debug)]
pub enum LoopSignal {
    /// A message was processed; keep stepping.
    KeepRunning,
    /// The queue held no message (non-blocking poll only).
    NoEvent,
    /// The queue delivered the termination signal.
    QuitRequested,
}

/// The dispatched tasks among the given messages, oldest first.
pub open spec fn tasks_of(msgs: Seq<QueueMessage>) -> Seq<Task>
    decreases msgs.len(),
{
    if msgs.len() == 0 {
        seq![]
    } else {
        (match msgs[0] {
            QueueMessage::Dispatch(t) => seq![t],
            _ => seq![],
        }) + tasks_of(msgs.skip(1))
    }
}

proof fn lemma_tasks_of_push(msgs: Seq<QueueMessage>, msg: QueueMessage)
    ensures
        tasks_of(msgs.push(msg)) == tasks_of(msgs) + (match msg {
            QueueMessage::Dispatch(t) => seq![t],
            _ => Seq::<Task>::empty(),
        }),
    decreases msgs.len(),
{
    let tail = (match msg {
        QueueMessage::Dispatch(t) => seq![t],
        _ => Seq::<Task>::empty(),
    });
    if msgs.len() == 0 {
        assert(msgs.push(msg)[0] == msg);
        assert(msgs.push(msg).skip(1) =~= Seq::<QueueMessage>::empty());
        assert(tasks_of(msgs.push(msg).skip(1)) == Seq::<Task>::empty());
        assert(tasks_of(msgs.push(msg)) =~= tasks_of(msgs) + tail);
    } else {
        assert(msgs.push(msg)[0] == msgs[0]);
        assert(msgs.push(msg).skip(1) =~= msgs.skip(1).push(msg));
        lemma_tasks_of_push(msgs.skip(1), msg);
        assert(tasks_of(msgs.push(msg)) =~= tasks_of(msgs) + tail);
    }
}

/// The UI thread's message queue, together with the full history of
/// dispatched tasks against which delivery is proved.
pub struct DispatchQueue {
    /// Messages posted and not yet drained, oldest first.
    pending: Vec<QueueMessage>,
    /// Every task ever accepted by `enqueue`, in order of acceptance.
    enqueued: Ghost<Seq<Task>>,
    /// Every task handed to execution by `step`, in order of execution.
    executed: Ghost<Seq<Task>>,
}

impl DispatchQueue {
    /// Messages posted and not yet drained, oldest first.
    pub closed spec fn pending(&self) -> Seq<QueueMessage> {
        self.pending@
    }

    /// Every task ever accepted by `enqueue`, in order of acceptance.
    pub closed spec fn enqueued(&self) -> Seq<Task> {
        self.enqueued@
    }

    /// Every task handed to execution by `step`, in order of execution.
    pub closed spec fn executed(&self) -> Seq<Task> {
        self.executed@
    }

    /// The delivery invariant: the tasks already handed to execution,
    /// followed by the tasks still pending, are exactly the tasks accepted,
    /// in order of acceptance.
    pub closed spec fn wf(&self) -> bool {
        self.executed@ + tasks_of(self.pending@) == self.enqueued@
    }

    /// An empty queue with empty histories.
    pub fn new() -> (q: DispatchQueue)
        ensures
            q.wf(),
            q.pending() == Seq::<QueueMessage>::empty(),
            q.enqueued() == Seq::<Task>::empty(),
            q.executed() == Seq::<Task>::empty(),
    {
        let q = DispatchQueue {
            pending: Vec::new(),
            enqueued: Ghost(Seq::empty()),
            executed: Ghost(Seq::empty()),
        };
        proof {
            assert(q.executed@ + tasks_of(q.pending@) =~= q.enqueued@);
        }
        q
    }

    /// Accepts a task, posting it at the back of the queue. Callable from
    /// any thread in the modelled system; never blocks and never runs the
    /// task itself. Ownership of the task passes to the queue.
    pub fn enqueue(&mut self, task: Task)
        requires
            old(self).wf(),
        ensures
            final(self).wf(),
            final(self).pending() == old(self).pending().push(QueueMessage::Dispatch(task)),
            final(self).enqueued() == old(self).enqueued().push(task),
            final(self).executed() == old(self).executed(),
    {
        self.pending.push(QueueMessage::Dispatch(task));
        proof {
            self.enqueued@ = self.enqueued@.push(task);
            lemma_tasks_of_push(old(self).pending@, QueueMessage::Dispatch(task));
            assert(self.executed@ + tasks_of(self.pending@) =~= self.enqueued@);
        }
    }

    /// Posts a native windowing event at the back of the queue, as the
    /// operating system does while the host waits or polls.
    pub fn post_native(&mut self, event: u64)
        requires
            old(self).wf(),
        ensures
            final(self).wf(),
            final(self).pending() == old(self).pending().push(QueueMessage::Native(event)),
            final(self).enqueued() == old(self).enqueued(),
            final(self).executed() == old(self).executed(),
    {
        self.pending.push(QueueMessage::Native(event));
        proof {
            lemma_tasks_of_push(old(self).pending@, QueueMessage::Native(event));
            assert(self.executed@ + tasks_of(self.pending@) =~= self.enqueued@);
        }
    }

    /// Posts the termination signal at the back of the queue.
    pub fn post_quit(&mut self)
        requires
            old(self).wf(),
        ensures
            final(self).wf(),
            final(self).pending() == old(self).pending().push(QueueMessage::Quit),
            final(self).enqueued() == old(self).enqueued(),
            final(self).executed() == old(self).executed(),
    {
        self.pending.push(QueueMessage::Quit);
        proof {
            lemma_tasks_of_push(old(self).pending@, QueueMessage::Quit);
            assert(self.executed@ + tasks_of(self.pending@) =~= self.enqueued@);
        }
    }

    /// Takes one step of the message loop: processes at most one message,
    /// oldest first, with no filtering and no reordering. A dispatched task
    /// is handed back for the host to invoke, exactly once. On an empty
    /// queue the non-blocking poll reports `NoEvent` at once; in blocking
    /// mode the wait for a message is the host's, so the host calls this
    /// only once a message is available.
    pub fn step(&mut self, blocking: bool) -> (r: (LoopSignal, Option<Task>))
        requires
            old(self).wf(),
            blocking ==> old(self).pending().len() > 0,
        ensures
            final(self).wf(),
            final(self).enqueued() == old(self).enqueued(),
            old(self).pending().len() == 0 ==> {
                &&& r == (LoopSignal::NoEvent, Option::<Task>::None)
                &&& final(self).pending() == old(self).pending()
                &&& final(self).executed() == old(self).executed()
            },
            old(self).pending().len() > 0 ==> {
                &&& final(self).pending() == old(self).pending().skip(1)
                &&& (match old(self).pending()[0] {
                    QueueMessage::Quit => r == (LoopSignal::QuitRequested, Option::<Task>::None)
                        && final(self).executed() == old(self).executed(),
                    QueueMessage::Native(_) => r == (LoopSignal::KeepRunning, Option::<Task>::None)
                        && final(self).executed() == old(self).executed(),
                    QueueMessage::Dispatch(t) => r == (LoopSignal::KeepRunning, Option::Some(t))
                        && final(self).executed() == old(self).executed().push(t),
                })
            },
    {
        if self.pending.len() == 0 {
            return (LoopSignal::NoEvent, None);
        }
        let msg = self.pending.remove(0);
        proof {
            assert(old(self).pending@[0] == msg);
            assert(self.pending@ =~= old(self).pending@.skip(1));
        }
        match msg {
            QueueMessage::Quit => {
                proof {
                    assert(self.executed@ + tasks_of(self.pending@) =~= self.enqueued@);
                }
                (LoopSignal::QuitRequested, None)
            },
            QueueMessage::Native(_) => {
                proof {
                    assert(self.executed@ + tasks_of(self.pending@) =~= self.enqueued@);
                }
                (LoopSignal::KeepRunning, None)
            },
            QueueMessage::Dispatch(t) => {
                proof {
                    self.executed@ = self.executed@.push(t);
                    assert(self.executed@ + tasks_of(self.pending@) =~= self.enqueued@);
                }
                (LoopSignal::KeepRunning, Some(t))
            },
        }
    }
}

/// Law: tasks are conserved. For any well-formed queue, the tasks already
/// handed to execution, followed by the tasks still pending, are exactly
/// the tasks accepted by `enqueue`, in order of acceptance — so no task is
/// lost, none is duplicated, and dispatched tasks run in first-in,
/// first-out order.
pub proof fn lemma_tasks_conserved(q: &DispatchQueue)
    requires
        q.wf(),
    ensures
        q.executed() + tasks_of(q.pending()) == q.enqueued(),
{
}

/// Law: a drained queue has executed everything. Once no dispatched task is
/// pending, the tasks handed to execution are exactly the tasks accepted,
/// in order of acceptance.
pub proof fn lemma_drained_queue_ran_every_task(q: &DispatchQueue)
    requires
        q.wf(),
        tasks_of(q.pending()) == Seq::<Task>::empty(),
    ensures
        q.executed() == q.enqueued(),
{
    assert(q.executed() + tasks_of(q.pending()) =~= q.executed());
}

} // verus!
