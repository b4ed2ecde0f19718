use vstd::prelude::*;
use futures_channel::oneshot::Sender;
use crate::action::{Action, Catalog};

verus! {

/// Where the database thread stands in its life cycle. It starts serving
/// once its database is open, and stops for good on `Action::Stop` or when
/// every client is gone.
#[derive(Debug, PartialEq, Eq, Structural, Clone, Copy)]
pub enum WorkerPhase {
    Serving,
    Stopped,
}

/// What reaches the database thread: an action, or the news that the
/// action channel has closed because no client is left.
pub enum WorkerEvent<C: Catalog> {
    Received(Action<C>),
    Disconnected,
}

/// What the database thread does next.
pub enum WorkerCommand<C: Catalog> {
    /// Perform this action on the database and answer with its result.
    Execute(Action<C>),
    /// Answer the stop request on this channel and leave the loop.
    AcknowledgeStop(Sender<()>),
    /// Leave the loop without answering anything.
    Exit,
}

pub open spec fn is_stop<C: Catalog>(action: Action<C>) -> bool {
    action is Stop
}

/// One step of the database thread: the phase it moves to and what it does.
pub open spec fn worker_step<C: Catalog>(phase: WorkerPhase, event: WorkerEvent<C>) -> (
    WorkerPhase,
    WorkerCommand<C>,
) {
    match phase {
        WorkerPhase::Stopped => (WorkerPhase::Stopped, WorkerCommand::Exit),
        WorkerPhase::Serving => match event {
            WorkerEvent::Received(action) => match action {
                Action::Stop(answer) => (WorkerPhase::Stopped, WorkerCommand::AcknowledgeStop(answer)),
                _ => (WorkerPhase::Serving, WorkerCommand::Execute(action)),
            },
            WorkerEvent::Disconnected => (WorkerPhase::Stopped, WorkerCommand::Exit),
        },
    }
}

/// The commands that the database thread issues for a sequence of events.
pub open spec fn worker_run<C: Catalog>(phase: WorkerPhase, events: Seq<WorkerEvent<C>>) -> Seq<
    WorkerCommand<C>,
>
    decreases events.len(),
{
    if events.len() == 0 {
        Seq::empty()
    } else {
        let (next, command) = worker_step(phase, events[0]);
        seq![command] + worker_run(next, events.drop_first())
    }
}

/// The actions that a sequence of commands performs on the database, in order.
pub open spec fn executed<C: Catalog>(commands: Seq<WorkerCommand<C>>) -> Seq<Action<C>>
    decreases commands.len(),
{
    if commands.len() == 0 {
        Seq::empty()
    } else {
        let rest = executed(commands.drop_first());
        match commands[0] {
            WorkerCommand::Execute(action) => seq![action] + rest,
            _ => rest,
        }
    }
}

/// The actions received before the first stop request or disconnection.
pub open spec fn received_before_stop<C: Catalog>(events: Seq<WorkerEvent<C>>) -> Seq<Action<C>>
    decreases events.len(),
{
    if events.len() == 0 {
        Seq::empty()
    } else {
        match events[0] {
            WorkerEvent::Received(action) => if is_stop(action) {
                Seq::empty()
            } else {
                seq![action] + received_before_stop(events.drop_first())
            },
            WorkerEvent::Disconnected => Seq::empty(),
        }
    }
}

/// The state of the database thread's loop.
pub struct DbWorker {
    phase: WorkerPhase,
}

impl View for DbWorker {
    type V = WorkerPhase;

    closed spec fn view(&self) -> WorkerPhase {
        self.phase
    }
}

impl DbWorker {
    /// A worker whose database has just opened: it serves actions.
    pub fn new() -> (worker: Self)
        ensures
            worker@ == WorkerPhase::Serving,
    {
        DbWorker { phase: WorkerPhase::Serving }
    }

    /// Whether the worker has stopped for good.
    pub fn is_stopped(&self) -> (stopped: bool)
        ensures
            stopped == (self@ == WorkerPhase::Stopped),
    {
        self.phase == WorkerPhase::Stopped
    }

    /// Decide what to do with an event: every action but `Stop` is performed
    /// while serving, `Stop` is answered and ends the loop, and a closed
    /// channel ends it silently. A stopped worker performs nothing.
    pub fn handle<C: Catalog>(&mut self, event: WorkerEvent<C>) -> (command: WorkerCommand<C>)
        ensures
            (final(self)@, command) == worker_step(old(self)@, event),
            old(self)@ == WorkerPhase::Stopped ==> final(self)@ == WorkerPhase::Stopped
                && command is Exit,
            old(self)@ == WorkerPhase::Serving ==> match event {
                WorkerEvent::Received(Action::Stop(answer)) => final(self)@ == WorkerPhase::Stopped
                    && command == WorkerCommand::<C>::AcknowledgeStop(answer),
                WorkerEvent::Received(action) => final(self)@ == WorkerPhase::Serving && command
                    == WorkerCommand::Execute(action),
                WorkerEvent::Disconnected => final(self)@ == WorkerPhase::Stopped && command is Exit,
            },
    {
        match self.phase {
            WorkerPhase::Stopped => WorkerCommand::Exit,
            WorkerPhase::Serving => match event {
                WorkerEvent::Received(action) => match action {
                    Action::Stop(answer) => {
                        self.phase = WorkerPhase::Stopped;
                        WorkerCommand::AcknowledgeStop(answer)
                    },
                    other => WorkerCommand::Execute(other),
                },
                WorkerEvent::Disconnected => {
                    self.phase = WorkerPhase::Stopped;
                    WorkerCommand::Exit
                },
            },
        }
    }
}


proof fn lemma_run_len<C: Catalog>(phase: WorkerPhase, events: Seq<WorkerEvent<C>>)
    ensures
        worker_run(phase, events).len() == events.len(),
    decreases events.len(),
{
    if events.len() > 0 {
        let (next, command) = worker_step(phase, events[0]);
        lemma_run_len(next, events.drop_first());
    }
}

/// A serving worker acknowledges a stop request on that request's own
/// channel and stops, for every catalog and every channel.
pub proof fn law_serving_acknowledges_stop<C: Catalog>(answer: Sender<()>)
    ensures
        worker_step(WorkerPhase::Serving, WorkerEvent::<C>::Received(Action::Stop(answer))) == (
            WorkerPhase::Stopped,
            WorkerCommand::<C>::AcknowledgeStop(answer),
        ),
{
}

/// A serving worker performs every action other than a stop request exactly
/// as it arrived, with its own answer channel, and keeps serving; a closed
/// action channel stops it without answering anything.
pub proof fn law_serving_executes_other_actions<C: Catalog>(action: Action<C>)
    ensures
        !(action is Stop) ==> worker_step(WorkerPhase::Serving, WorkerEvent::Received(action)) == (
            WorkerPhase::Serving,
            WorkerCommand::Execute(action),
        ),
        worker_step(WorkerPhase::Serving, WorkerEvent::<C>::Disconnected) == (
            WorkerPhase::Stopped,
            WorkerCommand::<C>::Exit,
        ),
{
}

/// A stopped worker answers nothing: whatever reaches it afterwards, it only
/// leaves its loop.
pub proof fn law_stopped_worker_only_exits<C: Catalog>(events: Seq<WorkerEvent<C>>)
    ensures
        worker_run(WorkerPhase::Stopped, events).len() == events.len(),
        forall|k: int|
            0 <= k < events.len() ==> #[trigger] worker_run(WorkerPhase::Stopped, events)[k]
                is Exit,
        executed(worker_run(WorkerPhase::Stopped, events)) =~= Seq::<Action<C>>::empty(),
    decreases events.len(),
{
    if events.len() > 0 {
        let rest = events.drop_first();
        law_stopped_worker_only_exits(rest);
        let cmds = worker_run(WorkerPhase::Stopped, events);
        assert(cmds == seq![WorkerCommand::<C>::Exit] + worker_run(WorkerPhase::Stopped, rest));
        assert forall|k: int| 0 <= k < events.len() implies #[trigger] cmds[k] is Exit by {
            if k > 0 {
                assert(cmds[k] == worker_run(WorkerPhase::Stopped, rest)[k - 1]);
            }
        }
        assert(cmds.drop_first() =~= worker_run(WorkerPhase::Stopped, rest));
    }
}

/// A serving worker performs exactly the actions it receives before the first
/// stop request or disconnection, in the order they arrive, and nothing else.
pub proof fn law_serves_exactly_until_stop<C: Catalog>(events: Seq<WorkerEvent<C>>)
    ensures
        executed(worker_run(WorkerPhase::Serving, events)) == received_before_stop(events),
    decreases events.len(),
{
    if events.len() > 0 {
        let rest = events.drop_first();
        let (next, command) = worker_step(WorkerPhase::Serving, events[0]);
        let cmds = worker_run(WorkerPhase::Serving, events);
        assert(cmds == seq![command] + worker_run(next, rest));
        assert(cmds.drop_first() =~= worker_run(next, rest));
        if next == WorkerPhase::Serving {
            law_serves_exactly_until_stop(rest);
        } else {
            law_stopped_worker_only_exits(rest);
        }
    }
}

/// Once a serving worker has acknowledged a stop request, every later command
/// only leaves the loop: no action is performed after a stop, and a stop is
/// acknowledged at most once.
pub proof fn law_nothing_after_stop<C: Catalog>(events: Seq<WorkerEvent<C>>, i: int, j: int)
    requires
        0 <= i < j < events.len(),
        worker_run(WorkerPhase::Serving, events)[i] is AcknowledgeStop,
    ensures
        worker_run(WorkerPhase::Serving, events)[j] is Exit,
    decreases events.len(),
{
    let rest = events.drop_first();
    let (next, command) = worker_step(WorkerPhase::Serving, events[0]);
    let cmds = worker_run(WorkerPhase::Serving, events);
    assert(cmds == seq![command] + worker_run(next, rest));
    lemma_run_len(next, rest);
    if next == WorkerPhase::Stopped {
        law_stopped_worker_only_exits(rest);
        assert(cmds[j] == worker_run(next, rest)[j - 1]);
    } else {
        assert(i > 0);
        assert(cmds[i] == worker_run(next, rest)[i - 1]);
        assert(cmds[j] == worker_run(next, rest)[j - 1]);
        law_nothing_after_stop(rest, i - 1, j - 1);
    }
}

/// In a run of a serving worker, the first stop request that arrives before
/// any disconnection is acknowledged on its own channel, at its own position.
pub proof fn law_first_stop_is_acknowledged<C: Catalog>(
    events: Seq<WorkerEvent<C>>,
    k: int,
    answer: Sender<()>,
)
    requires
        0 <= k < events.len(),
        events[k] == WorkerEvent::<C>::Received(Action::Stop(answer)),
        forall|i: int|
            0 <= i < k ==> (#[trigger] events[i] matches WorkerEvent::Received(action) && !(
            action is Stop)),
    ensures
        worker_run(WorkerPhase::Serving, events)[k] == WorkerCommand::<C>::AcknowledgeStop(answer),
    decreases k,
{
    let rest = events.drop_first();
    let (next, command) = worker_step(WorkerPhase::Serving, events[0]);
    let cmds = worker_run(WorkerPhase::Serving, events);
    assert(cmds == seq![command] + worker_run(next, rest));
    lemma_run_len(next, rest);
    if k > 0 {
        assert(events[0] matches WorkerEvent::Received(action) && !(action is Stop));
        assert(next == WorkerPhase::Serving);
        assert forall|i: int| 0 <= i < k - 1 implies (#[trigger] rest[i] matches WorkerEvent::Received(
            action,
        ) && !(action is Stop)) by {
            assert(rest[i] == events[i + 1]);
        }
        law_first_stop_is_acknowledged(rest, k - 1, answer);
        assert(cmds[k] == worker_run(next, rest)[k - 1]);
    }
}

} // verus!
