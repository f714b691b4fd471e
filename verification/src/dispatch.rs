//! The hand-off between a timer, a background worker and the serial loop.
//!
//! A dispatcher stands for one periodic job whose work may block. On a tick
//! the serial loop asks it whether a worker may start. The worker's result is
//! put into the dispatcher's single slot, and the serial loop collects it
//! from there. At most one worker is under way at any time, and nothing that
//! arrives after shutdown is handed on.

use vstd::prelude::*;

verus! {

/// Where a dispatcher stands.
#[derive(Clone, Copy, Debug, PartialEq, Eq, Structural)]
pub enum Phase {
    /// No worker is under way and no result waits.
    Idle,
    /// A worker is under way.
    Probing,
    /// The worker's result waits in the slot.
    Delivered,
}

/// The state of one periodic job: its phase, the slot for the result of
/// its worker, and whether the engine still runs.
pub struct Dispatcher<T> {
    phase: Phase,
    slot: Option<T>,
    running: bool,
}

impl<T> Dispatcher<T> {
    /// Where the dispatcher stands.
    pub closed spec fn phase(&self) -> Phase {
        self.phase
    }

    /// What waits in the slot.
    pub closed spec fn slot(&self) -> Option<T> {
        self.slot
    }

    /// Whether the engine still runs.
    pub closed spec fn running(&self) -> bool {
        self.running
    }

    /// The dispatcher as plain values.
    pub open spec fn model(&self) -> Model<T> {
        Model { phase: self.phase(), slot: self.slot(), running: self.running() }
    }

    /// A dispatcher of a running engine, idle.
    pub fn new() -> (r: Self)
        ensures
            r.model() == (Model::<T> { phase: Phase::Idle, slot: None, running: true }),
    {
        Dispatcher { phase: Phase::Idle, slot: None, running: true }
    }

    /// Takes a tick of the timer. Returns whether a worker is to be started
    /// now: the engine runs and the dispatcher is idle. The tick is let pass
    /// while a worker is under way or its result waits.
    pub fn tick(&mut self) -> (start: bool)
        ensures
            start == starts_worker(old(self).model(), Event::<T>::Tick),
            final(self).model() == step(old(self).model(), Event::Tick),
    {
        if self.running && self.phase == Phase::Idle {
            self.phase = Phase::Probing;
            true
        } else {
            false
        }
    }

    /// Takes in the result of the worker. A result that no worker is under
    /// way for is dropped.
    pub fn deliver(&mut self, result: T)
        ensures
            final(self).model() == step(old(self).model(), Event::Result(result)),
    {
        if self.phase == Phase::Probing {
            self.phase = Phase::Delivered;
            self.slot = Some(result);
        }
    }

    /// Empties the slot and returns what is to be acted on: the result that
    /// waited, if the engine still runs. A dispatcher whose result waited is
    /// idle afterwards.
    pub fn collect(&mut self) -> (r: Option<T>)
        ensures
            r == hands_on(old(self).model(), Event::<T>::Collect),
            final(self).model() == step(old(self).model(), Event::Collect),
    {
        if self.phase == Phase::Delivered {
            self.phase = Phase::Idle;
        }
        let waiting: Option<T> = self.slot.take();
        if self.running {
            waiting
        } else {
            None
        }
    }

    /// Marks the engine as shut down. No worker starts from now on, and no
    /// result is handed on.
    pub fn shut_down(&mut self)
        ensures
            final(self).model() == step(old(self).model(), Event::ShutDown),
    {
        self.running = false;
    }

    /// Whether the engine still runs.
    pub fn is_running(&self) -> (r: bool)
        ensures
            r == self.running(),
    {
        self.running
    }

    /// Whether a worker is under way.
    pub fn is_probing(&self) -> (r: bool)
        ensures
            r == (self.phase() == Phase::Probing),
    {
        self.phase == Phase::Probing
    }
}

/// What can happen to a dispatcher.
pub enum Event<T> {
    /// The timer ticked.
    Tick,
    /// The worker came back with this result.
    Result(T),
    /// The serial loop looked into the slot.
    Collect,
    /// The engine was shut down.
    ShutDown,
}

/// The dispatcher as plain values: phase, slot, running flag.
pub struct Model<T> {
    pub phase: Phase,
    pub slot: Option<T>,
    pub running: bool,
}

/// What `event` makes of `m`.
pub open spec fn step<T>(m: Model<T>, event: Event<T>) -> Model<T> {
    match event {
        Event::Tick => if m.running && m.phase == Phase::Idle {
            Model { phase: Phase::Probing, ..m }
        } else {
            m
        },
        Event::Result(result) => if m.phase == Phase::Probing {
            Model { phase: Phase::Delivered, slot: Some(result), ..m }
        } else {
            m
        },
        Event::Collect => Model {
            phase: if m.phase == Phase::Delivered {
                Phase::Idle
            } else {
                m.phase
            },
            slot: None,
            ..m
        },
        Event::ShutDown => Model { running: false, ..m },
    }
}

/// Whether `event` starts a worker in `m`.
pub open spec fn starts_worker<T>(m: Model<T>, event: Event<T>) -> bool {
    event is Tick && m.running && m.phase == Phase::Idle
}

/// What `event` hands on to be acted on in `m`.
pub open spec fn hands_on<T>(m: Model<T>, event: Event<T>) -> Option<T> {
    if event is Collect && m.running {
        m.slot
    } else {
        None
    }
}

/// What a run of events makes of `m`.
pub open spec fn run<T>(m: Model<T>, events: Seq<Event<T>>) -> Model<T>
    decreases events.len(),
{
    if events.len() == 0 {
        m
    } else {
        step(run(m, events.drop_last()), events.last())
    }
}

/// How many workers the events `events` start from `m` on.
pub open spec fn started<T>(m: Model<T>, events: Seq<Event<T>>) -> nat
    decreases events.len(),
{
    if events.len() == 0 {
        0
    } else {
        started(m, events.drop_last()) + if starts_worker(
            run(m, events.drop_last()),
            events.last(),
        ) {
            1nat
        } else {
            0nat
        }
    }
}

/// How many results of workers the events `events` take in from `m` on.
pub open spec fn finished<T>(m: Model<T>, events: Seq<Event<T>>) -> nat
    decreases events.len(),
{
    if events.len() == 0 {
        0
    } else {
        finished(m, events.drop_last()) + if events.last() is Result && run(
            m,
            events.drop_last(),
        ).phase == Phase::Probing {
            1nat
        } else {
            0nat
        }
    }
}

/// Whatever happens, at most one worker is under way: from an idle
/// dispatcher on, the workers started are those that came back and, while
/// the dispatcher is probing, one more.
pub proof fn lemma_one_worker_at_a_time<T>(m: Model<T>, events: Seq<Event<T>>)
    requires
        m.phase == Phase::Idle,
    ensures
        started(m, events) == finished(m, events) + if run(m, events).phase == Phase::Probing {
            1nat
        } else {
            0nat
        },
    decreases events.len(),
{
    if events.len() > 0 {
        lemma_one_worker_at_a_time(m, events.drop_last());
    }
}

/// After shutdown no worker starts and no result is handed on, whatever
/// happens next.
pub proof fn lemma_shutdown_is_final<T>(m: Model<T>, events: Seq<Event<T>>, next: Event<T>)
    requires
        !m.running,
    ensures
        !run(m, events).running,
        !starts_worker(run(m, events), next),
        hands_on(run(m, events), next) is None,
    decreases events.len(),
{
    if events.len() > 0 {
        lemma_shutdown_is_final(m, events.drop_last(), events.last());
    }
}

/// Nothing is handed on twice: a slot that was collected is empty.
pub proof fn lemma_collect_empties_slot<T>(m: Model<T>)
    ensures
        hands_on(step(m, Event::Collect), Event::Collect) is None,
{
}

} // verus!
