use vstd::prelude::*;

verus! {

/// Where the highlighting thread stands.
pub enum LoopState {
    /// Waiting for a buffer.
    Idle,
    /// Holding the newest buffer received, looking for a newer one.
    Collecting(String),
    /// Highlighting this buffer and storing its regions.
    Publishing(String),
    /// Waking the callback widget up after storing.
    Notifying,
}

/// What the thread's last action came to.
pub enum LoopEvent {
    /// A buffer was received.
    Received(String),
    /// No buffer is waiting (or the channel is closed) when looking for a newer one.
    NoneWaiting,
    /// The channel is closed while waiting for a buffer.
    Closed,
    /// The regions were stored.
    Stored,
    /// The regions could not be stored (the lock is poisoned).
    NotStored,
    /// The widget's descriptor was written to.
    Woke,
    /// Writing to the widget's descriptor failed.
    WakeFailed,
}

/// What the thread does next.
pub enum LoopAction {
    /// Wait until a buffer is received.
    WaitForBuffer,
    /// Take a newer buffer if one is waiting, without waiting.
    TakeNewer,
    /// Highlight this buffer and store the regions.
    Publish(String),
    /// Write to the widget's descriptor.
    Notify,
    /// Stop the thread.
    Stop,
}

pub enum LoopStateView {
    Idle,
    Collecting(Seq<char>),
    Publishing(Seq<char>),
    Notifying,
}

pub enum LoopEventView {
    Received(Seq<char>),
    NoneWaiting,
    Closed,
    Stored,
    NotStored,
    Woke,
    WakeFailed,
}

pub enum LoopActionView {
    WaitForBuffer,
    TakeNewer,
    Publish(Seq<char>),
    Notify,
    Stop,
}

impl View for LoopState {
    type V = LoopStateView;

    open spec fn view(&self) -> LoopStateView {
        match self {
            LoopState::Idle => LoopStateView::Idle,
            LoopState::Collecting(b) => LoopStateView::Collecting(b@),
            LoopState::Publishing(b) => LoopStateView::Publishing(b@),
            LoopState::Notifying => LoopStateView::Notifying,
        }
    }
}

impl View for LoopEvent {
    type V = LoopEventView;

    open spec fn view(&self) -> LoopEventView {
        match self {
            LoopEvent::Received(b) => LoopEventView::Received(b@),
            LoopEvent::NoneWaiting => LoopEventView::NoneWaiting,
            LoopEvent::Closed => LoopEventView::Closed,
            LoopEvent::Stored => LoopEventView::Stored,
            LoopEvent::NotStored => LoopEventView::NotStored,
            LoopEvent::Woke => LoopEventView::Woke,
            LoopEvent::WakeFailed => LoopEventView::WakeFailed,
        }
    }
}

impl View for LoopAction {
    type V = LoopActionView;

    open spec fn view(&self) -> LoopActionView {
        match self {
            LoopAction::WaitForBuffer => LoopActionView::WaitForBuffer,
            LoopAction::TakeNewer => LoopActionView::TakeNewer,
            LoopAction::Publish(b) => LoopActionView::Publish(b@),
            LoopAction::Notify => LoopActionView::Notify,
            LoopAction::Stop => LoopActionView::Stop,
        }
    }
}

/// The action that a state stands for when an event does not move it.
pub open spec fn pending_action(s: LoopStateView) -> LoopActionView {
    match s {
        LoopStateView::Idle => LoopActionView::WaitForBuffer,
        LoopStateView::Collecting(_) => LoopActionView::TakeNewer,
        LoopStateView::Publishing(b) => LoopActionView::Publish(b),
        LoopStateView::Notifying => LoopActionView::Notify,
    }
}

/// One step of the highlighting thread: a received buffer replaces the one
/// held; once none is waiting the newest is highlighted and stored; the
/// widget is woken up only after storing; the thread stops when the channel
/// closes while it waits or when waking the widget fails. An event that
/// cannot follow the state's action leaves the state as it is.
pub open spec fn loop_step(s: LoopStateView, e: LoopEventView) -> (LoopStateView, LoopActionView) {
    match (s, e) {
        (LoopStateView::Idle, LoopEventView::Received(b)) => (
            LoopStateView::Collecting(b),
            LoopActionView::TakeNewer,
        ),
        (LoopStateView::Idle, LoopEventView::Closed) => (LoopStateView::Idle, LoopActionView::Stop),
        (LoopStateView::Collecting(_), LoopEventView::Received(b)) => (
            LoopStateView::Collecting(b),
            LoopActionView::TakeNewer,
        ),
        (LoopStateView::Collecting(b), LoopEventView::NoneWaiting) => (
            LoopStateView::Publishing(b),
            LoopActionView::Publish(b),
        ),
        (LoopStateView::Publishing(_), LoopEventView::Stored) => (
            LoopStateView::Notifying,
            LoopActionView::Notify,
        ),
        (LoopStateView::Publishing(_), LoopEventView::NotStored) => (
            LoopStateView::Idle,
            LoopActionView::WaitForBuffer,
        ),
        (LoopStateView::Notifying, LoopEventView::Woke) => (
            LoopStateView::Idle,
            LoopActionView::WaitForBuffer,
        ),
        (LoopStateView::Notifying, LoopEventView::WakeFailed) => (
            LoopStateView::Idle,
            LoopActionView::Stop,
        ),
        _ => (s, pending_action(s)),
    }
}

impl LoopState {
    /// The state before anything is received: waiting for a buffer.
    pub fn start() -> (res: (LoopState, LoopAction))
        ensures
            res.0@ == LoopStateView::Idle,
            res.1@ == LoopActionView::WaitForBuffer,
    {
        (LoopState::Idle, LoopAction::WaitForBuffer)
    }

    /// Takes in what the last action came to; gives the next state and action.
    pub fn step(self, event: LoopEvent) -> (res: (LoopState, LoopAction))
        ensures
            (res.0@, res.1@) == loop_step(self@, event@),
    {
        match (self, event) {
            (LoopState::Idle, LoopEvent::Received(b)) => (LoopState::Collecting(b), LoopAction::TakeNewer),
            (LoopState::Idle, LoopEvent::Closed) => (LoopState::Idle, LoopAction::Stop),
            (LoopState::Collecting(_), LoopEvent::Received(b)) => (
                LoopState::Collecting(b),
                LoopAction::TakeNewer,
            ),
            (LoopState::Collecting(b), LoopEvent::NoneWaiting) => {
                let p = b.clone();
                (LoopState::Publishing(b), LoopAction::Publish(p))
            },
            (LoopState::Publishing(_), LoopEvent::Stored) => (LoopState::Notifying, LoopAction::Notify),
            (LoopState::Publishing(_), LoopEvent::NotStored) => (
                LoopState::Idle,
                LoopAction::WaitForBuffer,
            ),
            (LoopState::Notifying, LoopEvent::Woke) => (LoopState::Idle, LoopAction::WaitForBuffer),
            (LoopState::Notifying, LoopEvent::WakeFailed) => (LoopState::Idle, LoopAction::Stop),
            (LoopState::Idle, _) => (LoopState::Idle, LoopAction::WaitForBuffer),
            (LoopState::Collecting(b), _) => (LoopState::Collecting(b), LoopAction::TakeNewer),
            (LoopState::Publishing(b), _) => {
                let p = b.clone();
                (LoopState::Publishing(b), LoopAction::Publish(p))
            },
            (LoopState::Notifying, _) => (LoopState::Notifying, LoopAction::Notify),
        }
    }
}

/// The buffers received one after the other.
pub open spec fn received_all(buffers: Seq<Seq<char>>) -> Seq<LoopEventView> {
    buffers.map_values(|b: Seq<char>| LoopEventView::Received(b))
}

/// The state after the events, one after the other.
pub open spec fn loop_run(s: LoopStateView, events: Seq<LoopEventView>) -> LoopStateView
    decreases events.len(),
{
    if events.len() == 0 {
        s
    } else {
        loop_step(loop_run(s, events.drop_last()), events.last()).0
    }
}

/// Law: whatever buffers arrive while the thread is waiting or collecting,
/// it holds the newest one, and that is the one it highlights once no newer
/// one is waiting.
pub proof fn lemma_publishes_newest(s: LoopStateView, buffers: Seq<Seq<char>>)
    requires
        s is Idle || s is Collecting,
        buffers.len() > 0,
    ensures
        loop_run(s, received_all(buffers)) == LoopStateView::Collecting(buffers.last()),
        loop_step(loop_run(s, received_all(buffers)), LoopEventView::NoneWaiting).1
            == LoopActionView::Publish(buffers.last()),
    decreases buffers.len(),
{
    let evs = received_all(buffers);
    assert(evs.drop_last() =~= received_all(buffers.drop_last()));
    if buffers.len() > 1 {
        lemma_publishes_newest(s, buffers.drop_last());
    } else {
        assert(evs.drop_last().len() == 0);
    }
}

/// Law: the widget is woken up only once the regions are stored: the thread
/// comes to wake it only from storing, and stops only when the channel closes
/// while it waits or when waking the widget fails.
pub proof fn lemma_wakes_only_after_storing(s: LoopStateView, e: LoopEventView)
    ensures
        loop_step(s, e).1 == LoopActionView::Notify ==> loop_step(s, e).0 == LoopStateView::Notifying,
        loop_step(s, e).0 == LoopStateView::Notifying ==> e == LoopEventView::Stored || s
            == LoopStateView::Notifying,
        loop_step(s, e).1 == LoopActionView::Stop ==> (s == LoopStateView::Idle && e
            == LoopEventView::Closed) || (s == LoopStateView::Notifying && e
            == LoopEventView::WakeFailed),
{
}

} // verus!
