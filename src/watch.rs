use vstd::prelude::*;

verus! {

/// What a watch session's single channel carries: events and event errors from the OS watch,
/// the stop request, and the news that every sender is gone.
pub enum WatchMessage<E, F> {
    EventResult(Result<E, F>),
    Unwatch,
    Disconnected,
}

/// What the loop of a watch session does with one message.
pub enum WatchAction<E, F> {
    /// Hand the event to the success callback and keep going.
    Dispatch(E),
    /// Hand the error to the failure callback and keep going.
    Report(F),
    /// Release the OS watch and return success.
    Release,
    /// Return with an error: the watch can deliver nothing more.
    Abort,
    /// The session is over; the message has no effect.
    Ignore,
}

#[derive(Debug, Clone, Copy, PartialEq, Eq, Structural)]
pub enum WatchPhase {
    Watching,
    Released,
    Aborted,
}

/// The next phase of a session, and what to do, on receiving `message`.
pub open spec fn step_spec<E, F>(phase: WatchPhase, message: WatchMessage<E, F>) -> (
    WatchPhase,
    WatchAction<E, F>,
) {
    match phase {
        WatchPhase::Watching => match message {
            WatchMessage::EventResult(Ok(event)) => (WatchPhase::Watching, WatchAction::Dispatch(event)),
            WatchMessage::EventResult(Err(error)) => (
                WatchPhase::Watching,
                WatchAction::Report(error),
            ),
            WatchMessage::Unwatch => (WatchPhase::Released, WatchAction::Release),
            WatchMessage::Disconnected => (WatchPhase::Aborted, WatchAction::Abort),
        },
        _ => (phase, WatchAction::Ignore),
    }
}

/// The phase a session ends in, and the actions it takes, on receiving `messages` in order.
pub open spec fn run_spec<E, F>(phase: WatchPhase, messages: Seq<WatchMessage<E, F>>) -> (
    WatchPhase,
    Seq<WatchAction<E, F>>,
)
    decreases messages.len(),
{
    if messages.len() == 0 {
        (phase, Seq::empty())
    } else {
        let (next, action) = step_spec(phase, messages[0]);
        let (last, actions) = run_spec(next, messages.drop_first());
        (last, seq![action] + actions)
    }
}

/// The decision side of one watch session: one message at a time, in the order received.
pub struct WatchSession {
    phase: WatchPhase,
}

impl WatchSession {
    pub closed spec fn phase_spec(&self) -> WatchPhase {
        self.phase
    }

    /// A session that has just started watching.
    pub fn new() -> (r: Self)
        ensures
            r.phase_spec() == WatchPhase::Watching,
    {
        Self { phase: WatchPhase::Watching }
    }

    pub fn phase(&self) -> (r: WatchPhase)
        ensures
            r == self.phase_spec(),
    {
        self.phase
    }

    /// Whether the loop should wait for another message.
    pub fn is_running(&self) -> (r: bool)
        ensures
            r == (self.phase_spec() == WatchPhase::Watching),
    {
        self.phase == WatchPhase::Watching
    }

    /// Decides what to do with the next message off the channel.
    pub fn step<E, F>(&mut self, message: WatchMessage<E, F>) -> (r: WatchAction<E, F>)
        ensures
            (final(self).phase_spec(), r) == step_spec(old(self).phase_spec(), message),
    {
        match self.phase {
            WatchPhase::Watching => match message {
                WatchMessage::EventResult(Ok(event)) => WatchAction::Dispatch(event),
                WatchMessage::EventResult(Err(error)) => WatchAction::Report(error),
                WatchMessage::Unwatch => {
                    self.phase = WatchPhase::Released;
                    WatchAction::Release
                },
                WatchMessage::Disconnected => {
                    self.phase = WatchPhase::Aborted;
                    WatchAction::Abort
                },
            },
            _ => WatchAction::Ignore,
        }
    }
}

/// The stop side of a watch session: the stop request goes out at most once.
pub struct Stopwatch {
    requested: bool,
}

impl Stopwatch {
    pub closed spec fn requested_spec(&self) -> bool {
        self.requested
    }

    pub fn new() -> (r: Self)
        ensures
            !r.requested_spec(),
    {
        Self { requested: false }
    }

    /// Records a stop request; true when the `Unwatch` message must now be sent, false when
    /// one was sent before and this request has nothing left to do.
    pub fn stop(&mut self) -> (send: bool)
        ensures
            send == !old(self).requested_spec(),
            final(self).requested_spec(),
    {
        let send = !self.requested;
        self.requested = true;
        send
    }
}

/// A filesystem path to watch, whether to watch below it, and the callbacks that a session
/// hands events and errors to.
pub struct WatchFileSystemNotifyAdapter<TOk, TErr> {
    err_callback: TErr,
    is_recursive: bool,
    ok_callback: TOk,
    path: String,
}

impl<TOk, TErr> WatchFileSystemNotifyAdapter<TOk, TErr> {
    pub closed spec fn path_spec(&self) -> Seq<char> {
        self.path@
    }

    pub closed spec fn is_recursive_spec(&self) -> bool {
        self.is_recursive
    }

    pub fn new(err_callback: TErr, is_recursive: bool, ok_callback: TOk, path: String) -> (r:
        Self)
        ensures
            r.path_spec() == path@,
            r.is_recursive_spec() == is_recursive,
    {
        Self { err_callback, is_recursive, ok_callback, path }
    }

    pub fn path(&self) -> (r: &String)
        ensures
            r@ == self.path_spec(),
    {
        &self.path
    }

    pub fn is_recursive(&self) -> (r: bool)
        ensures
            r == self.is_recursive_spec(),
    {
        self.is_recursive
    }

    pub fn ok_callback(&self) -> &TOk {
        &self.ok_callback
    }

    pub fn err_callback(&self) -> &TErr {
        &self.err_callback
    }

    /// The two halves of a fresh session: the decisions of its loop, and its stop control.
    pub fn prepare(&self) -> (r: (WatchSession, Stopwatch))
        ensures
            r.0.phase_spec() == WatchPhase::Watching,
            !r.1.requested_spec(),
    {
        (WatchSession::new(), Stopwatch::new())
    }
}

/// Once a session is over, every further message is ignored and the phase stays.
pub proof fn lemma_finished_session_ignores<E, F>(
    phase: WatchPhase,
    messages: Seq<WatchMessage<E, F>>,
)
    requires
        phase != WatchPhase::Watching,
    ensures
        run_spec(phase, messages).0 == phase,
        run_spec(phase, messages).1.len() == messages.len(),
        forall|i: int| 0 <= i < messages.len() ==> #[trigger] run_spec(phase, messages).1[i] is Ignore,
    decreases messages.len(),
{
    if messages.len() > 0 {
        lemma_finished_session_ignores(phase, messages.drop_first());
        let actions = run_spec(phase, messages).1;
        let rest = run_spec(phase, messages.drop_first()).1;
        assert forall|i: int| 0 <= i < messages.len() implies #[trigger] actions[i] is Ignore by {
            if i > 0 {
                assert(actions[i] == rest[i - 1]);
            }
        };
    }
}

/// A stop request is never lost behind events: the event results queued before it are handed
/// to the callbacks in order, the stop releases the watch, and nothing after it is handled.
pub proof fn lemma_stop_observed_in_order<E, F>(messages: Seq<WatchMessage<E, F>>, k: int)
    requires
        0 <= k < messages.len(),
        messages[k] is Unwatch,
        forall|j: int| 0 <= j < k ==> #[trigger] messages[j] is EventResult,
    ensures
        run_spec(WatchPhase::Watching, messages).0 == WatchPhase::Released,
        run_spec(WatchPhase::Watching, messages).1.len() == messages.len(),
        forall|j: int|
            0 <= j < k ==> #[trigger] run_spec(WatchPhase::Watching, messages).1[j] == step_spec(
                WatchPhase::Watching,
                messages[j],
            ).1,
        run_spec(WatchPhase::Watching, messages).1[k] is Release,
        forall|j: int|
            k < j < messages.len() ==> #[trigger] run_spec(WatchPhase::Watching, messages).1[j] is Ignore,
    decreases k,
{
    let actions = run_spec(WatchPhase::Watching, messages).1;
    let tail = messages.drop_first();
    if k == 0 {
        lemma_finished_session_ignores(WatchPhase::Released, tail);
        let rest = run_spec(WatchPhase::Released, tail).1;
        assert forall|j: int| 0 < j < messages.len() implies #[trigger] actions[j] is Ignore by {
            assert(actions[j] == rest[j - 1]);
        };
    } else {
        assert(messages[0] is EventResult);
        assert forall|j: int| 0 <= j < k - 1 implies #[trigger] tail[j] is EventResult by {
            assert(tail[j] == messages[j + 1]);
        };
        lemma_stop_observed_in_order(tail, k - 1);
        let rest = run_spec(WatchPhase::Watching, tail).1;
        assert forall|j: int|
            0 < j < messages.len() implies #[trigger] actions[j] == rest[j - 1] by {};
        assert forall|j: int|
            0 <= j < k implies #[trigger] actions[j] == step_spec(
                WatchPhase::Watching,
                messages[j],
            ).1 by {
            if j > 0 {
                assert(actions[j] == rest[j - 1]);
                assert(tail[j - 1] == messages[j]);
            }
        };
        assert forall|j: int| k < j < messages.len() implies #[trigger] actions[j] is Ignore by {
            assert(actions[j] == rest[j - 1]);
        };
    }
}

/// A stop request sent right after `prepare`, before any event, still ends the session: the
/// first message releases the watch, nothing is dispatched, and the loop returns success.
pub proof fn lemma_stop_before_start<E, F>(messages: Seq<WatchMessage<E, F>>)
    requires
        messages.len() > 0,
        messages[0] is Unwatch,
    ensures
        run_spec(WatchPhase::Watching, messages).0 == WatchPhase::Released,
        run_spec(WatchPhase::Watching, messages).1[0] is Release,
        forall|j: int|
            0 < j < messages.len() ==> #[trigger] run_spec(WatchPhase::Watching, messages).1[j] is Ignore,
{
    lemma_stop_observed_in_order(messages, 0);
}

} // verus!
