//! Thread lifecycle control and the message relay.
//!
//! A [`Thread`] stands for one worker: a body looping on the receiving end
//! of its own channel. The model keeps what is observable about such a
//! worker — whether its body has returned, and the messages its receiver
//! has taken, in arrival order — and bakes in the one obligation the real
//! system documents for every body: it records each message and exits
//! exactly when it takes [`ThreadMessage::Stop`].
//!
//! A [`ThreadController`] owns an ordered collection of workers and relays
//! every message it receives to all of them, treating `Stop` as the one
//! privileged message that also ends the relay itself. [`ThreadController::begin`]
//! takes the stream the shared channel would deliver and is proved to
//! drive the whole system to the state [`spec_run`] describes: every
//! message before the first `Stop` reaches every live worker exactly once,
//! in order, and a `Stop` leaves no worker running.

use vstd::prelude::*;

use crate::media::ManagerMessage;

verus! {

/// All messages that travel on the channels between threads. Every
/// consumer loop must recognize [`ThreadMessage::Stop`] and exit on it: a
/// consumer that never takes `Stop` can never be joined.
#[derive(Debug, Clone, Copy, PartialEq, Eq)]
pub enum ThreadMessage {
    /// Ask the receiving thread to wind down and exit its loop.
    Stop,
    /// Diagnostic payload, recorded as-is by whoever receives it.
    Echo(&'static str),
    /// A media-manager notification.
    Media(ManagerMessage),
}

/// Failure raised by the relay and by sends into a worker.
#[derive(Debug, Clone, Copy, PartialEq, Eq)]
pub enum ControllerError {
    /// The peer end of a channel is gone: the body already returned and
    /// dropped its receiver, or every producer dropped its sender.
    ChannelClosed,
}

/// The observable state of one worker: whether its body has returned, and
/// the messages its receiver has taken, in arrival order.
#[verifier::ext_equal]
pub ghost struct ThreadView {
    pub finished: bool,
    pub received: Seq<ThreadMessage>,
}

/// One worker thread with the sending end of its channel.
///
/// The worker's body is the canonical consumer loop: it records every
/// message delivered to it and returns exactly when it takes
/// [`ThreadMessage::Stop`]. Delivery and consumption coincide here, so a
/// worker is `finished` as soon as `Stop` is delivered, and a finished
/// worker's receiver is gone: later sends fail with
/// [`ControllerError::ChannelClosed`].
#[derive(Debug)]
pub struct Thread {
    /// True once the body has returned.
    pub finished: bool,
    /// Every message the body's receiver has taken, in arrival order.
    pub received: Vec<ThreadMessage>,
}

impl View for Thread {
    type V = ThreadView;

    open spec fn view(&self) -> ThreadView {
        ThreadView { finished: self.finished, received: self.received@ }
    }
}

/// One delivery into a worker's channel: a finished worker takes nothing;
/// a live one records the message and exits exactly on `Stop`.
pub open spec fn spec_deliver(t: ThreadView, m: ThreadMessage) -> ThreadView {
    if t.finished {
        t
    } else {
        ThreadView { finished: m is Stop, received: t.received.push(m) }
    }
}

/// Deliveries of a whole sequence of messages, in order.
pub open spec fn spec_deliver_all(t: ThreadView, msgs: Seq<ThreadMessage>) -> ThreadView
    decreases msgs.len(),
{
    if msgs.len() == 0 {
        t
    } else {
        spec_deliver_all(spec_deliver(t, msgs[0]), msgs.skip(1))
    }
}

/// The universal shutdown step for one worker: deliver `Stop` if the body
/// is still running, otherwise leave it exactly as it is.
pub open spec fn spec_stop(t: ThreadView) -> ThreadView {
    spec_deliver(t, ThreadMessage::Stop)
}

/// One broadcast: deliver `m` to every worker (finished ones take nothing).
pub open spec fn spec_deliver_to_all(ts: Seq<ThreadView>, m: ThreadMessage) -> Seq<ThreadView> {
    Seq::new(ts.len(), |i: int| spec_deliver(ts[i], m))
}

/// Shutdown of every worker.
pub open spec fn spec_stop_all(ts: Seq<ThreadView>) -> Seq<ThreadView> {
    Seq::new(ts.len(), |i: int| spec_stop(ts[i]))
}

/// What the relay leaves behind: whether it saw `Stop`, and every worker's
/// final state.
#[verifier::ext_equal]
pub ghost struct RelayResult {
    pub stopped: bool,
    pub threads: Seq<ThreadView>,
}

/// The whole relay, as a function of the workers' states and the stream of
/// messages the shared channel delivers: each message before the first
/// `Stop` is broadcast to every live worker; the first `Stop` shuts every
/// worker down and ends the relay; a stream with no `Stop` is drained
/// without ever stopping (the relay then dies on its closed channel).
pub open spec fn spec_run(ts: Seq<ThreadView>, msgs: Seq<ThreadMessage>) -> RelayResult
    decreases msgs.len(),
{
    if msgs.len() == 0 {
        RelayResult { stopped: false, threads: ts }
    } else if msgs[0] is Stop {
        RelayResult { stopped: true, threads: spec_stop_all(ts) }
    } else {
        spec_run(spec_deliver_to_all(ts, msgs[0]), msgs.skip(1))
    }
}

/// The states of a roster of workers.
pub open spec fn spec_views(ts: Seq<Thread>) -> Seq<ThreadView> {
    ts.map_values(|t: Thread| t@)
}

/// Whether the stream holds a `Stop` anywhere.
pub open spec fn spec_contains_stop(msgs: Seq<ThreadMessage>) -> bool {
    exists|i: int| 0 <= i < msgs.len() && msgs[i] is Stop
}

impl Thread {
    /// Spawns a worker: body running, nothing received yet.
    pub fn new() -> (t: Thread)
        ensures
            !t@.finished,
            t@.received == Seq::<ThreadMessage>::empty(),
    {
        Thread { finished: false, received: Vec::new() }
    }

    /// True once the worker's body has returned.
    pub fn is_finished(&self) -> (r: bool)
        ensures
            r == self@.finished,
    {
        self.finished
    }

    /// Delivers one message to the worker. Fails with `ChannelClosed` when
    /// the body already returned and dropped its receiver; the worker is
    /// then left untouched.
    pub fn send_message(&mut self, message: ThreadMessage) -> (r: Result<(), ControllerError>)
        ensures
            final(self)@ == spec_deliver(old(self)@, message),
            r is Ok <==> !old(self)@.finished,
            r matches Err(e) ==> e is ChannelClosed,
    {
        if self.finished {
            Err(ControllerError::ChannelClosed)
        } else {
            let is_stop = matches!(message, ThreadMessage::Stop);
            self.received.push(message);
            self.finished = is_stop;
            Ok(())
        }
    }

    /// The worker's body returns of its own accord (a body with a natural
    /// exit, or one that failed): the receiver is dropped, nothing else
    /// changes.
    pub fn finish(&mut self)
        ensures
            final(self)@ == (ThreadView { finished: true, ..old(self)@ }),
    {
        self.finished = true;
    }

    /// Waits for the worker's body to return. Joining a body that never
    /// exits would block forever, so a join is admissible only once the
    /// body has returned — which `stop` guarantees.
    pub fn join(&self)
        requires
            self@.finished,
    {
    }

    /// The only safe universal shutdown path: deliver `Stop` if the body
    /// is still running, then join. Harmless on an already finished
    /// worker: nothing is sent and the join returns at once.
    pub fn stop(&mut self)
        ensures
            final(self)@ == spec_stop(old(self)@),
            final(self)@.finished,
    {
        if !self.is_finished() {
            let _ = self.send_message(ThreadMessage::Stop);
        }
        self.join();
    }
}

/// The relay: an ordered roster of workers fed from one shared channel.
/// Insertion order is shutdown order reversed, since shutdown walks the
/// roster from the end.
#[derive(Debug)]
pub struct ThreadController {
    /// The workers, in insertion order.
    pub threads: Vec<Thread>,
}

impl ThreadController {
    /// A controller with no workers yet.
    pub fn new() -> (c: ThreadController)
        ensures
            c.threads@.len() == 0,
    {
        ThreadController { threads: Vec::new() }
    }

    /// Appends a worker; returns the controller back for chaining.
    pub fn add_thread(self, thread: Thread) -> (c: ThreadController)
        ensures
            c.threads@ == self.threads@.push(thread),
    {
        let mut c = self;
        c.threads.push(thread);
        c
    }

    /// How many workers the controller owns.
    pub fn threads_count(&self) -> (n: usize)
        ensures
            n == self.threads@.len(),
    {
        self.threads.len()
    }

    /// Joins every worker, last added first, without signalling `Stop`:
    /// admissible only when every body has already returned on its own,
    /// since joining a still-running body would block forever.
    pub fn join_all_threads(&self)
        requires
            forall|i: int| 0 <= i < self.threads@.len() ==> self.threads@[i]@.finished,
    {
        let mut i: usize = self.threads.len();
        while i > 0
            invariant
                i <= self.threads@.len(),
                forall|k: int| 0 <= k < self.threads@.len() ==> self.threads@[k]@.finished,
            decreases i,
        {
            i = i - 1;
            self.threads[i].join();
        }
    }

    /// Shuts every worker down, last added first: an already finished
    /// worker is skipped (never sent a message), every other one gets
    /// `Stop` and is joined. No worker is left running.
    pub fn stop_all_threads(&mut self)
        ensures
            final(self).threads@.len() == old(self).threads@.len(),
            forall|i: int|
                0 <= i < old(self).threads@.len() ==> final(self).threads@[i]@ == spec_stop(
                    old(self).threads@[i]@,
                ),
            forall|i: int| 0 <= i < final(self).threads@.len() ==> final(self).threads@[i]@.finished,
    {
        let mut i: usize = self.threads.len();
        while i > 0
            invariant
                i <= self.threads@.len(),
                self.threads@.len() == old(self).threads@.len(),
                forall|k: int| 0 <= k < i ==> self.threads@[k] == old(self).threads@[k],
                forall|k: int|
                    i <= k < self.threads@.len() ==> self.threads@[k]@ == spec_stop(
                        old(self).threads@[k]@,
                    ),
            decreases i,
        {
            i = i - 1;
            let t = &mut self.threads[i];
            t.stop();
        }
    }

    /// Broadcasts one message: it reaches every worker whose body is still
    /// running and silently skips every finished one, so a broadcast never
    /// fails merely because some workers already exited.
    pub fn send_all(&mut self, message: ThreadMessage)
        ensures
            final(self).threads@.len() == old(self).threads@.len(),
            forall|i: int|
                0 <= i < old(self).threads@.len() ==> final(self).threads@[i]@ == spec_deliver(
                    old(self).threads@[i]@,
                    message,
                ),
    {
        let mut i: usize = 0;
        while i < self.threads.len()
            invariant
                i <= self.threads@.len(),
                self.threads@.len() == old(self).threads@.len(),
                forall|k: int|
                    0 <= k < i ==> self.threads@[k]@ == spec_deliver(
                        old(self).threads@[k]@,
                        message,
                    ),
                forall|k: int| i <= k < self.threads@.len() ==> self.threads@[k] == old(self).threads@[k],
            decreases self.threads@.len() - i,
        {
            let t = &mut self.threads[i];
            if !t.is_finished() {
                let _ = t.send_message(message);
            } else {
                proof {
                    assert(t@ == spec_deliver(old(self).threads@[i as int]@, message));
                }
            }
            i = i + 1;
        }
    }

    /// Runs the relay over the stream the shared channel delivers, in
    /// order: every message before the first `Stop` is broadcast to all
    /// live workers; the first `Stop` shuts every worker down and returns.
    /// A stream that ends without `Stop` means every producer is gone, so
    /// the relay fails with `ChannelClosed` — after having delivered the
    /// whole stream.
    #[verifier::loop_isolation(false)]
    pub fn begin(&mut self, incoming: &Vec<ThreadMessage>) -> (r: Result<(), ControllerError>)
        ensures
            final(self).threads@.len() == old(self).threads@.len(),
            spec_views(final(self).threads@) == spec_run(
                spec_views(old(self).threads@),
                incoming@,
            ).threads,
            r is Ok <==> spec_run(spec_views(old(self).threads@), incoming@).stopped,
            r is Ok <==> spec_contains_stop(incoming@),
            r matches Err(e) ==> e is ChannelClosed,
            r is Ok ==> forall|i: int|
                0 <= i < final(self).threads@.len() ==> final(self).threads@[i]@.finished,
    {
        let ghost orig = spec_views(self.threads@);
        proof {
            assert(incoming@.skip(0) =~= incoming@);
        }
        let mut j: usize = 0;
        while j < incoming.len()
            invariant
                j <= incoming@.len(),
                self.threads@.len() == old(self).threads@.len(),
                forall|k: int| 0 <= k < j ==> !(incoming@[k] is Stop),
                spec_run(spec_views(self.threads@), incoming@.skip(j as int)) == spec_run(
                    orig,
                    incoming@,
                ),
            decreases incoming@.len() - j,
        {
            let ghost before = spec_views(self.threads@);
            let ghost rest = incoming@.skip(j as int);
            proof {
                assert(rest[0] == incoming@[j as int]);
                assert(rest.skip(1) =~= incoming@.skip(j as int + 1));
            }
            let message = incoming[j];
            if matches!(message, ThreadMessage::Stop) {
                proof {
                    assert(incoming@[j as int] is Stop);
                    assert(spec_contains_stop(incoming@));
                    assert(spec_run(before, rest) == RelayResult {
                        stopped: true,
                        threads: spec_stop_all(before),
                    });
                }
                self.stop_all_threads();
                proof {
                    assert(spec_views(self.threads@) =~= spec_stop_all(before));
                }
                return Ok(());
            }
            self.send_all(message);
            proof {
                assert(spec_views(self.threads@) =~= spec_deliver_to_all(before, message));
            }
            j = j + 1;
        }
        proof {
            assert(incoming@.skip(j as int) =~= Seq::<ThreadMessage>::empty());
        }
        Err(ControllerError::ChannelClosed)
    }
}

/// A worker that is already finished takes no further message: delivery
/// leaves it exactly as it is. This is why a broadcast can skip finished
/// workers without losing anything.
pub proof fn lemma_deliver_skips_finished(t: ThreadView, m: ThreadMessage)
    ensures
        t.finished ==> spec_deliver(t, m) == t,
{
}

/// Stopping is idempotent: shutting down an already finished worker
/// changes nothing — it is never sent a message and never waited on.
pub proof fn lemma_stop_idempotent(t: ThreadView)
    ensures
        t.finished ==> spec_stop(t) == t,
{
}

/// While no `Stop` arrives, the relay is nothing but per-worker delivery:
/// each worker ends up having taken exactly the broadcast stream, once,
/// in the order it was sent.
pub proof fn lemma_run_no_stop_delivers_each(ts: Seq<ThreadView>, msgs: Seq<ThreadMessage>)
    requires
        !spec_contains_stop(msgs),
    ensures
        !spec_run(ts, msgs).stopped,
        spec_run(ts, msgs).threads.len() == ts.len(),
        forall|i: int|
            0 <= i < ts.len() ==> spec_run(ts, msgs).threads[i] == spec_deliver_all(ts[i], msgs),
    decreases msgs.len(),
{
    if msgs.len() == 0 {
    } else {
        assert(!(msgs[0] is Stop));
        let stepped = spec_deliver_to_all(ts, msgs[0]);
        assert forall|k: int| 0 <= k < msgs.skip(1).len() implies !(msgs.skip(1)[k] is Stop) by {
            assert(msgs.skip(1)[k] == msgs[k + 1]);
        }
        lemma_run_no_stop_delivers_each(stepped, msgs.skip(1));
        assert forall|i: int| 0 <= i < ts.len() implies spec_run(ts, msgs).threads[i]
            == spec_deliver_all(ts[i], msgs) by {
            assert(stepped[i] == spec_deliver(ts[i], msgs[0]));
            assert(spec_run(ts, msgs).threads[i] == spec_deliver_all(stepped[i], msgs.skip(1)));
        }
    }
}

/// Once the relay takes `Stop`, no worker is left running: the roster
/// keeps its size and every worker ends finished.
pub proof fn lemma_run_stopped_all_finished(ts: Seq<ThreadView>, msgs: Seq<ThreadMessage>)
    requires
        spec_run(ts, msgs).stopped,
    ensures
        spec_run(ts, msgs).threads.len() == ts.len(),
        forall|i: int| 0 <= i < ts.len() ==> spec_run(ts, msgs).threads[i].finished,
    decreases msgs.len(),
{
    if msgs.len() == 0 {
    } else if msgs[0] is Stop {
    } else {
        lemma_run_stopped_all_finished(spec_deliver_to_all(ts, msgs[0]), msgs.skip(1));
    }
}

} // verus!
