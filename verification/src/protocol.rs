//! The whole system as a transition system: the request path, the workers of
//! all sessions and the event log, under every interleaving of their steps.
//! What holds of every state that can be reached is proved here.

use crate::controller::{SessionController, StartStep};
use crate::event::{Error, EventView, Handle};
use crate::worker::{noted, NoticeView, ScanWorker, WorkerAction};
use vstd::prelude::*;

verus! {

/// One session, from the moment it was announced.
pub struct Session {
    /// The handle it was announced with.
    pub handle: Handle,
    /// Its stop signal.
    pub stop: bool,
    /// How far its worker has come.
    pub worker: ScanWorker,
    /// The place of its announcement in the log.
    pub opened_at: nat,
}

/// One event in the log, with the number of the session that emitted it.
pub struct Entry {
    pub session: nat,
    pub event: EventView,
}

/// Where the request path stands.
pub enum Foreground {
    /// Between two requests.
    Ready,
    /// In a subscription, at the rendezvous with the stopped session's worker.
    Waiting,
    /// In a subscription, past any rendezvous: it opens the camera and the
    /// texture and holds them until the session is announced or given up.
    Opening,
}

/// The state of the whole system.
pub struct World {
    pub controller: SessionController,
    pub foreground: Foreground,
    /// Every session there has been, oldest first.
    pub sessions: Seq<Session>,
    /// Every event that was emitted, in the order of emission.
    pub log: Seq<Entry>,
}

/// One atomic step of the system.
pub enum Step {
    /// The subscriber subscribes.
    Subscribe,
    /// The waiting subscription and the arrived worker leave the rendezvous.
    Meet,
    /// The subscription has opened camera and texture and announces the
    /// session under this handle.
    Opened(Handle),
    /// The subscription gives up: the camera did not open, or the
    /// announcement could not be sent. What it held is released.
    Abandon,
    /// The subscriber cancels.
    Unsubscribe,
    /// The worker of a session reads `seen` from its stop signal and acts on
    /// it; `outcome` is what the frame gives if it captures one.
    Work { session: nat, seen: bool, outcome: Result<Option<String>, Error> },
}

/// Somebody who can hold the camera and the texture.
pub enum Holder {
    /// The request path, while it opens a session.
    Request,
    /// The worker of the session with this number.
    Worker(nat),
}

impl World {
    /// The system before the first request.
    pub open spec fn fresh() -> World {
        World {
            controller: SessionController::Idle,
            foreground: Foreground::Ready,
            sessions: Seq::empty(),
            log: Seq::empty(),
        }
    }

    /// Whether `who` holds the camera and the texture.
    pub open spec fn holds(self, who: Holder) -> bool {
        match who {
            Holder::Request => self.foreground is Opening,
            Holder::Worker(i) => i < self.sessions.len() && self.sessions[i as int].worker.holds(),
        }
    }

    /// The sessions with the worker of session `i` moved to `worker`.
    pub open spec fn with_worker(self, i: int, worker: ScanWorker) -> Seq<Session> {
        self.sessions.update(i, Session { worker, ..self.sessions[i] })
    }

    /// The state after a subscription begins.
    pub open spec fn subscribe(self) -> World {
        if !(self.foreground is Ready) {
            self
        } else {
            match self.controller.start_step() {
                StartStep::Announce(handle) => if self.sessions.len() > 0 {
                    World {
                        log: self.log.push(
                            Entry {
                                session: (self.sessions.len() - 1) as nat,
                                event: EventView::Initialized(handle),
                            },
                        ),
                        ..self
                    }
                } else {
                    self
                },
                StartStep::AwaitHandoff => World { foreground: Foreground::Waiting, ..self },
                StartStep::Acquire => World { foreground: Foreground::Opening, ..self },
            }
        }
    }

    /// The state after the rendezvous, which takes place only when the
    /// subscription waits and the last session's worker has arrived.
    pub open spec fn meet(self) -> World {
        let last = self.sessions.len() - 1;
        if self.foreground is Waiting && last >= 0 && self.sessions[last].worker
            == ScanWorker::Arrived {
            World {
                controller: self.controller.met(),
                foreground: Foreground::Opening,
                sessions: self.with_worker(last, self.sessions[last].worker.after(true)),
                ..self
            }
        } else {
            self
        }
    }

    /// The state after the subscription has announced a new session.
    pub open spec fn opened(self, handle: Handle) -> World {
        if self.foreground is Opening {
            World {
                controller: self.controller.started(handle),
                foreground: Foreground::Ready,
                sessions: self.sessions.push(
                    Session {
                        handle,
                        stop: false,
                        worker: ScanWorker::Scanning,
                        opened_at: self.log.len(),
                    },
                ),
                log: self.log.push(
                    Entry { session: self.sessions.len(), event: EventView::Initialized(handle) },
                ),
            }
        } else {
            self
        }
    }

    /// The state after the subscription has given up.
    pub open spec fn abandon(self) -> World {
        if self.foreground is Opening {
            World { foreground: Foreground::Ready, ..self }
        } else {
            self
        }
    }

    /// The state after a cancellation.
    pub open spec fn unsubscribe(self) -> World {
        let last = self.sessions.len() - 1;
        if !(self.foreground is Ready) {
            self
        } else if self.controller.active().is_some() && last >= 0 {
            World {
                controller: self.controller.stopped(),
                sessions: self.sessions.update(last, Session { stop: true, ..self.sessions[last] }),
                ..self
            }
        } else {
            World { controller: self.controller.stopped(), ..self }
        }
    }

    /// The state after a step of the worker of session `i`. A worker at the
    /// rendezvous does not move by itself, and no worker reads a stop that
    /// was not signalled.
    pub open spec fn work(self, i: nat, seen: bool, outcome: Result<Option<String>, Error>) -> World {
        if i < self.sessions.len() && self.sessions[i as int].worker != ScanWorker::Arrived && (seen
            ==> self.sessions[i as int].stop) {
            let worker = self.sessions[i as int].worker;
            World {
                sessions: self.with_worker(i as int, worker.after(seen)),
                log: match worker.action(seen) {
                    WorkerAction::Capture => match noted(outcome) {
                        NoticeView::Emit(event) => self.log.push(Entry { session: i, event }),
                        _ => self.log,
                    },
                    WorkerAction::EmitDisposed => self.log.push(
                        Entry { session: i, event: EventView::Disposed },
                    ),
                    _ => self.log,
                },
                ..self
            }
        } else {
            self
        }
    }

    /// The state after `step`. A step that cannot be taken changes nothing.
    pub open spec fn next(self, step: Step) -> World {
        match step {
            Step::Subscribe => self.subscribe(),
            Step::Meet => self.meet(),
            Step::Opened(handle) => self.opened(handle),
            Step::Abandon => self.abandon(),
            Step::Unsubscribe => self.unsubscribe(),
            Step::Work { session, seen, outcome } => self.work(session, seen, outcome),
        }
    }

    /// The state after `steps`, taken in order.
    pub open spec fn run(self, steps: Seq<Step>) -> World
        decreases steps.len(),
    {
        if steps.len() == 0 {
            self
        } else {
            self.run(steps.drop_last()).next(steps.last())
        }
    }

    /// Controller, request path and workers agree: every session but the last
    /// is past its rendezvous, a worker leaves the loop only when told to
    /// stop, and the controller knows where the last session stands.
    pub open spec fn settled(self) -> bool {
        let n = self.sessions.len();
        &&& forall|i: int| 0 <= i < n - 1 ==> (#[trigger] self.sessions[i]).worker == ScanWorker::Done
        &&& forall|i: int|
            0 <= i < n && (#[trigger] self.sessions[i]).worker != ScanWorker::Scanning
                ==> self.sessions[i].stop
        &&& match self.controller {
            SessionController::Idle => {
                &&& n > 0 ==> self.sessions[n - 1].worker == ScanWorker::Done
                &&& !(self.foreground is Waiting)
            },
            SessionController::Active(handle) => {
                &&& n > 0
                &&& self.sessions[n - 1].handle == handle
                &&& !self.sessions[n - 1].stop
                &&& self.foreground is Ready
            },
            SessionController::Draining => {
                &&& n > 0
                &&& self.sessions[n - 1].stop
                &&& self.sessions[n - 1].worker != ScanWorker::Done
                &&& !(self.foreground is Opening)
            },
        }
    }

    /// The log tells each session's life in one piece: sessions follow one
    /// another without mixing, each begins with its announcement, which
    /// follows at once on the end of the session before, and nothing of a
    /// session comes after its end.
    pub open spec fn recorded(self) -> bool {
        let n = self.sessions.len();
        let log = self.log;
        &&& n == 0 ==> log.len() == 0
        &&& forall|k: int| 0 <= k < log.len() ==> (#[trigger] log[k]).session < n
        &&& forall|j: int, k: int|
            0 <= j <= k < log.len() ==> (#[trigger] log[j]).session <= (#[trigger] log[k]).session
        &&& forall|s: int|
            0 <= s < n ==> {
                let at = (#[trigger] self.sessions[s]).opened_at as int;
                &&& at < log.len()
                &&& log[at] == Entry {
                    session: s as nat,
                    event: EventView::Initialized(self.sessions[s].handle),
                }
                &&& s == 0 ==> at == 0
                &&& s > 0 ==> at > 0 && log[at - 1] == Entry {
                    session: (s - 1) as nat,
                    event: EventView::Disposed,
                }
            }
        &&& forall|k: int, s: int|
            0 <= k < log.len() && 0 <= s < n && (#[trigger] log[k]).session == s ==> (
            log[k].event matches EventView::Initialized(handle)
                ==> handle == (#[trigger] self.sessions[s]).handle)
        &&& forall|k: int|
            0 <= k < log.len() ==> ((#[trigger] log[k]).event matches EventView::QrCode(code)
                ==> code.len() > 0)
        &&& forall|j: int, k: int|
            0 <= j < k < log.len() && (#[trigger] log[j]).event is Disposed
                ==> log[j].session < (#[trigger] log[k]).session
        &&& n > 0 ==> (self.sessions[n - 1].worker.ended() <==> log.len() > 0
            && log[log.len() - 1] == Entry { session: (n - 1) as nat, event: EventView::Disposed })
    }

    /// What holds of every state that can be reached.
    pub open spec fn sound(self) -> bool {
        self.settled() && self.recorded()
    }

    /// The place in the log where the events of session `s` end: where the
    /// next session is announced, or the end of the log.
    pub open spec fn closing(self, s: int) -> int {
        if s + 1 < self.sessions.len() {
            self.sessions[s + 1].opened_at as int
        } else {
            self.log.len() as int
        }
    }

    /// The part of the log that session `s` has written.
    pub open spec fn events_of(self, s: int) -> Seq<Entry> {
        self.log.subrange(self.sessions[s].opened_at as int, self.closing(s))
    }

    /// The events of session `s` stand together in the log, and they are: its
    /// announcement; then codes, and its announcement again for each
    /// subscription that found it running; then its end, once its worker has
    /// emitted it, and nothing after that.
    pub open spec fn told_in_order(self, s: int) -> bool {
        let events = self.events_of(s);
        let handle = self.sessions[s].handle;
        &&& 0 <= self.sessions[s].opened_at < self.closing(s) <= self.log.len()
        &&& forall|k: int|
            0 <= k < self.log.len() ==> ((#[trigger] self.log[k]).session == s
                <==> self.sessions[s].opened_at <= k < self.closing(s))
        &&& events[0].event == EventView::Initialized(handle)
        &&& forall|i: int|
            0 <= i < events.len() ==> ((#[trigger] events[i]).event matches EventView::Initialized(
                other,
            ) ==> other == handle)
        &&& forall|i: int|
            0 <= i < events.len() ==> ((#[trigger] events[i]).event matches EventView::QrCode(code)
                ==> code.len() > 0)
        &&& forall|i: int|
            0 <= i < events.len() && (#[trigger] events[i]).event is Disposed ==> i == events.len()
                - 1
        &&& self.sessions[s].worker.ended() == (events[events.len() - 1].event is Disposed)
    }
}

/// A step from a sound state leads to a sound state.
pub proof fn lemma_step_keeps_sound(w: World, step: Step)
    requires
        w.sound(),
    ensures
        w.next(step).sound(),
{
}

/// Every state that can be reached from the fresh one is sound.
pub proof fn lemma_reached_is_sound(steps: Seq<Step>)
    ensures
        World::fresh().run(steps).sound(),
    decreases steps.len(),
{
    if steps.len() > 0 {
        lemma_reached_is_sound(steps.drop_last());
        lemma_step_keeps_sound(World::fresh().run(steps.drop_last()), steps.last());
    }
}

/// Running two sequences of steps one after the other is running their
/// concatenation.
pub proof fn lemma_run_in_parts(w: World, first: Seq<Step>, second: Seq<Step>)
    ensures
        w.run(first + second) == w.run(first).run(second),
    decreases second.len(),
{
    if second.len() == 0 {
        assert(first + second =~= first);
    } else {
        assert((first + second).drop_last() =~= first + second.drop_last());
        lemma_run_in_parts(w, first, second.drop_last());
    }
}

/// At most one holder: whatever requests and worker steps have taken place,
/// in whatever order, no two parties hold the camera and the texture at the
/// same time.
pub proof fn at_most_one_holder(steps: Seq<Step>, a: Holder, b: Holder)
    requires
        World::fresh().run(steps).holds(a),
        World::fresh().run(steps).holds(b),
    ensures
        a == b,
{
    lemma_reached_is_sound(steps);
}

/// In a sound state every session's events are told in order.
pub proof fn lemma_sound_tells_in_order(w: World, s: int)
    requires
        w.sound(),
        0 <= s < w.sessions.len(),
    ensures
        w.told_in_order(s),
{
    let from = w.sessions[s].opened_at as int;
    let to = w.closing(s);
    let events = w.events_of(s);
    assert(w.log[from].session == s);
    if s + 1 < w.sessions.len() {
        assert(w.log[to - 1].session == s);
        assert(w.log[to].session == s + 1);
    }
    if s > 0 {
        assert(w.log[from - 1].session == s - 1);
    }
    assert forall|i: int| 0 <= i < events.len() implies #[trigger] events[i] == w.log[from + i] by {}
    assert forall|i: int| 0 <= i < events.len() && (#[trigger] events[i]).event is Disposed implies i
        == events.len() - 1 by {
        if i < events.len() - 1 {
            assert(w.log[from + i + 1].session == s);
        }
    }
}

/// Event ordering per session: whatever requests and worker steps have taken
/// place, the events of each session stand together in the log, begin with
/// its announcement, and end with its one end event once that was emitted.
pub proof fn session_events_in_order(steps: Seq<Step>, s: int)
    requires
        0 <= s < World::fresh().run(steps).sessions.len(),
    ensures
        World::fresh().run(steps).told_in_order(s),
{
    lemma_reached_is_sound(steps);
    lemma_sound_tells_in_order(World::fresh().run(steps), s);
}

/// Cross-session ordering: when a session follows another, the earlier one
/// has ended, its end event stands in the log directly before the
/// announcement of the later one, and all its other events before that.
pub proof fn sessions_never_interleave(steps: Seq<Step>, s: int)
    requires
        0 <= s,
        s + 1 < World::fresh().run(steps).sessions.len(),
    ensures
        ({
            let w = World::fresh().run(steps);
            let at = w.sessions[s + 1].opened_at as int;
            &&& w.sessions[s].worker == ScanWorker::Done
            &&& 0 < at < w.log.len()
            &&& w.log[at - 1] == Entry { session: s as nat, event: EventView::Disposed }
            &&& w.log[at] == Entry {
                session: (s + 1) as nat,
                event: EventView::Initialized(w.sessions[s + 1].handle),
            }
            &&& forall|j: int, k: int|
                0 <= j < w.log.len() && 0 <= k < w.log.len() && (#[trigger] w.log[j]).session == s
                    && (#[trigger] w.log[k]).session == s + 1 ==> j < at <= k
        }),
{
    let w = World::fresh().run(steps);
    lemma_reached_is_sound(steps);
    lemma_sound_tells_in_order(w, s);
    lemma_sound_tells_in_order(w, s + 1);
}

/// Acquisition failure leaves no residue: a subscription that finds nothing
/// running, and gives up because the camera does not open, leaves the state
/// as it was, with nothing emitted; the next subscription opens a session as
/// if the failed one had never been.
pub proof fn failed_start_leaves_no_residue(w: World, handle: Handle)
    requires
        w.foreground is Ready,
        w.controller == SessionController::Idle,
    ensures
        w.next(Step::Subscribe).next(Step::Abandon) == w,
        w.next(Step::Subscribe).next(Step::Abandon).next(Step::Subscribe).next(
            Step::Opened(handle),
        ) == w.next(Step::Subscribe).next(Step::Opened(handle)),
        w.next(Step::Subscribe).next(Step::Opened(handle)).controller == SessionController::Active(
            handle,
        ),
        w.next(Step::Subscribe).next(Step::Opened(handle)).log == w.log.push(
            Entry { session: w.sessions.len(), event: EventView::Initialized(handle) },
        ),
{
}

/// A failed subscription still honours the rendezvous that a stopped session
/// is owed: it meets the worker first, and when it then gives up, nothing is
/// owed any more, nothing was emitted, and no session was made.
pub proof fn failed_start_honours_handoff(w: World)
    requires
        w.sound(),
        w.foreground is Ready,
        w.controller == SessionController::Draining,
        w.sessions[w.sessions.len() - 1].worker == ScanWorker::Arrived,
    ensures
        w.next(Step::Subscribe).foreground is Waiting,
        w.next(Step::Subscribe).next(Step::Abandon) == w.next(Step::Subscribe),
        ({
            let after = w.next(Step::Subscribe).next(Step::Meet).next(Step::Abandon);
            &&& after.controller == SessionController::Idle
            &&& after.foreground is Ready
            &&& after.log == w.log
            &&& after.sessions.len() == w.sessions.len()
            &&& after.sessions[w.sessions.len() - 1].worker == ScanWorker::Done
        }),
{
}

/// The steps in which the worker of `session` captures `frames` one after the
/// other, having read no stop.
pub open spec fn scans(session: nat, frames: Seq<Result<Option<String>, Error>>) -> Seq<Step> {
    Seq::new(frames.len(), |i: int| Step::Work { session, seen: false, outcome: frames[i] })
}

/// The entries that `frames` leave in the log, in capture order: one for each
/// frame that gives a code.
pub open spec fn codes(session: nat, frames: Seq<Result<Option<String>, Error>>) -> Seq<Entry>
    decreases frames.len(),
{
    if frames.len() == 0 {
        Seq::empty()
    } else {
        let earlier = codes(session, frames.drop_last());
        match noted(frames.last()) {
            NoticeView::Emit(event) => earlier.push(Entry { session, event }),
            _ => earlier,
        }
    }
}

/// The three steps in which the worker of `session`, having read the stop,
/// releases what it holds, emits the end and goes to the rendezvous.
pub open spec fn teardown(session: nat) -> Seq<Step> {
    Seq::new(3, |i: int| Step::Work { session, seen: true, outcome: Ok(None) })
}

/// One whole session from the fresh state: a subscription that succeeds, the
/// frames captured before the cancellation, the cancellation, the frames
/// captured before the worker reads the stop, and the teardown.
pub open spec fn cycle(
    handle: Handle,
    before: Seq<Result<Option<String>, Error>>,
    after: Seq<Result<Option<String>, Error>>,
) -> Seq<Step> {
    seq![Step::Subscribe, Step::Opened(handle)] + scans(0, before) + seq![Step::Unsubscribe]
        + scans(0, after) + teardown(0)
}

/// Captured frames change nothing but the log, to which they add their codes.
pub proof fn lemma_scans_add_codes(w: World, session: nat, frames: Seq<Result<Option<String>, Error>>)
    requires
        session < w.sessions.len(),
        w.sessions[session as int].worker == ScanWorker::Scanning,
    ensures
        w.run(scans(session, frames)) == (World { log: w.log + codes(session, frames), ..w }),
    decreases frames.len(),
{
    if frames.len() == 0 {
        assert(w.log + codes(session, frames) =~= w.log);
    } else {
        let earlier = frames.drop_last();
        lemma_scans_add_codes(w, session, earlier);
        assert(scans(session, frames).drop_last() =~= scans(session, earlier));
        let mid = w.run(scans(session, earlier));
        assert(mid.with_worker(session as int, ScanWorker::Scanning) =~= mid.sessions);
        let end = mid.next(scans(session, frames).last());
        assert(end.log =~= w.log + codes(session, frames));
    }
}

/// The codes of two runs of frames, one after the other.
pub proof fn lemma_codes_in_parts(
    session: nat,
    first: Seq<Result<Option<String>, Error>>,
    second: Seq<Result<Option<String>, Error>>,
)
    ensures
        codes(session, first + second) == codes(session, first) + codes(session, second),
    decreases second.len(),
{
    if second.len() == 0 {
        assert(first + second =~= first);
        assert(codes(session, first) + codes(session, second) =~= codes(session, first));
    } else {
        assert((first + second).drop_last() =~= first + second.drop_last());
        lemma_codes_in_parts(session, first, second.drop_last());
        assert(codes(session, first + second) =~= codes(session, first) + codes(session, second));
    }
}

/// Event ordering in a single start-to-stop cycle: the log is exactly the
/// announcement, then one code for each frame that gave one, in capture
/// order, then the end.
pub proof fn single_cycle_log(
    handle: Handle,
    before: Seq<Result<Option<String>, Error>>,
    after: Seq<Result<Option<String>, Error>>,
)
    ensures
        World::fresh().run(cycle(handle, before, after)).log == seq![
            Entry { session: 0, event: EventView::Initialized(handle) },
        ] + codes(0, before + after) + seq![Entry { session: 0, event: EventView::Disposed }],
{
    let start = seq![Step::Subscribe, Step::Opened(handle)];
    let stop = seq![Step::Unsubscribe];
    let w0 = World::fresh();
    let w1 = w0.run(start);
    assert(w1 == w0.next(Step::Subscribe).next(Step::Opened(handle))) by {
        assert(start.drop_last() =~= seq![Step::Subscribe]);
        assert(start.drop_last().drop_last() =~= Seq::<Step>::empty());
        reveal_with_fuel(World::run, 3);
    }
    let w2 = w1.run(scans(0, before));
    lemma_scans_add_codes(w1, 0, before);
    let w3 = w2.run(stop);
    assert(w3 == w2.next(Step::Unsubscribe)) by {
        assert(stop.drop_last() =~= Seq::<Step>::empty());
        reveal_with_fuel(World::run, 2);
    }
    let w4 = w3.run(scans(0, after));
    lemma_scans_add_codes(w3, 0, after);
    let down = Step::Work { session: 0, seen: true, outcome: Ok(None) };
    let w5 = w4.run(teardown(0));
    assert(w5 == w4.next(down).next(down).next(down)) by {
        let t = teardown(0);
        assert(t.last() == down);
        assert(t.drop_last().last() == down);
        assert(t.drop_last().drop_last().last() == down);
        assert(t.drop_last().drop_last().drop_last() =~= Seq::<Step>::empty());
        reveal_with_fuel(World::run, 4);
    }
    lemma_run_in_parts(w0, start, scans(0, before));
    lemma_run_in_parts(w0, start + scans(0, before), stop);
    lemma_run_in_parts(w0, start + scans(0, before) + stop, scans(0, after));
    lemma_run_in_parts(w0, start + scans(0, before) + stop + scans(0, after), teardown(0));
    lemma_codes_in_parts(0, before, after);
    assert(w5.log =~= seq![Entry { session: 0, event: EventView::Initialized(handle) }] + codes(
        0,
        before + after,
    ) + seq![Entry { session: 0, event: EventView::Disposed }]);
}

/// The log is append-only: a step leaves what was emitted in place.
pub proof fn log_only_grows(w: World, step: Step)
    ensures
        w.log.is_prefix_of(w.next(step).log),
{
}

/// A cancellation without a running session is a no-op: the state, and with
/// it the log, stays as it was.
pub proof fn idle_stop_changes_nothing(w: World)
    requires
        w.controller.active() is None,
    ensures
        w.next(Step::Unsubscribe) == w,
{
}

/// An empty code is never emitted.
pub proof fn empty_code_never_emitted(steps: Seq<Step>, k: int)
    requires
        0 <= k < World::fresh().run(steps).log.len(),
    ensures
        World::fresh().run(steps).log[k].event matches EventView::QrCode(code) ==> code.len() > 0,
{
    lemma_reached_is_sound(steps);
}

} // verus!
