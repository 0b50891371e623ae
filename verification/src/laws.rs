//! Laws of the bridge call, proved over whole runs of the state
//! machine: cleanup on every path, exactly-once outcomes, in-order
//! forwarding, the silent-exit and deadline outcomes, determinism
//! across calls, and robustness against interleaved noise.

use vstd::prelude::*;
use crate::bridge::{init_model, sat_sub, spec_step, BridgeConfig, BridgeError, BridgeModel, EventS};
use crate::wire::{spec_classify, LineClassS};

verus! {

/// One event as the machine saw it: what happened, and when.
pub struct TimedEventS {
    pub at: u64,
    pub ev: EventS,
}

/// The state after feeding a whole sequence of events.
pub open spec fn run_model(m: BridgeModel, evs: Seq<TimedEventS>) -> BridgeModel
    decreases evs.len(),
{
    if evs.len() == 0 {
        m
    } else {
        run_model(spec_step(m, evs[0].at, evs[0].ev).0, evs.skip(1))
    }
}

/// The worker's resources are accounted for: if one was ever created,
/// it has been seen to exit, or a forced kill was issued.
pub open spec fn released(m: BridgeModel) -> bool {
    m.spawned ==> (m.exit_seen || m.kill_sent)
}

/// States the machine can actually be in.
pub open spec fn inv(m: BridgeModel) -> bool {
    &&& (m.phase is Launching ==> !m.spawned)
    &&& (m.phase is Launching || m.phase is Writing || m.phase is Reading ==> m.outcome is None)
    &&& (m.phase is Draining || m.phase is AwaitingExit || m.phase is KillConfirm
        ==> m.outcome is Some)
    &&& (m.phase is KillConfirm ==> m.kill_sent)
    &&& (m.phase is Done ==> m.outcome is Some && released(m))
}

pub proof fn lemma_init_inv(cfg: BridgeConfig, now: u64)
    ensures
        inv(init_model(cfg, now)),
{
}

/// Each step stays within the reachable states, and never changes the
/// call's identity: its configuration, start time and deadline.
pub proof fn lemma_step_inv(m: BridgeModel, now: u64, ev: EventS)
    requires
        inv(m),
    ensures
        inv(spec_step(m, now, ev).0),
        spec_step(m, now, ev).0.cfg == m.cfg,
        spec_step(m, now, ev).0.start == m.start,
        spec_step(m, now, ev).0.deadline_at == m.deadline_at,
{
}

pub proof fn lemma_run_inv(m: BridgeModel, evs: Seq<TimedEventS>)
    requires
        inv(m),
    ensures
        inv(run_model(m, evs)),
        run_model(m, evs).cfg == m.cfg,
        run_model(m, evs).start == m.start,
        run_model(m, evs).deadline_at == m.deadline_at,
    decreases evs.len(),
{
    if evs.len() > 0 {
        lemma_step_inv(m, evs[0].at, evs[0].ev);
        lemma_run_inv(spec_step(m, evs[0].at, evs[0].ev).0, evs.skip(1));
    }
}

/// After the Bridge Call returns, the Worker Handle is not left running:
/// on every outcome, a call that is `Done` either never created a
/// worker, or observed its exit, or issued a forced kill (followed by
/// the machine's final exit check).  This holds for every run from a
/// fresh call.
pub proof fn lemma_cleanup_on_every_path(cfg: BridgeConfig, now: u64, evs: Seq<TimedEventS>)
    ensures
        run_model(init_model(cfg, now), evs).phase is Done ==> released(
            run_model(init_model(cfg, now), evs),
        ) && run_model(init_model(cfg, now), evs).outcome is Some,
{
    lemma_init_inv(cfg, now);
    lemma_run_inv(init_model(cfg, now), evs);
}

/// The first terminal result wins: once an outcome is decided, no later
/// event can change it.
pub proof fn lemma_outcome_stable(m: BridgeModel, evs: Seq<TimedEventS>)
    requires
        inv(m),
        m.outcome is Some,
    ensures
        run_model(m, evs).outcome == m.outcome,
    decreases evs.len(),
{
    if evs.len() > 0 {
        lemma_step_inv(m, evs[0].at, evs[0].ev);
        lemma_outcome_stable(spec_step(m, evs[0].at, evs[0].ev).0, evs.skip(1));
    }
}

/// Nothing is forwarded to the sink once the outcome is decided: lines
/// that arrive after the terminal response are never forwarded.
pub proof fn lemma_no_forward_after_outcome(m: BridgeModel, evs: Seq<TimedEventS>)
    requires
        inv(m),
        m.outcome is Some,
    ensures
        run_model(m, evs).forwarded == m.forwarded,
    decreases evs.len(),
{
    if evs.len() > 0 {
        lemma_step_inv(m, evs[0].at, evs[0].ev);
        lemma_no_forward_after_outcome(spec_step(m, evs[0].at, evs[0].ev).0, evs.skip(1));
    }
}

/// A reading call that receives `n` progress lines and then one terminal
/// line, all before the deadline, forwards exactly those `n` progress
/// updates, in emission order, and decides the terminal payload as its
/// outcome.  Together with `lemma_no_forward_after_outcome`, whatever
/// arrives after the terminal line is never forwarded.
pub proof fn lemma_progress_then_terminal(m: BridgeModel, evs: Seq<TimedEventS>)
    requires
        inv(m),
        m.phase is Reading,
        evs.len() >= 1,
        forall|k: int|
            0 <= k < evs.len() ==> (#[trigger] evs[k].ev) is Line && evs[k].at < m.deadline_at,
        forall|k: int|
            0 <= k < evs.len() - 1 ==> spec_classify(
                (#[trigger] evs[k].ev)->Line_0,
                m.cfg.forward_progress,
            ) is Progress,
        spec_classify(evs[evs.len() - 1].ev->Line_0, m.cfg.forward_progress) is Terminal,
    ensures
        run_model(m, evs).forwarded == m.forwarded + Seq::new(
            (evs.len() - 1) as nat,
            |k: int| spec_classify(evs[k].ev->Line_0, m.cfg.forward_progress)->Progress_0,
        ),
        run_model(m, evs).outcome == Some(
            Ok::<_, BridgeError>(
                spec_classify(evs[evs.len() - 1].ev->Line_0, m.cfg.forward_progress)->Terminal_0,
            ),
        ),
        run_model(m, evs).phase is Draining,
    decreases evs.len(),
{
    let (m1, _) = spec_step(m, evs[0].at, evs[0].ev);
    lemma_step_inv(m, evs[0].at, evs[0].ev);
    if evs.len() == 1 {
        assert(run_model(m, evs) == run_model(m1, evs.skip(1)));
        assert(evs.skip(1).len() == 0);
        assert(m1.forwarded =~= m.forwarded + Seq::new(
            0nat,
            |k: int| spec_classify(evs[k].ev->Line_0, m.cfg.forward_progress)->Progress_0,
        ));
    } else {
        let p0 = spec_classify(evs[0].ev->Line_0, m.cfg.forward_progress)->Progress_0;
        assert(m1.phase is Reading && m1.forwarded == m.forwarded.push(p0));
        let tail = evs.skip(1);
        assert(forall|k: int| 0 <= k < tail.len() ==> tail[k] == evs[k + 1]);
        lemma_progress_then_terminal(m1, tail);
        assert(run_model(m, evs).forwarded =~= m.forwarded + Seq::new(
            (evs.len() - 1) as nat,
            |k: int| spec_classify(evs[k].ev->Line_0, m.cfg.forward_progress)->Progress_0,
        ));
    }
}

/// A reading call whose output ends — no line classifying as terminal,
/// then the channel closing, all before the deadline — decides
/// `NoResponse`: it neither succeeds nor hangs.
pub proof fn lemma_silent_close_is_no_response(m: BridgeModel, evs: Seq<TimedEventS>)
    requires
        inv(m),
        m.phase is Reading,
        evs.len() >= 1,
        forall|k: int|
            0 <= k < evs.len() - 1 ==> ((#[trigger] evs[k].ev) is Line || evs[k].ev is Silence)
                && evs[k].at < m.deadline_at,
        forall|k: int|
            0 <= k < evs.len() - 1 ==> !(spec_classify(
                (#[trigger] evs[k].ev)->Line_0,
                m.cfg.forward_progress,
            ) is Terminal) || !(evs[k].ev is Line),
        evs[evs.len() - 1].ev is OutputClosed,
        evs[evs.len() - 1].at < m.deadline_at,
    ensures
        run_model(m, evs).outcome == Some(Err::<crate::wire::PythonResponseS, _>(
            BridgeError::NoResponse,
        )),
        run_model(m, evs).phase is Draining,
    decreases evs.len(),
{
    let (m1, _) = spec_step(m, evs[0].at, evs[0].ev);
    lemma_step_inv(m, evs[0].at, evs[0].ev);
    if evs.len() == 1 {
        assert(evs.skip(1).len() == 0);
        assert(run_model(m, evs) == m1);
    } else {
        assert(m1.phase is Reading);
        let tail = evs.skip(1);
        assert(forall|k: int| 0 <= k < tail.len() ==> tail[k] == evs[k + 1]);
        lemma_silent_close_is_no_response(m1, tail);
    }
}

/// The first event at or past the deadline, while the call is still
/// reading, decides `Timeout` carrying the elapsed time, and has the
/// worker killed at once.
pub proof fn lemma_deadline_expiry_times_out(m: BridgeModel, now: u64, ev: EventS)
    requires
        inv(m),
        m.phase is Reading,
        now >= m.deadline_at,
        ev is Line || ev is Silence || ev is OutputClosed,
    ensures
        spec_step(m, now, ev).0.outcome == Some(Err::<crate::wire::PythonResponseS, _>(
            BridgeError::Timeout { elapsed: sat_sub(now, m.start) },
        )),
        spec_step(m, now, ev).0.kill_sent,
        spec_step(m, now, ev).0.phase is Draining,
        spec_step(m, now, ev).1 is KillDrain,
{
}

/// Two calls with the same configuration, started at the same time and
/// fed the same events, decide the same outcome and forward the same
/// updates: a call's result is a function of its own events alone, so
/// repeating a request against a deterministic worker repeats the
/// result, with no state carried between calls.
pub proof fn lemma_calls_independent(
    cfg: BridgeConfig,
    now: u64,
    evs1: Seq<TimedEventS>,
    evs2: Seq<TimedEventS>,
)
    requires
        evs1 == evs2,
    ensures
        run_model(init_model(cfg, now), evs1).outcome == run_model(
            init_model(cfg, now),
            evs2,
        ).outcome,
        run_model(init_model(cfg, now), evs1).forwarded == run_model(
            init_model(cfg, now),
            evs2,
        ).forwarded,
{
}

/// Feeding events in two batches is feeding their concatenation.
pub proof fn lemma_run_append(m: BridgeModel, a: Seq<TimedEventS>, b: Seq<TimedEventS>)
    ensures
        run_model(m, a + b) == run_model(run_model(m, a), b),
    decreases a.len(),
{
    if a.len() == 0 {
        assert(a + b =~= b);
    } else {
        let m1 = spec_step(m, a[0].at, a[0].ev).0;
        assert((a + b).len() > 0 && (a + b)[0] == a[0]);
        assert((a + b).skip(1) =~= a.skip(1) + b);
        lemma_run_append(m1, a.skip(1), b);
    }
}

/// The whole of the forwarding law: after the progress lines and the
/// terminal line, whatever else the worker emits or the reaper observes,
/// the sink has received exactly the progress updates, in order, and the
/// outcome is the terminal payload.
pub proof fn lemma_terminal_is_final(
    m: BridgeModel,
    evs: Seq<TimedEventS>,
    rest: Seq<TimedEventS>,
)
    requires
        inv(m),
        m.phase is Reading,
        evs.len() >= 1,
        forall|k: int|
            0 <= k < evs.len() ==> (#[trigger] evs[k].ev) is Line && evs[k].at < m.deadline_at,
        forall|k: int|
            0 <= k < evs.len() - 1 ==> spec_classify(
                (#[trigger] evs[k].ev)->Line_0,
                m.cfg.forward_progress,
            ) is Progress,
        spec_classify(evs[evs.len() - 1].ev->Line_0, m.cfg.forward_progress) is Terminal,
    ensures
        run_model(m, evs + rest).forwarded == m.forwarded + Seq::new(
            (evs.len() - 1) as nat,
            |k: int| spec_classify(evs[k].ev->Line_0, m.cfg.forward_progress)->Progress_0,
        ),
        run_model(m, evs + rest).outcome == Some(
            Ok::<_, BridgeError>(
                spec_classify(evs[evs.len() - 1].ev->Line_0, m.cfg.forward_progress)->Terminal_0,
            ),
        ),
{
    lemma_progress_then_terminal(m, evs);
    lemma_run_append(m, evs, rest);
    let mid = run_model(m, evs);
    lemma_init_preserved(m, evs);
    lemma_outcome_stable(mid, rest);
    lemma_no_forward_after_outcome(mid, rest);
}

proof fn lemma_init_preserved(m: BridgeModel, evs: Seq<TimedEventS>)
    requires
        inv(m),
    ensures
        inv(run_model(m, evs)),
{
    lemma_run_inv(m, evs);
}

/// The whole of the deadline law: once an event at or past the deadline
/// reaches a still-reading call, the call's outcome is the timeout —
/// with the elapsed time — whatever happens afterwards, and the kill was
/// issued at that very step.
pub proof fn lemma_timeout_stands(
    m: BridgeModel,
    now: u64,
    ev: EventS,
    rest: Seq<TimedEventS>,
)
    requires
        inv(m),
        m.phase is Reading,
        now >= m.deadline_at,
        ev is Line || ev is Silence || ev is OutputClosed,
    ensures
        run_model(spec_step(m, now, ev).0, rest).outcome == Some(
            Err::<crate::wire::PythonResponseS, _>(
                BridgeError::Timeout { elapsed: sat_sub(now, m.start) },
            ),
        ),
        spec_step(m, now, ev).0.kill_sent,
{
    lemma_deadline_expiry_times_out(m, now, ev);
    lemma_step_inv(m, now, ev);
    lemma_outcome_stable(spec_step(m, now, ev).0, rest);
}

/// A noise event: a line that classifies as noise, observed before the
/// call's deadline.
pub open spec fn is_noise_event(deadline_at: u64, progress_mode: bool, te: TimedEventS) -> bool {
    &&& te.ev is Line
    &&& spec_classify(te.ev->Line_0, progress_mode) is Noise
    &&& te.at < deadline_at
}

/// `evs` with the noise events dropped.
pub open spec fn drop_noise(
    deadline_at: u64,
    progress_mode: bool,
    evs: Seq<TimedEventS>,
) -> Seq<TimedEventS>
    decreases evs.len(),
{
    if evs.len() == 0 {
        evs
    } else if is_noise_event(deadline_at, progress_mode, evs[0]) {
        drop_noise(deadline_at, progress_mode, evs.skip(1))
    } else {
        seq![evs[0]] + drop_noise(deadline_at, progress_mode, evs.skip(1))
    }
}

/// A noise line received before the deadline changes nothing, in any
/// phase.
pub proof fn lemma_noise_step_identity(m: BridgeModel, now: u64, ev: EventS)
    requires
        ev is Line,
        spec_classify(ev->Line_0, m.cfg.forward_progress) is Noise,
        now < m.deadline_at,
    ensures
        spec_step(m, now, ev).0 == m,
{
}

/// Noise robustness: a worker that interleaves noise lines among its
/// messages drives the call to exactly the same state as one that emits
/// only the messages.
pub proof fn lemma_noise_invisible(m: BridgeModel, evs: Seq<TimedEventS>)
    ensures
        run_model(m, evs) == run_model(
            m,
            drop_noise(m.deadline_at, m.cfg.forward_progress, evs),
        ),
    decreases evs.len(),
{
    if evs.len() > 0 {
        let (m1, _) = spec_step(m, evs[0].at, evs[0].ev);
        lemma_step_const(m, evs[0].at, evs[0].ev);
        if is_noise_event(m.deadline_at, m.cfg.forward_progress, evs[0]) {
            lemma_noise_step_identity(m, evs[0].at, evs[0].ev);
            lemma_noise_invisible(m, evs.skip(1));
        } else {
            lemma_noise_invisible(m1, evs.skip(1));
            let d = drop_noise(m.deadline_at, m.cfg.forward_progress, evs);
            let dtail = drop_noise(m.deadline_at, m.cfg.forward_progress, evs.skip(1));
            assert(d == seq![evs[0]] + dtail);
            assert(d.len() >= 1 && d[0] == evs[0]);
            assert(d.skip(1) =~= dtail);
        }
    }
}

/// A step never changes the call's configuration or deadline, whatever
/// the state.
pub proof fn lemma_step_const(m: BridgeModel, now: u64, ev: EventS)
    ensures
        spec_step(m, now, ev).0.cfg == m.cfg,
        spec_step(m, now, ev).0.deadline_at == m.deadline_at,
        spec_step(m, now, ev).0.start == m.start,
{
}

} // verus!
