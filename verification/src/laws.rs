//! What holds of every run, whatever the steps report.

use crate::circuit::InstanceView;
use crate::config::Instrumentation;
use crate::error::error_for;
use crate::error::BackendFault;
use crate::error::PipelineError;
use crate::pipeline::run_after;
use crate::pipeline::Event;
use crate::pipeline::Outcome;
use crate::pipeline::Phase;
use crate::pipeline::RunView;
use vstd::prelude::*;

verus! {

/// The run as it stood when event `i` of `events` was reported.
pub open spec fn run_before(start: RunView, events: Seq<Event>, i: int) -> RunView {
    run_after(start, events.take(i))
}

/// Whether the proving of the run has begun or is done: the keys exist, or
/// the proof, or the proof is verified.
pub open spec fn past_key_generation(phase: Phase) -> bool {
    phase == Phase::KeysReady || phase == Phase::ProofReady || phase == Phase::Verified
}

/// Whether event `i` of `events` answered the request for the simulator with
/// success.
pub open spec fn simulation_passed_at(start: RunView, events: Seq<Event>, i: int) -> bool {
    &&& 0 <= i < events.len()
    &&& run_before(start, events, i).pending() is Simulate
    &&& events[i].outcome is Completed
}

/// Whether event `i` of `events` answered the request for the proof with
/// `transcript`.
pub open spec fn proof_handed_in_at(
    start: RunView,
    events: Seq<Event>,
    i: int,
    transcript: Seq<u8>,
) -> bool {
    &&& 0 <= i < events.len()
    &&& run_before(start, events, i).pending() is CreateProof
    &&& events[i].outcome.transcript() == Some(transcript)
}

/// Whether event `i` of `events` answered the request to verify `transcript`
/// with success.
pub open spec fn proof_accepted_at(
    start: RunView,
    events: Seq<Event>,
    i: int,
    transcript: Seq<u8>,
) -> bool {
    &&& 0 <= i < events.len()
    &&& run_before(start, events, i).pending() is VerifyProof
    &&& run_before(start, events, i).transcript == transcript
    &&& events[i].outcome is Completed
}

proof fn lemma_prefix(start: RunView, events: Seq<Event>, i: int)
    requires
        0 <= i < events.len(),
    ensures
        i < events.len() - 1 ==> run_before(start, events, i) == run_before(
            start,
            events.drop_last(),
            i,
        ),
        i == events.len() - 1 ==> run_before(start, events, i) == run_after(
            start,
            events.drop_last(),
        ),
        i < events.len() - 1 ==> events[i] == events.drop_last()[i],
{
    if i < events.len() - 1 {
        assert(events.take(i) =~= events.drop_last().take(i));
    } else {
        assert(events.take(i) =~= events.drop_last());
    }
}

proof fn lemma_one_step(run: RunView, event: Event)
    ensures
        run.advance(event).inspected ==> run.inspected || ((run.pending() is Simulate
            || run.pending() is RenderLayout) && event.outcome is Completed),
        past_key_generation(run.advance(event).phase) ==> past_key_generation(run.phase) || (
        run.pending() is GenerateKeys && event.outcome is Completed),
        run.advance(event).phase == Phase::ProofReady ==> (run.phase == Phase::ProofReady
            && run.advance(event).transcript == run.transcript) || (run.pending() is CreateProof
            && event.outcome.transcript() == Some(run.advance(event).transcript)),
        run.advance(event).phase == Phase::Verified ==> run.advance(event).transcript
            == run.transcript && (run.phase == Phase::Verified || (run.pending() is VerifyProof
            && event.outcome is Completed)),
{
}

/// A run keeps its circuit size exponent, its instrumentation and its
/// instance, whatever is reported to it.
pub proof fn law_configuration_is_kept(start: RunView, events: Seq<Event>)
    ensures
        run_after(start, events).k == start.k,
        run_after(start, events).instrumentation == start.instrumentation,
        run_after(start, events).instance == start.instance,
    decreases events.len(),
{
    if events.len() > 0 {
        law_configuration_is_kept(start, events.drop_last());
    }
}

/// What holds of a run at its start holds after every event.
pub proof fn law_step_keeps_well_formed(run: RunView, event: Event)
    requires
        run.well_formed(),
    ensures
        run.advance(event).well_formed(),
{
}

/// A run that starts with an instance that fits its capacity is well formed
/// whatever is reported to it.
pub proof fn law_runs_are_well_formed(
    k: u32,
    instrumentation: Instrumentation,
    instance: InstanceView,
    events: Seq<Event>,
)
    requires
        instance.fits(),
    ensures
        run_after(RunView::initial(k, instrumentation, instance), events).well_formed(),
    decreases events.len(),
{
    if events.len() > 0 {
        law_runs_are_well_formed(k, instrumentation, instance, events.drop_last());
        law_step_keeps_well_formed(
            run_after(RunView::initial(k, instrumentation, instance), events.drop_last()),
            events.last(),
        );
    }
}

/// A run that is over stays as it is: nothing is retried.
pub proof fn law_terminal_phases_absorb(run: RunView, event: Event)
    requires
        run.phase.is_terminal(),
    ensures
        run.advance(event) == run,
{
}

/// An event moves a run to the next phase, or to failure, or leaves the
/// phase as it is: no phase begins before the one before it is complete.
pub proof fn law_phases_follow_in_order(run: RunView, event: Event)
    ensures
        run.advance(event).phase == run.phase || run.advance(event).phase is Failed
            || run.advance(event).phase.rank() == run.phase.rank() + 1,
        run.advance(event).phase.rank() >= run.phase.rank(),
{
}

/// How far a run has come: the number of steps that have been answered on
/// the way to its state, where a run without instrumentation counts the
/// inspection that it skips. A run that is over has come all the way.
pub open spec fn progress(run: RunView) -> nat {
    match run.phase {
        Phase::Init => 0,
        Phase::ParamsReady => if run.inspected || run.instrumentation == Instrumentation::Off {
            2
        } else {
            1
        },
        Phase::KeysReady => 3,
        Phase::ProofReady => 4,
        Phase::Verified => 5,
        Phase::Failed(_) => 5,
    }
}

proof fn lemma_step_progresses(run: RunView, event: Event)
    ensures
        progress(run.advance(event)) >= progress(run),
        run.advance(event).instrumentation == run.instrumentation,
        run.pending().stage() is Some && RunView::answers(
            run.pending().stage().unwrap(),
            event.outcome,
        ) ==> progress(run.advance(event)) > progress(run),
{
}

proof fn lemma_stage_follows_progress(a: RunView, b: RunView)
    requires
        a.instrumentation == b.instrumentation,
        progress(a) < progress(b),
        a.pending().stage() is Some,
    ensures
        b.pending().stage() != a.pending().stage(),
{
}

proof fn lemma_next_run(start: RunView, events: Seq<Event>, i: int)
    requires
        0 <= i < events.len(),
    ensures
        run_before(start, events, i + 1) == run_before(start, events, i).advance(events[i]),
{
    assert(events.take(i + 1).drop_last() =~= events.take(i));
    assert(events.take(i + 1).last() == events[i]);
}

proof fn lemma_progress_grows(start: RunView, events: Seq<Event>, i: int, j: int)
    requires
        0 <= i <= j <= events.len(),
    ensures
        progress(run_before(start, events, i)) <= progress(run_before(start, events, j)),
        run_before(start, events, i).instrumentation == run_before(
            start,
            events,
            j,
        ).instrumentation,
    decreases j - i,
{
    if i < j {
        lemma_progress_grows(start, events, i, j - 1);
        lemma_next_run(start, events, j - 1);
        lemma_step_progresses(run_before(start, events, j - 1), events[j - 1]);
    }
}

/// No step is taken twice: once an event has answered the pending step, a
/// step of that stage is never asked for again. So the pipeline runs in
/// sequence, the prover is asked for once, and its generator is drawn from
/// in one proof only.
///
/// Stated of every sequence of events told to a run, and of every two
/// moments `i < j` in it, where moment `events.len()` is the end.
pub proof fn law_no_step_is_repeated(start: RunView, events: Seq<Event>, i: int, j: int)
    requires
        0 <= i < j <= events.len(),
        run_before(start, events, i).pending().stage() is Some,
        RunView::answers(
            run_before(start, events, i).pending().stage().unwrap(),
            events[i].outcome,
        ),
    ensures
        run_before(start, events, j).pending().stage() != run_before(
            start,
            events,
            i,
        ).pending().stage(),
{
    lemma_next_run(start, events, i);
    lemma_step_progresses(run_before(start, events, i), events[i]);
    lemma_progress_grows(start, events, i + 1, j);
    lemma_progress_grows(start, events, i, i + 1);
    lemma_stage_follows_progress(run_before(start, events, i), run_before(start, events, j));
}

/// Every failure is fatal: a failure reported to a run that is under way
/// ends it with the error of the stage that the run was in. In particular a
/// proof that the verifier does not accept ends the run with a verification
/// failure.
pub proof fn law_failure_is_fatal(run: RunView, fault: BackendFault, elapsed: u64)
    requires
        !run.phase.is_terminal(),
    ensures
        run.pending().stage() is Some,
        run.advance(Event { outcome: Outcome::Failed(fault), elapsed }).phase == Phase::Failed(
            error_for(run.pending().stage().unwrap(), fault),
        ),
        run.phase == Phase::ProofReady ==> run.advance(
            Event { outcome: Outcome::Failed(fault), elapsed },
        ).phase == Phase::Failed(PipelineError::VerificationFailure(fault)),
{
}

proof fn lemma_inspection_history(start: RunView, events: Seq<Event>)
    requires
        start.phase == Phase::Init,
        !start.inspected,
        start.instrumentation == Instrumentation::Diagnostics,
    ensures
        past_key_generation(run_after(start, events).phase) ==> run_after(start, events).inspected,
        run_after(start, events).inspected ==> exists|i: int|
            simulation_passed_at(start, events, i),
    decreases events.len(),
{
    if events.len() > 0 {
        let prefix = events.drop_last();
        let before = run_after(start, prefix);
        let after = run_after(start, events);
        lemma_inspection_history(start, prefix);
        law_configuration_is_kept(start, prefix);
        lemma_one_step(before, events.last());
        assert(after == before.advance(events.last()));
        if after.inspected {
            if before.inspected {
                let j = choose|j: int| simulation_passed_at(start, prefix, j);
                lemma_prefix(start, events, j);
                assert(simulation_passed_at(start, events, j));
            } else {
                let j = events.len() - 1;
                lemma_prefix(start, events, j);
                assert(before.pending() is Simulate);
                assert(simulation_passed_at(start, events, j));
            }
        }
    }
}

/// In a run with diagnostics, the prover is asked for only after the
/// simulator was asked for and reported success.
///
/// Stated of every sequence of events told to a run from its start, for
/// every instance that fits its capacity: if the keys exist after the
/// events, or the proof, or the proof is verified, then one of the events
/// answered the request for the simulator with success.
pub proof fn law_simulation_precedes_proof(k: u32, instance: InstanceView, events: Seq<Event>)
    requires
        instance.fits(),
        past_key_generation(
            run_after(RunView::initial(k, Instrumentation::Diagnostics, instance), events).phase,
        ),
    ensures
        exists|i: int|
            simulation_passed_at(
                RunView::initial(k, Instrumentation::Diagnostics, instance),
                events,
                i,
            ),
{
    lemma_inspection_history(RunView::initial(k, Instrumentation::Diagnostics, instance), events);
}

/// The verifier reads, byte for byte, what the prover wrote.
///
/// Stated of every sequence of events told to a run from its start: if the
/// proof exists after them or is verified, then the run's transcript is the
/// one that an event handed in as the answer to the request for the proof.
pub proof fn law_transcript_is_handed_over(start: RunView, events: Seq<Event>)
    requires
        start.phase == Phase::Init,
        run_after(start, events).phase == Phase::ProofReady || run_after(start, events).phase
            == Phase::Verified,
    ensures
        exists|i: int| proof_handed_in_at(start, events, i, run_after(start, events).transcript),
    decreases events.len(),
{
    let prefix = events.drop_last();
    let before = run_after(start, prefix);
    let after = run_after(start, events);
    assert(events.len() > 0);
    assert(after == before.advance(events.last()));
    lemma_one_step(before, events.last());
    if before.phase == Phase::ProofReady || before.phase == Phase::Verified {
        law_transcript_is_handed_over(start, prefix);
        let j = choose|j: int| proof_handed_in_at(start, prefix, j, before.transcript);
        lemma_prefix(start, events, j);
        assert(after.transcript == before.transcript);
        assert(proof_handed_in_at(start, events, j, after.transcript));
    } else {
        let j = events.len() - 1;
        lemma_prefix(start, events, j);
        assert(proof_handed_in_at(start, events, j, after.transcript));
    }
}

/// A run is verified only if the verifier accepted its transcript.
///
/// Stated of every sequence of events told to a run from its start: if the
/// proof is verified after them, then one of the events answered the request
/// to verify the run's transcript with success.
pub proof fn law_verified_means_accepted(start: RunView, events: Seq<Event>)
    requires
        start.phase == Phase::Init,
        run_after(start, events).phase == Phase::Verified,
    ensures
        exists|i: int| proof_accepted_at(start, events, i, run_after(start, events).transcript),
    decreases events.len(),
{
    let prefix = events.drop_last();
    let before = run_after(start, prefix);
    let after = run_after(start, events);
    assert(events.len() > 0);
    assert(after == before.advance(events.last()));
    lemma_one_step(before, events.last());
    if before.phase == Phase::Verified {
        law_verified_means_accepted(start, prefix);
        let j = choose|j: int| proof_accepted_at(start, prefix, j, before.transcript);
        lemma_prefix(start, events, j);
        assert(proof_accepted_at(start, events, j, after.transcript));
    } else {
        let j = events.len() - 1;
        lemma_prefix(start, events, j);
        assert(proof_accepted_at(start, events, j, after.transcript));
    }
}

/// The instance without witnesses depends on the capacity alone: two
/// instances of one capacity give the same one, whatever their tables hold,
/// and it is its own instance without witnesses. So the keys, which are
/// derived from it, are derived from the same input for every table.
pub proof fn law_shape_depends_on_capacity_alone(a: InstanceView, b: InstanceView)
    requires
        a.capacity == b.capacity,
    ensures
        a.shape_only() == b.shape_only(),
        a.shape_only().shape_only() == a.shape_only(),
        a.shape_only().is_shape_only(),
        a.shape_only().fits(),
        a.shape_only().capacity == a.capacity,
{
}

} // verus!
