//! What holds of every entity, every registration pass and every run of
//! the supervisor, proved from the transition functions.

use vstd::prelude::*;
use crate::comic::{
    Comic, ComicStage, ComicStatus, Outcome, OutputFormat, ProgressEvent, Work,
};
use crate::pipeline::{InputFile, all_settled, dispatch_events, file_events, registrations};
use crate::supervisor::{Phase, PollEvent, SupervisorState};

verus! {

/// The entity after the outcomes have been applied one after another.
pub open spec fn advanced_through(comic: Comic, outcomes: Seq<Outcome>) -> Comic
    decreases outcomes.len(),
{
    if outcomes.len() == 0 {
        comic
    } else {
        advanced_through(comic, outcomes.drop_last()).advanced(outcomes.last())
    }
}

/// The supervisor's state after the events have been handed to it one after another.
pub open spec fn run(start: SupervisorState, events: Seq<PollEvent>) -> SupervisorState
    decreases events.len(),
{
    if events.len() == 0 {
        start
    } else {
        run(start, events.drop_last()).step(events.last())
    }
}

/// Everything that the supervisor reports over such a run, in order.
pub open spec fn run_emitted(start: SupervisorState, events: Seq<PollEvent>) -> Seq<ProgressEvent>
    decreases events.len(),
{
    if events.len() == 0 {
        Seq::empty()
    } else {
        let before = run_emitted(start, events.drop_last());
        match run(start, events.drop_last()).emitted(events.last()) {
            Some(event) => before.push(event),
            None => before,
        }
    }
}

/// How often the completion of the batch occurs among `events`.
pub open spec fn completions(events: Seq<ProgressEvent>) -> nat
    decreases events.len(),
{
    if events.len() == 0 {
        0
    } else if events.last() is ProcessingComplete {
        completions(events.drop_last()) + 1
    } else {
        completions(events.drop_last())
    }
}

/// A registration pass over N files registers exactly N comics, the i-th
/// under the id i and the i-th file's title: the ids are distinct and are
/// the numbers below N. A failure is reported only after the registration
/// of its file, as `dispatch_events` places it.
pub proof fn lemma_one_registration_per_file(files: Seq<InputFile>)
    requires
        files.len() <= usize::MAX,
    ensures
        registrations(dispatch_events(files)).len() == files.len(),
        forall|i: int|
            0 <= i < files.len() ==> #[trigger] registrations(dispatch_events(files))[i] == (
                i as usize,
                files[i].title,
            ),
        forall|i: int|
            0 <= i < files.len() ==> (#[trigger] registrations(dispatch_events(files))[i]).0
                < files.len(),
        forall|i: int, j: int|
            0 <= i < j < files.len() ==> (#[trigger] registrations(dispatch_events(files))[i]).0 != (
            #[trigger] registrations(dispatch_events(files))[j]).0,
    decreases files.len(),
{
    if files.len() > 0 {
        let rest = files.drop_last();
        let file = files.last();
        let id = (files.len() - 1) as usize;
        lemma_one_registration_per_file(rest);
        let before = dispatch_events(rest);
        let register = ProgressEvent::RegisterComic { id, file_name: file.title };
        let registered = before.push(register);
        assert(registered.drop_last() =~= before);
        assert(registrations(registered) == registrations(before).push((id, file.title)));
        match file.rejected {
            None => {
                assert(before + file_events(id, file) =~= registered);
            },
            Some(error) => {
                let all = before + file_events(id, file);
                assert(all.drop_last() =~= registered);
                assert(registrations(all) == registrations(registered));
            },
        }
    }
}

/// Terminal statuses are final: whatever outcome is handed to an entity
/// that is `Success` or `Failed`, the entity stays as it is and nothing is
/// reported. The same holds of the three transitions one by one.
pub proof fn lemma_terminal_is_final(comic: Comic, outcome: Outcome)
    requires
        comic.status.terminal(),
    ensures
        comic.advanced(outcome) == comic,
        comic.advance_event(outcome) is None,
        forall|stage: ComicStage, progress: u8| #[trigger] comic.entering(stage, progress) == comic,
        forall|status: ComicStatus| #[trigger] comic.with_status(status) == comic,
        forall|next: Comic| #[trigger] comic.report(next) is None,
{
}

/// Terminal statuses are final over any number of outcomes.
pub proof fn lemma_terminal_stays(comic: Comic, outcomes: Seq<Outcome>)
    requires
        comic.status.terminal(),
    ensures
        advanced_through(comic, outcomes) == comic,
    decreases outcomes.len(),
{
    if outcomes.len() > 0 {
        lemma_terminal_stays(comic, outcomes.drop_last());
    }
}

/// A step never leaves a terminal status: an entity that is terminal
/// after `earlier` has the same status after any outcomes more.
pub proof fn lemma_status_monotonic(comic: Comic, earlier: Seq<Outcome>, later: Seq<Outcome>)
    requires
        advanced_through(comic, earlier).status.terminal(),
    ensures
        advanced_through(comic, earlier + later) == advanced_through(comic, earlier),
    decreases later.len(),
{
    if later.len() == 0 {
        assert(earlier + later =~= earlier);
    } else {
        lemma_status_monotonic(comic, earlier, later.drop_last());
        assert((earlier + later).drop_last() =~= earlier + later.drop_last());
        assert((earlier + later).last() == later.last());
    }
}

/// An entity whose extraction fails ends there: it is `Failed` with the
/// extraction's error, it awaits no work, and whatever outcomes follow, it
/// is still before transformation and its processed files are still empty.
pub proof fn lemma_failed_extraction_ends(comic: Comic, error: String, later: Seq<Outcome>)
    requires
        comic.fresh(),
    ensures
        comic.work() == Work::Extract,
        comic.advanced(Outcome::Failed { error }).status == (ComicStatus::Failed { error }),
        comic.advanced(Outcome::Failed { error }).work() == Work::Nothing,
        advanced_through(comic.advanced(Outcome::Failed { error }), later) == comic.advanced(
            Outcome::Failed { error },
        ),
        advanced_through(comic.advanced(Outcome::Failed { error }), later).stage
            == ComicStage::Extract,
        advanced_through(comic.advanced(Outcome::Failed { error }), later).processed_files@.len()
            == 0,
{
    lemma_terminal_stays(comic.advanced(Outcome::Failed { error }), later);
}

/// The processed files are written by a successful transformation and by
/// nothing else.
pub proof fn lemma_processed_files_written_once(comic: Comic, outcome: Outcome)
    ensures
        comic.work() == Work::Transform && outcome is Transformed ==> comic.advanced(
            outcome,
        ).processed_files == outcome->files && comic.advanced(outcome).work() != Work::Transform,
        !(comic.work() == Work::Transform && outcome is Transformed) ==> comic.advanced(
            outcome,
        ).processed_files == comic.processed_files,
{
}

/// An entity of the device-binary format does not become `Success` by any
/// outcome of its worker: only the supervisor, on collecting its helper
/// process, marks it so.
pub proof fn lemma_device_format_succeeds_by_supervisor_only(comic: Comic, outcome: Outcome)
    requires
        comic.config.output_format == OutputFormat::Mobi,
        !(comic.status is Success),
    ensures
        !(comic.advanced(outcome).status is Success),
{
}

/// However far a worker drives a fresh entity, the entity is handed to the
/// supervisor only under the device-binary format and only once its e-book
/// has been assembled, and where no work is left it is terminal.
pub proof fn lemma_worker_ends_settled(comic: Comic, outcomes: Seq<Outcome>)
    requires
        comic.fresh(),
    ensures
        advanced_through(comic, outcomes).stage != ComicStage::Convert,
        advanced_through(comic, outcomes).config == comic.config,
        advanced_through(comic, outcomes).id == comic.id,
        advanced_through(comic, outcomes).work() == Work::Nothing ==> advanced_through(
            comic,
            outcomes,
        ).status.terminal(),
        advanced_through(comic, outcomes).work() == Work::Enqueue ==> {
            &&& comic.config.output_format == OutputFormat::Mobi
            &&& advanced_through(comic, outcomes).assembled
            &&& !advanced_through(comic, outcomes).status.terminal()
        },
    decreases outcomes.len(),
{
    if outcomes.len() > 0 {
        lemma_worker_ends_settled(comic, outcomes.drop_last());
    }
}

/// Once every worker of a batch has run out of work, every entity that it
/// holds is terminal: the completion of a batch that needs no helper
/// process is then due.
pub proof fn lemma_batch_settles(comics: Seq<Comic>, starts: Seq<Comic>, outcomes: Seq<Seq<Outcome>>)
    requires
        starts.len() == comics.len(),
        outcomes.len() == comics.len(),
        forall|k: int|
            0 <= k < comics.len() ==> {
                &&& (#[trigger] starts[k]).fresh()
                &&& comics[k] == advanced_through(starts[k], outcomes[k])
                &&& comics[k].work() == Work::Nothing
            },
    ensures
        all_settled(comics),
{
    assert forall|k: int| 0 <= k < comics.len() implies (#[trigger] comics[k]).status.terminal() by {
        assert(starts[k].fresh());
        lemma_worker_ends_settled(starts[k], outcomes[k]);
    }
}

/// An e-book is moved into the output directory only on the success
/// path: the move is asked for only under the e-book format, of an entity
/// that is not terminal and whose e-book has been assembled, and the
/// archive is packaged only under the archive format.
pub proof fn lemma_install_follows_assembly(comic: Comic)
    ensures
        comic.work() == Work::Install ==> {
            &&& comic.config.output_format == OutputFormat::Epub
            &&& comic.assembled
            &&& !comic.status.terminal()
        },
        comic.work() == Work::Package ==> comic.config.output_format == OutputFormat::Cbz,
{
}

/// An entity is handed to the supervisor at most once: from its entry into
/// the conversion stage on it never again waits to be handed over, whatever
/// outcomes a worker might still apply to it.
pub proof fn lemma_routed_at_most_once(comic: Comic, progress: u8, outcomes: Seq<Outcome>)
    ensures
        comic.entering(ComicStage::Convert, progress).work() == Work::Nothing,
        advanced_through(comic.entering(ComicStage::Convert, progress), outcomes)
            == comic.entering(ComicStage::Convert, progress),
    decreases outcomes.len(),
{
    if outcomes.len() > 0 {
        lemma_routed_at_most_once(comic, progress, outcomes.drop_last());
    }
}

/// Every step of the supervisor keeps its invariant.
pub proof fn lemma_step_keeps_wf(state: SupervisorState, event: PollEvent)
    requires
        state.wf(),
    ensures
        state.step(event).wf(),
{
}

/// After any run from the start, the supervisor holds as many entities as
/// it has received and not yet finalized. At the end of a poll cycle, when
/// it idles, these are exactly its in-flight records.
pub proof fn lemma_held_is_received_less_finalized(events: Seq<PollEvent>)
    ensures
        run(SupervisorState::initial(), events).wf(),
        run(SupervisorState::initial(), events).held() == run(
            SupervisorState::initial(),
            events,
        ).received - run(SupervisorState::initial(), events).finalized,
        run(SupervisorState::initial(), events).phase == Phase::Idle ==> run(
            SupervisorState::initial(),
            events,
        ).in_flight.len() == run(SupervisorState::initial(), events).received - run(
            SupervisorState::initial(),
            events,
        ).finalized,
    decreases events.len(),
{
    if events.len() > 0 {
        lemma_held_is_received_less_finalized(events.drop_last());
        lemma_step_keeps_wf(run(SupervisorState::initial(), events.drop_last()), events.last());
    }
}

/// Over any run from the start the completion of the batch is reported
/// once if the supervisor has stopped and not at all otherwise. When it
/// has stopped it holds no entity: every entity that it received has been
/// finalized. After that no event moves it or makes it report.
pub proof fn lemma_completes_once(events: Seq<PollEvent>, later: PollEvent)
    ensures
        completions(run_emitted(SupervisorState::initial(), events)) == if run(
            SupervisorState::initial(),
            events,
        ).phase == Phase::Stopped {
            1nat
        } else {
            0nat
        },
        run(SupervisorState::initial(), events).phase == Phase::Stopped ==> {
            &&& run(SupervisorState::initial(), events).held() == 0
            &&& run(SupervisorState::initial(), events).received == run(
                SupervisorState::initial(),
                events,
            ).finalized
            &&& run(SupervisorState::initial(), events).step(later) == run(
                SupervisorState::initial(),
                events,
            )
            &&& run(SupervisorState::initial(), events).emitted(later) is None
        },
    decreases events.len(),
{
    lemma_held_is_received_less_finalized(events);
    if events.len() > 0 {
        let start = SupervisorState::initial();
        let rest = events.drop_last();
        lemma_completes_once(rest, events.last());
        lemma_held_is_received_less_finalized(rest);
        let before = run_emitted(start, rest);
        match run(start, rest).emitted(events.last()) {
            Some(event) => {
                assert(before.push(event).drop_last() =~= before);
            },
            None => {},
        }
    }
}

/// An entity that the supervisor finalizes is terminal from then on: the
/// statuses that finalize are terminal, and a terminal entity keeps its own.
pub proof fn lemma_finalized_is_terminal(comic: Comic, error: String)
    ensures
        comic.with_status(ComicStatus::Success).status.terminal(),
        comic.with_status(ComicStatus::Failed { error }).status.terminal(),
{
}

} // verus!
