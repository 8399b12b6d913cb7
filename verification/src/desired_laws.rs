//! What holds of the desired state over sequences of changes and restorations.

use crate::causes::error_causes;
use crate::clock::age_since_epoch;
use crate::clock::timestamp;
use crate::config::ClashConfig;
use crate::config::WriterConfig;
use crate::desired::is_clock_reading;
use crate::desired::legacy_files;
use crate::desired::legacy_step;
use crate::desired::load_step;
use crate::desired::restore_step;
use crate::desired::temp_of;
use crate::desired::update_step;
use crate::desired::write_step;
use crate::desired::DesiredChange;
use crate::desired::DesiredState;
use crate::desired::FilePresence;
use crate::desired::LegacyReached;
use crate::desired::LegacyStep;
use crate::desired::LegacyStepView;
use crate::desired::LoadReached;
use crate::desired::LoadStep;
use crate::desired::RestoreOutcome;
use crate::desired::RestoreReached;
use crate::desired::RestoreStep;
use crate::desired::StateFileOperation;
use crate::desired::UpdateReached;
use crate::desired::UpdateStep;
use crate::desired::WriteReached;
use crate::desired::WriteStep;
use crate::desired::WriteStepView;
use crate::paths::ends_in_name;
use crate::paths::path_with_extension;
use std::io::ErrorKind;
use std::time::SystemTime;
use vstd::prelude::*;

verus! {

/// A change together with the time at which it is made.
pub struct TimedChange {
    pub change: DesiredChange,
    pub at: u64,
}

/// The state after a sequence of changes.
pub open spec fn after_changes(state: DesiredState, changes: Seq<TimedChange>) -> DesiredState
    decreases changes.len(),
{
    if changes.len() == 0 {
        state
    } else {
        after_changes(state, changes.drop_last()).updated(changes.last().change, changes.last().at)
    }
}

/// The two places that hold the configuration of the log agree: a core that is started again
/// writes its log as it was last configured.
pub open spec fn coherent(state: DesiredState) -> bool {
    state.last_clash_config matches Some(config) ==> state.last_writer_config == Some(
        config.log_config,
    )
}

/// The initial state is coherent, and every sequence of changes keeps a state coherent.
pub proof fn law_coherence(state: DesiredState, changes: Seq<TimedChange>)
    ensures
        coherent(DesiredState::initial()),
        coherent(state) ==> coherent(after_changes(state, changes)),
    decreases changes.len(),
{
    if changes.len() > 0 {
        law_coherence(state, changes.drop_last());
    }
}

/// Every change advances the generation by one, until it can be counted no further.
pub proof fn law_generations(state: DesiredState, changes: Seq<TimedChange>)
    ensures
        after_changes(state, changes).generation == (if state.generation + changes.len()
            <= u64::MAX {
            state.generation + changes.len()
        } else {
            u64::MAX as int
        }),
        changes.len() > 0 ==> after_changes(state, changes).updated_at == changes.last().at,
    decreases changes.len(),
{
    if changes.len() > 0 {
        law_generations(state, changes.drop_last());
    }
}

/// Whether the core is meant to run after a sequence of changes: as the last start or stop says.
pub open spec fn last_intent(initially: bool, changes: Seq<TimedChange>) -> bool
    decreases changes.len(),
{
    if changes.len() == 0 {
        initially
    } else {
        match changes.last().change {
            DesiredChange::CoreStarted(_) => true,
            DesiredChange::CoreStopped => false,
            DesiredChange::WriterConfigured(_) => last_intent(initially, changes.drop_last()),
        }
    }
}

/// The core is meant to run exactly if the last start or stop was a start.
pub proof fn law_last_intent(state: DesiredState, changes: Seq<TimedChange>)
    ensures
        after_changes(state, changes).core_should_be_running == last_intent(
            state.core_should_be_running,
            changes,
        ),
    decreases changes.len(),
{
    if changes.len() > 0 {
        law_last_intent(state, changes.drop_last());
    }
}

/// Whoever asks for a running core has said how to start it.
pub open spec fn startable(state: DesiredState) -> bool {
    state.core_should_be_running ==> state.last_clash_config is Some
}

/// From the initial state, and from every other that is startable, every sequence of changes leads
/// to a state in which an intent to run the core comes with a configuration to start it with.
pub proof fn law_running_intent_has_a_configuration(state: DesiredState, changes: Seq<TimedChange>)
    ensures
        startable(after_changes(DesiredState::initial(), changes)),
        startable(state) ==> startable(after_changes(state, changes)),
    decreases changes.len(),
{
    if changes.len() > 0 {
        law_running_intent_has_a_configuration(state, changes.drop_last());
    }
}

/// Changes of the log's configuration, and nothing else.
pub open spec fn only_writer_changes(changes: Seq<TimedChange>) -> bool {
    forall|i: int| 0 <= i < changes.len() ==> (#[trigger] changes[i]).change is WriterConfigured
}

/// The log's configuration after such changes.
pub open spec fn last_writer(initially: WriterConfig, changes: Seq<TimedChange>) -> WriterConfig {
    if changes.len() == 0 {
        initially
    } else {
        changes.last().change->WriterConfigured_0
    }
}

proof fn lemma_started_then_writer_changes(
    state: DesiredState,
    config: ClashConfig,
    at: u64,
    changes: Seq<TimedChange>,
)
    requires
        only_writer_changes(changes),
    ensures
        ({
            let later = after_changes(
                state.updated(DesiredChange::CoreStarted(config), at),
                changes,
            );
            let writer = last_writer(config.log_config, changes);
            &&& later.core_should_be_running
            &&& later.last_writer_config == Some(writer)
            &&& later.last_clash_config == Some(
                ClashConfig { core_config: config.core_config, log_config: writer },
            )
        }),
    decreases changes.len(),
{
    if changes.len() > 0 {
        let before = changes.drop_last();
        assert forall|i: int| 0 <= i < before.len() implies (#[trigger] before[i]).change
            is WriterConfigured by {
            assert(before[i] == changes[i]);
        }
        lemma_started_then_writer_changes(state, config, at, before);
        assert(changes[changes.len() - 1].change is WriterConfigured);
    }
}

/// What was stored is restored: after a start, and whatever changes of the log's configuration
/// follow, a restoration applies the last of these and starts the core with the configuration of
/// that start, brought up to date, whether or not applying it succeeded.
pub proof fn law_restore_gives_back_start(
    state: DesiredState,
    config: ClashConfig,
    at: u64,
    changes: Seq<TimedChange>,
    applied: bool,
)
    requires
        only_writer_changes(changes),
    ensures
        ({
            let stored = after_changes(
                state.updated(DesiredChange::CoreStarted(config), at),
                changes,
            );
            let writer = last_writer(config.log_config, changes);
            &&& restore_step(RestoreReached::Loaded(Ok(stored))) == RestoreStep::ApplyWriter(
                writer,
                stored,
            )
            &&& restore_step(RestoreReached::WriterApplied(stored, applied))
                == RestoreStep::StartCore(
                ClashConfig { core_config: config.core_config, log_config: writer },
            )
        }),
{
    lemma_started_then_writer_changes(state, config, at, changes);
}

/// What may be reported after a step of an update.
pub open spec fn update_follows<E>(step: UpdateStep<E>, reached: UpdateReached<E>) -> bool {
    match step {
        UpdateStep::Load => reached is Loaded,
        UpdateStep::Write(state) => reached matches UpdateReached::Written(written, _) && written
            == state,
        UpdateStep::Finish(_) | UpdateStep::Fail(_) => false,
    }
}

/// Whether the report at `i` may follow the one before it.
pub open spec fn update_link<E>(
    change: DesiredChange,
    reports: Seq<UpdateReached<E>>,
    times: Seq<u64>,
    i: int,
) -> bool {
    update_follows(update_step(change, reports[i - 1], times[i - 1]), reports[i])
}

/// The reports of one update, from the first on, and the time of the clock at each.
pub open spec fn update_run<E>(
    change: DesiredChange,
    reports: Seq<UpdateReached<E>>,
    times: Seq<u64>,
) -> bool {
    &&& reports.len() > 0
    &&& times.len() == reports.len()
    &&& reports[0] is Begun
    &&& forall|i: int| 0 < i < reports.len() ==> #[trigger] update_link(change, reports, times, i)
}

/// Every update comes to an end. It ends successfully with the state that was loaded, with the
/// change made at the time of loading, once that was written; it ends in failure exactly with the
/// error of loading or of writing.
pub proof fn law_updates_make_their_change<E>(
    change: DesiredChange,
    reports: Seq<UpdateReached<E>>,
    times: Seq<u64>,
    state: DesiredState,
)
    requires
        update_run(change, reports, times),
    ensures
        reports.len() <= 3,
        update_step(change, reports.last(), times.last()) == UpdateStep::<E>::Finish(state) ==> {
            &&& reports.len() == 3
            &&& reports[1] matches UpdateReached::Loaded(Ok(loaded)) && state == loaded.updated(
                change,
                times[1],
            )
            &&& reports[2] matches UpdateReached::Written(written, Ok(_)) && written == state
        },
        update_step(change, reports.last(), times.last()) matches UpdateStep::Fail(error) ==> {
            ||| reports.last() == UpdateReached::<E>::Loaded(Err(error))
            ||| reports.last() matches UpdateReached::Written(_, Err(cause)) && cause == error
        },
        update_step(change, reports.last(), times.last()) is Fail <==> {
            ||| reports.last() matches UpdateReached::Loaded(Err(_))
            ||| reports.last() matches UpdateReached::Written(_, Err(_))
        },
{
    if reports.len() > 1 {
        assert(update_link(change, reports, times, 1));
    }
    if reports.len() > 2 {
        assert(update_link(change, reports, times, 2));
    }
    if reports.len() > 3 {
        assert(update_link(change, reports, times, 3));
    }
}

/// What may be reported after a step of a restoration.
pub open spec fn restore_follows(step: RestoreStep, reached: RestoreReached) -> bool {
    match step {
        RestoreStep::CleanUpLegacy => reached is LegacyCleaned,
        RestoreStep::Load => reached is Loaded,
        RestoreStep::ApplyWriter(_, state) => reached matches RestoreReached::WriterApplied(kept, _)
            && kept == state,
        RestoreStep::StartCore(_) => reached is CoreStarted || reached is CoreFailed,
        RestoreStep::ClearIntent => reached is IntentCleared,
        RestoreStep::Finish(_) | RestoreStep::Fail(_) => false,
    }
}

/// Whether the report at `i` may follow the one before it.
pub open spec fn restore_link(reports: Seq<RestoreReached>, i: int) -> bool {
    restore_follows(restore_step(reports[i - 1]), reports[i])
}

/// The reports of one restoration, from the first on.
pub open spec fn restore_run(reports: Seq<RestoreReached>) -> bool {
    &&& reports.len() > 0
    &&& reports[0] is Begun
    &&& forall|i: int| 0 < i < reports.len() ==> #[trigger] restore_link(reports, i)
}

/// Where the report of loading stands in a restoration: after that of cleaning up, if that is due.
pub open spec fn load_at(reports: Seq<RestoreReached>) -> int {
    if reports[0] == RestoreReached::Begun(true) {
        2
    } else {
        1
    }
}

/// Every restoration comes to an end. What earlier installations left is moved aside first, where
/// that is due, and then the state is loaded, before anything else is done.
pub proof fn law_restorations_end(reports: Seq<RestoreReached>)
    requires
        restore_run(reports),
    ensures
        reports.len() <= load_at(reports) + 4,
        reports[0] == RestoreReached::Begun(true) ==> restore_step(reports[0]) is CleanUpLegacy,
        reports[0] == RestoreReached::Begun(true) && reports.len() > 1 ==> reports[1]
            is LegacyCleaned,
        reports.len() >= load_at(reports) ==> restore_step(reports[load_at(reports) - 1]) is Load,
        reports.len() > load_at(reports) ==> reports[load_at(reports)] is Loaded,
{
    let n = reports.len();
    if n > 1 {
        assert(restore_link(reports, 1));
    }
    if n > 2 {
        assert(restore_link(reports, 2));
    }
    if n > 3 {
        assert(restore_link(reports, 3));
    }
    if n > 4 {
        assert(restore_link(reports, 4));
    }
    if n > 5 {
        assert(restore_link(reports, 5));
    }
    if n > 6 {
        assert(restore_link(reports, 6));
    }
}

/// A restoration whose load fails ends with the error of loading, and touches neither the log nor
/// the core.
pub proof fn law_failed_load_ends_the_restoration(
    reports: Seq<RestoreReached>,
    error: anyhow::Error,
)
    requires
        restore_run(reports),
        reports.len() > load_at(reports),
        reports[load_at(reports)] == RestoreReached::Loaded(Err(error)),
    ensures
        reports.len() == load_at(reports) + 1,
        restore_step(reports.last()) == RestoreStep::Fail(error),
        forall|i: int|
            0 <= i < reports.len() ==> {
                let step = #[trigger] restore_step(reports[i]);
                !(step is ApplyWriter) && !(step is StartCore)
            },
{
    law_restorations_end(reports);
    if reports.len() > load_at(reports) + 1 {
        assert(restore_link(reports, load_at(reports) + 1));
    }
    assert(restore_link(reports, 1));
}

/// Of a restoration that loaded `state`: the stored configuration of the log is applied, and
/// nothing before it, exactly if there is one. The core is started exactly if it is meant to run
/// and a configuration of it is stored, with that configuration, whatever came of the log. The
/// restoration says that the core runs again only after such a start, and withdraws the intent
/// only after one that failed for want of the core's path.
pub proof fn law_loaded_state_is_restored(reports: Seq<RestoreReached>, state: DesiredState)
    requires
        restore_run(reports),
        reports.len() > load_at(reports),
        reports[load_at(reports)] == RestoreReached::Loaded(Ok(state)),
    ensures
        ({
            let loaded = reports[load_at(reports)];
            let settled = load_at(reports) + (if state.last_writer_config is Some {
                1int
            } else {
                0int
            });
            let n = reports.len();
            &&& state.last_writer_config matches Some(writer) ==> restore_step(loaded)
                == RestoreStep::ApplyWriter(writer, state)
            &&& state.last_writer_config is None ==> !(restore_step(loaded) is ApplyWriter)
            &&& n > settled ==> (restore_step(reports[settled]) is StartCore <==> {
                &&& state.core_should_be_running
                &&& state.last_clash_config is Some
            })
            &&& forall|i: int|
                load_at(reports) <= i < n && (#[trigger] restore_step(reports[i])) is StartCore ==> i
                    == settled && state.last_clash_config == Some(
                    restore_step(reports[i])->StartCore_0,
                )
            &&& restore_step(reports.last()) == RestoreStep::Finish(RestoreOutcome::Restored) ==> {
                &&& n == settled + 2
                &&& restore_step(reports[settled]) is StartCore
                &&& reports.last() is CoreStarted
            }
            &&& restore_step(reports.last()) is ClearIntent ==> {
                &&& n == settled + 2
                &&& restore_step(reports[settled]) is StartCore
                &&& reports.last() matches RestoreReached::CoreFailed(error) && error_causes(
                    error,
                ).contains(Some(ErrorKind::NotFound))
            }
        }),
{
    let l = load_at(reports);
    law_restorations_end(reports);
    if reports.len() > l + 1 {
        assert(restore_link(reports, l + 1));
    }
    if reports.len() > l + 2 {
        assert(restore_link(reports, l + 2));
    }
    if reports.len() > l + 3 {
        assert(restore_link(reports, l + 3));
    }
}

/// A stop keeps both configurations, and no restoration of a stopped state starts the core.
pub proof fn law_stop_is_restored(state: DesiredState, at: u64, reports: Seq<RestoreReached>)
    requires
        restore_run(reports),
        reports.len() > load_at(reports),
        reports[load_at(reports)] == RestoreReached::Loaded(
            Ok(state.updated(DesiredChange::CoreStopped, at)),
        ),
    ensures
        state.updated(DesiredChange::CoreStopped, at).last_clash_config == state.last_clash_config,
        state.updated(DesiredChange::CoreStopped, at).last_writer_config
            == state.last_writer_config,
        forall|i: int|
            0 <= i < reports.len() ==> !((#[trigger] restore_step(reports[i])) is StartCore),
{
    let stored = state.updated(DesiredChange::CoreStopped, at);
    law_restorations_end(reports);
    law_loaded_state_is_restored(reports, stored);
    assert forall|i: int| 0 <= i < reports.len() implies !((#[trigger] restore_step(reports[i]))
        is StartCore) by {
        if i == 1 && load_at(reports) == 2 {
            assert(reports[1] is LegacyCleaned);
        }
    }
}

/// A core whose path no longer exists is not tried again: the restoration withdraws the intent,
/// and no restoration of what is then stored starts the core.
pub proof fn law_missing_core_is_not_retried(
    state: DesiredState,
    error: anyhow::Error,
    at: u64,
    later: Seq<RestoreReached>,
)
    requires
        error_causes(error).contains(Some(ErrorKind::NotFound)),
        restore_run(later),
        later.len() > load_at(later),
        later[load_at(later)] == RestoreReached::Loaded(
            Ok(state.updated(DesiredChange::CoreStopped, at)),
        ),
    ensures
        restore_step(RestoreReached::CoreFailed(error)) is ClearIntent,
        forall|i: int| 0 <= i < later.len() ==> !((#[trigger] restore_step(later[i])) is StartCore),
{
    law_stop_is_restored(state, at, later);
}

/// Any other failure to start the core is handed on, and nothing is stored: the intent stays.
pub proof fn law_other_failures_keep_the_intent(error: anyhow::Error)
    requires
        !error_causes(error).contains(Some(ErrorKind::NotFound)),
    ensures
        restore_step(RestoreReached::CoreFailed(error)) == RestoreStep::Fail(error),
{
}

/// What may be reported after a step of writing the desired state.
pub open spec fn write_follows<E>(step: WriteStepView<E>, reached: WriteReached<E>) -> bool {
    match step {
        WriteStepView::CreateDirectory(directory) => reached matches WriteReached::DirectoryCreated(
            created,
            _,
        ) && created@ == directory,
        WriteStepView::Serialize => reached is Serialized,
        WriteStepView::WriteTemp { .. } => reached is TempWritten,
        WriteStepView::MoveIntoPlace { .. } => reached is Moved,
        _ => false,
    }
}

/// Whether the report at `i` may follow the one before it.
pub open spec fn write_link<E>(target: Seq<char>, reports: Seq<WriteReached<E>>, i: int) -> bool {
    write_follows(write_step(target, reports[i - 1]), reports[i])
}

/// The reports of one run of writing the desired state to `target`, from the first on.
pub open spec fn write_run<E>(target: Seq<char>, reports: Seq<WriteReached<E>>) -> bool {
    &&& reports.len() > 0
    &&& reports[0] is Begun
    &&& forall|i: int| 0 < i < reports.len() ==> #[trigger] write_link(target, reports, i)
}

/// The file is replaced in one move, and only once its new contents are complete: in every run,
/// before the move the whole text was written to the very temporary file that is moved, and the
/// run ends successfully exactly if the move succeeded. Nothing but the temporary file is written.
pub proof fn law_replaced_only_when_complete<E>(target: Seq<char>, reports: Seq<WriteReached<E>>)
    requires
        write_run(target, reports),
    ensures
        reports.len() <= 5,
        write_step(target, reports.last()) matches WriteStepView::MoveIntoPlace {
            temp,
            target: moved_to,
        } ==> {
            &&& moved_to == target
            &&& reports.len() >= 3
            &&& reports.last() matches WriteReached::TempWritten(Ok(_))
            &&& reports[reports.len() - 2] matches WriteReached::Serialized(Ok(text)) && write_step(
                target,
                reports[reports.len() - 2],
            ) == (WriteStepView::<E>::WriteTemp { temp, text: text@ })
        },
        write_step(target, reports.last()) matches WriteStepView::WriteTemp { temp, .. } ==> temp
            == temp_of(target),
        write_step(target, reports.last()) is Finish <==> (reports.last() matches
            WriteReached::Moved(Ok(_))),
        write_step(target, reports.last()) is Finish ==> reports.len() >= 4 && write_step(
            target,
            reports[reports.len() - 2],
        ) is MoveIntoPlace,
{
    let n = reports.len() as int;
    if n > 1 {
        assert(write_link(target, reports, 1));
    }
    if n > 2 {
        assert(write_link(target, reports, 2));
    }
    if n > 3 {
        assert(write_link(target, reports, 3));
    }
    if n > 4 {
        assert(write_link(target, reports, 4));
    }
    if n > 5 {
        assert(write_link(target, reports, 5));
    }
}

/// What may be reported after a step of the clean-up of what earlier installations left.
pub open spec fn legacy_follows(step: LegacyStepView, reached: LegacyReached) -> bool {
    match step {
        LegacyStepView::LookFor { number, .. } => reached matches LegacyReached::LookedFor(looked, _)
            && looked == number,
        LegacyStepView::MoveAside { number, .. } => reached matches LegacyReached::MovedAside(
            moved,
            _,
        ) && moved == number,
        LegacyStepView::Finish => false,
    }
}

/// The reports of one clean-up, from the first on.
pub open spec fn legacy_run(reports: Seq<LegacyReached>) -> bool
    decreases reports.len(),
{
    if reports.len() <= 1 {
        reports.len() == 1 && reports[0] is Begun
    } else {
        &&& legacy_run(reports.drop_last())
        &&& legacy_follows(legacy_step(reports.drop_last().last()), reports.last())
    }
}

/// The numbers of the files that were looked for, in order.
pub open spec fn looked_for(reports: Seq<LegacyReached>) -> Seq<int>
    decreases reports.len(),
{
    if reports.len() == 0 {
        Seq::empty()
    } else {
        match reports.last() {
            LegacyReached::LookedFor(number, _) => looked_for(reports.drop_last()).push(
                number as int,
            ),
            _ => looked_for(reports.drop_last()),
        }
    }
}

/// The numbers of the files that were moved aside, or could not be, in order.
pub open spec fn moved_aside(reports: Seq<LegacyReached>) -> Seq<int>
    decreases reports.len(),
{
    if reports.len() == 0 {
        Seq::empty()
    } else {
        match reports.last() {
            LegacyReached::MovedAside(number, _) => moved_aside(reports.drop_last()).push(
                number as int,
            ),
            _ => moved_aside(reports.drop_last()),
        }
    }
}

/// The numbers of the files that were found to be there, in order.
pub open spec fn found_present(reports: Seq<LegacyReached>) -> Seq<int>
    decreases reports.len(),
{
    if reports.len() == 0 {
        Seq::empty()
    } else {
        match reports.last() {
            LegacyReached::LookedFor(number, FilePresence::Present) => found_present(
                reports.drop_last(),
            ).push(number as int),
            _ => found_present(reports.drop_last()),
        }
    }
}

/// The numbers below `n`, in order.
pub open spec fn numbers_below(n: nat) -> Seq<int> {
    Seq::new(n, |i: int| i)
}

/// How many files were looked for by the time of a report.
spec fn looked_by(reached: LegacyReached) -> nat {
    match reached {
        LegacyReached::Begun => 0,
        LegacyReached::LookedFor(number, _) => (number + 1) as nat,
        LegacyReached::MovedAside(number, _) => (number + 1) as nat,
    }
}

proof fn lemma_legacy_progress(reports: Seq<LegacyReached>)
    requires
        legacy_run(reports),
    ensures
        looked_by(reports.last()) <= legacy_files().len(),
        looked_for(reports) == numbers_below(looked_by(reports.last())),
        reports.len() <= 1 + 2 * looked_by(reports.last()),
        reports.last() is LookedFor ==> reports.len() <= 2 * looked_by(reports.last()),
        reports.last() matches LegacyReached::LookedFor(number, FilePresence::Present) ==> found_present(
            reports,
        ) == moved_aside(reports).push(number as int),
        !(reports.last() matches LegacyReached::LookedFor(_, FilePresence::Present)) ==> found_present(
            reports,
        ) == moved_aside(reports),
    decreases reports.len(),
{
    let before = reports.drop_last();
    if reports.len() == 1 {
        assert(looked_for(before) == Seq::<int>::empty());
        assert(moved_aside(before) == Seq::<int>::empty());
        assert(found_present(before) == Seq::<int>::empty());
        assert(looked_for(reports) == numbers_below(0));
    } else {
        lemma_legacy_progress(before);
        let n = looked_by(reports.last());
        if reports.last() is LookedFor {
            assert(numbers_below((n - 1) as nat).push(n - 1) == numbers_below(n));
        }
    }
}

/// Every clean-up comes to an end, and then every file that an earlier installation may have left
/// was looked for once, in order, whatever came of the others; those that were there, and no
/// others, were moved aside, each once, as far as possible.
pub proof fn law_every_legacy_file_is_cleaned_up(reports: Seq<LegacyReached>)
    requires
        legacy_run(reports),
    ensures
        reports.len() <= 1 + 2 * legacy_files().len(),
        legacy_step(reports.last()) is Finish ==> {
            &&& looked_for(reports) == numbers_below(legacy_files().len())
            &&& moved_aside(reports) == found_present(reports)
        },
{
    lemma_legacy_progress(reports);
}

/// A start that was stored asks for a running core, with the configuration of that start.
pub proof fn law_stored_start_asks_for_a_running_core<E>(
    config: ClashConfig,
    reports: Seq<UpdateReached<E>>,
    times: Seq<u64>,
    stored: DesiredState,
)
    requires
        update_run(DesiredChange::CoreStarted(config), reports, times),
        update_step(DesiredChange::CoreStarted(config), reports.last(), times.last())
            == UpdateStep::<E>::Finish(stored),
    ensures
        stored.core_should_be_running,
        stored.last_clash_config == Some(config),
        stored.last_writer_config == Some(config.log_config),
{
    law_updates_make_their_change(DesiredChange::CoreStarted(config), reports, times, stored);
}

/// Each of the files that earlier installations left has the extension `json`.
pub proof fn law_legacy_files_are_json(i: int)
    requires
        0 <= i < legacy_files().len(),
    ensures
        exists|stem: Seq<char>|
            ends_in_name(stem) && legacy_files()[i] == #[trigger] (stem + ".json"@),
{
    reveal_strlit("/var/lib/clash-service/desired-state.json");
    reveal_strlit("/var/root/.local/state/clash-service/desired-state.json");
    reveal_strlit("/var/lib/clash-verge-service/desired-state.json");
    reveal_strlit("/var/root/.local/state/clash-verge-service/desired-state.json");
    reveal_strlit(".json");
    let file = legacy_files()[i];
    let stem = file.take(file.len() - 5);
    assert(file =~= stem + ".json"@);
    assert(ends_in_name(stem));
}

/// What a change does to every state, running or not, with or without configurations. A start makes
/// its configuration, and that of the log in it, the stored ones. A stop takes back the intent
/// alone. A configuration of the log becomes the stored one, and that of the stored core too, whose
/// other settings stay, as does the intent. Every change is stamped with its time and counted.
pub proof fn law_change_takes_effect(state: DesiredState, change: DesiredChange, now: u64)
    ensures
        ({
            let next = state.updated(change, now);
            &&& next.updated_at == now
            &&& state.generation < u64::MAX ==> next.generation == state.generation + 1
            &&& state.generation == u64::MAX ==> next.generation == u64::MAX
            &&& next.core_should_be_running <==> change is CoreStarted || change is WriterConfigured
                && state.core_should_be_running
            &&& change matches DesiredChange::CoreStarted(config) ==> next.last_clash_config == Some(
                config,
            ) && next.last_writer_config == Some(config.log_config)
            &&& change is CoreStopped ==> next.last_clash_config == state.last_clash_config
                && next.last_writer_config == state.last_writer_config
            &&& change matches DesiredChange::WriterConfigured(writer) ==> {
                &&& next.last_writer_config == Some(writer)
                &&& next.last_clash_config is Some <==> state.last_clash_config is Some
                &&& next.last_clash_config is Some ==> next.last_clash_config->0.log_config == writer
                    && next.last_clash_config->0.core_config
                    == state.last_clash_config->0.core_config
            }
        }),
{
}

/// The configuration of the log that a change brings, if it brings one.
pub open spec fn writer_of(change: DesiredChange) -> Option<WriterConfig> {
    match change {
        DesiredChange::CoreStarted(config) => Some(config.log_config),
        DesiredChange::CoreStopped => None,
        DesiredChange::WriterConfigured(writer) => Some(writer),
    }
}

/// After every sequence of changes, the stored configuration of the log is that of the last start
/// or change of it, whatever stops follow; without any it is the one there was.
pub proof fn law_stored_writer_is_the_last_one(
    state: DesiredState,
    changes: Seq<TimedChange>,
    last: int,
)
    requires
        -1 <= last < changes.len(),
        last >= 0 ==> writer_of(changes[last].change) is Some,
        forall|i: int|
            last < i < changes.len() ==> writer_of((#[trigger] changes[i]).change) is None,
    ensures
        after_changes(state, changes).last_writer_config == (if last >= 0 {
            writer_of(changes[last].change)
        } else {
            state.last_writer_config
        }),
    decreases changes.len(),
{
    if changes.len() > 0 {
        let before = changes.drop_last();
        let n = changes.len() - 1;
        if last < n {
            assert(writer_of(changes[n].change) is None);
            assert forall|i: int| last < i < before.len() implies writer_of(
                (#[trigger] before[i]).change,
            ) is None by {
                assert(before[i] == changes[i]);
            }
            if last >= 0 {
                assert(before[last] == changes[last]);
            }
            law_stored_writer_is_the_last_one(state, before, last);
        }
    }
}

/// After every sequence of changes, the stored core is that of the last start, whatever stops and
/// changes of the log's configuration follow; without any start it is the one there was.
pub proof fn law_stored_core_is_the_last_one(
    state: DesiredState,
    changes: Seq<TimedChange>,
    last: int,
)
    requires
        -1 <= last < changes.len(),
        last >= 0 ==> changes[last].change is CoreStarted,
        forall|i: int|
            last < i < changes.len() ==> !((#[trigger] changes[i]).change is CoreStarted),
    ensures
        ({
            let stored = after_changes(state, changes).last_clash_config;
            &&& last >= 0 ==> stored is Some && stored->0.core_config
                == changes[last].change->CoreStarted_0.core_config
            &&& last < 0 ==> (stored is Some <==> state.last_clash_config is Some)
            &&& last < 0 && stored is Some ==> stored->0.core_config
                == state.last_clash_config->0.core_config
        }),
    decreases changes.len(),
{
    if changes.len() > 0 {
        let before = changes.drop_last();
        let n = changes.len() - 1;
        if last < n {
            assert(!(changes[n].change is CoreStarted));
            assert forall|i: int| last < i < before.len() implies !((
            #[trigger] before[i]).change is CoreStarted) by {
                assert(before[i] == changes[i]);
            }
            if last >= 0 {
                assert(before[last] == changes[last]);
            }
            law_stored_core_is_the_last_one(state, before, last);
        }
    }
}

/// When an update loads, what it writes, and how it ends: it writes exactly what a loaded state
/// becomes by the change, ends successfully exactly with what was written, and in failure exactly
/// with the error of loading or writing.
pub proof fn law_update_writes_the_change<E>(
    change: DesiredChange,
    reached: UpdateReached<E>,
    now: u64,
    state: DesiredState,
    error: E,
)
    ensures
        ({
            let step = update_step(change, reached, now);
            &&& step is Load <==> reached is Begun
            &&& step == UpdateStep::<E>::Write(state) <==> (reached matches UpdateReached::Loaded(
                Ok(loaded),
            ) && state == loaded.updated(change, now))
            &&& step == UpdateStep::<E>::Finish(state) <==> (reached matches UpdateReached::Written(
                written,
                Ok(_),
            ) && written == state)
            &&& step == UpdateStep::<E>::Fail(error) <==> {
                ||| reached == UpdateReached::<E>::Loaded(Err(error))
                ||| reached matches UpdateReached::Written(_, Err(cause)) && cause == error
            }
        }),
{
}

/// Loading gives back what is stored. For every state, a load ends successfully with it exactly if
/// the contents of the file parse to it, or the file does not exist and nothing was asked of the
/// service in that state. A load fails exactly with the error of a file that exists and cannot be
/// read, or whose contents do not parse, and parses exactly the contents that were read.
pub proof fn law_load_gives_back_what_is_stored<E>(
    reached: LoadReached<E>,
    state: DesiredState,
    bytes: Vec<u8>,
    operation: StateFileOperation,
    error: E,
)
    ensures
        ({
            let step = load_step(reached);
            &&& step is Read <==> reached is Begun
            &&& step == LoadStep::<E>::Parse(bytes) <==> reached == LoadReached::<E>::Read(bytes)
            &&& step == LoadStep::<E>::Finish(state) <==> {
                ||| reached == LoadReached::<E>::Parsed(Ok(state))
                ||| {
                    &&& reached matches LoadReached::ReadFailed(kind, _) && kind
                        == ErrorKind::NotFound
                    &&& !state.core_should_be_running
                    &&& state.last_clash_config is None
                    &&& state.last_writer_config is None
                    &&& state.generation == 0
                    &&& state.updated_at == 0
                }
            }
            &&& step == LoadStep::<E>::Fail(operation, error) <==> {
                ||| operation is Parse && reached == LoadReached::<E>::Parsed(Err(error))
                ||| operation is Read && (reached matches LoadReached::ReadFailed(kind, cause)
                    && kind != ErrorKind::NotFound && cause == error)
            }
        }),
{
}

/// An update of a state that a write stored starts from that state: what one update finished with,
/// once it parses back, is what the next one changes.
pub proof fn law_next_update_starts_from_the_stored_state<E>(
    stored: DesiredState,
    change: DesiredChange,
    now: u64,
    loaded: DesiredState,
)
    requires
        load_step(LoadReached::<E>::Parsed(Ok(stored))) == LoadStep::<E>::Finish(loaded),
    ensures
        update_step(change, UpdateReached::<E>::Loaded(Ok(loaded)), now) == UpdateStep::<E>::Write(
            stored.updated(change, now),
        ),
{
}

/// When a restoration does what: it cleans up and loads first; it applies exactly the configuration
/// of the log that was loaded; it starts exactly the core that was loaded and is meant to run, once
/// the log is taken care of or there is nothing to take care of; it withdraws the intent exactly
/// after a start that failed for want of the core's path; it fails exactly with the error of
/// loading, or of any other failed start.
pub proof fn law_restoration_does_what_was_asked(
    reached: RestoreReached,
    state: DesiredState,
    writer: WriterConfig,
    config: ClashConfig,
    error: anyhow::Error,
)
    ensures
        ({
            let step = restore_step(reached);
            let settled = {
                ||| reached == RestoreReached::Loaded(Ok(state)) && state.last_writer_config is None
                ||| reached matches RestoreReached::WriterApplied(kept, _) && kept == state
            };
            &&& step is CleanUpLegacy <==> reached == RestoreReached::Begun(true)
            &&& step is Load <==> reached == RestoreReached::Begun(false) || reached
                is LegacyCleaned
            &&& step == RestoreStep::ApplyWriter(writer, state) <==> reached
                == RestoreReached::Loaded(Ok(state)) && state.last_writer_config == Some(writer)
            &&& settled && state.core_should_be_running && state.last_clash_config is Some ==> step
                == RestoreStep::StartCore(state.last_clash_config->0)
            &&& settled && state.core_should_be_running && state.last_clash_config is None ==> step
                == RestoreStep::Finish(RestoreOutcome::NoConfig)
            &&& settled && !state.core_should_be_running ==> step == RestoreStep::Finish(
                RestoreOutcome::NotWanted,
            )
            &&& step == RestoreStep::StartCore(config) ==> reached is WriterApplied || reached
                is Loaded && reached->Loaded_0 is Ok
            &&& step is ClearIntent <==> (reached matches RestoreReached::CoreFailed(cause)
                && error_causes(cause).contains(Some(ErrorKind::NotFound)))
            &&& step == RestoreStep::Fail(error) <==> {
                ||| reached == RestoreReached::Loaded(Err(error))
                ||| reached == RestoreReached::CoreFailed(error) && !error_causes(error).contains(
                    Some(ErrorKind::NotFound),
                )
            }
            &&& step == RestoreStep::Finish(RestoreOutcome::Restored) <==> reached is CoreStarted
            &&& step == RestoreStep::Finish(RestoreOutcome::IntentCleared) <==> reached
                is IntentCleared
        }),
{
}

/// When writing does what: the directory that was asked for is created, the text that the state was
/// turned into, and nothing else, goes to the temporary file, that file takes the place of the
/// target, and every failure ends it with the operation, the path and the error at hand.
pub proof fn law_writing_puts_the_text_in_place<E>(
    target: Seq<char>,
    reached: WriteReached<E>,
    text: Seq<u8>,
    temp: Seq<char>,
    place: Seq<char>,
    error: E,
)
    ensures
        ({
            let step = write_step(target, reached);
            &&& step == WriteStepView::<E>::CreateDirectory(place) <==> (reached matches
                WriteReached::Begun(Some(parent)) && parent@ == place)
            &&& step is Serialize <==> {
                ||| reached matches WriteReached::Begun(None)
                ||| reached matches WriteReached::DirectoryCreated(_, Ok(_))
            }
            &&& step == (WriteStepView::<E>::WriteTemp { temp, text }) <==> (reached matches
                WriteReached::Serialized(Ok(made)) && made@ == text && temp == path_with_extension(
                target,
                "json.tmp"@,
            ))
            &&& step == (WriteStepView::<E>::MoveIntoPlace { temp, target: place }) <==> (
            reached matches WriteReached::TempWritten(Ok(_)) && place == target && temp
                == path_with_extension(target, "json.tmp"@))
            &&& step is Finish <==> (reached matches WriteReached::Moved(Ok(_)))
            &&& step == WriteStepView::<E>::FailToSerialize(error) <==> reached
                == WriteReached::<E>::Serialized(Err(error))
            &&& step == (WriteStepView::<E>::Fail {
                operation: StateFileOperation::CreateDirectory,
                path: place,
                error,
            }) <==> (reached matches WriteReached::DirectoryCreated(directory, Err(cause))
                && directory@ == place && cause == error)
            &&& step == (WriteStepView::<E>::Fail {
                operation: StateFileOperation::WriteTemp,
                path: place,
                error,
            }) <==> (reached == WriteReached::<E>::TempWritten(Err(error)) && place
                == path_with_extension(target, "json.tmp"@))
            &&& step == (WriteStepView::<E>::Fail {
                operation: StateFileOperation::MoveIntoPlace,
                path: place,
                error,
            }) <==> (reached == WriteReached::<E>::Moved(Err(error)) && place == target)
        }),
{
}

/// What the clean-up looks for and moves: it moves exactly a known file that was just found, to its
/// name with `.legacy.bak` added, and goes on with the next known file after one that was not found
/// or was dealt with, in order, to the last.
pub proof fn law_clean_up_moves_what_is_there(
    reached: LegacyReached,
    number: int,
    file: Seq<char>,
    target: Seq<char>,
)
    ensures
        ({
            let step = legacy_step(reached);
            let next = {
                ||| number == 0 && reached is Begun
                ||| reached matches LegacyReached::LookedFor(looked, presence) && looked + 1 == number
                    && presence != FilePresence::Present
                ||| reached matches LegacyReached::MovedAside(moved, _) && moved + 1 == number
            };
            &&& step == (LegacyStepView::MoveAside { number, file, target }) <==> {
                &&& 0 <= number < 4
                &&& reached matches LegacyReached::LookedFor(looked, presence) && looked == number
                    && presence == FilePresence::Present
                &&& file == legacy_files()[number]
                &&& target == file + ".legacy.bak"@
            }
            &&& 0 <= number < 4 ==> (step == (LegacyStepView::LookFor { number, file }) <==> next
                && file == legacy_files()[number])
            &&& next && number >= 4 ==> step is Finish
            &&& reached is LookedFor && reached->LookedFor_0 >= 4 ==> step is Finish
            &&& step is Finish ==> !(reached is Begun)
        }),
{
}

/// An update is stamped with a time stamp of some point in time, and with nothing else.
pub proof fn law_stamps_are_time_stamps(now: u64)
    ensures
        is_clock_reading(now) <==> exists|time: SystemTime|
            now == #[trigger] timestamp(age_since_epoch(time)),
{
}

/// A step of writing shows what it is.
pub proof fn law_write_step_view<E>(step: WriteStep<E>)
    ensures
        step@ is CreateDirectory <==> step is CreateDirectory,
        step is CreateDirectory ==> step@->CreateDirectory_0 == step->CreateDirectory_0@,
        step@ is Serialize <==> step is Serialize,
        step@ is WriteTemp <==> step is WriteTemp,
        step is WriteTemp ==> step@->WriteTemp_temp == step->WriteTemp_temp@ && step@->text
            == step->text@,
        step@ is MoveIntoPlace <==> step is MoveIntoPlace,
        step is MoveIntoPlace ==> step@->MoveIntoPlace_temp == step->MoveIntoPlace_temp@
            && step@->target == step->target@,
        step@ is Finish <==> step is Finish,
        step@ is Fail <==> step is Fail,
        step is Fail ==> step@->operation == step->operation && step@->path == step->path@
            && step@->error == step->error,
        step@ is FailToSerialize <==> step is FailToSerialize,
        step is FailToSerialize ==> step@->FailToSerialize_0 == step->FailToSerialize_0,
{
}

/// A step of the clean-up shows what it is.
pub proof fn law_legacy_step_view(step: LegacyStep)
    ensures
        step@ is LookFor <==> step is LookFor,
        step is LookFor ==> step@->LookFor_number == step->LookFor_number && step@->LookFor_file
            == step->LookFor_file@,
        step@ is MoveAside <==> step is MoveAside,
        step is MoveAside ==> step@->MoveAside_number == step->MoveAside_number
            && step@->MoveAside_file == step->MoveAside_file@ && step@->target == step->target@,
        step@ is Finish <==> step is Finish,
{
}

} // verus!
