//! The desired state: what the service should bring back after it was itself restarted.

use crate::causes::error_causes;
use crate::causes::is_not_found_error;
use crate::clock::age_since_epoch;
use crate::clock::timestamp;
use crate::clock::unix_timestamp_secs;
use crate::config::ClashConfig;
use crate::config::WriterConfig;
use crate::desired_laws::law_legacy_files_are_json;
use crate::paths::ends_in_name;
use crate::paths::legacy_backup_path;
use crate::paths::path_with_extension;
use crate::paths::temp_path;
use crate::text::concat_text;
use std::io::ErrorKind;
use vstd::prelude::*;
use vstd::string::*;

verus! {

/// What was last asked of the service.
#[derive(Debug, PartialEq, Eq)]
pub struct DesiredState {
    pub core_should_be_running: bool,
    pub last_clash_config: Option<ClashConfig>,
    pub last_writer_config: Option<WriterConfig>,
    pub generation: u64,
    pub updated_at: u64,
}

/// A change of what is asked of the service.
#[derive(Debug, PartialEq, Eq)]
pub enum DesiredChange {
    /// The core was started with this configuration.
    CoreStarted(ClashConfig),
    /// The core was stopped.
    CoreStopped,
    /// The log is now written as configured here.
    WriterConfigured(WriterConfig),
}

impl Clone for DesiredState {
    fn clone(&self) -> (copy: Self)
        ensures
            copy == *self,
    {
        DesiredState {
            core_should_be_running: self.core_should_be_running,
            last_clash_config: match &self.last_clash_config {
                Some(config) => Some(config.clone()),
                None => None,
            },
            last_writer_config: match &self.last_writer_config {
                Some(config) => Some(config.clone()),
                None => None,
            },
            generation: self.generation,
            updated_at: self.updated_at,
        }
    }
}

impl Default for DesiredState {
    /// Nothing was asked of the service yet.
    fn default() -> (state: Self)
        ensures
            state == DesiredState::initial(),
    {
        DesiredState {
            core_should_be_running: false,
            last_clash_config: None,
            last_writer_config: None,
            generation: 0,
            updated_at: 0,
        }
    }
}

impl DesiredState {
    /// Nothing was asked of the service yet.
    pub open spec fn initial() -> DesiredState {
        DesiredState {
            core_should_be_running: false,
            last_clash_config: None,
            last_writer_config: None,
            generation: 0,
            updated_at: 0,
        }
    }

    /// The state with the intent and the configurations that follow from `change`.
    pub open spec fn changed(self, change: DesiredChange) -> DesiredState {
        match change {
            DesiredChange::CoreStarted(config) => DesiredState {
                core_should_be_running: true,
                last_clash_config: Some(config),
                last_writer_config: Some(config.log_config),
                ..self
            },
            DesiredChange::CoreStopped => DesiredState { core_should_be_running: false, ..self },
            DesiredChange::WriterConfigured(writer) => DesiredState {
                last_clash_config: match self.last_clash_config {
                    Some(config) => Some(
                        ClashConfig { core_config: config.core_config, log_config: writer },
                    ),
                    None => None,
                },
                last_writer_config: Some(writer),
                ..self
            },
        }
    }

    /// The state after `change`, made at `now`: one generation on, if there is one left.
    pub open spec fn updated(self, change: DesiredChange, now: u64) -> DesiredState {
        DesiredState {
            generation: if self.generation < u64::MAX {
                (self.generation + 1) as u64
            } else {
                u64::MAX
            },
            updated_at: now,
            ..self.changed(change)
        }
    }
}

/// Makes `change` to `state`, at `now`.
pub fn apply_change(state: DesiredState, change: DesiredChange, now: u64) -> (updated: DesiredState)
    ensures
        updated == state.updated(change, now),
{
    let mut next = state;
    match change {
        DesiredChange::CoreStarted(config) => {
            next.core_should_be_running = true;
            next.last_writer_config = Some(config.log_config.clone());
            next.last_clash_config = Some(config);
        },
        DesiredChange::CoreStopped => {
            next.core_should_be_running = false;
        },
        DesiredChange::WriterConfigured(writer) => {
            next.last_clash_config = match next.last_clash_config {
                Some(config) => Some(
                    ClashConfig { core_config: config.core_config, log_config: writer.clone() },
                ),
                None => None,
            };
            next.last_writer_config = Some(writer);
        },
    }
    next.generation = next.generation.saturating_add(1);
    next.updated_at = now;
    next
}

/// How far an update of the stored state has come.
#[derive(Debug, PartialEq, Eq)]
pub enum UpdateReached<E> {
    /// The store is locked for the update.
    Begun,
    /// The stored state was loaded, or could not be.
    Loaded(Result<DesiredState, E>),
    /// The state was written, or could not be.
    Written(DesiredState, Result<(), E>),
}

/// What an update of the stored state does next.
#[derive(Debug, PartialEq, Eq)]
pub enum UpdateStep<E> {
    /// Load the stored state.
    Load,
    /// Write this state.
    Write(DesiredState),
    /// End successfully with the state that was written.
    Finish(DesiredState),
    /// End with this error.
    Fail(E),
}

/// The step of an update that makes `change`; `now` is the time of the update.
pub open spec fn update_step<E>(
    change: DesiredChange,
    reached: UpdateReached<E>,
    now: u64,
) -> UpdateStep<E> {
    match reached {
        UpdateReached::Begun => UpdateStep::Load,
        UpdateReached::Loaded(Ok(state)) => UpdateStep::Write(state.updated(change, now)),
        UpdateReached::Loaded(Err(error)) => UpdateStep::Fail(error),
        UpdateReached::Written(state, Ok(_)) => UpdateStep::Finish(state),
        UpdateReached::Written(_, Err(error)) => UpdateStep::Fail(error),
    }
}

/// The next step of an update that makes `change`; `now` is the time of the update.
pub fn update_desired_state_at<E>(
    change: DesiredChange,
    reached: UpdateReached<E>,
    now: u64,
) -> (step: UpdateStep<E>)
    ensures
        step == update_step(change, reached, now),
{
    match reached {
        UpdateReached::Begun => UpdateStep::Load,
        UpdateReached::Loaded(Ok(state)) => UpdateStep::Write(apply_change(state, change, now)),
        UpdateReached::Loaded(Err(error)) => UpdateStep::Fail(error),
        UpdateReached::Written(state, Ok(_)) => UpdateStep::Finish(state),
        UpdateReached::Written(_, Err(error)) => UpdateStep::Fail(error),
    }
}

/// Whether `now` is a time stamp that the system clock can give.
pub open spec fn is_clock_reading(now: u64) -> bool {
    exists|time: std::time::SystemTime| now == #[trigger] timestamp(age_since_epoch(time))
}

/// The next step of an update that makes `change`, stamped with the time of the system clock.
pub fn update_desired_state<E>(
    change: DesiredChange,
    reached: UpdateReached<E>,
) -> (step: UpdateStep<E>)
    ensures
        exists|now: u64| is_clock_reading(now) && step == #[trigger] update_step(change, reached, now),
{
    let now: u64 = unix_timestamp_secs();
    update_desired_state_at(change, reached, now)
}

/// The next step of the update that takes note of a started core.
pub fn persist_core_started<E>(config: &ClashConfig, reached: UpdateReached<E>) -> (step: UpdateStep<E>)
    ensures
        exists|now: u64|
            is_clock_reading(now) && step == #[trigger] update_step(
                DesiredChange::CoreStarted(*config),
                reached,
                now,
            ),
{
    update_desired_state(DesiredChange::CoreStarted(config.clone()), reached)
}

/// The next step of the update that takes note of a stopped core.
pub fn persist_core_stopped<E>(reached: UpdateReached<E>) -> (step: UpdateStep<E>)
    ensures
        exists|now: u64|
            is_clock_reading(now) && step == #[trigger] update_step(
                DesiredChange::CoreStopped,
                reached,
                now,
            ),
{
    update_desired_state(DesiredChange::CoreStopped, reached)
}

/// The next step of the update that takes note of a new configuration of the log.
pub fn persist_writer_config<E>(config: &WriterConfig, reached: UpdateReached<E>) -> (step: UpdateStep<E>)
    ensures
        exists|now: u64|
            is_clock_reading(now) && step == #[trigger] update_step(
                DesiredChange::WriterConfigured(*config),
                reached,
                now,
            ),
{
    update_desired_state(DesiredChange::WriterConfigured(config.clone()), reached)
}

/// How far loading the desired state has come.
#[derive(Debug, PartialEq, Eq)]
pub enum LoadReached<E> {
    Begun,
    /// The file was read, with these contents.
    Read(Vec<u8>),
    /// The file could not be read, for a reason of this sort.
    ReadFailed(ErrorKind, E),
    /// The contents were parsed, or could not be.
    Parsed(Result<DesiredState, E>),
}

/// What loading the desired state does next.
#[derive(Debug, PartialEq, Eq)]
pub enum LoadStep<E> {
    /// Read the file.
    Read,
    /// Parse these bytes.
    Parse(Vec<u8>),
    /// End successfully with this state.
    Finish(DesiredState),
    /// End with this error, in the context of the operation.
    Fail(StateFileOperation, E),
}

/// The step of loading the desired state: a missing file stands for the initial state.
pub open spec fn load_step<E>(reached: LoadReached<E>) -> LoadStep<E> {
    match reached {
        LoadReached::Begun => LoadStep::Read,
        LoadReached::Read(bytes) => LoadStep::Parse(bytes),
        LoadReached::ReadFailed(kind, error) => if kind == ErrorKind::NotFound {
            LoadStep::Finish(DesiredState::initial())
        } else {
            LoadStep::Fail(StateFileOperation::Read, error)
        },
        LoadReached::Parsed(Ok(state)) => LoadStep::Finish(state),
        LoadReached::Parsed(Err(error)) => LoadStep::Fail(StateFileOperation::Parse, error),
    }
}

/// The next step of loading the desired state.
pub fn load_desired_state<E>(reached: LoadReached<E>) -> (step: LoadStep<E>)
    ensures
        step == load_step(reached),
{
    match reached {
        LoadReached::Begun => LoadStep::Read,
        LoadReached::Read(bytes) => LoadStep::Parse(bytes),
        LoadReached::ReadFailed(kind, error) => match kind {
            ErrorKind::NotFound => LoadStep::Finish(DesiredState::default()),
            _ => LoadStep::Fail(StateFileOperation::Read, error),
        },
        LoadReached::Parsed(Ok(state)) => LoadStep::Finish(state),
        LoadReached::Parsed(Err(error)) => LoadStep::Fail(StateFileOperation::Parse, error),
    }
}

/// Operations on the stored state whose failure is reported with a path.
#[derive(Clone, Copy, Debug, PartialEq, Eq, Structural)]
pub enum StateFileOperation {
    Read,
    Parse,
    CreateDirectory,
    WriteTemp,
    MoveIntoPlace,
}

impl StateFileOperation {
    /// What is said of a failure of the operation, before the path.
    pub open spec fn complaint(self) -> Seq<char> {
        match self {
            StateFileOperation::Read => "failed to read desired state "@,
            StateFileOperation::Parse => "failed to parse desired state "@,
            StateFileOperation::CreateDirectory => "failed to create desired state directory "@,
            StateFileOperation::WriteTemp => "failed to write desired state temp file "@,
            StateFileOperation::MoveIntoPlace => "failed to move desired state into "@,
        }
    }

    /// The context of a failure of the operation on a path, which is given as it is to be shown.
    pub fn context(&self, shown_path: &str) -> (context: String)
        ensures
            context@ == self.complaint() + shown_path@,
    {
        match self {
            StateFileOperation::Read => concat_text("failed to read desired state ", shown_path),
            StateFileOperation::Parse => concat_text("failed to parse desired state ", shown_path),
            StateFileOperation::CreateDirectory => concat_text(
                "failed to create desired state directory ",
                shown_path,
            ),
            StateFileOperation::WriteTemp => concat_text(
                "failed to write desired state temp file ",
                shown_path,
            ),
            StateFileOperation::MoveIntoPlace => concat_text(
                "failed to move desired state into ",
                shown_path,
            ),
        }
    }
}

/// How far writing the desired state has come.
#[derive(Debug, PartialEq, Eq)]
pub enum WriteReached<E> {
    /// Writing begins; with the parent directory of the file's path, if that has one.
    Begun(Option<String>),
    /// This directory was created, or could not be.
    DirectoryCreated(String, Result<(), E>),
    /// The state was turned into this text, or could not be.
    Serialized(Result<Vec<u8>, E>),
    /// The temporary file was written, or could not be.
    TempWritten(Result<(), E>),
    /// The temporary file took the place of the file, or could not.
    Moved(Result<(), E>),
}

/// What writing the desired state does next.
#[derive(Debug, PartialEq, Eq)]
pub enum WriteStep<E> {
    /// Create this directory and what leads to it.
    CreateDirectory(String),
    /// Turn the state into text.
    Serialize,
    /// Write this text to the temporary file.
    WriteTemp { temp: String, text: Vec<u8> },
    /// Rename the temporary file to the file.
    MoveIntoPlace { temp: String, target: String },
    /// End successfully.
    Finish,
    /// End with this error, in the context of the operation on this path.
    Fail { operation: StateFileOperation, path: String, error: E },
    /// End with this error of turning the state into text.
    FailToSerialize(E),
}

/// The model of a [`WriteStep`].
pub enum WriteStepView<E> {
    CreateDirectory(Seq<char>),
    Serialize,
    WriteTemp { temp: Seq<char>, text: Seq<u8> },
    MoveIntoPlace { temp: Seq<char>, target: Seq<char> },
    Finish,
    Fail { operation: StateFileOperation, path: Seq<char>, error: E },
    FailToSerialize(E),
}

impl<E> View for WriteStep<E> {
    type V = WriteStepView<E>;

    open spec fn view(&self) -> WriteStepView<E> {
        match *self {
            WriteStep::CreateDirectory(directory) => WriteStepView::CreateDirectory(directory@),
            WriteStep::Serialize => WriteStepView::Serialize,
            WriteStep::WriteTemp { temp, text } => WriteStepView::WriteTemp {
                temp: temp@,
                text: text@,
            },
            WriteStep::MoveIntoPlace { temp, target } => WriteStepView::MoveIntoPlace {
                temp: temp@,
                target: target@,
            },
            WriteStep::Finish => WriteStepView::Finish,
            WriteStep::Fail { operation, path, error } => WriteStepView::Fail {
                operation,
                path: path@,
                error,
            },
            WriteStep::FailToSerialize(error) => WriteStepView::FailToSerialize(error),
        }
    }
}

/// The temporary file for the file at `target`.
pub open spec fn temp_of(target: Seq<char>) -> Seq<char> {
    path_with_extension(target, "json.tmp"@)
}

/// The step of writing the desired state to the file at `target`.
pub open spec fn write_step<E>(target: Seq<char>, reached: WriteReached<E>) -> WriteStepView<E> {
    match reached {
        WriteReached::Begun(Some(directory)) => WriteStepView::CreateDirectory(directory@),
        WriteReached::Begun(None) => WriteStepView::Serialize,
        WriteReached::DirectoryCreated(_, Ok(_)) => WriteStepView::Serialize,
        WriteReached::DirectoryCreated(directory, Err(error)) => WriteStepView::Fail {
            operation: StateFileOperation::CreateDirectory,
            path: directory@,
            error,
        },
        WriteReached::Serialized(Ok(text)) => WriteStepView::WriteTemp { temp: temp_of(target), text: text@ },
        WriteReached::Serialized(Err(error)) => WriteStepView::FailToSerialize(error),
        WriteReached::TempWritten(Ok(_)) => WriteStepView::MoveIntoPlace { temp: temp_of(target), target },
        WriteReached::TempWritten(Err(error)) => WriteStepView::Fail {
            operation: StateFileOperation::WriteTemp,
            path: temp_of(target),
            error,
        },
        WriteReached::Moved(Ok(_)) => WriteStepView::Finish,
        WriteReached::Moved(Err(error)) => WriteStepView::Fail {
            operation: StateFileOperation::MoveIntoPlace,
            path: target,
            error,
        },
    }
}

/// The next step of writing the desired state to the file at `target`.
///
/// Where the name of that file ends in `.json`, the temporary file is named like it with `.tmp`
/// added.
pub fn write_desired_state<E>(target: &str, reached: WriteReached<E>) -> (step: WriteStep<E>)
    ensures
        step@ == write_step(target@, reached),
        forall|stem: Seq<char>|
            ends_in_name(stem) && target@ == #[trigger] (stem + ".json"@) ==> match step@ {
                WriteStepView::WriteTemp { temp, .. } => temp == target@ + ".tmp"@,
                WriteStepView::MoveIntoPlace { temp, .. } => temp == target@ + ".tmp"@,
                _ => true,
            },
{
    match reached {
        WriteReached::Begun(Some(directory)) => WriteStep::CreateDirectory(directory),
        WriteReached::Begun(None) => WriteStep::Serialize,
        WriteReached::DirectoryCreated(_, Ok(_)) => WriteStep::Serialize,
        WriteReached::DirectoryCreated(directory, Err(error)) => WriteStep::Fail {
            operation: StateFileOperation::CreateDirectory,
            path: directory,
            error,
        },
        WriteReached::Serialized(Ok(text)) => WriteStep::WriteTemp { temp: temp_path(target), text },
        WriteReached::Serialized(Err(error)) => WriteStep::FailToSerialize(error),
        WriteReached::TempWritten(Ok(_)) => WriteStep::MoveIntoPlace { temp: temp_path(target), target: target.to_owned() },
        WriteReached::TempWritten(Err(error)) => WriteStep::Fail {
            operation: StateFileOperation::WriteTemp,
            path: temp_path(target),
            error,
        },
        WriteReached::Moved(Ok(_)) => WriteStep::Finish,
        WriteReached::Moved(Err(error)) => WriteStep::Fail {
            operation: StateFileOperation::MoveIntoPlace,
            path: target.to_owned(),
            error,
        },
    }
}

/// How far a restoration has come.
#[derive(Debug)]
pub enum RestoreReached {
    /// The restoration begins; the flag says whether earlier installations may have left files.
    Begun(bool),
    /// What earlier installations left was moved aside, as far as possible.
    LegacyCleaned,
    /// The stored state was loaded, or could not be.
    Loaded(Result<DesiredState, anyhow::Error>),
    /// The configuration of the log in this state was applied; the flag says whether that
    /// succeeded.
    WriterApplied(DesiredState, bool),
    /// The core was started.
    CoreStarted,
    /// The core could not be started.
    CoreFailed(anyhow::Error),
    /// The intent to run the core was withdrawn; the flag says whether that succeeded.
    IntentCleared(bool),
}

/// How a restoration ended.
#[derive(Clone, Copy, Debug, PartialEq, Eq, Structural)]
pub enum RestoreOutcome {
    /// The core is not meant to run.
    NotWanted,
    /// The core is meant to run but there is no configuration to start it with.
    NoConfig,
    /// The core runs.
    Restored,
    /// The core's path no longer exists, and the core is no longer meant to run.
    IntentCleared,
}

/// What the restoration does next.
#[derive(Debug)]
pub enum RestoreStep {
    /// Move aside what earlier installations left; a failure to do so does not matter.
    CleanUpLegacy,
    /// Load the stored state.
    Load,
    /// Write the log as configured here, and go on with the state; a failure to do so does not
    /// matter.
    ApplyWriter(WriterConfig, DesiredState),
    /// Start the core.
    StartCore(ClashConfig),
    /// Store that the core is not meant to run; a failure to do so does not matter.
    ClearIntent,
    /// End successfully.
    Finish(RestoreOutcome),
    /// End with this error.
    Fail(anyhow::Error),
}

/// What becomes of the core once the log is taken care of.
pub open spec fn restore_core_step(state: DesiredState) -> RestoreStep {
    if !state.core_should_be_running {
        RestoreStep::Finish(RestoreOutcome::NotWanted)
    } else {
        match state.last_clash_config {
            Some(config) => RestoreStep::StartCore(config),
            None => RestoreStep::Finish(RestoreOutcome::NoConfig),
        }
    }
}

/// The step of a restoration.
pub open spec fn restore_step(reached: RestoreReached) -> RestoreStep {
    match reached {
        RestoreReached::Begun(legacy) => if legacy {
            RestoreStep::CleanUpLegacy
        } else {
            RestoreStep::Load
        },
        RestoreReached::LegacyCleaned => RestoreStep::Load,
        RestoreReached::Loaded(Ok(state)) => match state.last_writer_config {
            Some(writer) => RestoreStep::ApplyWriter(writer, state),
            None => restore_core_step(state),
        },
        RestoreReached::Loaded(Err(error)) => RestoreStep::Fail(error),
        RestoreReached::WriterApplied(state, _) => restore_core_step(state),
        RestoreReached::CoreStarted => RestoreStep::Finish(RestoreOutcome::Restored),
        RestoreReached::CoreFailed(error) => if error_causes(error).contains(
            Some(ErrorKind::NotFound),
        ) {
            RestoreStep::ClearIntent
        } else {
            RestoreStep::Fail(error)
        },
        RestoreReached::IntentCleared(_) => RestoreStep::Finish(RestoreOutcome::IntentCleared),
    }
}

/// What becomes of the core once the log is taken care of.
fn restore_core(state: DesiredState) -> (step: RestoreStep)
    ensures
        step == restore_core_step(state),
{
    if !state.core_should_be_running {
        return RestoreStep::Finish(RestoreOutcome::NotWanted);
    }
    match state.last_clash_config {
        Some(config) => RestoreStep::StartCore(config),
        None => RestoreStep::Finish(RestoreOutcome::NoConfig),
    }
}

/// The next step of a restoration.
///
/// A state that cannot be loaded ends the restoration with the error of loading. A core path that
/// no longer exists ends the intent to run the core, so that later restorations do not try again;
/// any other failure keeps the intent and is handed on.
pub fn restore_desired_state(reached: RestoreReached) -> (step: RestoreStep)
    ensures
        step == restore_step(reached),
{
    match reached {
        RestoreReached::Begun(legacy) => if legacy {
            RestoreStep::CleanUpLegacy
        } else {
            RestoreStep::Load
        },
        RestoreReached::LegacyCleaned => RestoreStep::Load,
        RestoreReached::Loaded(Ok(state)) => {
            let stored_writer: Option<WriterConfig> = match &state.last_writer_config {
                Some(writer) => Some(writer.clone()),
                None => None,
            };
            match stored_writer {
                Some(writer) => RestoreStep::ApplyWriter(writer, state),
                None => restore_core(state),
            }
        },
        RestoreReached::Loaded(Err(error)) => RestoreStep::Fail(error),
        RestoreReached::WriterApplied(state, _) => restore_core(state),
        RestoreReached::CoreStarted => RestoreStep::Finish(RestoreOutcome::Restored),
        RestoreReached::CoreFailed(error) => if is_not_found_error(&error) {
            RestoreStep::ClearIntent
        } else {
            RestoreStep::Fail(error)
        },
        RestoreReached::IntentCleared(_) => RestoreStep::Finish(RestoreOutcome::IntentCleared),
    }
}

/// The places where earlier installations kept the desired state.
pub open spec fn legacy_files() -> Seq<Seq<char>> {
    seq![
        "/var/lib/clash-service/desired-state.json"@,
        "/var/root/.local/state/clash-service/desired-state.json"@,
        "/var/lib/clash-verge-service/desired-state.json"@,
        "/var/root/.local/state/clash-verge-service/desired-state.json"@,
    ]
}

/// The places where earlier installations kept the desired state, in the order in which they are
/// cleaned up.
pub fn legacy_desired_state_files() -> (files: Vec<&'static str>)
    ensures
        files@.map_values(|file: &'static str| file@) == legacy_files(),
{
    let files = vec![
        "/var/lib/clash-service/desired-state.json",
        "/var/root/.local/state/clash-service/desired-state.json",
        "/var/lib/clash-verge-service/desired-state.json",
        "/var/root/.local/state/clash-verge-service/desired-state.json",
    ];
    assert(files@.map_values(|file: &'static str| file@) =~= legacy_files());
    files
}

/// Whether a file is there; that may be impossible to find out.
#[derive(Clone, Copy, Debug, PartialEq, Eq, Structural)]
pub enum FilePresence {
    Present,
    Absent,
    Unknown,
}

/// How far the clean-up of what earlier installations left has come. The files are numbered in the
/// order of [`legacy_desired_state_files`].
#[derive(Clone, Copy, Debug, PartialEq, Eq, Structural)]
pub enum LegacyReached {
    Begun,
    /// The file of this number was looked for.
    LookedFor(usize, FilePresence),
    /// The file of this number was moved aside; the flag says whether that succeeded.
    MovedAside(usize, bool),
}

/// What the clean-up does next.
#[derive(Debug, PartialEq, Eq)]
pub enum LegacyStep {
    /// Look whether the file of this number is there.
    LookFor { number: usize, file: &'static str },
    /// Rename the file of this number; a failure to do so does not matter.
    MoveAside { number: usize, file: &'static str, target: String },
    /// End.
    Finish,
}

/// The model of a [`LegacyStep`].
pub enum LegacyStepView {
    LookFor { number: int, file: Seq<char> },
    MoveAside { number: int, file: Seq<char>, target: Seq<char> },
    Finish,
}

impl View for LegacyStep {
    type V = LegacyStepView;

    open spec fn view(&self) -> LegacyStepView {
        match *self {
            LegacyStep::LookFor { number, file } => LegacyStepView::LookFor {
                number: number as int,
                file: file@,
            },
            LegacyStep::MoveAside { number, file, target } => LegacyStepView::MoveAside {
                number: number as int,
                file: file@,
                target: target@,
            },
            LegacyStep::Finish => LegacyStepView::Finish,
        }
    }
}

/// The step that looks for the file of this number, or ends if there is no such number.
pub open spec fn look_for_legacy(number: int) -> LegacyStepView {
    if number < legacy_files().len() {
        LegacyStepView::LookFor { number, file: legacy_files()[number] }
    } else {
        LegacyStepView::Finish
    }
}

/// The step of the clean-up: a file that is there is moved aside, under its name with
/// `.legacy.bak` added, and the next is looked for.
pub open spec fn legacy_step(reached: LegacyReached) -> LegacyStepView {
    match reached {
        LegacyReached::Begun => look_for_legacy(0),
        LegacyReached::LookedFor(number, presence) => if presence == FilePresence::Present && number
            < legacy_files().len() {
            LegacyStepView::MoveAside {
                number: number as int,
                file: legacy_files()[number as int],
                target: legacy_files()[number as int] + ".legacy.bak"@,
            }
        } else {
            look_for_legacy(number + 1)
        },
        LegacyReached::MovedAside(number, _) => look_for_legacy(number + 1),
    }
}

/// The step that looks for the file after that of this number, or ends.
fn look_for_next(number: usize) -> (step: LegacyStep)
    ensures
        step@ == look_for_legacy(number + 1),
{
    let files = legacy_desired_state_files();
    proof {
        lemma_legacy_file_texts(files@);
    }
    if number < files.len() - 1 {
        LegacyStep::LookFor { number: number + 1, file: files[number + 1] }
    } else {
        LegacyStep::Finish
    }
}

/// The texts of the legacy files, one by one.
proof fn lemma_legacy_file_texts(files: Seq<&'static str>)
    requires
        files.map_values(|file: &'static str| file@) == legacy_files(),
    ensures
        files.len() == legacy_files().len(),
        forall|i: int| 0 <= i < files.len() ==> (#[trigger] files[i])@ == legacy_files()[i],
{
    let texts = files.map_values(|file: &'static str| file@);
    assert(texts.len() == files.len());
    assert forall|i: int| 0 <= i < files.len() implies (#[trigger] files[i])@
        == legacy_files()[i] by {
        assert(texts[i] == files[i]@);
    }
}

/// The next step of the clean-up of what earlier installations left.
pub fn cleanup_legacy_desired_state(reached: LegacyReached) -> (step: LegacyStep)
    ensures
        step@ == legacy_step(reached),
{
    let files = legacy_desired_state_files();
    proof {
        lemma_legacy_file_texts(files@);
    }
    match reached {
        LegacyReached::Begun => LegacyStep::LookFor { number: 0, file: files[0] },
        LegacyReached::LookedFor(number, presence) => if presence == FilePresence::Present && number
            < files.len() {
            let file: &'static str = files[number];
            proof {
                law_legacy_files_are_json(number as int);
            }
            LegacyStep::MoveAside { number, file, target: legacy_backup_path(file) }
        } else {
            look_for_next(number)
        },
        LegacyReached::MovedAside(number, _) => look_for_next(number),
    }
}

} // verus!
