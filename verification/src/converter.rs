//! The handling of one file, stage by stage. Each stage names the one piece
//! of outside work that is due; `Converter::advance` takes its result and
//! says what comes next. Whoever drives a file runs the prober, looks at the
//! disk and runs the encoder, and decides nothing.

use vstd::prelude::*;
use vstd::string::*;
use crate::config::Config;
use crate::ffmpeg::{analysis, EncodeError, FFmpeg, ProbeError};
use crate::scheduler::{Progress, Scheduler};
use crate::text::opt_text;
use crate::types::{Action, ConversionMode, FFProbeOutput, MediaFile, OutputPath};

verus! {

/// Why a file was not converted.
#[derive(Debug, Clone, PartialEq, Eq)]
pub enum Failure {
    /// The file could not be probed, or has no video stream.
    Analysis(ProbeError),
    /// The output file exists and may not be overwritten.
    OutputExists,
    /// The output directory could not be created.
    CreateDir,
    /// The encoder failed.
    Encode(EncodeError),
}

/// How the handling of one file ended.
#[derive(Debug, Clone, PartialEq, Eq)]
pub enum Outcome {
    /// The file was converted, or would have been in a dry run.
    Success,
    /// The file needed no conversion.
    Skipped,
    Failed(Failure),
}

/// Where the handling of one file stands: the outside work that is due next,
/// or the outcome.
#[derive(Debug, Clone, PartialEq, Eq)]
pub enum Stage {
    /// The file is to be probed.
    Probe,
    /// It is to be found out whether the output file exists.
    CheckOutput(Action),
    /// The output directory is to be created.
    CreateDir(Action),
    /// The encoder is to be run.
    Encode(Action),
    /// Nothing is left to do.
    Done(Outcome),
}

/// The result of a piece of outside work.
#[derive(Debug, PartialEq, Eq)]
pub enum Event {
    /// The prober ran, or failed to.
    Probed(Result<FFProbeOutput, ProbeError>),
    /// The output path was looked up.
    OutputChecked { exists: bool },
    /// The output directory was asked for.
    DirCreated { ok: bool },
    /// The encoder ran, or failed to.
    Encoded(Result<(), EncodeError>),
}

/// What the world outside answers while one file is handled.
pub struct Answers {
    pub probe: Result<FFProbeOutput, ProbeError>,
    pub output_exists: bool,
    pub dir_created: bool,
    pub encoded: Result<(), EncodeError>,
}

impl Failure {
    /// The message of the failure as text.
    pub open spec fn message_text(self) -> Seq<char> {
        match self {
            Failure::Analysis(_) => "Analysis failed"@,
            Failure::OutputExists => "File exists (use --force to overwrite)"@,
            Failure::CreateDir => "Failed to create output directory"@,
            Failure::Encode(e) => e.message_text(),
        }
    }

    /// The message that is logged for the file.
    pub fn message(&self) -> (r: String)
        ensures
            r@ == self.message_text(),
    {
        match self {
            Failure::Analysis(_) => "Analysis failed".to_owned(),
            Failure::OutputExists => "File exists (use --force to overwrite)".to_owned(),
            Failure::CreateDir => "Failed to create output directory".to_owned(),
            Failure::Encode(e) => e.message(),
        }
    }
}

impl Stage {
    /// The encoder is only ever asked to write a file: an action that writes
    /// none is never carried into the last two stages.
    pub open spec fn wf(self) -> bool {
        match self {
            Stage::CreateDir(action) => action != Action::Skip,
            Stage::Encode(action) => action != Action::Skip,
            _ => true,
        }
    }
}

/// The suffix that is added to the file's stem.
pub open spec fn output_suffix(mode: ConversionMode) -> Seq<char> {
    match mode {
        ConversionMode::Export => "_export"@,
        ConversionMode::Editing => "_converted"@,
    }
}

/// The extension of the container that is written.
pub open spec fn output_extension(mode: ConversionMode) -> Seq<char> {
    match mode {
        ConversionMode::Export => "mp4"@,
        ConversionMode::Editing => "mov"@,
    }
}

/// The name of the output file for a source file with the given stem.
pub open spec fn output_file_name(stem: Seq<char>, mode: ConversionMode) -> Seq<char> {
    stem + output_suffix(mode) + "."@ + output_extension(mode)
}

/// The stage after the output path was found free, or may be overwritten.
pub open spec fn after_check(action: Action, dry_run: bool) -> Stage {
    if action == Action::Skip {
        Stage::Done(Outcome::Skipped)
    } else if dry_run {
        Stage::Done(Outcome::Success)
    } else {
        Stage::CreateDir(action)
    }
}

/// The stage after a probe that found the given streams.
pub open spec fn after_probe(probe: FFProbeOutput, file: MediaFile, config: Config) -> Stage {
    match analysis(probe@, opt_text(file.extension), config.mode, config.codec) {
        None => Stage::Done(Outcome::Failed(Failure::Analysis(ProbeError::NoVideoStream))),
        Some(action) => if config.force {
            after_check(action, config.dry_run)
        } else {
            Stage::CheckOutput(action)
        },
    }
}

/// The stage that follows `stage` once `event` has come in. An event that
/// does not answer the stage leaves it as it is.
pub open spec fn next_stage(stage: Stage, event: Event, file: MediaFile, config: Config) -> Stage {
    match (stage, event) {
        (Stage::Probe, Event::Probed(Err(e))) => Stage::Done(
            Outcome::Failed(Failure::Analysis(e)),
        ),
        (Stage::Probe, Event::Probed(Ok(probe))) => after_probe(probe, file, config),
        (Stage::CheckOutput(action), Event::OutputChecked { exists }) => if exists
            && !config.force {
            Stage::Done(Outcome::Failed(Failure::OutputExists))
        } else {
            after_check(action, config.dry_run)
        },
        (Stage::CreateDir(action), Event::DirCreated { ok }) => if ok {
            Stage::Encode(action)
        } else {
            Stage::Done(Outcome::Failed(Failure::CreateDir))
        },
        (Stage::Encode(_), Event::Encoded(Ok(_))) => Stage::Done(Outcome::Success),
        (Stage::Encode(_), Event::Encoded(Err(e))) => Stage::Done(
            Outcome::Failed(Failure::Encode(e)),
        ),
        _ => stage,
    }
}

/// The event with which the world answers a stage.
pub open spec fn answer(stage: Stage, world: Answers) -> Event {
    match stage {
        Stage::Probe => Event::Probed(world.probe),
        Stage::CheckOutput(_) => Event::OutputChecked { exists: world.output_exists },
        Stage::CreateDir(_) => Event::DirCreated { ok: world.dir_created },
        Stage::Encode(_) => Event::Encoded(world.encoded),
        Stage::Done(_) => Event::OutputChecked { exists: world.output_exists },
    }
}

/// The stage that is reached from `stage` after `steps` answers of the world.
pub open spec fn stage_after(
    stage: Stage,
    world: Answers,
    file: MediaFile,
    config: Config,
    steps: nat,
) -> Stage
    decreases steps,
{
    if steps == 0 {
        stage
    } else {
        stage_after(
            next_stage(stage, answer(stage, world), file, config),
            world,
            file,
            config,
            (steps - 1) as nat,
        )
    }
}

/// How the handling of a file ends, given what the world answers: the first
/// of the listed conditions that holds decides.
pub open spec fn outcome_of(world: Answers, file: MediaFile, config: Config) -> Outcome {
    match world.probe {
        Err(e) => Outcome::Failed(Failure::Analysis(e)),
        Ok(probe) => match analysis(probe@, opt_text(file.extension), config.mode, config.codec) {
            None => Outcome::Failed(Failure::Analysis(ProbeError::NoVideoStream)),
            Some(action) => if !config.force && world.output_exists {
                Outcome::Failed(Failure::OutputExists)
            } else if action == Action::Skip {
                Outcome::Skipped
            } else if config.dry_run {
                Outcome::Success
            } else if !world.dir_created {
                Outcome::Failed(Failure::CreateDir)
            } else {
                match world.encoded {
                    Ok(_) => Outcome::Success,
                    Err(e) => Outcome::Failed(Failure::Encode(e)),
                }
            },
        },
    }
}

/// Whether the encoder is run at some point while the file is handled.
pub open spec fn encoder_runs(world: Answers, file: MediaFile, config: Config) -> bool {
    exists|steps: nat| stage_after(Stage::Probe, world, file, config, steps) is Encode
}

/// Converts the files of one run.
#[derive(Debug, Clone, PartialEq, Eq)]
pub struct Converter {
    config: Config,
}

impl Converter {
    /// The settings of the run.
    pub closed spec fn settings(&self) -> Config {
        self.config
    }

    /// A converter with the given settings.
    pub fn new(config: Config) -> (r: Converter)
        ensures
            r.settings() == config,
    {
        Converter { config }
    }

    /// The settings of the run.
    pub fn config(&self) -> (r: &Config)
        ensures
            *r == self.settings(),
    {
        &self.config
    }

    /// Where the converted file is written: in the output directory of the
    /// settings, or beside the source where none is set, under the source's
    /// stem with the mode's suffix and extension.
    pub fn get_output_path(file: &MediaFile, config: &Config) -> (r: OutputPath)
        ensures
            r.dir@ == (match config.output_dir {
                Some(dir) => dir@,
                None => file.parent@,
            }),
            r.file_name@ == output_file_name(file.stem@, config.mode),
    {
        let dir = match &config.output_dir {
            Some(dir) => dir.clone(),
            None => file.parent.clone(),
        };
        let (suffix, ext) = match config.mode {
            ConversionMode::Export => ("_export", "mp4"),
            ConversionMode::Editing => ("_converted", "mov"),
        };
        let mut file_name = file.stem.clone();
        file_name.append(suffix);
        file_name.append(".");
        file_name.append(ext);
        OutputPath { dir, file_name }
    }

    /// The scheduler for a run over `files` files, or `None` where there is
    /// no file: then there is nothing to run and nothing to count. The
    /// scheduler admits as many files at once as the settings have workers.
    pub fn schedule(&self, files: usize) -> (r: Option<Scheduler>)
        ensures
            files == 0 ==> r is None,
            files > 0 ==> (r matches Some(s) && s@ == Progress::initial(
                files as nat,
                self.settings().workers as nat,
            )),
    {
        if files == 0 {
            None
        } else {
            Some(Scheduler::new(files, self.config.workers))
        }
    }

    /// What is due first for every file.
    pub fn start() -> (r: Stage)
        ensures
            r == Stage::Probe,
    {
        Stage::Probe
    }

    /// The stage that follows `stage` once `event` has come in.
    pub fn advance(stage: Stage, event: Event, file: &MediaFile, config: &Config) -> (r: Stage)
        ensures
            r == next_stage(stage, event, *file, *config),
    {
        match stage {
            Stage::Probe => match event {
                Event::Probed(Err(e)) => Stage::Done(Outcome::Failed(Failure::Analysis(e))),
                Event::Probed(Ok(probe)) => match FFmpeg::analyze(&probe, file, config) {
                    Err(e) => Stage::Done(Outcome::Failed(Failure::Analysis(e))),
                    Ok(action) => if config.force {
                        Self::proceed(action, config.dry_run)
                    } else {
                        Stage::CheckOutput(action)
                    },
                },
                _ => Stage::Probe,
            },
            Stage::CheckOutput(action) => match event {
                Event::OutputChecked { exists } => if exists && !config.force {
                    Stage::Done(Outcome::Failed(Failure::OutputExists))
                } else {
                    Self::proceed(action, config.dry_run)
                },
                _ => Stage::CheckOutput(action),
            },
            Stage::CreateDir(action) => match event {
                Event::DirCreated { ok } => if ok {
                    Stage::Encode(action)
                } else {
                    Stage::Done(Outcome::Failed(Failure::CreateDir))
                },
                _ => Stage::CreateDir(action),
            },
            Stage::Encode(action) => match event {
                Event::Encoded(Ok(_)) => Stage::Done(Outcome::Success),
                Event::Encoded(Err(e)) => Stage::Done(Outcome::Failed(Failure::Encode(e))),
                _ => Stage::Encode(action),
            },
            Stage::Done(outcome) => Stage::Done(outcome),
        }
    }

    /// The stage after the output path was found free, or may be overwritten.
    pub fn proceed(action: Action, dry_run: bool) -> (r: Stage)
        ensures
            r == after_check(action, dry_run),
    {
        match action {
            Action::Skip => Stage::Done(Outcome::Skipped),
            _ => if dry_run {
                Stage::Done(Outcome::Success)
            } else {
                Stage::CreateDir(action)
            },
        }
    }
}

/// Every stage that follows a well-formed stage is well-formed.
pub proof fn lemma_next_stage_wf(stage: Stage, event: Event, file: MediaFile, config: Config)
    requires
        stage.wf(),
    ensures
        next_stage(stage, event, file, config).wf(),
{
}

/// Once a file is done, nothing that comes in changes its outcome.
pub proof fn lemma_done_is_final(outcome: Outcome, event: Event, file: MediaFile, config: Config)
    ensures
        next_stage(Stage::Done(outcome), event, file, config) == Stage::Done(outcome),
{
}

/// A file that is done stays done, however many more answers come in.
pub proof fn lemma_done_stays(
    outcome: Outcome,
    world: Answers,
    file: MediaFile,
    config: Config,
    steps: nat,
)
    ensures
        stage_after(Stage::Done(outcome), world, file, config, steps) == Stage::Done(outcome),
    decreases steps,
{
    if steps > 0 {
        lemma_done_stays(outcome, world, file, config, (steps - 1) as nat);
    }
}

/// Following a stage for `a + b` answers is following it for `a` answers and
/// then for `b` more.
pub proof fn lemma_stage_after_add(
    stage: Stage,
    world: Answers,
    file: MediaFile,
    config: Config,
    a: nat,
    b: nat,
)
    ensures
        stage_after(stage, world, file, config, a + b) == stage_after(
            stage_after(stage, world, file, config, a),
            world,
            file,
            config,
            b,
        ),
    decreases a,
{
    if a > 0 {
        lemma_stage_after_add(
            next_stage(stage, answer(stage, world), file, config),
            world,
            file,
            config,
            (a - 1) as nat,
            b,
        );
    }
}

/// Every file comes to exactly one outcome, after at most four pieces of
/// outside work, and that outcome is `outcome_of`: whatever the world
/// answers, the file ends as a success, as skipped or as failed.
pub proof fn lemma_every_file_ends(world: Answers, file: MediaFile, config: Config, steps: nat)
    requires
        steps >= 4,
    ensures
        stage_after(Stage::Probe, world, file, config, steps) == Stage::Done(
            outcome_of(world, file, config),
        ),
{
    reveal_with_fuel(stage_after, 5);
    let end = stage_after(Stage::Probe, world, file, config, 4);
    assert(end == Stage::Done(outcome_of(world, file, config)));
    lemma_stage_after_add(Stage::Probe, world, file, config, 4, (steps - 4) as nat);
    lemma_done_stays(outcome_of(world, file, config), world, file, config, (steps - 4) as nat);
}

/// The stages that a file goes through are those of `outcome_of`: the
/// encoder is run exactly for a file that was probed, has a video stream,
/// is neither skipped nor blocked by an existing output, in a run that is
/// not a dry run, once its output directory is there.
pub proof fn lemma_encoder_runs_iff(world: Answers, file: MediaFile, config: Config)
    ensures
        encoder_runs(world, file, config) <==> (world.probe matches Ok(probe) && analysis(
            probe@,
            opt_text(file.extension),
            config.mode,
            config.codec,
        ) matches Some(action) && action != Action::Skip && !(!config.force && world.output_exists)
            && !config.dry_run && world.dir_created),
{
    reveal_with_fuel(stage_after, 5);
    let at = |steps: nat| stage_after(Stage::Probe, world, file, config, steps);
    assert forall|steps: nat| steps >= 4 implies !(#[trigger] stage_after(
        Stage::Probe,
        world,
        file,
        config,
        steps,
    ) is Encode) by {
        lemma_every_file_ends(world, file, config, steps);
    }
    assert(!(at(0) is Encode));
    assert(!(at(1) is Encode));
    if encoder_runs(world, file, config) {
        let steps = choose|steps: nat| stage_after(Stage::Probe, world, file, config, steps) is Encode;
        assert(steps == 2 || steps == 3);
    }
    if world.probe matches Ok(probe) && analysis(
        probe@,
        opt_text(file.extension),
        config.mode,
        config.codec,
    ) matches Some(action) && action != Action::Skip && !(!config.force && world.output_exists)
        && !config.dry_run && world.dir_created {
        if config.force {
            assert(at(2) is Encode);
        } else {
            assert(at(3) is Encode);
        }
    }
}

/// A file whose output is already there is not converted again unless
/// overwriting is asked for: whatever the action would be, the file fails,
/// and the encoder is not run. So a second run over files that the first run
/// converted encodes none of them again.
pub proof fn lemma_existing_output_is_kept(world: Answers, file: MediaFile, config: Config)
    requires
        !config.force,
        world.output_exists,
    ensures
        outcome_of(world, file, config) is Failed,
        !encoder_runs(world, file, config),
        world.probe matches Ok(probe) && analysis(
            probe@,
            opt_text(file.extension),
            config.mode,
            config.codec,
        ) is Some ==> outcome_of(world, file, config) == Outcome::Failed(Failure::OutputExists),
{
    lemma_encoder_runs_iff(world, file, config);
}

/// Running twice does not convert twice. Take a run that is no dry run and
/// may not overwrite, and a file that it converted. If what the encoder
/// wrote is still there when the file is handled again with the same
/// settings, the file fails and the encoder is not run, whatever else the
/// world answers the second time.
pub proof fn lemma_second_run_converts_nothing_again(
    first: Answers,
    second: Answers,
    file: MediaFile,
    config: Config,
)
    requires
        !config.force,
        !config.dry_run,
        outcome_of(first, file, config) == Outcome::Success,
        encoder_runs(first, file, config) ==> second.output_exists,
    ensures
        encoder_runs(first, file, config),
        outcome_of(second, file, config) is Failed,
        !encoder_runs(second, file, config),
{
    lemma_encoder_runs_iff(first, file, config);
    lemma_existing_output_is_kept(second, file, config);
}

/// How a file ends does not depend on the number of workers: with the same
/// answers of the world, the file has the same outcome in a run with any
/// other number of them.
pub proof fn lemma_outcome_does_not_depend_on_workers(
    world: Answers,
    file: MediaFile,
    config: Config,
    workers: usize,
)
    ensures
        outcome_of(world, file, Config { workers, ..config }) == outcome_of(world, file, config),
        encoder_runs(world, file, Config { workers, ..config }) == encoder_runs(
            world,
            file,
            config,
        ),
{
    lemma_encoder_runs_iff(world, file, config);
    lemma_encoder_runs_iff(world, file, Config { workers, ..config });
}

/// A dry run never runs the encoder, and changes no decision: a file that
/// would be skipped is skipped, a file that would be rewrapped or encoded
/// counts as a success, and a file that fails before the encoder is due
/// fails in the same way.
pub proof fn lemma_dry_run_only_leaves_out_the_encoder(
    world: Answers,
    file: MediaFile,
    config: Config,
)
    requires
        config.dry_run,
    ensures
        !encoder_runs(world, file, config),
        outcome_of(world, file, config) == match outcome_of(
            world,
            file,
            Config { dry_run: false, ..config },
        ) {
            Outcome::Skipped => Outcome::Skipped,
            Outcome::Success => Outcome::Success,
            Outcome::Failed(Failure::Analysis(e)) => Outcome::Failed(Failure::Analysis(e)),
            Outcome::Failed(Failure::OutputExists) => Outcome::Failed(Failure::OutputExists),
            Outcome::Failed(Failure::CreateDir) => Outcome::Success,
            Outcome::Failed(Failure::Encode(_)) => Outcome::Success,
        },
{
    lemma_encoder_runs_iff(world, file, config);
}

} // verus!
