use davinci_convertor::config::Config;
use davinci_convertor::converter::{Converter, Event, Failure, Outcome, Stage};
use davinci_convertor::ffmpeg::{EncodeError, ProbeError};
use davinci_convertor::types::{
    Action, Codec, ConversionMode, FFProbeOutput, MediaFile, OutputPath, Stream,
};

fn config(mode: ConversionMode) -> Config {
    Config {
        path: "/videos".to_string(),
        output_dir: None,
        mode,
        codec: Codec::DnxHR,
        quality: "hq".to_string(),
        verbose: false,
        force: false,
        workers: 2,
        dry_run: false,
    }
}

fn file(stem: &str, extension: &str) -> MediaFile {
    MediaFile {
        path: format!("/videos/{}.{}", stem, extension),
        parent: "/videos".to_string(),
        stem: stem.to_string(),
        extension: Some(extension.to_string()),
    }
}

fn video(codec_name: &str) -> FFProbeOutput {
    FFProbeOutput {
        streams: vec![
            Stream { codec_name: codec_name.to_string(), codec_type: "video".to_string() },
            Stream { codec_name: "aac".to_string(), codec_type: "audio".to_string() },
        ],
    }
}

struct World {
    probe: Result<FFProbeOutput, ProbeError>,
    output_exists: bool,
    dir_created: bool,
    encoded: Result<(), EncodeError>,
}

fn kind_world(codec_name: &str) -> World {
    World { probe: Ok(video(codec_name)), output_exists: false, dir_created: true, encoded: Ok(()) }
}

/// Drives one file to its end and returns the stages it went through.
fn drive(world: &World, source: &MediaFile, settings: &Config) -> Vec<Stage> {
    let mut stages = vec![Converter::start()];
    loop {
        let stage = stages.last().unwrap().clone();
        let event = match &stage {
            Stage::Probe => Event::Probed(world.probe.clone()),
            Stage::CheckOutput(_) => Event::OutputChecked { exists: world.output_exists },
            Stage::CreateDir(_) => Event::DirCreated { ok: world.dir_created },
            Stage::Encode(_) => Event::Encoded(world.encoded.clone()),
            Stage::Done(_) => return stages,
        };
        stages.push(Converter::advance(stage, event, source, settings));
        assert!(stages.len() <= 5);
    }
}

fn outcome(stages: &[Stage]) -> Outcome {
    match stages.last() {
        Some(Stage::Done(outcome)) => outcome.clone(),
        other => panic!("not done: {:?}", other),
    }
}

#[test]
fn converter_keeps_its_settings() {
    let settings = config(ConversionMode::Export);
    let converter = Converter::new(settings.clone());
    assert_eq!(converter.config(), &settings);
}

#[test]
fn output_goes_beside_the_source() {
    assert_eq!(
        Converter::get_output_path(&file("clip", "mkv"), &config(ConversionMode::Export)),
        OutputPath { dir: "/videos".to_string(), file_name: "clip_export.mp4".to_string() }
    );
    assert_eq!(
        Converter::get_output_path(&file("clip", "mkv"), &config(ConversionMode::Editing)),
        OutputPath { dir: "/videos".to_string(), file_name: "clip_converted.mov".to_string() }
    );
}

#[test]
fn output_goes_to_the_directory_that_is_set() {
    let mut settings = config(ConversionMode::Editing);
    settings.output_dir = Some("/out/dailies".to_string());
    assert_eq!(
        Converter::get_output_path(&file("a.b", "mp4"), &settings),
        OutputPath { dir: "/out/dailies".to_string(), file_name: "a.b_converted.mov".to_string() }
    );
}

#[test]
fn output_name_keeps_the_stem_as_it_is() {
    let source = MediaFile {
        path: "noext".to_string(),
        parent: String::new(),
        stem: "noext".to_string(),
        extension: None,
    };
    assert_eq!(
        Converter::get_output_path(&source, &config(ConversionMode::Export)),
        OutputPath { dir: String::new(), file_name: "noext_export.mp4".to_string() }
    );
}

#[test]
fn every_file_starts_with_the_probe() {
    assert_eq!(Converter::start(), Stage::Probe);
}

#[test]
fn a_converted_file_goes_through_every_stage() {
    let stages = drive(&kind_world("hevc"), &file("a", "mkv"), &config(ConversionMode::Export));
    assert_eq!(
        stages,
        vec![
            Stage::Probe,
            Stage::CheckOutput(Action::Convert),
            Stage::CreateDir(Action::Convert),
            Stage::Encode(Action::Convert),
            Stage::Done(Outcome::Success),
        ]
    );
}

#[test]
fn a_rewrapped_file_goes_through_every_stage() {
    let stages = drive(&kind_world("dnxhd"), &file("a", "mxf"), &config(ConversionMode::Editing));
    assert_eq!(
        stages,
        vec![
            Stage::Probe,
            Stage::CheckOutput(Action::Rewrap),
            Stage::CreateDir(Action::Rewrap),
            Stage::Encode(Action::Rewrap),
            Stage::Done(Outcome::Success),
        ]
    );
}

#[test]
fn a_failed_probe_fails_the_file() {
    let mut world = kind_world("h264");
    world.probe = Err(ProbeError::ExitStatus("exit status: 1".to_string()));
    let stages = drive(&world, &file("a", "mp4"), &config(ConversionMode::Export));
    assert_eq!(
        stages,
        vec![
            Stage::Probe,
            Stage::Done(Outcome::Failed(Failure::Analysis(ProbeError::ExitStatus(
                "exit status: 1".to_string()
            )))),
        ]
    );
}

#[test]
fn a_file_without_video_fails() {
    let mut world = kind_world("h264");
    world.probe = Ok(FFProbeOutput {
        streams: vec![Stream { codec_name: "mp3".to_string(), codec_type: "audio".to_string() }],
    });
    let stages = drive(&world, &file("a", "mp4"), &config(ConversionMode::Export));
    assert_eq!(
        outcome(&stages),
        Outcome::Failed(Failure::Analysis(ProbeError::NoVideoStream))
    );
    assert_eq!(stages.len(), 2);
}

#[test]
fn an_existing_output_fails_the_file() {
    let mut world = kind_world("hevc");
    world.output_exists = true;
    let stages = drive(&world, &file("a", "mkv"), &config(ConversionMode::Export));
    assert_eq!(
        stages,
        vec![
            Stage::Probe,
            Stage::CheckOutput(Action::Convert),
            Stage::Done(Outcome::Failed(Failure::OutputExists)),
        ]
    );
}

#[test]
fn an_existing_output_fails_even_a_file_that_would_be_skipped() {
    let mut world = kind_world("h264");
    world.output_exists = true;
    let stages = drive(&world, &file("a", "mp4"), &config(ConversionMode::Export));
    assert_eq!(
        stages,
        vec![
            Stage::Probe,
            Stage::CheckOutput(Action::Skip),
            Stage::Done(Outcome::Failed(Failure::OutputExists)),
        ]
    );
}

#[test]
fn force_overwrites_without_looking() {
    let mut world = kind_world("hevc");
    world.output_exists = true;
    let mut settings = config(ConversionMode::Export);
    settings.force = true;
    let stages = drive(&world, &file("a", "mkv"), &settings);
    assert_eq!(
        stages,
        vec![
            Stage::Probe,
            Stage::CreateDir(Action::Convert),
            Stage::Encode(Action::Convert),
            Stage::Done(Outcome::Success),
        ]
    );
}

#[test]
fn a_compatible_file_is_skipped() {
    let stages = drive(&kind_world("h264"), &file("a", "mp4"), &config(ConversionMode::Export));
    assert_eq!(
        stages,
        vec![Stage::Probe, Stage::CheckOutput(Action::Skip), Stage::Done(Outcome::Skipped)]
    );
}

#[test]
fn a_dry_run_stops_before_the_directory() {
    let mut settings = config(ConversionMode::Export);
    settings.dry_run = true;
    let stages = drive(&kind_world("hevc"), &file("a", "mkv"), &settings);
    assert_eq!(
        stages,
        vec![Stage::Probe, Stage::CheckOutput(Action::Convert), Stage::Done(Outcome::Success)]
    );
}

#[test]
fn a_dry_run_never_reaches_the_encoder() {
    for mode in [ConversionMode::Export, ConversionMode::Editing] {
        for codec_name in ["h264", "dnxhd", "prores", "hevc"] {
            for extension in ["mp4", "mov", "mkv"] {
                for force in [false, true] {
                    for exists in [false, true] {
                        let mut settings = config(mode);
                        settings.dry_run = true;
                        settings.force = force;
                        let mut world = kind_world(codec_name);
                        world.output_exists = exists;
                        let stages = drive(&world, &file("a", extension), &settings);
                        assert!(stages.iter().all(|s| !matches!(s, Stage::Encode(_))));
                        assert!(stages.iter().all(|s| !matches!(s, Stage::CreateDir(_))));
                    }
                }
            }
        }
    }
}

#[test]
fn a_dry_run_changes_no_decision() {
    let mut dry = config(ConversionMode::Editing);
    dry.dry_run = true;
    let wet = config(ConversionMode::Editing);
    let skipped = file("a", "mov");
    assert_eq!(outcome(&drive(&kind_world("dnxhd"), &skipped, &dry)), Outcome::Skipped);
    assert_eq!(outcome(&drive(&kind_world("dnxhd"), &skipped, &wet)), Outcome::Skipped);
    let rewrapped = file("a", "mxf");
    assert_eq!(outcome(&drive(&kind_world("dnxhd"), &rewrapped, &dry)), Outcome::Success);
    assert_eq!(outcome(&drive(&kind_world("dnxhd"), &rewrapped, &wet)), Outcome::Success);
    let converted = file("a", "mp4");
    assert_eq!(outcome(&drive(&kind_world("h264"), &converted, &dry)), Outcome::Success);
}

#[test]
fn a_dry_run_still_fails_on_an_existing_output() {
    let mut settings = config(ConversionMode::Export);
    settings.dry_run = true;
    let mut world = kind_world("hevc");
    world.output_exists = true;
    assert_eq!(
        outcome(&drive(&world, &file("a", "mkv"), &settings)),
        Outcome::Failed(Failure::OutputExists)
    );
}

#[test]
fn a_directory_that_cannot_be_made_fails_the_file() {
    let mut world = kind_world("hevc");
    world.dir_created = false;
    let stages = drive(&world, &file("a", "mkv"), &config(ConversionMode::Export));
    assert_eq!(
        stages,
        vec![
            Stage::Probe,
            Stage::CheckOutput(Action::Convert),
            Stage::CreateDir(Action::Convert),
            Stage::Done(Outcome::Failed(Failure::CreateDir)),
        ]
    );
}

#[test]
fn a_failed_encoder_fails_the_file() {
    let mut world = kind_world("hevc");
    world.encoded = Err(EncodeError::ExitStatus("exit status: 1".to_string()));
    let stages = drive(&world, &file("a", "mkv"), &config(ConversionMode::Export));
    assert_eq!(
        outcome(&stages),
        Outcome::Failed(Failure::Encode(EncodeError::ExitStatus("exit status: 1".to_string())))
    );
    assert_eq!(stages.len(), 5);
}

#[test]
fn a_second_run_does_not_encode_again() {
    let settings = config(ConversionMode::Export);
    let source = file("b", "mov");
    let mut world = kind_world("dnxhd");
    let first = drive(&world, &source, &settings);
    assert_eq!(outcome(&first), Outcome::Success);
    assert!(first.contains(&Stage::Encode(Action::Convert)));
    world.output_exists = true;
    let second = drive(&world, &source, &settings);
    assert_eq!(outcome(&second), Outcome::Failed(Failure::OutputExists));
    assert!(second.iter().all(|s| !matches!(s, Stage::Encode(_))));
}

#[test]
fn an_event_that_answers_another_stage_changes_nothing() {
    let settings = config(ConversionMode::Export);
    let source = file("a", "mkv");
    assert_eq!(
        Converter::advance(Stage::Probe, Event::Encoded(Ok(())), &source, &settings),
        Stage::Probe
    );
    assert_eq!(
        Converter::advance(
            Stage::CheckOutput(Action::Convert),
            Event::DirCreated { ok: true },
            &source,
            &settings
        ),
        Stage::CheckOutput(Action::Convert)
    );
    assert_eq!(
        Converter::advance(
            Stage::Encode(Action::Rewrap),
            Event::OutputChecked { exists: false },
            &source,
            &settings
        ),
        Stage::Encode(Action::Rewrap)
    );
}

#[test]
fn a_file_that_is_done_stays_done() {
    let settings = config(ConversionMode::Export);
    let source = file("a", "mkv");
    for event in [
        Event::Probed(Ok(video("hevc"))),
        Event::OutputChecked { exists: true },
        Event::DirCreated { ok: false },
        Event::Encoded(Err(EncodeError::LaunchFailed)),
    ] {
        assert_eq!(
            Converter::advance(Stage::Done(Outcome::Skipped), event, &source, &settings),
            Stage::Done(Outcome::Skipped)
        );
    }
}

#[test]
fn proceed_skips_dry_runs_or_goes_on() {
    assert_eq!(Converter::proceed(Action::Skip, false), Stage::Done(Outcome::Skipped));
    assert_eq!(Converter::proceed(Action::Skip, true), Stage::Done(Outcome::Skipped));
    assert_eq!(Converter::proceed(Action::Rewrap, true), Stage::Done(Outcome::Success));
    assert_eq!(Converter::proceed(Action::Convert, true), Stage::Done(Outcome::Success));
    assert_eq!(Converter::proceed(Action::Rewrap, false), Stage::CreateDir(Action::Rewrap));
    assert_eq!(Converter::proceed(Action::Convert, false), Stage::CreateDir(Action::Convert));
}

#[test]
fn failure_messages() {
    assert_eq!(Failure::Analysis(ProbeError::LaunchFailed).message(), "Analysis failed");
    assert_eq!(Failure::Analysis(ProbeError::NoVideoStream).message(), "Analysis failed");
    assert_eq!(Failure::OutputExists.message(), "File exists (use --force to overwrite)");
    assert_eq!(Failure::CreateDir.message(), "Failed to create output directory");
    assert_eq!(Failure::Encode(EncodeError::LaunchFailed).message(), "Failed to run ffmpeg");
    assert_eq!(
        Failure::Encode(EncodeError::ExitStatus("exit status: 1".to_string())).message(),
        "ffmpeg failed with status: exit status: 1"
    );
}

#[test]
fn no_files_no_scheduler() {
    let converter = Converter::new(config(ConversionMode::Export));
    assert!(converter.schedule(0).is_none());
    let scheduler = converter.schedule(3).unwrap();
    assert_eq!(scheduler.stats().get_counts(), (3, 0, 0, 0));
    assert_eq!(scheduler.running(), 0);
}
