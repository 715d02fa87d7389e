use davinci_convertor::cli::{plan, Args, CliAction, Commands};
use davinci_convertor::config::{quality_is_valid, Config, ConfigError, HeaderLine};
use davinci_convertor::types::{Codec, ConversionMode};

fn args(mode: ConversionMode, codec: Codec, quality: &str) -> Args {
    Args {
        command: None,
        path: Some("/videos".to_string()),
        output_dir: None,
        mode,
        codec,
        quality: quality.to_string(),
        verbose: false,
        force: false,
        workers: 4,
        dry_run: false,
    }
}

#[test]
fn from_args_copies_every_setting() {
    let a = Args {
        command: None,
        path: Some("/in/clip.mkv".to_string()),
        output_dir: Some("/out".to_string()),
        mode: ConversionMode::Editing,
        codec: Codec::ProRes,
        quality: "lt".to_string(),
        verbose: true,
        force: true,
        workers: 3,
        dry_run: true,
    };
    let config = Config::from_args(a).unwrap();
    assert_eq!(
        config,
        Config {
            path: "/in/clip.mkv".to_string(),
            output_dir: Some("/out".to_string()),
            mode: ConversionMode::Editing,
            codec: Codec::ProRes,
            quality: "lt".to_string(),
            verbose: true,
            force: true,
            workers: 3,
            dry_run: true,
        }
    );
}

#[test]
fn from_args_needs_a_path() {
    let mut a = args(ConversionMode::Editing, Codec::DnxHR, "hq");
    a.path = None;
    assert_eq!(Config::from_args(a), Err(ConfigError::MissingPath));
}

#[test]
fn from_args_reports_the_missing_path_before_the_quality() {
    let mut a = args(ConversionMode::Editing, Codec::DnxHR, "nonsense");
    a.path = None;
    assert_eq!(Config::from_args(a), Err(ConfigError::MissingPath));
}

#[test]
fn from_args_raises_zero_workers_to_one() {
    let mut a = args(ConversionMode::Export, Codec::DnxHR, "hq");
    a.workers = 0;
    assert_eq!(Config::from_args(a).unwrap().workers, 1);
    let mut b = args(ConversionMode::Export, Codec::DnxHR, "hq");
    b.workers = 1;
    assert_eq!(Config::from_args(b).unwrap().workers, 1);
    let mut c = args(ConversionMode::Export, Codec::DnxHR, "hq");
    c.workers = 16;
    assert_eq!(Config::from_args(c).unwrap().workers, 16);
}

#[test]
fn dnxhr_accepts_its_four_profiles() {
    for quality in ["lb", "sq", "hq", "hqx"] {
        assert!(quality_is_valid(Codec::DnxHR, quality));
        assert!(Config::from_args(args(ConversionMode::Editing, Codec::DnxHR, quality)).is_ok());
    }
}

#[test]
fn dnxhr_rejects_every_other_profile() {
    for quality in ["proxy", "lt", "standard", "", "HQ", "hq ", "hqxx", "l", "best"] {
        assert!(!quality_is_valid(Codec::DnxHR, quality));
        assert_eq!(
            Config::from_args(args(ConversionMode::Editing, Codec::DnxHR, quality)),
            Err(ConfigError::InvalidQuality { quality: quality.to_string(), codec: Codec::DnxHR })
        );
    }
}

#[test]
fn dnxhr_444_has_a_profile_but_is_not_accepted() {
    assert!(!quality_is_valid(Codec::DnxHR, "444"));
    assert_eq!(
        Config::from_args(args(ConversionMode::Editing, Codec::DnxHR, "444")),
        Err(ConfigError::InvalidQuality { quality: "444".to_string(), codec: Codec::DnxHR })
    );
}

#[test]
fn prores_accepts_its_four_profiles() {
    for quality in ["proxy", "lt", "standard", "hq"] {
        assert!(quality_is_valid(Codec::ProRes, quality));
        assert!(Config::from_args(args(ConversionMode::Editing, Codec::ProRes, quality)).is_ok());
    }
}

#[test]
fn prores_rejects_every_other_profile() {
    for quality in ["lb", "sq", "hqx", "444", "", "Proxy", "4444"] {
        assert!(!quality_is_valid(Codec::ProRes, quality));
        assert_eq!(
            Config::from_args(args(ConversionMode::Editing, Codec::ProRes, quality)),
            Err(ConfigError::InvalidQuality { quality: quality.to_string(), codec: Codec::ProRes })
        );
    }
}

#[test]
fn quality_is_checked_in_export_mode_too() {
    assert!(Config::from_args(args(ConversionMode::Export, Codec::DnxHR, "hq")).is_ok());
    assert_eq!(
        Config::from_args(args(ConversionMode::Export, Codec::DnxHR, "proxy")),
        Err(ConfigError::InvalidQuality { quality: "proxy".to_string(), codec: Codec::DnxHR })
    );
}

#[test]
fn validate_agrees_with_from_args() {
    let mut config = Config::from_args(args(ConversionMode::Editing, Codec::DnxHR, "sq")).unwrap();
    assert_eq!(config.validate(), Ok(()));
    config.codec = Codec::ProRes;
    assert_eq!(
        config.validate(),
        Err(ConfigError::InvalidQuality { quality: "sq".to_string(), codec: Codec::ProRes })
    );
}

#[test]
fn config_error_messages() {
    assert_eq!(
        ConfigError::MissingPath.message(),
        "Input path is required for the main application logic."
    );
    assert_eq!(
        ConfigError::InvalidQuality { quality: "ultra".to_string(), codec: Codec::DnxHR }.message(),
        "Invalid quality 'ultra' for DnxHR. Valid options: lb, sq, hq, hqx"
    );
    assert_eq!(
        ConfigError::InvalidQuality { quality: "lb".to_string(), codec: Codec::ProRes }.message(),
        "Invalid quality 'lb' for ProRes. Valid options: proxy, lt, standard, hq"
    );
    assert_eq!(
        ConfigError::MissingDependency("ffprobe".to_string()).message(),
        "ffprobe is not installed. Please install ffmpeg."
    );
}

#[test]
fn dependency_verdict_names_the_first_missing_tool() {
    assert_eq!(Config::dependency_verdict(true, true), Ok(()));
    assert_eq!(
        Config::dependency_verdict(false, true),
        Err(ConfigError::MissingDependency("ffmpeg".to_string()))
    );
    assert_eq!(
        Config::dependency_verdict(false, false),
        Err(ConfigError::MissingDependency("ffmpeg".to_string()))
    );
    assert_eq!(
        Config::dependency_verdict(true, false),
        Err(ConfigError::MissingDependency("ffprobe".to_string()))
    );
}

#[test]
fn check_dependencies_only_ever_names_the_two_tools() {
    match Config::check_dependencies() {
        Ok(()) => {}
        Err(ConfigError::MissingDependency(tool)) => {
            assert!(tool == "ffmpeg" || tool == "ffprobe");
        }
        Err(other) => panic!("unexpected error: {:?}", other),
    }
}

#[test]
fn header_of_a_plain_export_run() {
    let config = Config::from_args(args(ConversionMode::Export, Codec::DnxHR, "hq")).unwrap();
    assert_eq!(
        config.header(),
        vec![
            HeaderLine::Rule,
            HeaderLine::Title,
            HeaderLine::Rule,
            HeaderLine::Export { workers: 4 },
            HeaderLine::Separator,
        ]
    );
}

#[test]
fn header_of_an_editing_run_with_every_notice() {
    let mut a = args(ConversionMode::Editing, Codec::ProRes, "standard");
    a.output_dir = Some("/out".to_string());
    a.dry_run = true;
    a.force = true;
    a.workers = 2;
    let config = Config::from_args(a).unwrap();
    assert_eq!(
        config.header(),
        vec![
            HeaderLine::Rule,
            HeaderLine::Title,
            HeaderLine::Rule,
            HeaderLine::Editing {
                codec: Codec::ProRes,
                quality: "standard".to_string(),
                workers: 2
            },
            HeaderLine::OutputDir("/out".to_string()),
            HeaderLine::DryRun,
            HeaderLine::Force,
            HeaderLine::Separator,
        ]
    );
}

#[test]
fn header_shows_a_notice_only_where_it_is_set() {
    let mut a = args(ConversionMode::Export, Codec::DnxHR, "hq");
    a.force = true;
    let config = Config::from_args(a).unwrap();
    assert_eq!(
        config.header(),
        vec![
            HeaderLine::Rule,
            HeaderLine::Title,
            HeaderLine::Rule,
            HeaderLine::Export { workers: 4 },
            HeaderLine::Force,
            HeaderLine::Separator,
        ]
    );
}

#[test]
fn plan_puts_the_subcommand_first() {
    let mut a = args(ConversionMode::Editing, Codec::DnxHR, "nonsense");
    a.command = Some(Commands::Completion { shell: "zsh".to_string() });
    assert_eq!(plan(a), Ok(CliAction::Completion("zsh".to_string())));
}

#[test]
fn plan_converts_where_a_path_is_given() {
    let a = args(ConversionMode::Export, Codec::DnxHR, "hq");
    let config = Config::from_args(a.clone()).unwrap();
    assert_eq!(plan(a), Ok(CliAction::Convert(config)));
}

#[test]
fn plan_shows_the_help_without_a_path() {
    let mut a = args(ConversionMode::Export, Codec::DnxHR, "nonsense");
    a.path = None;
    assert_eq!(plan(a), Ok(CliAction::Help));
}

#[test]
fn plan_hands_on_the_configuration_error() {
    let a = args(ConversionMode::Editing, Codec::ProRes, "hqx");
    assert_eq!(
        plan(a),
        Err(ConfigError::InvalidQuality { quality: "hqx".to_string(), codec: Codec::ProRes })
    );
}
