//! The settings of one run, and the checks made before any file is touched.

use vstd::prelude::*;
use vstd::string::*;
use crate::cli::Args;
use crate::text::str_eq;
use crate::types::{Codec, ConversionMode};

verus! {

/// The settings of one run. They are fixed before the first file is looked
/// at and never change afterwards.
#[derive(Debug, Clone, PartialEq, Eq)]
pub struct Config {
    pub path: String,
    pub output_dir: Option<String>,
    pub mode: ConversionMode,
    pub codec: Codec,
    pub quality: String,
    pub verbose: bool,
    pub force: bool,
    pub workers: usize,
    pub dry_run: bool,
}

/// Why a run cannot start.
#[derive(Debug, Clone, PartialEq, Eq)]
pub enum ConfigError {
    /// No input path was given.
    MissingPath,
    /// The quality profile does not belong to the codec.
    InvalidQuality { quality: String, codec: Codec },
    /// A tool that the converter runs is not installed.
    MissingDependency(String),
}

/// The quality profiles that a codec accepts.
pub open spec fn valid_qualities(codec: Codec) -> Seq<Seq<char>> {
    match codec {
        Codec::DnxHR => seq!["lb"@, "sq"@, "hq"@, "hqx"@],
        Codec::ProRes => seq!["proxy"@, "lt"@, "standard"@, "hq"@],
    }
}

/// The accepted profiles of a codec as one text, for the error message.
pub open spec fn valid_options_text(codec: Codec) -> Seq<char> {
    match codec {
        Codec::DnxHR => "lb, sq, hq, hqx"@,
        Codec::ProRes => "proxy, lt, standard, hq"@,
    }
}

/// Whether a codec accepts a quality profile. The comparison is exact.
pub open spec fn quality_accepted(codec: Codec, quality: Seq<char>) -> bool {
    valid_qualities(codec).contains(quality)
}

/// One line of the banner that is shown before a run.
#[derive(Debug, Clone, PartialEq, Eq)]
pub enum HeaderLine {
    /// A line of `=` signs.
    Rule,
    /// The name of the tool.
    Title,
    /// The settings of an export run.
    Export { workers: usize },
    /// The settings of an editing run.
    Editing { codec: Codec, quality: String, workers: usize },
    /// The directory that the output goes to, where one is set.
    OutputDir(String),
    /// The notice that nothing will be converted.
    DryRun,
    /// The notice that existing files will be overwritten.
    Force,
    /// A line of `-` signs.
    Separator,
}

impl ConfigError {
    /// The text of the error message.
    pub open spec fn message_text(self) -> Seq<char> {
        match self {
            ConfigError::MissingPath =>
                "Input path is required for the main application logic."@,
            ConfigError::InvalidQuality { quality, codec } => "Invalid quality '"@ + quality@
                + "' for "@ + codec.variant_text() + ". Valid options: "@ + valid_options_text(
                codec,
            ),
            ConfigError::MissingDependency(tool) => tool@
                + " is not installed. Please install ffmpeg."@,
        }
    }

    /// The error message shown to the user.
    pub fn message(&self) -> (r: String)
        ensures
            r@ == self.message_text(),
    {
        match self {
            ConfigError::MissingPath => {
                "Input path is required for the main application logic.".to_owned()
            },
            ConfigError::InvalidQuality { quality, codec } => {
                let mut s = "Invalid quality '".to_owned();
                s.append(quality.as_str());
                s.append("' for ");
                s.append(codec.variant_name());
                s.append(". Valid options: ");
                match codec {
                    Codec::DnxHR => s.append("lb, sq, hq, hqx"),
                    Codec::ProRes => s.append("proxy, lt, standard, hq"),
                }
                s
            },
            ConfigError::MissingDependency(tool) => {
                let mut s = tool.clone();
                s.append(" is not installed. Please install ffmpeg.");
                s
            },
        }
    }
}

/// Whether a codec accepts a quality profile.
pub fn quality_is_valid(codec: Codec, quality: &str) -> (r: bool)
    ensures
        r == quality_accepted(codec, quality@),
{
    let ghost v = valid_qualities(codec);
    match codec {
        Codec::DnxHR => {
            let r = str_eq(quality, "lb") || str_eq(quality, "sq") || str_eq(quality, "hq")
                || str_eq(quality, "hqx");
            proof {
                assert(v[0] == "lb"@ && v[1] == "sq"@ && v[2] == "hq"@ && v[3] == "hqx"@);
            }
            r
        },
        Codec::ProRes => {
            let r = str_eq(quality, "proxy") || str_eq(quality, "lt") || str_eq(
                quality,
                "standard",
            ) || str_eq(quality, "hq");
            proof {
                assert(v[0] == "proxy"@ && v[1] == "lt"@ && v[2] == "standard"@ && v[3] == "hq"@);
            }
            r
        },
    }
}

/// DNxHR takes the profiles `lb`, `sq`, `hq` and `hqx`, and no other.
pub proof fn lemma_dnxhr_qualities(quality: Seq<char>)
    ensures
        quality_accepted(Codec::DnxHR, quality) <==> (quality == "lb"@ || quality == "sq"@
            || quality == "hq"@ || quality == "hqx"@),
{
    let v = valid_qualities(Codec::DnxHR);
    assert(v[0] == "lb"@ && v[1] == "sq"@ && v[2] == "hq"@ && v[3] == "hqx"@);
}

/// ProRes takes the profiles `proxy`, `lt`, `standard` and `hq`, and no other.
pub proof fn lemma_prores_qualities(quality: Seq<char>)
    ensures
        quality_accepted(Codec::ProRes, quality) <==> (quality == "proxy"@ || quality == "lt"@
            || quality == "standard"@ || quality == "hq"@),
{
    let v = valid_qualities(Codec::ProRes);
    assert(v[0] == "proxy"@ && v[1] == "lt"@ && v[2] == "standard"@ && v[3] == "hq"@);
}

/// The name under which a tool is looked up, for each of the two tools that
/// the converter runs.
pub open spec fn is_required_tool(name: Seq<char>) -> bool {
    name == "ffmpeg"@ || name == "ffprobe"@
}

/// Calls `which::which` and tells whether it found the program. What it finds
/// depends on the machine, so the contract promises nothing of the answer.
#[verifier::external_body]
fn tool_is_installed(name: &str) -> (found: bool) {
    which::which(name).is_ok()
}

impl Config {
    /// Builds the settings from the command line. The worker count is raised
    /// to one where it is zero, and the quality profile is checked.
    pub fn from_args(args: Args) -> (r: Result<Config, ConfigError>)
        ensures
            args.path is None ==> r matches Err(ConfigError::MissingPath),
            args.path is Some && !quality_accepted(args.codec, args.quality@) ==> (r matches Err(
                ConfigError::InvalidQuality { quality, codec },
            ) && quality@ == args.quality@ && codec == args.codec),
            args.path is Some && quality_accepted(args.codec, args.quality@) ==> (r matches Ok(c)
                && c.path == args.path->0 && c.output_dir == args.output_dir && c.mode == args.mode
                && c.codec == args.codec && c.quality == args.quality && c.verbose == args.verbose
                && c.force == args.force && c.dry_run == args.dry_run && c.workers == (if args.workers
                == 0 {
                1usize
            } else {
                args.workers
            })),
    {
        let path = match args.path {
            Some(p) => p,
            None => {
                return Err(ConfigError::MissingPath);
            },
        };
        let config = Config {
            path,
            output_dir: args.output_dir,
            mode: args.mode,
            codec: args.codec,
            quality: args.quality,
            verbose: args.verbose,
            force: args.force,
            workers: if args.workers == 0 {
                1
            } else {
                args.workers
            },
            dry_run: args.dry_run,
        };
        match config.validate() {
            Ok(()) => Ok(config),
            Err(e) => Err(e),
        }
    }

    /// Checks the quality profile against the codec. The check is made in
    /// every mode, before any file is touched.
    pub fn validate(&self) -> (r: Result<(), ConfigError>)
        ensures
            quality_accepted(self.codec, self.quality@) ==> r is Ok,
            !quality_accepted(self.codec, self.quality@) ==> (r matches Err(
                ConfigError::InvalidQuality { quality, codec },
            ) && quality@ == self.quality@ && codec == self.codec),
    {
        if !quality_is_valid(self.codec, self.quality.as_str()) {
            return Err(
                ConfigError::InvalidQuality { quality: self.quality.clone(), codec: self.codec },
            );
        }
        Ok(())
    }

    /// The lines of the banner, as values: a frame with the title, the
    /// settings of the mode, and a notice for each of the output directory,
    /// the dry run and the overwriting that is set.
    pub open spec fn header_lines(self) -> Seq<HeaderLine> {
        seq![HeaderLine::Rule, HeaderLine::Title, HeaderLine::Rule] + seq![
            match self.mode {
                ConversionMode::Export => HeaderLine::Export { workers: self.workers },
                ConversionMode::Editing => HeaderLine::Editing {
                    codec: self.codec,
                    quality: self.quality,
                    workers: self.workers,
                },
            },
        ] + (match self.output_dir {
            Some(dir) => seq![HeaderLine::OutputDir(dir)],
            None => Seq::empty(),
        }) + (if self.dry_run {
            seq![HeaderLine::DryRun]
        } else {
            Seq::empty()
        }) + (if self.force {
            seq![HeaderLine::Force]
        } else {
            Seq::empty()
        }) + seq![HeaderLine::Separator]
    }

    /// The banner that is shown before a run, line by line.
    pub fn header(&self) -> (r: Vec<HeaderLine>)
        ensures
            r@ == self.header_lines(),
    {
        let mut lines: Vec<HeaderLine> = Vec::new();
        lines.push(HeaderLine::Rule);
        lines.push(HeaderLine::Title);
        lines.push(HeaderLine::Rule);
        match self.mode {
            ConversionMode::Export => {
                lines.push(HeaderLine::Export { workers: self.workers });
            },
            ConversionMode::Editing => {
                lines.push(
                    HeaderLine::Editing {
                        codec: self.codec,
                        quality: self.quality.clone(),
                        workers: self.workers,
                    },
                );
            },
        }
        match &self.output_dir {
            Some(dir) => {
                lines.push(HeaderLine::OutputDir(dir.clone()));
            },
            None => {},
        }
        if self.dry_run {
            lines.push(HeaderLine::DryRun);
        }
        if self.force {
            lines.push(HeaderLine::Force);
        }
        lines.push(HeaderLine::Separator);
        assert(lines@ =~= self.header_lines());
        lines
    }

    /// The verdict on the two tools, given whether each was found: the first
    /// one that is missing is reported.
    pub fn dependency_verdict(ffmpeg_found: bool, ffprobe_found: bool) -> (r: Result<
        (),
        ConfigError,
    >)
        ensures
            ffmpeg_found && ffprobe_found ==> r is Ok,
            !ffmpeg_found ==> (r matches Err(ConfigError::MissingDependency(t)) && t@ == "ffmpeg"@),
            ffmpeg_found && !ffprobe_found ==> (r matches Err(ConfigError::MissingDependency(t))
                && t@ == "ffprobe"@),
    {
        if !ffmpeg_found {
            Err(ConfigError::MissingDependency("ffmpeg".to_owned()))
        } else if !ffprobe_found {
            Err(ConfigError::MissingDependency("ffprobe".to_owned()))
        } else {
            Ok(())
        }
    }

    /// Looks for the encoder and the prober on this machine. The prober is
    /// only looked for once the encoder was found.
    pub fn check_dependencies() -> (r: Result<(), ConfigError>)
        ensures
            r matches Err(e) ==> (e matches ConfigError::MissingDependency(t) && is_required_tool(
                t@,
            )),
    {
        let ffmpeg_found = tool_is_installed("ffmpeg");
        let ffprobe_found = if ffmpeg_found {
            tool_is_installed("ffprobe")
        } else {
            false
        };
        Self::dependency_verdict(ffmpeg_found, ffprobe_found)
    }
}

} // verus!
