//! The command line as values, and what it asks for.

use vstd::prelude::*;
use crate::config::{Config, ConfigError};
use crate::types::{Codec, ConversionMode};

verus! {

/// The command line, as the argument parser hands it over.
#[derive(Debug, Clone, PartialEq, Eq)]
pub struct Args {
    pub command: Option<Commands>,
    pub path: Option<String>,
    pub output_dir: Option<String>,
    pub mode: ConversionMode,
    pub codec: Codec,
    pub quality: String,
    pub verbose: bool,
    pub force: bool,
    pub workers: usize,
    pub dry_run: bool,
}

/// The subcommands.
#[derive(Debug, Clone, PartialEq, Eq)]
pub enum Commands {
    /// Print the completion script of the named shell.
    Completion { shell: String },
}

/// What a command line asks for.
#[derive(Debug, Clone, PartialEq, Eq)]
pub enum CliAction {
    /// Print the completion script of the named shell.
    Completion(String),
    /// Convert with these settings.
    Convert(Config),
    /// Print the help text.
    Help,
}

/// What a command line asks for: a subcommand comes first, then a
/// conversion where a path is given, and the help text otherwise. Settings
/// that cannot be used are an error.
pub fn plan(args: Args) -> (r: Result<CliAction, ConfigError>)
    ensures
        match args.command {
            Some(Commands::Completion { shell }) => r == Ok::<CliAction, ConfigError>(
                CliAction::Completion(shell),
            ),
            None => match args.path {
                None => r == Ok::<CliAction, ConfigError>(CliAction::Help),
                Some(path) => if crate::config::quality_accepted(args.codec, args.quality@) {
                    r matches Ok(CliAction::Convert(c)) && c.path == path && c.output_dir
                        == args.output_dir && c.mode == args.mode && c.codec == args.codec
                        && c.quality == args.quality && c.verbose == args.verbose && c.force
                        == args.force && c.dry_run == args.dry_run && c.workers == (if args.workers
                        == 0 {
                        1usize
                    } else {
                        args.workers
                    })
                } else {
                    r matches Err(ConfigError::InvalidQuality { quality, codec }) && quality@
                        == args.quality@ && codec == args.codec
                },
            },
        },
{
    match args.command {
        Some(Commands::Completion { shell }) => Ok(CliAction::Completion(shell)),
        None => {
            if args.path.is_some() {
                let args = Args { command: None, ..args };
                match Config::from_args(args) {
                    Ok(config) => Ok(CliAction::Convert(config)),
                    Err(e) => Err(e),
                }
            } else {
                Ok(CliAction::Help)
            }
        },
    }
}

} // verus!
