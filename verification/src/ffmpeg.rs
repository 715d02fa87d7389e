//! What is asked of the prober and the encoder, and what is decided from the
//! prober's answer. The command lines are built here; running them is left
//! to the caller.

use vstd::prelude::*;
use vstd::string::*;
use crate::config::Config;
use crate::text::{opt_text, push_arg, str_eq, texts};
use crate::types::{
    first_video, is_first_video, lemma_first_video, lemma_first_video_is_unique, Action, Codec,
    ConversionMode, FFProbeOutput, MediaFile, StreamView,
};

verus! {

/// The prober and the encoder, seen from the converter.
pub struct FFmpeg;

/// A program to run, with its arguments.
#[derive(Debug, Clone, PartialEq, Eq)]
pub struct CommandLine {
    pub program: String,
    pub args: Vec<String>,
    /// Whether what the program prints is thrown away.
    pub silent: bool,
}

/// How a program that was started has ended.
#[derive(Debug, Clone, PartialEq, Eq)]
pub struct Exit {
    /// Whether the program reported success.
    pub success: bool,
    /// The exit status as text, for messages.
    pub status: String,
}

/// Why a file could not be analysed.
#[derive(Debug, Clone, PartialEq, Eq)]
pub enum ProbeError {
    /// The prober could not be started.
    LaunchFailed,
    /// The prober ended with a failure; the text is its exit status.
    ExitStatus(String),
    /// What the prober printed is not the expected list of streams.
    InvalidOutput,
    /// The file has no video stream.
    NoVideoStream,
}

/// Why a file could not be encoded.
#[derive(Debug, Clone, PartialEq, Eq)]
pub enum EncodeError {
    /// The encoder could not be started.
    LaunchFailed,
    /// The encoder ended with a failure; the text is its exit status.
    ExitStatus(String),
}

impl ProbeError {
    /// The detail of the error as text.
    pub open spec fn message_text(self) -> Seq<char> {
        match self {
            ProbeError::LaunchFailed => "Failed to run ffprobe"@,
            ProbeError::ExitStatus(s) => "ffprobe failed with status: "@ + s@,
            ProbeError::InvalidOutput => "Failed to parse ffprobe output"@,
            ProbeError::NoVideoStream => "No video stream found"@,
        }
    }

    /// The detail of the error.
    pub fn message(&self) -> (r: String)
        ensures
            r@ == self.message_text(),
    {
        match self {
            ProbeError::LaunchFailed => "Failed to run ffprobe".to_owned(),
            ProbeError::ExitStatus(s) => {
                let mut m = "ffprobe failed with status: ".to_owned();
                m.append(s.as_str());
                m
            },
            ProbeError::InvalidOutput => "Failed to parse ffprobe output".to_owned(),
            ProbeError::NoVideoStream => "No video stream found".to_owned(),
        }
    }
}

impl EncodeError {
    /// The detail of the error as text.
    pub open spec fn message_text(self) -> Seq<char> {
        match self {
            EncodeError::LaunchFailed => "Failed to run ffmpeg"@,
            EncodeError::ExitStatus(s) => "ffmpeg failed with status: "@ + s@,
        }
    }

    /// The detail of the error.
    pub fn message(&self) -> (r: String)
        ensures
            r@ == self.message_text(),
    {
        match self {
            EncodeError::LaunchFailed => "Failed to run ffmpeg".to_owned(),
            EncodeError::ExitStatus(s) => {
                let mut m = "ffmpeg failed with status: ".to_owned();
                m.append(s.as_str());
                m
            },
        }
    }
}

/// The codec name under which the prober reports a video of the given family.
pub open spec fn target_codec_text(codec: Codec) -> Seq<char> {
    match codec {
        Codec::DnxHR => "dnxhd"@,
        Codec::ProRes => "prores"@,
    }
}

/// The action for a file whose first video stream has the codec `codec_name`
/// and whose path has the extension `extension`. Both are compared exactly,
/// case included.
pub open spec fn decide(
    mode: ConversionMode,
    codec: Codec,
    codec_name: Seq<char>,
    extension: Option<Seq<char>>,
) -> Action {
    match mode {
        ConversionMode::Export => {
            if codec_name == "h264"@ && extension == Some("mp4"@) {
                Action::Skip
            } else {
                Action::Convert
            }
        },
        ConversionMode::Editing => {
            if codec_name == target_codec_text(codec) {
                if extension == Some("mov"@) {
                    Action::Skip
                } else {
                    Action::Rewrap
                }
            } else {
                Action::Convert
            }
        },
    }
}

/// The action for a file with the given streams, or `None` where none of
/// them carries video. Only the first video stream is consulted.
pub open spec fn analysis(
    streams: Seq<StreamView>,
    extension: Option<Seq<char>>,
    mode: ConversionMode,
    codec: Codec,
) -> Option<Action> {
    match first_video(streams) {
        Some(i) => Some(decide(mode, codec, streams[i].codec_name, extension)),
        None => None,
    }
}

/// The arguments that ask the prober for the streams of `file`.
pub open spec fn probe_params(file: Seq<char>) -> Seq<Seq<char>> {
    seq!["-v"@, "quiet"@, "-print_format"@, "json"@, "-show_streams"@, file]
}

/// The arguments of a stream copy into `out`.
pub open spec fn rewrap_params(out: Seq<char>) -> Seq<Seq<char>> {
    seq!["-c"@, "copy"@, "-map_metadata"@, "0"@, out]
}

/// The arguments of the delivery encode into `out`. Nothing in it can be set.
pub open spec fn export_params(out: Seq<char>) -> Seq<Seq<char>> {
    seq![
        "-map"@,
        "0:v:0"@,
        "-map"@,
        "0:a?"@,
        "-map_metadata"@,
        "0"@,
        "-c:v"@,
        "libx264"@,
        "-preset"@,
        "slow"@,
        "-crf"@,
        "18"@,
        "-pix_fmt"@,
        "yuv420p"@,
        "-c:a"@,
        "aac"@,
        "-b:a"@,
        "320k"@,
        "-movflags"@,
        "+faststart"@,
        out,
    ]
}

/// The encoder's profile for a DNxHR quality; an unknown quality gives the
/// profile of `hq`.
pub open spec fn dnxhr_profile_text(quality: Seq<char>) -> Seq<char> {
    if quality == "lb"@ {
        "dnxhr_lb"@
    } else if quality == "sq"@ {
        "dnxhr_sq"@
    } else if quality == "hqx"@ {
        "dnxhr_hqx"@
    } else if quality == "444"@ {
        "dnxhr_444"@
    } else {
        "dnxhr_hq"@
    }
}

/// The encoder's profile number for a ProRes quality; an unknown quality
/// gives the highest one.
pub open spec fn prores_profile_text(quality: Seq<char>) -> Seq<char> {
    if quality == "proxy"@ {
        "0"@
    } else if quality == "lt"@ {
        "1"@
    } else if quality == "standard"@ {
        "2"@
    } else {
        "3"@
    }
}

/// The arguments that select the video and audio codecs in editing mode.
pub open spec fn editing_codec_params(codec: Codec, quality: Seq<char>) -> Seq<Seq<char>> {
    match codec {
        Codec::DnxHR => seq![
            "-c:v"@,
            "dnxhd"@,
            "-profile:v"@,
            dnxhr_profile_text(quality),
            "-pix_fmt"@,
            "yuv422p"@,
            "-c:a"@,
            "pcm_s16le"@,
        ],
        Codec::ProRes => seq![
            "-c:v"@,
            "prores_ks"@,
            "-profile:v"@,
            prores_profile_text(quality),
            "-vendor"@,
            "ap10"@,
            "-pix_fmt"@,
            "yuv422p10le"@,
            "-c:a"@,
            "pcm_s16le"@,
        ],
    }
}

/// The arguments of the editing encode into `out`.
pub open spec fn editing_params(codec: Codec, quality: Seq<char>, out: Seq<char>) -> Seq<
    Seq<char>,
> {
    seq!["-map"@, "0:v:0"@, "-map"@, "0:a?"@, "-map_metadata"@, "0"@] + editing_codec_params(
        codec,
        quality,
    ) + seq!["-movflags"@, "+faststart"@, out]
}

/// The arguments of the encoder for one file. The encoder always overwrites
/// `out`: whether it may is decided before it is run.
pub open spec fn convert_params(
    file: Seq<char>,
    out: Seq<char>,
    action: Action,
    mode: ConversionMode,
    codec: Codec,
    quality: Seq<char>,
) -> Seq<Seq<char>> {
    seq!["-y"@, "-i"@, file] + match action {
        Action::Rewrap => rewrap_params(out),
        Action::Convert => match mode {
            ConversionMode::Export => export_params(out),
            ConversionMode::Editing => editing_params(codec, quality, out),
        },
        Action::Skip => Seq::empty(),
    }
}

impl FFmpeg {
    /// What a run of the prober amounts to. `exit` is `None` where the prober
    /// could not be started; `parsed` holds the streams that were read from
    /// what it printed, and is `None` where that could not be read. A failed
    /// start comes before a failed exit, that before unreadable output, and
    /// that before a list of streams without video: a file without a video
    /// stream has not been probed successfully.
    pub fn probe_result(exit: Option<Exit>, parsed: Option<FFProbeOutput>) -> (r: Result<
        FFProbeOutput,
        ProbeError,
    >)
        ensures
            r == match exit {
                None => Err::<FFProbeOutput, ProbeError>(ProbeError::LaunchFailed),
                Some(e) => if !e.success {
                    Err::<FFProbeOutput, ProbeError>(ProbeError::ExitStatus(e.status))
                } else {
                    match parsed {
                        None => Err::<FFProbeOutput, ProbeError>(ProbeError::InvalidOutput),
                        Some(probe) => if first_video(probe@) is None {
                            Err::<FFProbeOutput, ProbeError>(ProbeError::NoVideoStream)
                        } else {
                            Ok::<FFProbeOutput, ProbeError>(probe)
                        },
                    }
                },
            },
    {
        match exit {
            None => Err(ProbeError::LaunchFailed),
            Some(e) => {
                if !e.success {
                    Err(ProbeError::ExitStatus(e.status))
                } else {
                    match parsed {
                        None => Err(ProbeError::InvalidOutput),
                        Some(probe) => {
                            if probe.first_video().is_none() {
                                Err(ProbeError::NoVideoStream)
                            } else {
                                Ok(probe)
                            }
                        },
                    }
                }
            },
        }
    }

    /// What a run of the encoder amounts to. `exit` is `None` where the
    /// encoder could not be started. Only the exit status decides: what the
    /// encoder printed, and whether that was shown, plays no part.
    pub fn convert_result(exit: Option<Exit>) -> (r: Result<(), EncodeError>)
        ensures
            r == match exit {
                None => Err::<(), EncodeError>(EncodeError::LaunchFailed),
                Some(e) => if e.success {
                    Ok::<(), EncodeError>(())
                } else {
                    Err::<(), EncodeError>(EncodeError::ExitStatus(e.status))
                },
            },
    {
        match exit {
            None => Err(EncodeError::LaunchFailed),
            Some(e) => {
                if e.success {
                    Ok(())
                } else {
                    Err(EncodeError::ExitStatus(e.status))
                }
            },
        }
    }

    /// The command that asks the prober for the streams of `file`. What it
    /// prints is the answer, so it is never silent.
    pub fn probe_command(file: &str) -> (r: CommandLine)
        ensures
            r.program@ == "ffprobe"@,
            texts(r.args@) == probe_params(file@),
            !r.silent,
    {
        let mut args: Vec<String> = Vec::new();
        assert(texts(args@) =~= Seq::<Seq<char>>::empty());
        push_arg(&mut args, "-v");
        push_arg(&mut args, "quiet");
        push_arg(&mut args, "-print_format");
        push_arg(&mut args, "json");
        push_arg(&mut args, "-show_streams");
        push_arg(&mut args, file);
        assert(texts(args@) =~= probe_params(file@));
        CommandLine { program: "ffprobe".to_owned(), args, silent: false }
    }

    /// The codec name under which the prober reports a video of the given
    /// family.
    pub fn get_target_codec_name(codec: Codec) -> (r: &'static str)
        ensures
            r@ == target_codec_text(codec),
    {
        match codec {
            Codec::DnxHR => "dnxhd",
            Codec::ProRes => "prores",
        }
    }

    /// Selects the action from the codec of the first video stream and the
    /// extension of the file.
    pub fn decide(
        mode: ConversionMode,
        codec: Codec,
        codec_name: &str,
        extension: Option<&str>,
    ) -> (r: Action)
        ensures
            r == decide(
                mode,
                codec,
                codec_name@,
                match extension {
                    Some(e) => Some(e@),
                    None => None,
                },
            ),
    {
        match mode {
            ConversionMode::Export => {
                if str_eq(codec_name, "h264") && Self::has_extension(extension, "mp4") {
                    Action::Skip
                } else {
                    Action::Convert
                }
            },
            ConversionMode::Editing => {
                let target_codec = Self::get_target_codec_name(codec);
                if str_eq(codec_name, target_codec) {
                    if Self::has_extension(extension, "mov") {
                        Action::Skip
                    } else {
                        Action::Rewrap
                    }
                } else {
                    Action::Convert
                }
            },
        }
    }

    fn has_extension(extension: Option<&str>, wanted: &str) -> (r: bool)
        ensures
            r == match extension {
                Some(e) => e@ == wanted@,
                None => false,
            },
    {
        match extension {
            Some(e) => str_eq(e, wanted),
            None => false,
        }
    }

    /// Decides what to do with a probed file. Only the first video stream is
    /// consulted; a file without one cannot be analysed.
    pub fn analyze(probe: &FFProbeOutput, file: &MediaFile, config: &Config) -> (r: Result<
        Action,
        ProbeError,
    >)
        ensures
            r == match analysis(probe@, opt_text(file.extension), config.mode, config.codec) {
                Some(action) => Ok::<Action, ProbeError>(action),
                None => Err::<Action, ProbeError>(ProbeError::NoVideoStream),
            },
    {
        let i = match probe.first_video() {
            Some(i) => i,
            None => {
                return Err(ProbeError::NoVideoStream);
            },
        };
        let video_stream = &probe.streams[i];
        let extension: Option<&str> = match &file.extension {
            Some(e) => Some(e.as_str()),
            None => None,
        };
        let action = Self::decide(
            config.mode,
            config.codec,
            video_stream.codec_name.as_str(),
            extension,
        );
        assert(probe@[i as int].codec_name == video_stream.codec_name@);
        Ok(action)
    }

    /// The command that encodes `file` into `output_path`. The action must be
    /// one that writes a file.
    pub fn convert_command(file: &str, output_path: &str, action: Action, config: &Config) -> (r:
        CommandLine)
        requires
            action != Action::Skip,
        ensures
            r.program@ == "ffmpeg"@,
            texts(r.args@) == convert_params(
                file@,
                output_path@,
                action,
                config.mode,
                config.codec,
                config.quality@,
            ),
            r.silent == !config.verbose,
    {
        let mut cmd: Vec<String> = Vec::new();
        assert(texts(cmd@) =~= Seq::<Seq<char>>::empty());
        push_arg(&mut cmd, "-y");
        push_arg(&mut cmd, "-i");
        push_arg(&mut cmd, file);
        assert(texts(cmd@) =~= seq!["-y"@, "-i"@, file@]);
        match action {
            Action::Rewrap => {
                push_arg(&mut cmd, "-c");
                push_arg(&mut cmd, "copy");
                push_arg(&mut cmd, "-map_metadata");
                push_arg(&mut cmd, "0");
                push_arg(&mut cmd, output_path);
                assert(texts(cmd@) =~= seq!["-y"@, "-i"@, file@] + rewrap_params(output_path@));
            },
            Action::Convert => match config.mode {
                ConversionMode::Export => {
                    Self::add_export_params(&mut cmd, output_path);
                },
                ConversionMode::Editing => {
                    Self::add_editing_params(&mut cmd, output_path, config);
                },
            },
            Action::Skip => {},
        }
        CommandLine { program: "ffmpeg".to_owned(), args: cmd, silent: !config.verbose }
    }

    /// Appends the arguments of the delivery encode.
    pub fn add_export_params(cmd: &mut Vec<String>, output_path: &str)
        ensures
            texts(final(cmd)@) == texts(old(cmd)@) + export_params(output_path@),
    {
        push_arg(cmd, "-map");
        push_arg(cmd, "0:v:0");
        push_arg(cmd, "-map");
        push_arg(cmd, "0:a?");
        push_arg(cmd, "-map_metadata");
        push_arg(cmd, "0");
        push_arg(cmd, "-c:v");
        push_arg(cmd, "libx264");
        push_arg(cmd, "-preset");
        push_arg(cmd, "slow");
        push_arg(cmd, "-crf");
        push_arg(cmd, "18");
        push_arg(cmd, "-pix_fmt");
        push_arg(cmd, "yuv420p");
        push_arg(cmd, "-c:a");
        push_arg(cmd, "aac");
        push_arg(cmd, "-b:a");
        push_arg(cmd, "320k");
        push_arg(cmd, "-movflags");
        push_arg(cmd, "+faststart");
        push_arg(cmd, output_path);
        assert(texts(cmd@) =~= texts(old(cmd)@) + export_params(output_path@));
    }

    /// The encoder's profile for a DNxHR quality.
    pub fn dnxhr_profile(quality: &str) -> (r: &'static str)
        ensures
            r@ == dnxhr_profile_text(quality@),
    {
        if str_eq(quality, "lb") {
            "dnxhr_lb"
        } else if str_eq(quality, "sq") {
            "dnxhr_sq"
        } else if str_eq(quality, "hqx") {
            "dnxhr_hqx"
        } else if str_eq(quality, "444") {
            "dnxhr_444"
        } else {
            "dnxhr_hq"
        }
    }

    /// The encoder's profile number for a ProRes quality.
    pub fn prores_profile(quality: &str) -> (r: &'static str)
        ensures
            r@ == prores_profile_text(quality@),
    {
        if str_eq(quality, "proxy") {
            "0"
        } else if str_eq(quality, "lt") {
            "1"
        } else if str_eq(quality, "standard") {
            "2"
        } else {
            "3"
        }
    }

    /// Appends the arguments of the editing encode.
    pub fn add_editing_params(cmd: &mut Vec<String>, output_path: &str, config: &Config)
        ensures
            texts(final(cmd)@) == texts(old(cmd)@) + editing_params(
                config.codec,
                config.quality@,
                output_path@,
            ),
    {
        push_arg(cmd, "-map");
        push_arg(cmd, "0:v:0");
        push_arg(cmd, "-map");
        push_arg(cmd, "0:a?");
        push_arg(cmd, "-map_metadata");
        push_arg(cmd, "0");
        let ghost mapped = texts(cmd@);
        assert(mapped =~= texts(old(cmd)@) + seq![
            "-map"@,
            "0:v:0"@,
            "-map"@,
            "0:a?"@,
            "-map_metadata"@,
            "0"@,
        ]);
        match config.codec {
            Codec::DnxHR => {
                let profile = Self::dnxhr_profile(config.quality.as_str());
                push_arg(cmd, "-c:v");
                push_arg(cmd, "dnxhd");
                push_arg(cmd, "-profile:v");
                push_arg(cmd, profile);
                push_arg(cmd, "-pix_fmt");
                push_arg(cmd, "yuv422p");
                push_arg(cmd, "-c:a");
                push_arg(cmd, "pcm_s16le");
            },
            Codec::ProRes => {
                let profile = Self::prores_profile(config.quality.as_str());
                push_arg(cmd, "-c:v");
                push_arg(cmd, "prores_ks");
                push_arg(cmd, "-profile:v");
                push_arg(cmd, profile);
                push_arg(cmd, "-vendor");
                push_arg(cmd, "ap10");
                push_arg(cmd, "-pix_fmt");
                push_arg(cmd, "yuv422p10le");
                push_arg(cmd, "-c:a");
                push_arg(cmd, "pcm_s16le");
            },
        }
        let ghost coded = texts(cmd@);
        assert(coded =~= mapped + editing_codec_params(config.codec, config.quality@));
        push_arg(cmd, "-movflags");
        push_arg(cmd, "+faststart");
        push_arg(cmd, output_path);
        assert(texts(cmd@) =~= coded + seq!["-movflags"@, "+faststart"@, output_path@]);
        assert(texts(cmd@) =~= texts(old(cmd)@) + editing_params(
            config.codec,
            config.quality@,
            output_path@,
        ));
    }
}

/// In export mode a file is skipped where its video is already `h264` and its
/// extension is `mp4`, and encoded anew in every other case: export never
/// rewraps. The codec family plays no part.
pub proof fn lemma_export_decision(codec: Codec, codec_name: Seq<char>, extension: Option<Seq<char>>)
    ensures
        codec_name == "h264"@ && extension == Some("mp4"@) ==> decide(
            ConversionMode::Export,
            codec,
            codec_name,
            extension,
        ) == Action::Skip,
        codec_name != "h264"@ || extension != Some("mp4"@) ==> decide(
            ConversionMode::Export,
            codec,
            codec_name,
            extension,
        ) == Action::Convert,
{
}

/// In editing mode a file whose video already has the codec of the family is
/// skipped where its extension is `mov` and rewrapped where it is not; a file
/// with any other codec is encoded anew. The codec is `dnxhd` for DNxHR and
/// `prores` for ProRes.
pub proof fn lemma_editing_decision(
    codec: Codec,
    codec_name: Seq<char>,
    extension: Option<Seq<char>>,
)
    ensures
        target_codec_text(Codec::DnxHR) == "dnxhd"@,
        target_codec_text(Codec::ProRes) == "prores"@,
        codec_name == target_codec_text(codec) && extension == Some("mov"@) ==> decide(
            ConversionMode::Editing,
            codec,
            codec_name,
            extension,
        ) == Action::Skip,
        codec_name == target_codec_text(codec) && extension != Some("mov"@) ==> decide(
            ConversionMode::Editing,
            codec,
            codec_name,
            extension,
        ) == Action::Rewrap,
        codec_name != target_codec_text(codec) ==> decide(
            ConversionMode::Editing,
            codec,
            codec_name,
            extension,
        ) == Action::Convert,
{
}

/// Only the first video stream decides: the action for a list of streams is
/// the action for the codec of the first stream among them that carries
/// video, whatever comes before or after it.
pub proof fn lemma_first_video_decides(
    streams: Seq<StreamView>,
    i: int,
    extension: Option<Seq<char>>,
    mode: ConversionMode,
    codec: Codec,
)
    requires
        is_first_video(streams, i),
    ensures
        analysis(streams, extension, mode, codec) == Some(
            decide(mode, codec, streams[i].codec_name, extension),
        ),
{
    lemma_first_video(streams);
    lemma_first_video_is_unique(streams, i, first_video(streams)->0);
}

} // verus!
