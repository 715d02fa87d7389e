//! The vocabulary of the converter: modes, codecs, actions and probed streams.

use vstd::prelude::*;
use vstd::string::*;
use crate::text::{concat3, lowercase, str_eq, to_lowercase};

verus! {

/// What the tool produces: an intermediate file for editing, or a delivery file.
#[derive(Debug, Clone, Copy, PartialEq, Eq, Structural)]
pub enum ConversionMode {
    Editing,
    Export,
}

/// What has to be done to one file.
#[derive(Debug, Clone, Copy, PartialEq, Eq, Structural)]
pub enum Action {
    /// The file already has the wanted codec and container.
    Skip,
    /// The codec is right, only the container changes: a stream copy.
    Rewrap,
    /// The video has to be encoded anew.
    Convert,
}

/// The intermediate codec family used in editing mode.
#[derive(Debug, Clone, Copy, PartialEq, Eq, Structural)]
pub enum Codec {
    DnxHR,
    ProRes,
}

/// A word on the command line that names no mode or no codec.
#[derive(Debug, Clone, PartialEq, Eq)]
pub enum ParseError {
    InvalidMode(String),
    InvalidCodec(String),
}

impl ParseError {
    /// The text of the error message.
    pub open spec fn message_text(self) -> Seq<char> {
        match self {
            ParseError::InvalidMode(s) => "Invalid mode '"@ + s@
                + "'. Use 'editing' or 'export'"@,
            ParseError::InvalidCodec(s) => "Invalid codec '"@ + s@
                + "'. Use 'dnxhr' or 'prores'"@,
        }
    }

    /// The error message shown to the user.
    pub fn message(&self) -> (r: String)
        ensures
            r@ == self.message_text(),
    {
        match self {
            ParseError::InvalidMode(s) => concat3(
                "Invalid mode '",
                s.as_str(),
                "'. Use 'editing' or 'export'",
            ),
            ParseError::InvalidCodec(s) => concat3(
                "Invalid codec '",
                s.as_str(),
                "'. Use 'dnxhr' or 'prores'",
            ),
        }
    }
}

impl ConversionMode {
    /// The mode that a lower-case word names, if it names one.
    pub open spec fn named_by(lower: Seq<char>) -> Option<ConversionMode> {
        if lower == "editing"@ || lower == "edit"@ {
            Some(ConversionMode::Editing)
        } else if lower == "export"@ {
            Some(ConversionMode::Export)
        } else {
            None
        }
    }

    /// Reads a mode from a word that is already in lower case.
    pub fn from_lowercase(lower: &str) -> (r: Option<ConversionMode>)
        ensures
            r == Self::named_by(lower@),
    {
        if str_eq(lower, "editing") || str_eq(lower, "edit") {
            Some(ConversionMode::Editing)
        } else if str_eq(lower, "export") {
            Some(ConversionMode::Export)
        } else {
            None
        }
    }

    /// Reads a mode from a word, whatever its case. The error keeps the word
    /// as it was written.
    pub fn from_str(s: &str) -> (r: Result<ConversionMode, ParseError>)
        ensures
            match Self::named_by(lowercase(s@)) {
                Some(m) => r == Ok::<ConversionMode, ParseError>(m),
                None => r matches Err(ParseError::InvalidMode(w)) && w@ == s@,
            },
    {
        let lower = to_lowercase(s);
        match Self::from_lowercase(lower.as_str()) {
            Some(m) => Ok(m),
            None => Err(ParseError::InvalidMode(s.to_owned())),
        }
    }

    /// The name of the mode as text.
    pub open spec fn name_text(self) -> Seq<char> {
        match self {
            ConversionMode::Editing => "editing"@,
            ConversionMode::Export => "export"@,
        }
    }

    /// The name of the mode, as the command line spells it.
    pub fn to_string(&self) -> (r: String)
        ensures
            r@ == self.name_text(),
    {
        match self {
            ConversionMode::Editing => "editing".to_owned(),
            ConversionMode::Export => "export".to_owned(),
        }
    }
}

impl Codec {
    /// The codec that a lower-case word names, if it names one.
    pub open spec fn named_by(lower: Seq<char>) -> Option<Codec> {
        if lower == "dnxhr"@ || lower == "dnxhd"@ {
            Some(Codec::DnxHR)
        } else if lower == "prores"@ {
            Some(Codec::ProRes)
        } else {
            None
        }
    }

    /// Reads a codec from a word that is already in lower case.
    pub fn from_lowercase(lower: &str) -> (r: Option<Codec>)
        ensures
            r == Self::named_by(lower@),
    {
        if str_eq(lower, "dnxhr") || str_eq(lower, "dnxhd") {
            Some(Codec::DnxHR)
        } else if str_eq(lower, "prores") {
            Some(Codec::ProRes)
        } else {
            None
        }
    }

    /// Reads a codec from a word, whatever its case. The error keeps the word
    /// as it was written.
    pub fn from_str(s: &str) -> (r: Result<Codec, ParseError>)
        ensures
            match Self::named_by(lowercase(s@)) {
                Some(c) => r == Ok::<Codec, ParseError>(c),
                None => r matches Err(ParseError::InvalidCodec(w)) && w@ == s@,
            },
    {
        let lower = to_lowercase(s);
        match Self::from_lowercase(lower.as_str()) {
            Some(c) => Ok(c),
            None => Err(ParseError::InvalidCodec(s.to_owned())),
        }
    }

    /// The display name of the codec as text.
    pub open spec fn name_text(self) -> Seq<char> {
        match self {
            Codec::DnxHR => "DNxHR"@,
            Codec::ProRes => "ProRes"@,
        }
    }

    /// The display name of the codec.
    pub fn to_string(&self) -> (r: String)
        ensures
            r@ == self.name_text(),
    {
        match self {
            Codec::DnxHR => "DNxHR".to_owned(),
            Codec::ProRes => "ProRes".to_owned(),
        }
    }

    /// The name of the variant as text, as diagnostics spell it.
    pub open spec fn variant_text(self) -> Seq<char> {
        match self {
            Codec::DnxHR => "DnxHR"@,
            Codec::ProRes => "ProRes"@,
        }
    }

    /// The name of the variant, as diagnostics spell it.
    pub fn variant_name(&self) -> (r: &'static str)
        ensures
            r@ == self.variant_text(),
    {
        match self {
            Codec::DnxHR => "DnxHR",
            Codec::ProRes => "ProRes",
        }
    }
}

/// One stream of a media file, as the prober reports it.
#[derive(Debug, Clone, PartialEq, Eq)]
pub struct Stream {
    pub codec_name: String,
    pub codec_type: String,
}

/// What a stream is, as plain text.
pub struct StreamView {
    pub codec_name: Seq<char>,
    pub codec_type: Seq<char>,
}

impl View for Stream {
    type V = StreamView;

    open spec fn view(&self) -> StreamView {
        StreamView { codec_name: self.codec_name@, codec_type: self.codec_type@ }
    }
}

impl StreamView {
    /// Whether the stream carries video. The match is exact and case-sensitive.
    pub open spec fn is_video(self) -> bool {
        self.codec_type == "video"@
    }
}

impl Stream {
    /// Whether the stream carries video.
    pub fn is_video(&self) -> (r: bool)
        ensures
            r == self@.is_video(),
    {
        str_eq(self.codec_type.as_str(), "video")
    }
}

/// The streams of one media file, in the order in which the prober lists them.
#[derive(Debug, Clone, PartialEq, Eq)]
pub struct FFProbeOutput {
    pub streams: Vec<Stream>,
}

impl View for FFProbeOutput {
    type V = Seq<StreamView>;

    open spec fn view(&self) -> Seq<StreamView> {
        Seq::new(self.streams@.len(), |i: int| self.streams@[i]@)
    }
}

/// One input file, by the parts of its path that the converter reads.
#[derive(Debug, Clone, PartialEq, Eq)]
pub struct MediaFile {
    /// The whole path, as it is handed to the prober and the encoder.
    pub path: String,
    /// The directory that holds the file.
    pub parent: String,
    /// The file's name without its extension.
    pub stem: String,
    /// The extension without its dot, if the name has one.
    pub extension: Option<String>,
}

/// Where a converted file is written: a directory and a file name in it.
#[derive(Debug, Clone, PartialEq, Eq)]
pub struct OutputPath {
    pub dir: String,
    pub file_name: String,
}

/// Whether `i` is the place of the first video stream in `streams`.
pub open spec fn is_first_video(streams: Seq<StreamView>, i: int) -> bool {
    &&& 0 <= i < streams.len()
    &&& streams[i].is_video()
    &&& forall|j: int| 0 <= j < i ==> !(#[trigger] streams[j]).is_video()
}

/// Whether no stream in `streams` carries video.
pub open spec fn has_no_video(streams: Seq<StreamView>) -> bool {
    forall|j: int| 0 <= j < streams.len() ==> !(#[trigger] streams[j]).is_video()
}

/// The place of the first video stream in `streams`, if there is one. Later
/// video streams, such as cover images, are not looked at.
pub open spec fn first_video(streams: Seq<StreamView>) -> Option<int> {
    if exists|i: int| is_first_video(streams, i) {
        Some(choose|i: int| is_first_video(streams, i))
    } else {
        None
    }
}

/// A list of streams has at most one first video stream.
pub proof fn lemma_first_video_is_unique(streams: Seq<StreamView>, i: int, j: int)
    requires
        is_first_video(streams, i),
        is_first_video(streams, j),
    ensures
        i == j,
{
    if i < j {
        assert(!streams[i].is_video());
    } else if j < i {
        assert(!streams[j].is_video());
    }
}

/// `first_video` finds the first video stream exactly where there is one.
pub proof fn lemma_first_video(streams: Seq<StreamView>)
    ensures
        match first_video(streams) {
            Some(i) => is_first_video(streams, i),
            None => has_no_video(streams),
        },
{
    if !(exists|i: int| is_first_video(streams, i)) {
        assert forall|j: int| 0 <= j < streams.len() implies !(#[trigger] streams[j]).is_video() by {
            lemma_no_video_before(streams, j);
        }
    }
}

/// Where no place is that of the first video stream, no stream up to `j`
/// carries video.
proof fn lemma_no_video_before(streams: Seq<StreamView>, j: int)
    requires
        0 <= j < streams.len(),
        !(exists|i: int| is_first_video(streams, i)),
    ensures
        forall|k: int| 0 <= k <= j ==> !(#[trigger] streams[k]).is_video(),
    decreases j,
{
    if j > 0 {
        lemma_no_video_before(streams, j - 1);
    }
    if streams[j].is_video() {
        assert(is_first_video(streams, j));
    }
}

impl FFProbeOutput {
    /// The place of the first video stream, if the file has one.
    pub fn first_video(&self) -> (r: Option<usize>)
        ensures
            match r {
                Some(i) => first_video(self@) == Some(i as int),
                None => first_video(self@) is None,
            },
    {
        let mut i: usize = 0;
        while i < self.streams.len()
            invariant
                i <= self.streams@.len(),
                self@.len() == self.streams@.len(),
                forall|j: int| 0 <= j < i ==> !(#[trigger] self@[j]).is_video(),
            decreases self.streams@.len() - i,
        {
            if self.streams[i].is_video() {
                proof {
                    assert(self@[i as int] == self.streams@[i as int]@);
                    assert(is_first_video(self@, i as int));
                    lemma_first_video(self@);
                    lemma_first_video_is_unique(self@, i as int, first_video(self@)->0);
                }
                return Some(i);
            }
            i = i + 1;
        }
        proof {
            lemma_first_video(self@);
        }
        None
    }
}

} // verus!
