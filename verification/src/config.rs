//! Decoder configuration and the media format derived from it.
//!
//! A stream session hands in the codec kind, an ordered list of extra codec
//! options and the texture the decoder renders to. Together with the
//! codec-specific data carried by the first access unit they determine the
//! format the hardware decoder is configured with.
use vstd::prelude::*;

verus! {

/// Width announced to the decoder before it has parsed the stream.
pub const INITIAL_WIDTH: i32 = 512;

/// Height announced to the decoder before it has parsed the stream.
pub const INITIAL_HEIGHT: i32 = 1024;

/// The video codecs a stream can use.
#[derive(Clone, Copy, Debug, PartialEq, Eq)]
pub enum CodecType {
    H264,
    HEVC,
}

/// The typed value of an extra codec option. A float is held as its
/// IEEE 754 bit pattern.
#[derive(Debug, PartialEq, Eq)]
pub enum MediacodecDataType {
    Float(u32),
    Int32(i32),
    Int64(i64),
    String(String),
}

/// The mathematical value of a [`MediacodecDataType`].
pub enum OptionValue {
    Float(u32),
    Int32(i32),
    Int64(i64),
    String(Seq<char>),
}

impl View for MediacodecDataType {
    type V = OptionValue;

    open spec fn view(&self) -> OptionValue {
        match self {
            MediacodecDataType::Float(bits) => OptionValue::Float(*bits),
            MediacodecDataType::Int32(value) => OptionValue::Int32(*value),
            MediacodecDataType::Int64(value) => OptionValue::Int64(*value),
            MediacodecDataType::String(value) => OptionValue::String(value@),
        }
    }
}

/// The value of one entry of a media format.
#[derive(Debug, PartialEq, Eq)]
pub enum FormatValue {
    Str(String),
    Int32(i32),
    Int64(i64),
    Float(u32),
    Buffer(Vec<u8>),
}

/// The mathematical value of a [`FormatValue`].
pub enum FormatValueView {
    Str(Seq<char>),
    Int32(i32),
    Int64(i64),
    Float(u32),
    Buffer(Seq<u8>),
}

impl View for FormatValue {
    type V = FormatValueView;

    open spec fn view(&self) -> FormatValueView {
        match self {
            FormatValue::Str(value) => FormatValueView::Str(value@),
            FormatValue::Int32(value) => FormatValueView::Int32(*value),
            FormatValue::Int64(value) => FormatValueView::Int64(*value),
            FormatValue::Float(bits) => FormatValueView::Float(*bits),
            FormatValue::Buffer(bytes) => FormatValueView::Buffer(bytes@),
        }
    }
}

/// One keyed entry of a media format.
#[derive(Debug, PartialEq, Eq)]
pub struct FormatEntry {
    pub key: String,
    pub value: FormatValue,
}

/// The mathematical value of a [`FormatEntry`].
pub struct FormatEntryView {
    pub key: Seq<char>,
    pub value: FormatValueView,
}

impl View for FormatEntry {
    type V = FormatEntryView;

    open spec fn view(&self) -> FormatEntryView {
        FormatEntryView { key: self.key@, value: self.value@ }
    }
}

/// The entries of a format, each by its value.
pub open spec fn entries_view(entries: Seq<FormatEntry>) -> Seq<FormatEntryView> {
    entries.map_values(|entry: FormatEntry| entry@)
}

/// The options of a configuration, each by its value.
pub open spec fn options_view(options: Seq<(String, MediacodecDataType)>) -> Seq<
    (Seq<char>, OptionValue),
> {
    options.map_values(|option: (String, MediacodecDataType)| (option.0@, option.1@))
}

/// The MIME type under which the platform knows the codec.
pub open spec fn spec_mime_type(codec: CodecType) -> Seq<char> {
    match codec {
        CodecType::H264 => "video/avc"@,
        CodecType::HEVC => "video/hevc"@,
    }
}

/// The format entry that carries an extra codec option.
pub open spec fn option_entry(option: (Seq<char>, OptionValue)) -> FormatEntryView {
    FormatEntryView {
        key: option.0,
        value: match option.1 {
            OptionValue::Float(bits) => FormatValueView::Float(bits),
            OptionValue::Int32(value) => FormatValueView::Int32(value),
            OptionValue::Int64(value) => FormatValueView::Int64(value),
            OptionValue::String(value) => FormatValueView::Str(value),
        },
    }
}

/// The format a decoder is configured with: the MIME type, the initial
/// picture size and the codec-specific data, followed by the extra options
/// in their order.
pub open spec fn spec_decoder_format(
    codec: CodecType,
    csd_0: Seq<u8>,
    options: Seq<(Seq<char>, OptionValue)>,
) -> Seq<FormatEntryView> {
    seq![
        FormatEntryView { key: "mime"@, value: FormatValueView::Str(spec_mime_type(codec)) },
        FormatEntryView { key: "width"@, value: FormatValueView::Int32(INITIAL_WIDTH) },
        FormatEntryView { key: "height"@, value: FormatValueView::Int32(INITIAL_HEIGHT) },
        FormatEntryView { key: "csd-0"@, value: FormatValueView::Buffer(csd_0) },
    ] + options.map_values(|option: (Seq<char>, OptionValue)| option_entry(option))
}

/// The MIME type under which the platform knows the codec.
pub fn mime_type(codec: CodecType) -> (mime: &'static str)
    ensures
        mime@ == spec_mime_type(codec),
{
    match codec {
        CodecType::H264 => "video/avc",
        CodecType::HEVC => "video/hevc",
    }
}

/// A copy of the bytes.
pub fn copy_bytes(bytes: &[u8]) -> (copy: Vec<u8>)
    ensures
        copy@ == bytes@,
{
    let mut copy: Vec<u8> = Vec::new();
    let mut i: usize = 0;
    while i < bytes.len()
        invariant
            i <= bytes.len(),
            copy@ == bytes@.take(i as int),
        decreases bytes.len() - i,
    {
        copy.push(bytes[i]);
        assert(bytes@.take(i + 1) =~= bytes@.take(i as int).push(bytes@[i as int]));
        i += 1;
    }
    assert(bytes@.take(i as int) =~= bytes@);
    copy
}

/// Builds the format a decoder is configured with.
pub fn decoder_format(
    codec: CodecType,
    csd_0: &[u8],
    options: &Vec<(String, MediacodecDataType)>,
) -> (format: Vec<FormatEntry>)
    ensures
        entries_view(format@) == spec_decoder_format(codec, csd_0@, options_view(options@)),
{
    let mut format: Vec<FormatEntry> = Vec::new();
    format.push(
        FormatEntry {
            key: "mime".to_owned(),
            value: FormatValue::Str(mime_type(codec).to_owned()),
        },
    );
    format.push(FormatEntry { key: "width".to_owned(), value: FormatValue::Int32(INITIAL_WIDTH) });
    format.push(
        FormatEntry { key: "height".to_owned(), value: FormatValue::Int32(INITIAL_HEIGHT) },
    );
    format.push(
        FormatEntry { key: "csd-0".to_owned(), value: FormatValue::Buffer(copy_bytes(csd_0)) },
    );
    let ghost base = entries_view(format@);
    let ghost wanted = options_view(options@).map_values(
        |option: (Seq<char>, OptionValue)| option_entry(option),
    );
    assert(base =~= spec_decoder_format(codec, csd_0@, Seq::empty()));
    let mut i: usize = 0;
    while i < options.len()
        invariant
            i <= options.len(),
            wanted == options_view(options@).map_values(
                |option: (Seq<char>, OptionValue)| option_entry(option),
            ),
            entries_view(format@) =~= base + wanted.take(i as int),
        decreases options.len() - i,
    {
        let option = &options[i];
        let value = match &option.1 {
            MediacodecDataType::Float(bits) => FormatValue::Float(*bits),
            MediacodecDataType::Int32(value) => FormatValue::Int32(*value),
            MediacodecDataType::Int64(value) => FormatValue::Int64(*value),
            MediacodecDataType::String(value) => FormatValue::Str(value.clone()),
        };
        let entry = FormatEntry { key: option.0.clone(), value };
        assert(entry@ == wanted[i as int]);
        let ghost before = format@;
        format.push(entry);
        assert(entries_view(format@) =~= entries_view(before).push(wanted[i as int]));
        assert(wanted.take(i + 1) =~= wanted.take(i as int).push(wanted[i as int]));
        i += 1;
    }
    assert(wanted.take(i as int) =~= wanted);
    assert(base + wanted =~= spec_decoder_format(codec, csd_0@, options_view(options@)));
    format
}

/// What a stream session hands in before its first access unit.
#[derive(Debug, PartialEq, Eq)]
pub struct DecoderInitConfig {
    pub codec: CodecType,
    pub options: Vec<(String, MediacodecDataType)>,
    pub gl_surface_handle: i32,
}

/// The mathematical value of a [`DecoderInitConfig`].
pub struct DecoderConfigView {
    pub codec: CodecType,
    pub options: Seq<(Seq<char>, OptionValue)>,
    pub gl_surface_handle: i32,
}

impl View for DecoderInitConfig {
    type V = DecoderConfigView;

    open spec fn view(&self) -> DecoderConfigView {
        DecoderConfigView {
            codec: self.codec,
            options: options_view(self.options@),
            gl_surface_handle: self.gl_surface_handle,
        }
    }
}

impl DecoderInitConfig {
    /// The configuration in force before a session has set one: H.264, no
    /// extra options, texture 0.
    pub fn new() -> (config: Self)
        ensures
            config@ == (DecoderConfigView {
                codec: CodecType::H264,
                options: Seq::empty(),
                gl_surface_handle: 0,
            }),
    {
        assert(options_view(Seq::<(String, MediacodecDataType)>::empty()) =~= Seq::empty());
        DecoderInitConfig { codec: CodecType::H264, options: Vec::new(), gl_surface_handle: 0 }
    }
}

} // verus!
