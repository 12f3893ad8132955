//! The decisions around audio decoding: which decoder a format goes to, the
//! checks on an Ogg/Opus stream's identification header, the handling of each
//! packet while decoding, and the texts that decoding failures are reported with.
//!
//! The sample arithmetic itself (mixing down to mono, resampling to 16 kHz)
//! works on floating-point samples and is not part of this library.

use vstd::prelude::*;
use crate::text::{concat_text, decimal, decimal_text, same_text};

verus! {

/// The sample rate the transcription model expects.
pub const TARGET_SAMPLE_RATE: u32 = 16_000;

/// The rate at which Opus always decodes.
pub const OPUS_SAMPLE_RATE: u32 = 48_000;

/// The most samples per channel in one Opus frame (120 ms at 48 kHz).
pub const OPUS_MAX_FRAME_SAMPLES: usize = 5760;

/// The decoder that audio of a given format goes to.
#[derive(Clone, Copy, PartialEq, Eq, Debug)]
pub enum AudioDecoder {
    /// The WAV reader.
    Wav,
    /// The Ogg container with the Opus codec.
    OggOpus,
    /// Format detection by probing, with the format as a hint.
    Probe,
}

/// The decoder for `format`: `wav` to the WAV reader, `ogg` and `opus` to the
/// Ogg/Opus decoder, anything else to probing.
pub open spec fn decoder_spec(format: Seq<char>) -> AudioDecoder {
    if format == "wav"@ {
        AudioDecoder::Wav
    } else if format == "ogg"@ || format == "opus"@ {
        AudioDecoder::OggOpus
    } else {
        AudioDecoder::Probe
    }
}

/// Chooses the decoder for `format`.
pub fn decoder_for_format(format: &str) -> (d: AudioDecoder)
    ensures
        d == decoder_spec(format@),
{
    if same_text(format, "wav") {
        AudioDecoder::Wav
    } else if same_text(format, "ogg") || same_text(format, "opus") {
        AudioDecoder::OggOpus
    } else {
        AudioDecoder::Probe
    }
}

/// The file extension given to the prober as a hint: `aac` and `m4a` both
/// become `m4a`, other formats are passed as they are.
pub open spec fn probe_extension_spec(format: Seq<char>) -> Seq<char> {
    if format == "aac"@ || format == "m4a"@ {
        "m4a"@
    } else {
        format
    }
}

/// The extension hint for probing audio of `format`.
pub fn probe_extension(format: &str) -> (r: String)
    ensures
        r@ == probe_extension_spec(format@),
{
    if same_text(format, "aac") || same_text(format, "m4a") {
        String::from_str("m4a")
    } else {
        String::from_str(format)
    }
}

/// The magic signature `OpusHead` that opens an Opus identification header.
pub open spec fn opus_magic() -> Seq<u8> {
    seq![0x4Fu8, 0x70u8, 0x75u8, 0x73u8, 0x48u8, 0x65u8, 0x61u8, 0x64u8]
}

/// What an Opus identification header gives: its channel count (1 or 2), or
/// the text of the reason it is refused.
pub open spec fn opus_head_spec(packet: Seq<u8>) -> Result<u8, Seq<char>> {
    if packet.len() < 19 || packet.subrange(0, 8) != opus_magic() {
        Err("Invalid OpusHead header"@)
    } else if packet[9] == 0 || packet[9] > 2 {
        Err("Unsupported channel count: "@ + decimal(packet[9] as nat))
    } else {
        Ok(packet[9])
    }
}

/// Checks the first packet of an Ogg/Opus stream, the `OpusHead`
/// identification header, and reads its channel count.
pub fn parse_opus_head(packet: &[u8]) -> (r: Result<u8, String>)
    ensures
        match r {
            Ok(c) => opus_head_spec(packet@) == Ok::<u8, Seq<char>>(c),
            Err(e) => opus_head_spec(packet@) == Err::<u8, Seq<char>>(e@),
        },
{
    let magic: [u8; 8] = [0x4F, 0x70, 0x75, 0x73, 0x48, 0x65, 0x61, 0x64];
    assert(magic@ =~= opus_magic());
    if packet.len() < 19 {
        return Err(String::from_str("Invalid OpusHead header"));
    }
    let mut i: usize = 0;
    while i < 8
        invariant
            i <= 8,
            packet@.len() >= 19,
            magic@ == opus_magic(),
            forall|k: int| 0 <= k < i ==> packet@[k] == magic@[k],
        decreases 8 - i,
    {
        if packet[i] != magic[i] {
            assert(packet@.subrange(0, 8)[i as int] != opus_magic()[i as int]);
            return Err(String::from_str("Invalid OpusHead header"));
        }
        i = i + 1;
    }
    assert(packet@.subrange(0, 8) =~= opus_magic());
    let channels: u8 = packet[9];
    if channels == 0 || channels > 2 {
        let count = decimal_text(channels as u64);
        return Err(concat_text("Unsupported channel count: ", count.as_str()));
    }
    Ok(channels)
}

/// The room, in samples, that one decoded Opus frame of `channels`
/// interleaved channels can need.
pub fn opus_frame_capacity(channels: u8) -> (n: usize)
    requires
        1 <= channels <= 2,
    ensures
        n == OPUS_MAX_FRAME_SAMPLES * channels,
{
    OPUS_MAX_FRAME_SAMPLES * (channels as usize)
}

/// The divisor that scales an integer WAV sample of `bits` bits into [-1, 1):
/// two to the power `bits - 1`.
pub fn int_sample_scale(bits: u16) -> (scale: u32)
    requires
        1 <= bits <= 32,
    ensures
        scale as nat == vstd::arithmetic::power2::pow2((bits - 1) as nat),
{
    let shift: u32 = (bits - 1) as u32;
    let mut scale: u32 = 1;
    let mut k: u32 = 0;
    proof {
        vstd::arithmetic::power2::lemma2_to64();
    }
    while k < shift
        invariant
            k <= shift <= 31,
            scale as nat == vstd::arithmetic::power2::pow2(k as nat),
        decreases shift - k,
    {
        proof {
            vstd::arithmetic::power2::lemma_pow2_unfold((k + 1) as nat);
            vstd::arithmetic::power2::lemma_pow2_strictly_increases((k + 1) as nat, 32);
            vstd::arithmetic::power2::lemma2_to64();
        }
        scale = scale * 2;
        k = k + 1;
    }
    scale
}

/// What reading the next packet of a probed stream gave.
#[derive(Clone, Copy, PartialEq, Eq, Debug)]
pub enum PacketEvent {
    /// A packet of the given track.
    Packet { track_id: u32 },
    /// The stream ended (an unexpected end of file while reading).
    EndOfStream,
    /// Reading failed otherwise.
    ReadFailed,
}

/// What decoding a packet gave.
#[derive(Clone, Copy, PartialEq, Eq, Debug)]
pub enum DecodeEvent {
    /// Samples were decoded.
    Decoded,
    /// The packet held corrupt data.
    CorruptPacket,
    /// Decoding failed otherwise.
    Failed,
}

/// What the decoding loop does next.
#[derive(Clone, Copy, PartialEq, Eq, Debug)]
pub enum LoopStep {
    /// Decode this packet.
    Decode,
    /// Keep the decoded samples and go on.
    Keep,
    /// Skip this packet and go on.
    Skip,
    /// Stop: the stream is done.
    Finish,
    /// Stop with an error.
    Fail,
}

/// The step after reading a packet when decoding track `selected`.
pub open spec fn packet_step_spec(event: PacketEvent, selected: u32) -> LoopStep {
    match event {
        PacketEvent::Packet { track_id } => if track_id == selected {
            LoopStep::Decode
        } else {
            LoopStep::Skip
        },
        PacketEvent::EndOfStream => LoopStep::Finish,
        PacketEvent::ReadFailed => LoopStep::Fail,
    }
}

/// Decides what to do with the outcome of reading a packet: decode packets of
/// the selected track, skip the others, stop at the end of the stream, and
/// fail on any other read error.
pub fn packet_step(event: PacketEvent, selected: u32) -> (s: LoopStep)
    ensures
        s == packet_step_spec(event, selected),
{
    match event {
        PacketEvent::Packet { track_id } => if track_id == selected {
            LoopStep::Decode
        } else {
            LoopStep::Skip
        },
        PacketEvent::EndOfStream => LoopStep::Finish,
        PacketEvent::ReadFailed => LoopStep::Fail,
    }
}

/// The step after decoding a packet.
pub open spec fn decode_step_spec(event: DecodeEvent) -> LoopStep {
    match event {
        DecodeEvent::Decoded => LoopStep::Keep,
        DecodeEvent::CorruptPacket => LoopStep::Skip,
        DecodeEvent::Failed => LoopStep::Fail,
    }
}

/// Decides what to do with the outcome of decoding a packet: keep the
/// samples, skip a corrupt packet, fail on any other error.
pub fn decode_step(event: DecodeEvent) -> (s: LoopStep)
    ensures
        s == decode_step_spec(event),
{
    match event {
        DecodeEvent::Decoded => LoopStep::Keep,
        DecodeEvent::CorruptPacket => LoopStep::Skip,
        DecodeEvent::Failed => LoopStep::Fail,
    }
}

/// A decoding step that failed, reported with the error's own text.
#[derive(Clone, Copy, PartialEq, Eq, Debug)]
pub enum DecodeFailure {
    WavOpen,
    WavSamples,
    OggRead,
    OggPacketRead,
    OpusDecoderCreation,
    OpusDecode,
    Probe,
    DecoderCreation,
    PacketRead,
    PacketDecode,
}

/// The text a failure of `stage` starts with.
pub open spec fn decode_failure_prefix(stage: DecodeFailure) -> Seq<char> {
    match stage {
        DecodeFailure::WavOpen => "WAV decode error: "@,
        DecodeFailure::WavSamples => "WAV sample read error: "@,
        DecodeFailure::OggRead => "OGG read error: "@,
        DecodeFailure::OggPacketRead => "OGG packet read error: "@,
        DecodeFailure::OpusDecoderCreation => "Opus decoder creation error: "@,
        DecodeFailure::OpusDecode => "Opus decode error: "@,
        DecodeFailure::Probe => "Symphonia probe error: "@,
        DecodeFailure::DecoderCreation => "Symphonia decoder creation error: "@,
        DecodeFailure::PacketRead => "Symphonia packet read error: "@,
        DecodeFailure::PacketDecode => "Symphonia decode error: "@,
    }
}

fn decode_failure_text(stage: DecodeFailure) -> (s: &'static str)
    ensures
        s@ == decode_failure_prefix(stage),
{
    match stage {
        DecodeFailure::WavOpen => "WAV decode error: ",
        DecodeFailure::WavSamples => "WAV sample read error: ",
        DecodeFailure::OggRead => "OGG read error: ",
        DecodeFailure::OggPacketRead => "OGG packet read error: ",
        DecodeFailure::OpusDecoderCreation => "Opus decoder creation error: ",
        DecodeFailure::OpusDecode => "Opus decode error: ",
        DecodeFailure::Probe => "Symphonia probe error: ",
        DecodeFailure::DecoderCreation => "Symphonia decoder creation error: ",
        DecodeFailure::PacketRead => "Symphonia packet read error: ",
        DecodeFailure::PacketDecode => "Symphonia decode error: ",
    }
}

/// The message for a failure of `stage` whose error reads `detail`.
pub fn decode_failure_message(stage: DecodeFailure, detail: &str) -> (m: String)
    ensures
        m@ == decode_failure_prefix(stage) + detail@,
{
    concat_text(decode_failure_text(stage), detail)
}

/// A decoding problem that has a fixed message.
#[derive(Clone, Copy, PartialEq, Eq, Debug)]
pub enum DecodeProblem {
    EmptyOggStream,
    NoAudioTrack,
    UnknownSampleRate,
}

/// The message of a decoding problem.
pub open spec fn decode_problem_spec(p: DecodeProblem) -> Seq<char> {
    match p {
        DecodeProblem::EmptyOggStream => "Empty OGG stream"@,
        DecodeProblem::NoAudioTrack => "No audio track found"@,
        DecodeProblem::UnknownSampleRate => "Unknown sample rate"@,
    }
}

/// The message of a decoding problem.
pub fn decode_problem_message(p: DecodeProblem) -> (m: String)
    ensures
        m@ == decode_problem_spec(p),
{
    match p {
        DecodeProblem::EmptyOggStream => String::from_str("Empty OGG stream"),
        DecodeProblem::NoAudioTrack => String::from_str("No audio track found"),
        DecodeProblem::UnknownSampleRate => String::from_str("Unknown sample rate"),
    }
}

/// Every packet of the selected track is decoded, whatever the track's id;
/// packets of any other track are skipped; the end of the stream finishes the
/// loop and a failed read fails it.
pub proof fn law_selected_track_is_decoded(event: PacketEvent, selected: u32, step: LoopStep)
    requires
        step == packet_step_spec(event, selected),
    ensures
        event == (PacketEvent::Packet { track_id: selected }) ==> step == LoopStep::Decode,
        (event matches PacketEvent::Packet { track_id } && track_id != selected) ==> step == LoopStep::Skip,
        event == PacketEvent::EndOfStream ==> step == LoopStep::Finish,
        event == PacketEvent::ReadFailed ==> step == LoopStep::Fail,
{
}

} // verus!
