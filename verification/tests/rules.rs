use whisper_mcp_server::audio::{
    decode_failure_message, decode_problem_message, decode_step, decoder_for_format,
    int_sample_scale, opus_frame_capacity, packet_step, parse_opus_head, probe_extension,
    AudioDecoder, DecodeEvent, DecodeFailure, DecodeProblem, LoopStep, PacketEvent,
};
use whisper_mcp_server::cli::{bind_address, select_transport, stdio_request, Transport};
use whisper_mcp_server::text::{concat_text, contains, decimal_text, same_text, starts_with, trim};
use whisper_mcp_server::transcription::{
    assemble_transcript, run_failure_message, whisper_language, RunFailure,
};

fn opus_head(channels: u8) -> Vec<u8> {
    let mut head = b"OpusHead".to_vec();
    head.push(1);
    head.push(channels);
    head.extend_from_slice(&[0u8; 9]);
    head
}

#[test]
fn trim_matches_str_trim() {
    for s in ["", "   ", "  a b  ", "\t\nx\r\n", "\u{3000}y\u{a0}", "z", " \u{2028}q\u{85}"] {
        assert_eq!(trim(s), s.trim());
    }
}

#[test]
fn trim_twice_is_trim_once() {
    for s in ["  a  ", "\u{2003} b\t", "", "c"] {
        let once = trim(s);
        assert_eq!(trim(&once), once);
    }
}

#[test]
fn text_helpers() {
    assert!(same_text("abc", "abc"));
    assert!(!same_text("abc", "abd"));
    assert!(starts_with("notifications/x", "notifications/"));
    assert!(!starts_with("notif", "notifications/"));
    assert!(contains("text/json; application/json", "application/json"));
    assert!(!contains("application/jso", "application/json"));
    assert!(contains("x", ""));
    assert_eq!(concat_text("a", "bc"), "abc");
    assert_eq!(decimal_text(0), "0");
    assert_eq!(decimal_text(7), "7");
    assert_eq!(decimal_text(255), "255");
    assert_eq!(decimal_text(18446744073709551615), "18446744073709551615");
}

#[test]
fn formats_go_to_their_decoders() {
    assert_eq!(decoder_for_format("wav"), AudioDecoder::Wav);
    assert_eq!(decoder_for_format("ogg"), AudioDecoder::OggOpus);
    assert_eq!(decoder_for_format("opus"), AudioDecoder::OggOpus);
    assert_eq!(decoder_for_format("mp3"), AudioDecoder::Probe);
    assert_eq!(decoder_for_format("WAV"), AudioDecoder::Probe);
    assert_eq!(probe_extension("aac"), "m4a");
    assert_eq!(probe_extension("m4a"), "m4a");
    assert_eq!(probe_extension("flac"), "flac");
}

#[test]
fn opus_head_is_checked() {
    assert_eq!(parse_opus_head(&opus_head(1)), Ok(1));
    assert_eq!(parse_opus_head(&opus_head(2)), Ok(2));
    assert_eq!(
        parse_opus_head(&opus_head(0)),
        Err("Unsupported channel count: 0".to_string())
    );
    assert_eq!(
        parse_opus_head(&opus_head(6)),
        Err("Unsupported channel count: 6".to_string())
    );
    assert_eq!(
        parse_opus_head(&opus_head(1)[..18]),
        Err("Invalid OpusHead header".to_string())
    );
    let mut bad = opus_head(1);
    bad[0] = b'o';
    assert_eq!(parse_opus_head(&bad), Err("Invalid OpusHead header".to_string()));
}

#[test]
fn frame_and_sample_scales() {
    assert_eq!(opus_frame_capacity(1), 5760);
    assert_eq!(opus_frame_capacity(2), 11520);
    assert_eq!(int_sample_scale(8), 128);
    assert_eq!(int_sample_scale(16), 32768);
    assert_eq!(int_sample_scale(32), 2147483648);
}

#[test]
fn decoding_loop_steps() {
    assert_eq!(packet_step(PacketEvent::Packet { track_id: 3 }, 3), LoopStep::Decode);
    assert_eq!(packet_step(PacketEvent::Packet { track_id: 4 }, 3), LoopStep::Skip);
    assert_eq!(packet_step(PacketEvent::EndOfStream, 3), LoopStep::Finish);
    assert_eq!(packet_step(PacketEvent::ReadFailed, 3), LoopStep::Fail);
    assert_eq!(decode_step(DecodeEvent::Decoded), LoopStep::Keep);
    assert_eq!(decode_step(DecodeEvent::CorruptPacket), LoopStep::Skip);
    assert_eq!(decode_step(DecodeEvent::Failed), LoopStep::Fail);
}

#[test]
fn failure_texts() {
    assert_eq!(
        decode_failure_message(DecodeFailure::WavOpen, "bad"),
        "WAV decode error: bad"
    );
    assert_eq!(
        decode_failure_message(DecodeFailure::PacketRead, "eof"),
        "Symphonia packet read error: eof"
    );
    assert_eq!(decode_problem_message(DecodeProblem::EmptyOggStream), "Empty OGG stream");
    assert_eq!(decode_problem_message(DecodeProblem::NoAudioTrack), "No audio track found");
    assert_eq!(
        run_failure_message(RunFailure::StateCreation, "init"),
        "Failed to create whisper state: init"
    );
}

#[test]
fn language_and_transcript() {
    assert_eq!(whisper_language("auto"), None);
    assert_eq!(whisper_language("ru"), Some("ru".to_string()));
    let segments = vec![" Hello,".to_string(), " world!".to_string(), "  \n".to_string()];
    assert_eq!(assemble_transcript(&segments), "Hello, world!");
    assert_eq!(assemble_transcript(&Vec::new()), "");
}

#[test]
fn transports_and_addresses() {
    assert_eq!(select_transport("stdio"), Ok(Transport::Stdio));
    assert_eq!(select_transport("http"), Ok(Transport::Http));
    assert_eq!(select_transport("grpc"), Err("Unknown transport: grpc".to_string()));
    assert_eq!(bind_address("127.0.0.1", 8080), "127.0.0.1:8080");
    assert_eq!(stdio_request("  {\"a\":1}\n"), Some("{\"a\":1}".to_string()));
    assert_eq!(stdio_request(" \t "), None);
}
