use gchatter::chunker::{contains_terminator, join_fragments, SentenceChunker, DEFAULT_MIN_FRAGMENTS};
use gchatter::config::{select_backend, AiApi, AiChat, Backend, ChatError, Config, Language};
use gchatter::narration::{is_speakable, NarrationQueue};
use gchatter::recording::{CaptureCommand, RecContext};
use gchatter::session::plan_ask;
use gchatter::stream::{IngestAction, StreamEvent, StreamIngestor};
use gchatter::transcribe::{begin_transcription, join_segments, TranscribeError};

fn s(t: &str) -> String {
    t.to_string()
}

fn config() -> Config {
    Config {
        record_device: None,
        ollama_url: s("http://localhost"),
        ollama_port: 11434,
        ollama_model: s("llama3"),
        gpt: Some(AiApi::new(s("k1"), s("https://api.openai.com/v1/"), s("gpt-4o"))),
        deepseek: None,
        grok: Some(AiApi::new(s("k2"), s("https://api.x.ai/v1/"), s("grok-2"))),
        eleven: None,
        whisper_model: s("model.bin"),
        chat_msg_wait: 50,
    }
}

#[test]
fn chunker_emits_one_chunk_once_past_minimum() {
    let cycle = ["Hi", "there.", "How", "are", "you"];
    let mut c = SentenceChunker::new(DEFAULT_MIN_FRAGMENTS);
    let mut fed: Vec<&str> = vec![];
    let mut chunks: Vec<String> = vec![];
    let mut i = 0;
    while chunks.is_empty() {
        let f = cycle[i % cycle.len()];
        fed.push(f);
        if let Some(ch) = c.feed(s(f)) {
            chunks.push(ch);
        }
        i += 1;
        assert!(i <= 20);
    }
    assert_eq!(fed.len(), 12);
    assert_eq!(chunks.len(), 1);
    assert_eq!(chunks[0], fed.join(" "));
    assert_eq!(c.pending_len(), 0);
}

#[test]
fn chunker_waits_for_terminator_even_past_minimum() {
    let mut c = SentenceChunker::new(2);
    assert_eq!(c.feed(s("a")), None);
    assert_eq!(c.feed(s("b")), None);
    assert_eq!(c.feed(s("c")), None);
    assert_eq!(c.feed(s("d。")), Some(s("a b c d。")));
    assert_eq!(c.pending_len(), 0);
}

#[test]
fn chunker_flushes_single_fragment_at_end() {
    let mut c = SentenceChunker::new(DEFAULT_MIN_FRAGMENTS);
    assert_eq!(c.feed(s("Hello.")), None);
    assert_eq!(c.finish(), Some(s("Hello.")));
    assert_eq!(c.finish(), None);
}

#[test]
fn chunker_extra_terminator() {
    let mut c = SentenceChunker::new(0);
    assert_eq!(c.feed(s("why?")), None);
    c.add_terminator('?');
    assert_eq!(c.feed(s("how?")), Some(s("why? how?")));
}

#[test]
fn terminator_detection() {
    let t = vec!['.', '。'];
    assert!(contains_terminator("end.", &t));
    assert!(contains_terminator("終わり。", &t));
    assert!(!contains_terminator("no end", &t));
    assert!(!contains_terminator("", &t));
}

#[test]
fn join_fragments_exact() {
    assert_eq!(join_fragments(&vec![]), "");
    assert_eq!(join_fragments(&vec![s("a")]), "a");
    assert_eq!(join_fragments(&vec![s("a"), s(""), s("b")]), "a  b");
}

#[test]
fn narration_queue_keeps_order() {
    let mut q = NarrationQueue::new();
    assert!(q.is_empty());
    q.push(s("A"));
    q.push(s("B"));
    q.push(s("C"));
    assert_eq!(q.len(), 3);
    assert_eq!(q.pop(), Some(s("A")));
    assert_eq!(q.pop(), Some(s("B")));
    assert_eq!(q.pop(), Some(s("C")));
    assert_eq!(q.pop(), None);
}

#[test]
fn unspeakable_chunk_is_skipped() {
    assert!(!is_speakable("123!"));
    assert!(!is_speakable("HELLO"));
    assert!(is_speakable("Hi"));
    let mut q = NarrationQueue::new();
    q.push(s("123!"));
    q.push(s("hello there"));
    q.push(s("--- 42 ---"));
    q.push(s("bye"));
    assert_eq!(q.next_utterance(), Some(s("hello there")));
    assert_eq!(q.next_utterance(), Some(s("bye")));
    assert_eq!(q.next_utterance(), None);
    assert!(q.is_empty());
}

#[test]
fn transcription_of_empty_buffer_is_empty() {
    let rec = RecContext::new();
    assert_eq!(begin_transcription(&rec), Ok(false));
    assert_eq!(join_segments(&vec![]), "");
}

#[test]
fn transcription_refused_while_capturing() {
    let mut rec = RecContext::new();
    assert_eq!(rec.start(), CaptureCommand::Spawn);
    assert_eq!(begin_transcription(&rec), Err(TranscribeError::CaptureActive));
    assert!(rec.stop());
    assert_eq!(begin_transcription(&rec), Err(TranscribeError::CaptureActive));
    assert!(rec.take_handle());
    assert_eq!(begin_transcription(&rec), Ok(false));
}

#[test]
fn transcription_joins_segments_in_order() {
    assert_eq!(join_segments(&vec![s(" Hello"), s(" world"), s(".")]), " Hello world.");
}

#[test]
fn disconnect_flushes_once_and_ends() {
    let mut ing = StreamIngestor::new(true, DEFAULT_MIN_FRAGMENTS);
    match ing.step(StreamEvent::Delta(s("Hello"))) {
        IngestAction::Show { text, chunk } => {
            assert_eq!(text, "Hello");
            assert_eq!(chunk, None);
        }
        _ => panic!("expected text"),
    }
    assert!(matches!(ing.step(StreamEvent::Empty), IngestAction::Wait));
    assert!(matches!(ing.step(StreamEvent::NoContent), IngestAction::Skip));
    match ing.step(StreamEvent::Delta(s("world."))) {
        IngestAction::Show { text, chunk } => {
            assert_eq!(text, "world.");
            assert_eq!(chunk, None);
        }
        _ => panic!("expected text"),
    }
    match ing.step(StreamEvent::Disconnected) {
        IngestAction::Finish { chunk } => assert_eq!(chunk, Some(s("Hello world."))),
        _ => panic!("expected finish"),
    }
    assert!(ing.is_finished());
    assert!(matches!(ing.step(StreamEvent::Delta(s("late."))), IngestAction::Stopped));
    assert!(matches!(ing.step(StreamEvent::Disconnected), IngestAction::Stopped));
}

#[test]
fn single_fragment_flushed_at_disconnect() {
    let mut ing = StreamIngestor::new(true, DEFAULT_MIN_FRAGMENTS);
    assert!(matches!(ing.step(StreamEvent::Delta(s("Hello."))), IngestAction::Show { chunk: None, .. }));
    match ing.step(StreamEvent::Disconnected) {
        IngestAction::Finish { chunk } => assert_eq!(chunk, Some(s("Hello."))),
        _ => panic!("expected finish"),
    }
}

#[test]
fn failure_mid_stream_flushes_pending() {
    let mut ing = StreamIngestor::new(true, DEFAULT_MIN_FRAGMENTS);
    assert!(matches!(ing.step(StreamEvent::Delta(s("Part"))), IngestAction::Show { .. }));
    assert!(matches!(ing.step(StreamEvent::Delta(s("way"))), IngestAction::Show { .. }));
    match ing.step(StreamEvent::Failed) {
        IngestAction::Finish { chunk } => assert_eq!(chunk, Some(s("Part way"))),
        _ => panic!("expected finish"),
    }
    assert!(matches!(ing.step(StreamEvent::Empty), IngestAction::Stopped));
}

#[test]
fn failure_ends_stream_like_disconnect() {
    let mut ing = StreamIngestor::new(true, DEFAULT_MIN_FRAGMENTS);
    match ing.step(StreamEvent::Failed) {
        IngestAction::Finish { chunk } => assert_eq!(chunk, None),
        _ => panic!("expected finish"),
    }
}

#[test]
fn ingestor_without_narration_only_shows() {
    let mut ing = StreamIngestor::new(false, 0);
    match ing.step(StreamEvent::Delta(s("One."))) {
        IngestAction::Show { text, chunk } => {
            assert_eq!(text, "One.");
            assert_eq!(chunk, None);
        }
        _ => panic!("expected text"),
    }
    match ing.step(StreamEvent::Disconnected) {
        IngestAction::Finish { chunk } => assert_eq!(chunk, None),
        _ => panic!("expected finish"),
    }
}

#[test]
fn ingestor_dispatches_chunk_mid_stream() {
    let mut ing = StreamIngestor::new(true, 1);
    assert!(matches!(ing.step(StreamEvent::Delta(s("A"))), IngestAction::Show { chunk: None, .. }));
    match ing.step(StreamEvent::Delta(s("b."))) {
        IngestAction::Show { chunk, .. } => assert_eq!(chunk, Some(s("A b."))),
        _ => panic!("expected text"),
    }
}

#[test]
fn stop_then_join_after_toggles() {
    let mut rec = RecContext::new();
    for _ in 0..3 {
        assert!(rec.toggle());
        assert!(rec.is_recording());
        assert!(rec.has_thread());
        assert!(rec.should_capture(rec.session()));
        assert!(!rec.take_handle());
        assert!(!rec.toggle());
        assert!(!rec.should_capture(rec.session()));
        assert!(rec.take_handle());
        assert!(!rec.has_thread());
        assert!(!rec.take_handle());
    }
}

#[test]
fn start_twice_spawns_once() {
    let mut rec = RecContext::new();
    assert_eq!(rec.start(), CaptureCommand::Spawn);
    let s = rec.session();
    rec.append_frame(s, &[1, 2]);
    assert_eq!(rec.start(), CaptureCommand::Keep);
    assert_eq!(rec.session(), s);
    assert_eq!(rec.get_ad(), &[1, 2]);
    assert!(rec.is_recording());
}

#[test]
fn toggle_always_flips() {
    let mut rec = RecContext::new();
    assert!(rec.toggle());
    let first = rec.session();
    assert!(!rec.toggle());
    // The stopped thread was not joined: turning on again retires its session.
    assert!(rec.toggle());
    assert!(rec.is_recording());
    assert_ne!(rec.session(), first);
    assert!(!rec.should_capture(first));
    assert!(!rec.toggle());
    assert!(!rec.is_recording());
}

#[test]
fn restart_before_join_asks_to_join_previous() {
    let mut rec = RecContext::new();
    assert_eq!(rec.start(), CaptureCommand::Spawn);
    let first = rec.session();
    rec.append_frame(first, &[4]);
    assert!(rec.stop());
    assert_eq!(rec.start(), CaptureCommand::JoinThenSpawn);
    assert_eq!(rec.buffer_len(), 0);
    rec.append_frame(first, &[5]);
    assert_eq!(rec.buffer_len(), 0);
    rec.append_frame(rec.session(), &[6]);
    assert_eq!(rec.get_ad(), &[6]);
}

#[test]
fn frames_after_stop_are_dropped() {
    let mut rec = RecContext::new();
    rec.append_frame(rec.session(), &[9]);
    assert_eq!(rec.buffer_len(), 0);
    rec.rec(true);
    assert!(rec.is_recording());
    let s = rec.session();
    rec.append_frame(s, &[1, 2, 3]);
    rec.append_frame(s, &[4]);
    assert_eq!(rec.get_ad(), &[1, 2, 3, 4]);
    rec.rec(false);
    assert!(!rec.is_recording());
    rec.append_frame(s, &[5]);
    assert_eq!(rec.buffer_len(), 4);
    rec.clear();
    assert_eq!(rec.buffer_len(), 0);
}

#[test]
fn start_resets_buffer() {
    let mut rec = RecContext::new();
    rec.start();
    rec.append_frame(rec.session(), &[7, 7]);
    rec.stop();
    rec.take_handle();
    assert_eq!(rec.start(), CaptureCommand::Spawn);
    assert_eq!(rec.buffer_len(), 0);
    rec.append_frame(rec.session(), &[3]);
    rec.reset_buffer();
    assert_eq!(rec.buffer_len(), 0);
}

#[test]
fn device_change_restarts_when_active() {
    let mut rec = RecContext::new();
    assert_eq!(rec.device(), 0);
    assert!(!rec.set_rec_device(2));
    assert_eq!(rec.device(), 2);
    rec.start();
    assert!(rec.set_rec_device(1));
    assert_eq!(rec.device(), 1);
    assert!(rec.is_recording());
}

#[test]
fn backend_selection() {
    let conf = config();
    assert!(matches!(select_backend(None, &conf), Err(ChatError::NoBackend)));
    assert!(matches!(
        select_backend(Some(AiChat::Deepseek), &conf),
        Err(ChatError::NotConfigured(AiChat::Deepseek))
    ));
    match select_backend(Some(AiChat::Grok), &conf) {
        Ok(Backend::Online { api }) => {
            assert_eq!(api.key, "k2");
            assert_eq!(api.url, "https://api.x.ai/v1/");
            assert_eq!(api.model, "grok-2");
        }
        _ => panic!("expected grok"),
    }
    match select_backend(Some(AiChat::Ollama), &conf) {
        Ok(Backend::Local { url, port, model }) => {
            assert_eq!(url, "http://localhost");
            assert_eq!(port, 11434);
            assert_eq!(model, "llama3");
        }
        _ => panic!("expected ollama"),
    }
}

#[test]
fn ask_plan_snapshots_settings() {
    let conf = config();
    let plan = plan_ask(Some(AiChat::ChatGPT), true, &conf).ok().unwrap();
    assert_eq!(plan.poll_wait_ms, 50);
    assert!(!plan.ingestor.is_finished());
    match plan.backend {
        Backend::Online { api } => assert_eq!(api.model, "gpt-4o"),
        _ => panic!("expected online"),
    }
    assert!(matches!(plan_ask(None, false, &conf), Err(ChatError::NoBackend)));
}

#[test]
fn selector_positions_and_language_codes() {
    assert_eq!(AiChat::from_index(0), Some(AiChat::ChatGPT));
    assert_eq!(AiChat::from_index(3), Some(AiChat::Ollama));
    assert_eq!(AiChat::from_index(4), None);
    assert_eq!(Language::from_index(8), Some(Language::JP));
    assert_eq!(Language::from_index(9), None);
    assert_eq!(Language::EN.code(), "en");
    assert_eq!(Language::CN.code(), "cn");
    assert_eq!(Language::from_index(5).unwrap().code(), "es");
}
