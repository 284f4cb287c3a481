use miniclaw::json::Json;
use miniclaw::message::{AgentEvent, EventKind};
use miniclaw::stream::{delta_of, line_token, payload, token, StreamDecoder};

fn envelope(fragment: &str) -> String {
    let quoted = serde_json::Value::String(fragment.to_string()).to_string();
    format!("{{\"id\":\"c1\",\"choices\":[{{\"index\":0,\"delta\":{{\"content\":{}}}}}]}}", quoted)
}

fn stream_of(fragments: &[&str]) -> Vec<u8> {
    let mut bytes = Vec::new();
    for fragment in fragments {
        bytes.extend_from_slice(format!("data: {}\n\n", envelope(fragment)).as_bytes());
    }
    bytes.extend_from_slice(b"data: [DONE]\n\n");
    bytes
}

fn decode(chunks: &[&[u8]]) -> (Vec<String>, String) {
    let mut decoder = StreamDecoder::new();
    let mut tokens = Vec::new();
    for chunk in chunks {
        for event in decoder.feed(chunk) {
            assert_eq!(event.kind, EventKind::Token);
            tokens.push(event.content);
        }
        assert_eq!(decoder.text(), tokens.concat());
    }
    (tokens, decoder.finish())
}

fn object(members: Vec<(&str, Json)>) -> Json {
    Json::Object(members.into_iter().map(|(k, v)| (k.to_string(), v)).collect())
}

fn text(s: &str) -> Json {
    Json::Text(s.to_string())
}

#[test]
fn tokens_rebuild_the_text() {
    let fragments = ["Hello", ", ", "world", "!\n", "caf\u{e9} \u{1F600}", "", "\"quoted\" \\ /"];
    let bytes = stream_of(&fragments);
    let (tokens, full) = decode(&[&bytes]);
    assert_eq!(tokens, fragments);
    assert_eq!(full, fragments.concat());
    assert_eq!(tokens.concat(), full);
}

#[test]
fn chunk_boundaries_do_not_matter() {
    let fragments = ["Thought: ", "caf\u{e9}", " \u{1F600} ", "<tool name=\"terminal\">", "ls</tool>"];
    let bytes = stream_of(&fragments);
    let want = decode(&[&bytes]);
    assert_eq!(want.1, fragments.concat());
    for cut in 0..=bytes.len() {
        let got = decode(&[&bytes[..cut], &bytes[cut..]]);
        assert_eq!(got, want, "cut at {}", cut);
    }
    for size in 1..8usize {
        let chunks: Vec<&[u8]> = bytes.chunks(size).collect();
        assert_eq!(decode(&chunks), want, "chunks of {}", size);
    }
    let mut chunks: Vec<&[u8]> = Vec::new();
    let mut at = 0;
    let mut step = 1;
    while at < bytes.len() {
        let end = (at + step).min(bytes.len());
        chunks.push(&bytes[at..end]);
        chunks.push(&bytes[end..end]);
        at = end;
        step = step * 3 % 17 + 1;
    }
    assert_eq!(decode(&chunks), want);
}

#[test]
fn events_come_with_the_chunk_that_ends_their_line() {
    let mut decoder = StreamDecoder::new();
    let line = format!("data: {}", envelope("Hi"));
    assert!(decoder.feed(line.as_bytes()).is_empty());
    assert_eq!(decoder.text(), "");
    let events: Vec<AgentEvent> = decoder.feed(b"\n");
    assert_eq!(events.len(), 1);
    assert_eq!(events[0].kind, EventKind::Token);
    assert_eq!(events[0].content, "Hi");
    assert!(decoder.feed(b"\n").is_empty());
    let both = format!("data: {}\ndata: {}\n", envelope("a"), envelope("b"));
    let events = decoder.feed(both.as_bytes());
    assert_eq!(events.len(), 2);
    assert_eq!(events[0].content, "a");
    assert_eq!(events[1].content, "b");
    assert_eq!(decoder.finish(), "Hiab");
}

#[test]
fn other_lines_are_passed_over() {
    let mut bytes = Vec::new();
    bytes.extend_from_slice(b": keep-alive\n");
    bytes.extend_from_slice(b"event: message\n");
    bytes.extend_from_slice(b"\n");
    bytes.extend_from_slice(b"   \r\n");
    bytes.extend_from_slice(b"data: not json\n");
    bytes.extend_from_slice(b"data: {\"choices\":[]}\n");
    bytes.extend_from_slice(b"data: {\"choices\":[{\"delta\":{}}]}\n");
    bytes.extend_from_slice(b"data: {\"choices\":[{\"delta\":{\"content\":null}}]}\n");
    bytes.extend_from_slice(b"data: {\"choices\":[{\"delta\":{\"content\":7}}]}\n");
    bytes.extend_from_slice(b"data: {\"choices\":{\"0\":{\"delta\":{\"content\":\"no\"}}}}\n");
    bytes.extend_from_slice(b"data:{\"choices\":[{\"delta\":{\"content\":\"no space\"}}]}\n");
    bytes.extend_from_slice(b"DATA: {\"choices\":[{\"delta\":{\"content\":\"upper\"}}]}\n");
    bytes.extend_from_slice(b"data: [DONE]\n");
    bytes.extend_from_slice(format!("  data: {}  \r\n", envelope("kept")).as_bytes());
    bytes.extend_from_slice(b"data: {\"choices\":[{\"delta\":{\"content\":\"first\"}},{\"delta\":{\"content\":\"second\"}}]}\n");
    let (tokens, full) = decode(&[&bytes]);
    assert_eq!(tokens, vec!["kept", "first"]);
    assert_eq!(full, "keptfirst");
}

#[test]
fn a_last_line_without_newline_carries_nothing() {
    let line = format!("data: {}", envelope("lost"));
    let (tokens, full) = decode(&[line.as_bytes()]);
    assert!(tokens.is_empty());
    assert_eq!(full, "");
}

#[test]
fn bytes_that_are_no_utf8_are_replaced() {
    let mut line = b"data: {\"choices\":[{\"delta\":{\"content\":\"a".to_vec();
    line.push(0xFF);
    line.extend_from_slice(b"b\"}}]}");
    assert_eq!(line_token(&line), Some("a\u{FFFD}b".to_string()));
    line.push(b'\n');
    let (tokens, _) = decode(&[&line]);
    assert_eq!(tokens, vec!["a\u{FFFD}b"]);
}

#[test]
fn line_token_reads_a_data_line() {
    let line = format!("data: {}", envelope("x\ny"));
    assert_eq!(line_token(&line.as_bytes().to_vec()), Some("x\ny".to_string()));
    assert_eq!(line_token(&b"data: [DONE]".to_vec()), None);
    assert_eq!(line_token(&Vec::new()), None);
}

#[test]
fn payload_is_what_follows_the_marker() {
    assert_eq!(payload("data: {}"), Some("{}".to_string()));
    assert_eq!(payload("  data: x y \r"), Some("x y".to_string()));
    assert_eq!(payload("data: "), None);
    assert_eq!(payload("data:  x"), Some(" x".to_string()));
    assert_eq!(payload("data:x"), None);
    assert_eq!(payload("event: data: x"), None);
    assert_eq!(payload(""), None);
}

#[test]
fn token_reads_the_fragment_of_a_payload() {
    assert_eq!(token(&envelope("abc")), Some("abc".to_string()));
    assert_eq!(token(&envelope("")), Some(String::new()));
    assert_eq!(token("[DONE]"), None);
    assert_eq!(token("[DONE] "), None);
    assert_eq!(token("{"), None);
    assert_eq!(token("\"abc\""), None);
    assert_eq!(token("{\"choices\":[{\"delta\":{\"content\":\"\\u00e9\\n\"}}]}"), Some("\u{e9}\n".to_string()));
    assert_eq!(
        token("{\"choices\":[{\"delta\":{\"content\":\"a\",\"content\":\"b\"}}]}"),
        Some("b".to_string())
    );
}

#[test]
fn delta_of_reads_the_expected_place() {
    let good = object(vec![(
        "choices",
        Json::Array(vec![object(vec![("delta", object(vec![("content", text("hi"))]))])]),
    )]);
    assert_eq!(delta_of(&good), Some("hi".to_string()));
    let empty_choices = object(vec![("choices", Json::Array(Vec::new()))]);
    assert_eq!(delta_of(&empty_choices), None);
    let no_choices = object(vec![("other", Json::Null)]);
    assert_eq!(delta_of(&no_choices), None);
    let not_text = object(vec![(
        "choices",
        Json::Array(vec![object(vec![("delta", object(vec![("content", Json::Bool(true))]))])]),
    )]);
    assert_eq!(delta_of(&not_text), None);
    let keyed = object(vec![(
        "choices",
        object(vec![("0", object(vec![("delta", object(vec![("content", text("hi"))]))]))]),
    )]);
    assert_eq!(delta_of(&keyed), None);
    assert_eq!(delta_of(&Json::Null), None);
    assert_eq!(delta_of(&Json::Array(vec![good])), None);
}

fn by_text_buffer(chunks: &[&[u8]]) -> (Vec<String>, String) {
    let mut full = String::new();
    let mut tokens = Vec::new();
    let mut buffer = String::new();
    for chunk in chunks {
        buffer.push_str(&String::from_utf8_lossy(chunk));
        while let Some(pos) = buffer.find('\n') {
            let line = buffer[..pos].trim().to_string();
            buffer.drain(..pos + 1);
            if line.starts_with("data: ") {
                let payload = &line[6..];
                if payload == "[DONE]" {
                    continue;
                }
                if let Ok(j) = serde_json::from_str::<serde_json::Value>(payload) {
                    if let Some(content) = j["choices"][0]["delta"]["content"].as_str() {
                        full.push_str(content);
                        tokens.push(content.to_string());
                    }
                }
            }
        }
    }
    (tokens, full)
}

#[test]
fn agrees_with_a_text_buffer_on_whole_characters() {
    let pieces = [
        "data: ", "data:", "{\"choices\":[{\"delta\":{\"content\":\"a b\"}}]}", "\n", "\r\n", " ",
        "[DONE]", "{\"choices\":[{\"delta\":{\"content\":\"\u{e9}\\n\u{1F600}\"}}]}", "{", "}",
        "\u{a0}", "event: x", "{\"choices\":[]}", "\"", "\t", "\u{2028}",
    ];
    let mut state: u64 = 0x9E3779B97F4A7C15;
    let mut next = move || {
        state ^= state << 13;
        state ^= state >> 7;
        state ^= state << 17;
        state
    };
    for _ in 0..3000 {
        let mut stream = String::new();
        let count = 1 + (next() % 14) as usize;
        for _ in 0..count {
            stream.push_str(pieces[(next() % pieces.len() as u64) as usize]);
        }
        let bytes = stream.as_bytes();
        let mut cuts: Vec<usize> = (0..=bytes.len()).filter(|i| stream.is_char_boundary(*i)).collect();
        cuts.retain(|i| *i == 0 || *i == bytes.len() || next() % 3 == 0);
        let chunks: Vec<&[u8]> = cuts.windows(2).map(|w| &bytes[w[0]..w[1]]).collect();
        assert_eq!(decode(&chunks), by_text_buffer(&chunks), "on {:?} cut at {:?}", stream, cuts);
        assert_eq!(decode(&chunks), decode(&[bytes]), "on {:?} cut at {:?}", stream, cuts);
    }
}

#[test]
fn a_character_cut_in_two_is_still_read_whole() {
    let bytes = stream_of(&["caf\u{e9}"]);
    let at = bytes.iter().position(|b| *b == 0xC3).unwrap() + 1;
    let (tokens, full) = decode(&[&bytes[..at], &bytes[at..]]);
    assert_eq!(tokens, vec!["caf\u{e9}"]);
    assert_eq!(full, "caf\u{e9}");
}
