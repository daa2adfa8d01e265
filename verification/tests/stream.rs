use backend_llm_anthropic::decode::finish_reason;
use backend_llm_anthropic::error::ProviderError;
use backend_llm_anthropic::json::Json;
use backend_llm_anthropic::normalized::{FinishReason, NormalizedStreamEvent};
use backend_llm_anthropic::sse::{find_event_boundary, find_event_data, strip_boundary_prefix};
use backend_llm_anthropic::stream::{Arrival, BlockState, StreamDecoder};

fn json(text: &str) -> Json {
    Json::from_json_text(text).unwrap()
}

/// Events as short texts that are easy to compare.
fn shown(events: &[NormalizedStreamEvent]) -> Vec<String> {
    let mut out = vec![];
    for event in events {
        out.push(match event {
            NormalizedStreamEvent::TextDelta(text) => format!("text {}", text),
            NormalizedStreamEvent::ToolCallReady(call) => format!(
                "call {} {} {}",
                call.id,
                call.name,
                call.arguments.to_json_text().unwrap(),
            ),
            NormalizedStreamEvent::Finish { reason, usage } => format!(
                "finish {:?} {} {} {}",
                reason,
                usage.input_tokens,
                usage.output_tokens,
                usage.cached_input_tokens,
            ),
        });
    }
    out
}

fn shown_items(items: Vec<Result<NormalizedStreamEvent, ProviderError>>) -> Vec<String> {
    let mut out = vec![];
    for item in items {
        match item {
            Ok(event) => out.push(shown(&[event]).remove(0)),
            Err(ProviderError::Network { message }) => out.push(format!("error {}", message)),
            Err(other) => panic!("{:?}", other),
        }
    }
    out
}

fn event(data: &str) -> String {
    format!("event: x\ndata: {}\n\n", data)
}

fn tool_turn(name: &str) -> String {
    let mut out = String::new();
    for data in [
        "{\"type\":\"message_start\",\"message\":{\"usage\":{\"input_tokens\":11}}}",
        "{\"type\":\"content_block_start\",\"index\":0,\"content_block\":{\"type\":\"text\"}}",
        "{\"type\":\"content_block_delta\",\"index\":0,\"delta\":{\"type\":\"text_delta\",\"text\":\"hm\"}}",
        "{\"type\":\"content_block_stop\",\"index\":0}",
    ] {
        out.push_str(&event(data));
    }
    out.push_str(&event(&format!(
        "{{\"type\":\"content_block_start\",\"index\":1,\"content_block\":{{\"type\":\"tool_use\",\"id\":\"t1\",\"name\":\"{}\"}}}}",
        name,
    )));
    for data in [
        "{\"type\":\"content_block_delta\",\"index\":1,\"delta\":{\"type\":\"input_json_delta\",\"partial_json\":\"{\\\"a\\\"\"}}",
        "{\"type\":\"content_block_delta\",\"index\":1,\"delta\":{\"type\":\"input_json_delta\",\"partial_json\":\":1}\"}}",
        "{\"type\":\"content_block_stop\",\"index\":1}",
        "{\"type\":\"message_delta\",\"delta\":{\"stop_reason\":\"tool_use\"},\"usage\":{\"output_tokens\":3}}",
        "{\"type\":\"message_stop\"}",
    ] {
        out.push_str(&event(data));
    }
    out
}

#[test]
fn boundaries() {
    assert_eq!(find_event_boundary(b""), None);
    assert_eq!(find_event_boundary(b"a\n"), None);
    assert_eq!(find_event_boundary(b"a\n\nb"), Some(1));
    assert_eq!(find_event_boundary(b"a\r\n\r\nb"), Some(1));
    assert_eq!(find_event_boundary(b"a\r\n\r"), None);
    // A blank line with carriage returns comes first, wherever it stands.
    assert_eq!(find_event_boundary(b"a\n\nb\r\n\r\n"), Some(4));
}

#[test]
fn blank_lines_are_taken_off() {
    let mut buf = b"\r\n\r\nx".to_vec();
    assert_eq!(strip_boundary_prefix(&mut buf), 4);
    assert_eq!(buf, b"x".to_vec());
    let mut buf = b"\n\n\nx".to_vec();
    assert_eq!(strip_boundary_prefix(&mut buf), 2);
    assert_eq!(buf, b"\nx".to_vec());
    let mut buf = b"x\n\n".to_vec();
    assert_eq!(strip_boundary_prefix(&mut buf), 0);
    assert_eq!(buf, b"x\n\n".to_vec());
}

#[test]
fn data_lines() {
    assert_eq!(find_event_data("event: x\ndata: {}"), Some("{}"));
    assert_eq!(find_event_data("data:   a b \r\nid: 1"), Some("a b "));
    assert_eq!(find_event_data("data:"), Some(""));
    assert_eq!(find_event_data("data:x\r"), Some("x\r"));
    assert_eq!(find_event_data("data: 1\ndata: 2"), Some("1"));
    assert_eq!(find_event_data(" data: 1"), None);
    assert_eq!(find_event_data(": ping"), None);
    assert_eq!(find_event_data(""), None);
    assert_eq!(find_event_data("\n\ndata:\u{e8}\n"), Some("\u{e8}"));
}

#[test]
fn a_turn_with_a_tool_call() {
    let mut decoder = StreamDecoder::new(false);
    let (items, done) = decoder.advance(Arrival::Bytes(tool_turn("fetch").into_bytes()));
    assert!(done);
    assert_eq!(
        shown_items(items),
        vec!["text hm", "call t1 fetch {\"a\":1}", "finish ToolCalls 11 3 0"],
    );
}

#[test]
fn a_turn_with_structured_output() {
    let mut decoder = StreamDecoder::new(true);
    let (items, done) = decoder.advance(Arrival::Bytes(tool_turn("respond").into_bytes()));
    assert!(done);
    assert_eq!(shown_items(items), vec!["text hm", "text {\"a\":1}", "finish Stop 11 3 0"]);
    let mut decoder = StreamDecoder::new(false);
    let (items, _) = decoder.advance(Arrival::Bytes(tool_turn("respond").into_bytes()));
    assert_eq!(
        shown_items(items),
        vec!["text hm", "call t1 respond {\"a\":1}", "finish ToolCalls 11 3 0"],
    );
}

#[test]
fn chunks_make_no_difference() {
    for text in [tool_turn("fetch"), tool_turn("fetch").replace("\n", "\r\n")] {
        let bytes = text.as_bytes();
        let mut whole = StreamDecoder::new(false);
        let expected = shown(&whole.feed(bytes));
        assert_eq!(expected.len(), 2);
        for size in [1usize, 2, 3, 7, 64] {
            let mut decoder = StreamDecoder::new(false);
            let mut told = vec![];
            for chunk in bytes.chunks(size) {
                told.extend(shown(&decoder.feed(chunk)));
            }
            assert_eq!(told, expected);
            assert!(decoder.stopped);
            assert_eq!(decoder.input_tokens, 11);
            assert_eq!(decoder.output_tokens, 3);
        }
    }
}

#[test]
fn mixed_blank_lines_depend_on_the_cut() {
    let first = event("{\"type\":\"content_block_delta\",\"delta\":{\"type\":\"text_delta\",\"text\":\"a\"}}");
    let second = "data: {\"type\":\"content_block_delta\",\"delta\":{\"type\":\"text_delta\",\"text\":\"b\"}}\r\n\r\n";
    let mut cut = StreamDecoder::new(false);
    let mut told = shown(&cut.feed(first.as_bytes()));
    told.extend(shown(&cut.feed(second.as_bytes())));
    assert_eq!(told, vec!["text a", "text b"]);
    let mut whole = StreamDecoder::new(false);
    let told = shown(&whole.feed(format!("{}{}", first, second).as_bytes()));
    assert_eq!(told, vec!["text a"]);
}

#[test]
fn nothing_is_read_behind_the_end() {
    let mut decoder = StreamDecoder::new(false);
    let text = format!(
        "{}{}",
        event("{\"type\":\"message_stop\"}"),
        event("{\"type\":\"content_block_delta\",\"delta\":{\"type\":\"text_delta\",\"text\":\"a\"}}"),
    );
    assert_eq!(decoder.feed(text.as_bytes()).len(), 0);
    assert!(decoder.stopped);
    assert_eq!(decoder.buffer.len(), 0);
    assert_eq!(
        decoder
            .feed(event("{\"type\":\"content_block_delta\",\"delta\":{\"type\":\"text_delta\",\"text\":\"a\"}}").as_bytes())
            .len(),
        0,
    );
}

#[test]
fn what_cannot_be_read_is_passed_over() {
    let mut decoder = StreamDecoder::new(false);
    let mut bytes = b"data: \xff\n\n: ping\n\ndata: {\n\ndata: 7\n\ndata: {\"type\":\"ping\"}\n\n".to_vec();
    bytes.extend_from_slice(b"data:{\"type\":\"content_block_delta\",\"delta\":{\"type\":\"text_delta\",\"text\":\"\\u00e8\"}}\n\n");
    assert_eq!(shown(&decoder.feed(&bytes)), vec!["text \u{e8}"]);
}

#[test]
fn the_end_of_the_answer_ends_the_turn() {
    let mut decoder = StreamDecoder::new(false);
    let (items, done) = decoder.advance(Arrival::Bytes(b"data: {}\n\n".to_vec()));
    assert!(!done);
    assert_eq!(items.len(), 0);
    let (items, done) = decoder.advance(Arrival::Ended);
    assert!(done);
    assert_eq!(shown_items(items), vec!["finish Other 0 0 0"]);
}

#[test]
fn a_failure_ends_the_turn() {
    let mut decoder = StreamDecoder::new(false);
    let (items, done) = decoder.advance(Arrival::Failed("reset".to_owned()));
    assert!(done);
    assert_eq!(shown_items(items), vec!["error read sse chunk: reset"]);
}

#[test]
fn events_one_by_one() {
    let mut decoder = StreamDecoder::new(true);
    // A tool block without pieces has the empty object for its input, and may lack id and name.
    decoder.apply_event(&json(
        "{\"type\":\"content_block_start\",\"index\":2,\"content_block\":{\"type\":\"tool_use\"}}",
    ));
    assert_eq!(decoder.blocks.len(), 1);
    let told = decoder.apply_event(&json("{\"type\":\"content_block_stop\",\"index\":2}"));
    assert_eq!(shown(&told), vec!["call   {}"]);
    assert_eq!(decoder.blocks.len(), 0);
    // The end of a block that never began says nothing.
    assert_eq!(decoder.apply_event(&json("{\"type\":\"content_block_stop\"}")).len(), 0);
    // Pieces are gathered under their own index, which is zero where it is missing.
    decoder.apply_event(&json(
        "{\"type\":\"content_block_delta\",\"delta\":{\"type\":\"input_json_delta\",\"partial_json\":\"[1\"}}",
    ));
    decoder.apply_event(&json(
        "{\"type\":\"content_block_start\",\"index\":0,\"content_block\":{\"type\":\"tool_use\",\"id\":\"i\",\"name\":\"n\"}}",
    ));
    decoder.apply_event(&json(
        "{\"type\":\"content_block_delta\",\"index\":1,\"delta\":{\"type\":\"input_json_delta\",\"partial_json\":\"x\"}}",
    ));
    decoder.apply_event(&json(
        "{\"type\":\"content_block_delta\",\"index\":0,\"delta\":{\"type\":\"input_json_delta\",\"partial_json\":\"]\"}}",
    ));
    let told = decoder.apply_event(&json("{\"type\":\"content_block_stop\",\"index\":0}"));
    assert_eq!(shown(&told), vec!["call i n [1]"]);
    // Counts are read in 32 bits.
    decoder.apply_event(&json(
        "{\"type\":\"message_start\",\"message\":{\"usage\":{\"input_tokens\":4294967297}}}",
    ));
    assert_eq!(decoder.input_tokens, 1);
    decoder.apply_event(&json(
        "{\"type\":\"message_delta\",\"delta\":{\"stop_reason\":\"max_tokens\"},\"usage\":{\"output_tokens\":5}}",
    ));
    assert_eq!(decoder.final_finish, Some(FinishReason::Length));
    assert_eq!(decoder.output_tokens, 5);
    decoder.apply_event(&json("{\"type\":\"message_delta\",\"delta\":{\"stop_reason\":\"refusal\"}}"));
    assert_eq!(decoder.final_finish, Some(FinishReason::Other));
    decoder.apply_event(&json("{\"type\":\"message_delta\",\"delta\":{}}"));
    assert_eq!(decoder.final_finish, Some(FinishReason::Other));
    decoder.apply_event(&json("{\"type\":\"message_delta\",\"delta\":{\"stop_reason\":\"stop_sequence\"}}"));
    assert_eq!(decoder.final_finish, Some(FinishReason::Stop));
}

#[test]
fn structured_output_ends_the_turn() {
    let mut decoder = StreamDecoder::new(true);
    let block = BlockState {
        kind: Some("tool_use".to_owned()),
        tool_id: None,
        tool_name: Some("respond".to_owned()),
        json_buffer: String::new(),
    };
    let told = decoder.complete_tool(block, Some(json("{\"b\":[true,null],\"a\":-3}")));
    assert_eq!(shown(&told), vec!["text {\"a\":-3,\"b\":[true,null]}"]);
    assert!(decoder.respond_text_emitted);
    decoder.apply_event(&json("{\"type\":\"message_delta\",\"delta\":{\"stop_reason\":\"tool_use\"}}"));
    assert_eq!(decoder.final_finish, Some(FinishReason::Stop));
    let told = decoder.deliver_respond(Err("why".to_owned()));
    assert_eq!(shown(&told), vec!["text "]);
}

#[test]
fn pieces_and_whole_answers_stop_for_the_same_reason() {
    for stop in ["end_turn", "stop_sequence", "max_tokens", "tool_use", "pause_turn"] {
        let mut decoder = StreamDecoder::new(false);
        decoder.apply_event(&json(&format!(
            "{{\"type\":\"message_delta\",\"delta\":{{\"stop_reason\":\"{}\"}}}}",
            stop,
        )));
        assert_eq!(decoder.final_finish, Some(finish_reason(Some(stop), false, true)));
    }
}

#[test]
fn the_last_counts_are_reported() {
    let mut decoder = StreamDecoder::new(false);
    let mut text = String::new();
    for data in [
        "{\"type\":\"message_start\",\"message\":{\"usage\":{\"input_tokens\":4}}}",
        "{\"type\":\"message_start\",\"message\":{}}",
        "{\"type\":\"message_delta\",\"usage\":{\"output_tokens\":1}}",
        "{\"type\":\"message_delta\",\"usage\":{\"output_tokens\":8}}",
        "{\"type\":\"message_delta\",\"delta\":{\"stop_reason\":\"end_turn\"}}",
    ] {
        text.push_str(&event(data));
    }
    let (items, done) = decoder.advance(Arrival::Bytes(text.into_bytes()));
    assert!(!done);
    assert_eq!(items.len(), 0);
    let (items, done) = decoder.advance(Arrival::Ended);
    assert!(done);
    assert_eq!(shown_items(items), vec!["finish Stop 4 8 0"]);
}
