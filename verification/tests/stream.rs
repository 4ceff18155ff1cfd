use ambient::{event_payload, Cue, Engine, Event, LineOutcome, ParseError, StreamState, Throttle, Voice};

fn decode_error() -> ParseError {
    ParseError::Decode(serde_json::from_str::<serde_json::Value>("{not json").unwrap_err())
}

#[test]
fn payload_strips_surrounding_white_space() {
    assert_eq!(event_payload("  {\"kind\":\"idle\",\"unix\":1}\t\r\n").ok(), Some("{\"kind\":\"idle\",\"unix\":1}"));
    assert_eq!(event_payload("x").ok(), Some("x"));
    assert_eq!(event_payload("\u{3000}a b\u{a0}").ok(), Some("a b"));
}

#[test]
fn blank_lines_are_empty() {
    for line in ["", " ", "\t\r\n", "\u{2028}\u{85} "] {
        assert!(matches!(event_payload(line), Err(ParseError::Empty)), "{line:?}");
    }
}

#[test]
fn stream_counts_cues_and_skips_bad_lines() {
    let mut state = StreamState::new(Throttle::defaults());
    let items: Vec<Result<Event, ParseError>> = vec![
        Ok(Event::FileSave { unix: 100 }),
        Err(ParseError::Empty),
        Err(decode_error()),
        Ok(Event::FileSave { unix: 101 }),
        Ok(Event::BuildPass { unix: 110 }),
        Err(decode_error()),
        Ok(Event::HighFocus { unix: 200, run_seconds: 3600 }),
    ];
    let outcomes: Vec<LineOutcome> = items.iter().map(|i| state.next_line(i)).collect();
    assert_eq!(
        outcomes,
        vec![
            LineOutcome::Cue(Cue { voice: Voice::Chime, kind: "file_save", unix: 100, intensity: None }),
            LineOutcome::Blank,
            LineOutcome::Malformed { line_number: 3 },
            LineOutcome::Suppressed,
            LineOutcome::Cue(Cue { voice: Voice::Settle, kind: "build_pass", unix: 110, intensity: None }),
            LineOutcome::Malformed { line_number: 6 },
            LineOutcome::Cue(Cue {
                voice: Voice::Drift,
                kind: "high_focus",
                unix: 200,
                intensity: Some(3600),
            }),
        ]
    );
    assert_eq!(state.emitted(), 3);
}

#[test]
fn malformed_lines_do_not_move_the_throttle() {
    let mut state = StreamState::new(Throttle::defaults());
    assert!(matches!(state.next_line(&Ok(Event::Idle { unix: 0 })), LineOutcome::Cue(_)));
    for _ in 0..3 {
        state.next_line(&Err(decode_error()));
        state.next_line(&Err(ParseError::Empty));
    }
    assert_eq!(state.next_line(&Ok(Event::Idle { unix: 299 })), LineOutcome::Suppressed);
    assert!(matches!(state.next_line(&Ok(Event::Idle { unix: 300 })), LineOutcome::Cue(_)));
    assert_eq!(state.emitted(), 2);
}

#[test]
fn new_stream_has_emitted_nothing() {
    let state = StreamState::new(Throttle::defaults());
    assert_eq!(state.emitted(), 0);
}

#[test]
fn first_line_is_line_one() {
    let mut state = StreamState::new(Throttle::defaults());
    assert_eq!(state.next_line(&Err(decode_error())), LineOutcome::Malformed { line_number: 1 });
    assert_eq!(state.next_line(&Err(decode_error())), LineOutcome::Malformed { line_number: 2 });
}

#[test]
fn parse_error_messages() {
    assert_eq!(ParseError::Empty.message(), "empty line");
    let err = serde_json::from_str::<serde_json::Value>("{not json").unwrap_err();
    let expected = format!("decode error: {err}");
    assert_eq!(ParseError::Decode(err).message(), expected);
}

#[test]
fn surrounding_white_space_changes_nothing() {
    for s in ["{\"kind\":\"idle\",\"unix\":3}", "a \t b", "", " "] {
        let padded = format!("\u{2003}\t {s}\r\n\u{a0}");
        assert_eq!(event_payload(&padded).ok(), event_payload(s).ok());
        assert_eq!(
            matches!(event_payload(&padded), Err(ParseError::Empty)),
            matches!(event_payload(s), Err(ParseError::Empty))
        );
    }
}

#[test]
fn stream_cues_match_an_engine_fed_the_decoded_events() {
    let items: Vec<Result<Event, ParseError>> = vec![
        Ok(Event::FileSave { unix: 10 }),
        Err(decode_error()),
        Ok(Event::FileSave { unix: 12 }),
        Err(ParseError::Empty),
        Ok(Event::Idle { unix: 13 }),
        Ok(Event::FileSave { unix: 14 }),
        Err(decode_error()),
        Ok(Event::Fragmentation { unix: 401, switch_count: 3 }),
    ];
    let mut state = StreamState::new(Throttle::defaults());
    let from_stream: Vec<Cue> = items
        .iter()
        .filter_map(|i| match state.next_line(i) {
            LineOutcome::Cue(c) => Some(c),
            _ => None,
        })
        .collect();
    let mut engine = Engine::new(Throttle::defaults());
    let from_engine: Vec<Cue> = items
        .iter()
        .filter_map(|i| i.as_ref().ok())
        .filter_map(|e| engine.handle(e))
        .collect();
    assert_eq!(from_stream, from_engine);
    assert_eq!(state.emitted(), from_engine.len() as u64);
    assert_eq!(from_engine.len(), 4);
}
