use ambient::{Event, Throttle, Voice};

fn all_events() -> Vec<Event> {
    vec![
        Event::FileSave { unix: 1 },
        Event::FileCreate { unix: 2 },
        Event::BuildPass { unix: 3 },
        Event::BuildFail { unix: 4 },
        Event::Idle { unix: 5 },
        Event::HighFocus { unix: 6, run_seconds: 3600 },
        Event::Fragmentation { unix: 7, switch_count: 12 },
    ]
}

#[test]
fn voice_table_maps_each_kind_to_its_voice() {
    let voices: Vec<Voice> = all_events().iter().map(|e| e.voice()).collect();
    assert_eq!(
        voices,
        vec![
            Voice::Chime,
            Voice::Piano,
            Voice::Settle,
            Voice::Grain,
            Voice::Silence,
            Voice::Drift,
            Voice::Poly,
        ]
    );
}

#[test]
fn kind_strings_match_wire_discriminators() {
    let kinds: Vec<&str> = all_events().iter().map(|e| e.kind_str()).collect();
    assert_eq!(
        kinds,
        vec![
            "file_save",
            "file_create",
            "build_pass",
            "build_fail",
            "idle",
            "high_focus",
            "fragmentation",
        ]
    );
}

#[test]
fn every_variant_carries_its_timestamp() {
    let times: Vec<i64> = all_events().iter().map(|e| e.unix()).collect();
    assert_eq!(times, vec![1, 2, 3, 4, 5, 6, 7]);
    assert_eq!(Event::Idle { unix: -42 }.unix(), -42);
    assert_eq!(Event::FileSave { unix: i64::MIN }.unix(), i64::MIN);
}

#[test]
fn voice_wire_names() {
    assert_eq!(Voice::Chime.as_str(), "chime");
    assert_eq!(Voice::Piano.as_str(), "piano");
    assert_eq!(Voice::Settle.as_str(), "settle");
    assert_eq!(Voice::Grain.as_str(), "grain");
    assert_eq!(Voice::Silence.as_str(), "silence");
    assert_eq!(Voice::Drift.as_str(), "drift");
    assert_eq!(Voice::Poly.as_str(), "poly");
}

#[test]
fn distinct_kinds_have_distinct_voices() {
    let events = all_events();
    for a in &events {
        for b in &events {
            assert_eq!(a.voice() == b.voice(), a.kind_str() == b.kind_str());
        }
    }
}

#[test]
fn default_gaps_follow_the_table() {
    let t = Throttle::defaults();
    assert_eq!(t.gap_for(Voice::Chime), 4);
    assert_eq!(t.gap_for(Voice::Piano), 8);
    assert_eq!(t.gap_for(Voice::Settle), 30);
    assert_eq!(t.gap_for(Voice::Grain), 15);
    assert_eq!(t.gap_for(Voice::Silence), 300);
    assert_eq!(t.gap_for(Voice::Drift), 120);
    assert_eq!(t.gap_for(Voice::Poly), 30);
    assert_eq!(Throttle::default(), t);
}

#[test]
fn gap_for_reads_each_field() {
    let t = Throttle {
        chime_secs: 1,
        piano_secs: 2,
        settle_secs: 3,
        grain_secs: 4,
        silence_secs: 5,
        drift_secs: 6,
        poly_secs: 7,
    };
    let gaps: Vec<u64> = all_events().iter().map(|e| t.gap_for(e.voice())).collect();
    assert_eq!(gaps, vec![1, 2, 3, 4, 5, 6, 7]);
}

#[test]
fn all_voices_in_declaration_order() {
    assert_eq!(
        Voice::ALL,
        [
            Voice::Chime,
            Voice::Piano,
            Voice::Settle,
            Voice::Grain,
            Voice::Silence,
            Voice::Drift,
            Voice::Poly,
        ]
    );
    let names: Vec<&str> = Voice::ALL.iter().map(|v| v.as_str()).collect();
    assert_eq!(names, vec!["chime", "piano", "settle", "grain", "silence", "drift", "poly"]);
}
