use whispo::{
    build_config, build_config_for_host, clamp_threads, decimal_text, eq_ignore_ascii_case,
    format_button, format_key, is_fn_key_pressed, join_with_spaces, normalize_event,
    parse_command, paste_chord, resolve_language, samples_or_silence, signed_decimal_text,
    transcript_from_segments, Command, EventKind, FnKeyProbe, KeyAction, LanguageMode, Modifier,
    MouseButton, Platform, RawEvent, RawEventKind, RecognitionOptions, Timestamp, FULL_SCALE,
};

fn opts(language: Option<&str>, threads: Option<usize>) -> RecognitionOptions {
    RecognitionOptions { language: language.map(|s| s.to_string()), threads }
}

fn strings(v: &[&str]) -> Vec<String> {
    v.iter().map(|s| s.to_string()).collect()
}

fn at() -> Timestamp {
    Timestamp { secs_since_epoch: 1_700_000_000, nanos_since_epoch: 250 }
}

#[test]
fn threads_zero_becomes_one() {
    assert_eq!(clamp_threads(0), 1);
    assert_eq!(build_config(&opts(None, Some(0)), 4).n_threads, 1);
}

#[test]
fn threads_hundred_becomes_eight() {
    assert_eq!(clamp_threads(100), 8);
    assert_eq!(build_config(&opts(None, Some(100)), 4).n_threads, 8);
}

#[test]
fn threads_in_range_kept() {
    for t in 1..=8usize {
        assert_eq!(clamp_threads(t), t as i32);
    }
    assert_eq!(clamp_threads(usize::MAX), 8);
}

#[test]
fn threads_absent_use_core_count() {
    assert_eq!(build_config(&opts(None, None), 3).n_threads, 3);
    assert_eq!(build_config(&opts(None, None), 64).n_threads, 8);
    let host = build_config_for_host(&opts(None, None));
    assert!(host.n_threads >= 1 && host.n_threads <= 8);
    assert_eq!(build_config_for_host(&opts(None, Some(5))).n_threads, 5);
}

#[test]
fn language_absent_detects() {
    assert_eq!(resolve_language(&None), LanguageMode::Detect);
    assert_eq!(build_config(&RecognitionOptions::default(), 2).language, LanguageMode::Detect);
}

#[test]
fn language_auto_any_case_detects() {
    for word in ["auto", "AUTO", "Auto", "aUtO"] {
        assert_eq!(resolve_language(&Some(word.to_string())), LanguageMode::Detect);
    }
}

#[test]
fn language_code_passes_through() {
    assert_eq!(
        resolve_language(&Some("en".to_string())),
        LanguageMode::Fixed("en".to_string())
    );
    assert_eq!(
        resolve_language(&Some("autox".to_string())),
        LanguageMode::Fixed("autox".to_string())
    );
    assert_eq!(resolve_language(&Some("xx".to_string())), LanguageMode::Fixed("xx".to_string()));
}

#[test]
fn ascii_case_comparison() {
    assert!(eq_ignore_ascii_case("AuTo", "aUtO"));
    assert!(!eq_ignore_ascii_case("auto", "aut"));
    assert!(!eq_ignore_ascii_case("auto", "avto"));
    assert!(eq_ignore_ascii_case("", ""));
    assert!(!eq_ignore_ascii_case("É", "é"));
}

#[test]
fn fixed_decoding_policy() {
    let c = build_config(&opts(Some("de"), Some(2)), 1);
    assert_eq!(c.n_threads, 2);
    assert_eq!(c.language, LanguageMode::Fixed("de".to_string()));
    assert_eq!(c.best_of, 1);
    assert_eq!(c.thold_pt_hundredths, 1);
    assert_eq!(c.thold_ptsum_hundredths, 1);
    assert_eq!(c.max_len, 0);
    assert_eq!(c.max_initial_ts, 0);
    assert_eq!(c.offset_ms, 0);
    assert_eq!(c.duration_ms, 0);
    assert!(!c.print_special && !c.print_progress && !c.print_realtime && !c.print_timestamps);
    assert!(!c.no_context && !c.single_segment && !c.translate && !c.no_timestamps);
}

#[test]
fn malformed_options_fall_back_to_defaults() {
    let o = RecognitionOptions::from_parsed(None);
    assert_eq!(o, RecognitionOptions::default());
    let c = build_config(&o, 6);
    assert_eq!(c.n_threads, 6);
    assert_eq!(c.language, LanguageMode::Detect);
    let given = opts(Some("fr"), Some(2));
    assert_eq!(RecognitionOptions::from_parsed(Some(given.clone())), given);
}

#[test]
fn full_scale_normalization_is_asymmetric() {
    assert_eq!(FULL_SCALE, i16::MAX);
    let top = 32767i16 as f32 / FULL_SCALE as f32;
    assert!((top - 1.0).abs() < 1e-6);
    let bottom = -32768i16 as f32 / FULL_SCALE as f32;
    assert!(bottom < -1.0);
    assert!((bottom - (-32768.0f32 / 32767.0f32)).abs() < 1e-6);
}

#[test]
fn failed_samples_become_silence() {
    let raw = vec![Some(5i16), None, Some(-3), Some(i16::MIN), None];
    assert_eq!(samples_or_silence(&raw), vec![5, 0, -3, i16::MIN, 0]);
    assert_eq!(samples_or_silence(&Vec::new()), Vec::<i16>::new());
}

#[test]
fn zero_segments_give_empty_text() {
    assert_eq!(transcript_from_segments(&Vec::new()), "");
}

#[test]
fn segments_are_trimmed_and_joined() {
    assert_eq!(transcript_from_segments(&strings(&["hello ", " world"])), "hello world");
    assert_eq!(transcript_from_segments(&strings(&["  one\t", "", "\ntwo  "])), "one  two");
    assert_eq!(transcript_from_segments(&strings(&["   "])), "");
}

#[test]
fn join_keeps_order_and_spaces() {
    assert_eq!(join_with_spaces(&strings(&["b", "a"])), "b a ");
    assert_eq!(join_with_spaces(&Vec::new()), "");
}

#[test]
fn control_left_not_renamed_by_present_probes() {
    for probe in [FnKeyProbe::AlwaysFalse, FnKeyProbe::PlatformQuery] {
        for found in [true, false] {
            assert_eq!(format_key("ControlLeft", probe.held(found)), "ControlLeft");
        }
    }
    assert_eq!(is_fn_key_pressed(true), Ok(false));
    assert_eq!(is_fn_key_pressed(false), Err(()));
}

#[test]
fn control_left_renamed_when_probe_reports_held() {
    assert_eq!(format_key("ControlLeft", Ok(true)), "Function");
    assert_eq!(format_key("ControlRight", Ok(true)), "ControlRight");
    assert_eq!(format_key("KeyA", Ok(false)), "KeyA");
}

#[test]
fn key_events_carry_key_json() {
    let e = normalize_event(
        RawEvent {
            kind: RawEventKind::KeyPress("KeyA".to_string()),
            name: Some("a".to_string()),
            time: at(),
        },
        Ok(false),
    );
    assert_eq!(e.event_type, EventKind::KeyPress);
    assert_eq!(e.event_type.name(), "KeyPress");
    assert_eq!(e.name, Some("a".to_string()));
    assert_eq!(e.time, at());
    assert_eq!(e.data, "{\"key\":\"KeyA\"}");
    let r = normalize_event(
        RawEvent { kind: RawEventKind::KeyRelease("ControlLeft".to_string()), name: None, time: at() },
        Ok(true),
    );
    assert_eq!(r.event_type.name(), "KeyRelease");
    assert_eq!(r.data, "{\"key\":\"Function\"}");
}

#[test]
fn key_names_are_json_escaped() {
    let e = normalize_event(
        RawEvent { kind: RawEventKind::KeyPress("Quote\"\\".to_string()), name: None, time: at() },
        Ok(false),
    );
    assert_eq!(e.data, "{\"key\":\"Quote\\\"\\\\\"}");
}

#[test]
fn pointer_events_carry_payload_verbatim() {
    let m = normalize_event(
        RawEvent {
            kind: RawEventKind::MouseMove { x: "1.5".to_string(), y: "-2.0".to_string() },
            name: None,
            time: at(),
        },
        Ok(false),
    );
    assert_eq!(m.event_type.name(), "MouseMove");
    assert_eq!(m.data, "{\"x\":1.5,\"y\":-2.0}");
    let w = normalize_event(
        RawEvent { kind: RawEventKind::Wheel { delta_x: -3, delta_y: 12 }, name: None, time: at() },
        Ok(false),
    );
    assert_eq!(w.event_type.name(), "Wheel");
    assert_eq!(w.data, "{\"delta_x\":-3,\"delta_y\":12}");
}

#[test]
fn button_events_carry_button_name() {
    let p = normalize_event(
        RawEvent { kind: RawEventKind::ButtonPress(MouseButton::Left), name: None, time: at() },
        Ok(true),
    );
    assert_eq!(p.event_type.name(), "ButtonPress");
    assert_eq!(p.data, "{\"key\":\"Left\"}");
    let r = normalize_event(
        RawEvent {
            kind: RawEventKind::ButtonRelease(MouseButton::Unknown(7)),
            name: None,
            time: at(),
        },
        Ok(false),
    );
    assert_eq!(r.event_type.name(), "ButtonRelease");
    assert_eq!(r.data, "{\"key\":\"Unknown(7)\"}");
    assert_eq!(format_button(MouseButton::Middle), "Middle");
    assert_eq!(format_button(MouseButton::Right), "Right");
}

#[test]
fn decimal_rendering() {
    assert_eq!(decimal_text(0), "0");
    assert_eq!(decimal_text(10), "10");
    assert_eq!(decimal_text(u64::MAX), u64::MAX.to_string());
    assert_eq!(signed_decimal_text(0), "0");
    assert_eq!(signed_decimal_text(-1), "-1");
    assert_eq!(signed_decimal_text(i64::MIN), i64::MIN.to_string());
    assert_eq!(signed_decimal_text(i64::MAX), i64::MAX.to_string());
}

#[test]
fn commands_are_recognised() {
    let a = strings(&["prog", "transcribe", "m.bin", "a.wav"]);
    assert_eq!(
        parse_command(&a),
        Some(Command::Transcribe {
            model_path: "m.bin".to_string(),
            audio_path: "a.wav".to_string(),
            options_json: None
        })
    );
    let b = strings(&["prog", "transcribe", "m.bin", "a.wav", "{\"threads\":2}"]);
    assert_eq!(
        parse_command(&b),
        Some(Command::Transcribe {
            model_path: "m.bin".to_string(),
            audio_path: "a.wav".to_string(),
            options_json: Some("{\"threads\":2}".to_string())
        })
    );
    assert_eq!(parse_command(&strings(&["prog", "listen"])), Some(Command::Listen));
    assert_eq!(
        parse_command(&strings(&["prog", "write", "hi there"])),
        Some(Command::Write { text: "hi there".to_string() })
    );
    assert_eq!(parse_command(&strings(&["prog", "paste"])), Some(Command::Paste));
}

#[test]
fn incomplete_or_unknown_commands_are_refused() {
    assert_eq!(parse_command(&strings(&["prog"])), None);
    assert_eq!(parse_command(&Vec::new()), None);
    assert_eq!(parse_command(&strings(&["prog", "transcribe", "m.bin"])), None);
    assert_eq!(parse_command(&strings(&["prog", "write"])), None);
    assert_eq!(parse_command(&strings(&["prog", "Listen"])), None);
    assert_eq!(parse_command(&strings(&["prog", "dance"])), None);
}

#[test]
fn paste_chord_per_platform() {
    assert_eq!(
        paste_chord(Platform::MacOs),
        vec![
            KeyAction::Press(Modifier::Meta),
            KeyAction::Click('v'),
            KeyAction::Release(Modifier::Meta)
        ]
    );
    assert_eq!(
        paste_chord(Platform::Other),
        vec![
            KeyAction::Press(Modifier::Control),
            KeyAction::Click('v'),
            KeyAction::Release(Modifier::Control)
        ]
    );
}
