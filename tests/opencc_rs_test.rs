use opencc_rs::config::{config_file_path, resolve_config, ConversionConfig};
use opencc_rs::detect::{classify, detection_probe, ScriptClass};
use opencc_rs::punct::{convert_punctuation_cow, is_s2t_config};
use opencc_rs::session::{ConversionSession, SessionAction, SessionEvent, SessionPhase};
use opencc_rs::text::{find_max_utf8_length, format_thousand};
use std::borrow::Cow;

#[test]
fn find_max_utf8_length_test() {
    let input = "你好，世界！";
    let expected_output = 9;
    let actual_output = find_max_utf8_length(input, 10);
    assert_eq!(actual_output, expected_output);
}

#[test]
fn format_thousand_test() {
    let input = 1234567890;
    let expected_output = "1,234,567,890";
    let actual_output = format_thousand(input);
    assert_eq!(actual_output, expected_output);
}

#[test]
fn find_max_utf8_length_fits() {
    assert_eq!(find_max_utf8_length("abc", 3), 3);
    assert_eq!(find_max_utf8_length("abc", 100), 3);
    assert_eq!(find_max_utf8_length("", 0), 0);
}

#[test]
fn find_max_utf8_length_zero_budget() {
    assert_eq!(find_max_utf8_length("你好", 0), 0);
    assert_eq!(find_max_utf8_length("你好", 2), 0);
    assert_eq!(find_max_utf8_length("你好", 3), 3);
}

#[test]
fn truncation_never_splits_a_character() {
    let s = "a你好，世界！😀b";
    for budget in 0..(s.len() + 3) {
        let n = find_max_utf8_length(s, budget);
        assert!(s.is_char_boundary(n));
        assert!(n <= s.len());
        if budget < s.len() {
            assert!(n <= budget);
            for j in (n + 1)..=budget {
                assert!(!s.is_char_boundary(j));
            }
        } else {
            assert_eq!(n, s.len());
        }
    }
}

#[test]
fn format_thousand_small_and_edges() {
    assert_eq!(format_thousand(0), "0");
    assert_eq!(format_thousand(999), "999");
    assert_eq!(format_thousand(1000), "1,000");
    assert_eq!(format_thousand(100200), "100,200");
    assert_eq!(format_thousand(1000000), "1,000,000");
}

#[test]
fn resolve_supported_names() {
    assert_eq!(resolve_config("s2t"), ConversionConfig::S2t);
    assert_eq!(resolve_config("t2s"), ConversionConfig::T2s);
    assert_eq!(resolve_config("s2twp"), ConversionConfig::S2twp);
    assert_eq!(resolve_config("hk2t"), ConversionConfig::Hk2t);
    assert_eq!(resolve_config("jp2t"), ConversionConfig::Jp2t);
    assert_eq!(ConversionConfig::Tw2sp.name(), "tw2sp");
}

#[test]
fn unsupported_name_falls_back_to_default() {
    assert_eq!(resolve_config("bogus"), ConversionConfig::S2t);
    assert_eq!(resolve_config(""), ConversionConfig::S2t);
    assert_eq!(resolve_config("S2T"), ConversionConfig::S2t);
    assert_eq!(
        config_file_path("lib/opencc", resolve_config("nope")),
        config_file_path("lib/opencc", resolve_config("s2t"))
    );
}

#[test]
fn config_path_joins_base_and_name() {
    assert_eq!(config_file_path("lib/opencc", ConversionConfig::S2hk), "lib/opencc/s2hk.json");
}

#[test]
fn punctuation_direction() {
    assert!(is_s2t_config("s2t"));
    assert!(is_s2t_config("hk2t"));
    assert!(is_s2t_config(""));
    assert!(!is_s2t_config("t2s"));
    assert!(!is_s2t_config("tw2sp"));
}

#[test]
fn convert_punctuation_to_corner_brackets() {
    let input = "他説：“你好！歡樂‘龍龍’”";
    let out = convert_punctuation_cow(input, "s2t");
    assert_eq!(out, "他説：「你好！歡樂『龍龍』」");
    assert!(matches!(out, Cow::Owned(_)));
}

#[test]
fn convert_punctuation_to_mainland_quotes() {
    let out = convert_punctuation_cow("「龍馬精神!」『好』", "t2s");
    assert_eq!(out, "“龍馬精神!”‘好’");
}

#[test]
fn convert_punctuation_without_glyphs_borrows() {
    let out = convert_punctuation_cow("Hello, World!", "s2t");
    assert_eq!(out, "Hello, World!");
    assert!(matches!(out, Cow::Borrowed(_)));
    let out = convert_punctuation_cow("“quoted”", "t2s");
    assert_eq!(out, "“quoted”");
    assert!(matches!(out, Cow::Borrowed(_)));
}

#[test]
fn punctuation_round_trip() {
    let text = "他説：“你好！歡樂‘龍龍’” ok";
    let there = convert_punctuation_cow(text, "s2t").into_owned();
    let back = convert_punctuation_cow(&there, "t2s").into_owned();
    assert_eq!(back, text);
}

#[test]
fn probe_of_empty_input_is_none() {
    assert_eq!(detection_probe(""), None);
}

#[test]
fn probe_of_neutral_text_is_empty() {
    let probe = detection_probe("Hello, World!").unwrap();
    assert_eq!(probe, "");
    assert_eq!(classify(&probe, "", ""), ScriptClass::Indeterminate);
    assert_eq!(classify(&probe, "", "").code(), 0);
}

#[test]
fn probe_strips_ascii_and_keeps_han() {
    let probe = detection_probe("他説：「你好！歡樂『龍龍』」").unwrap();
    assert_eq!(probe, "他説：「你好！歡樂『龍龍』」");
    assert_eq!(detection_probe("a 龍 1\t馬_!").unwrap(), "龍馬");
}

#[test]
fn probe_is_cut_at_a_character_boundary() {
    let long = "龍".repeat(100);
    let probe = detection_probe(&long).unwrap();
    assert_eq!(probe.len(), 198);
    assert_eq!(probe, "龍".repeat(66));
}

#[test]
fn classify_traditional_text() {
    let probe = "他説：「你好！歡樂『龍龍』」";
    let t2s = "他说：「你好！欢乐『龙龙』」";
    let r = classify(probe, t2s, probe);
    assert_eq!(r, ScriptClass::Traditional);
    assert_eq!(r.code(), 1);
}

#[test]
fn classify_simplified_text() {
    let r = classify("龙马精神", "龙马精神", "龍馬精神");
    assert_eq!(r, ScriptClass::Simplified);
    assert_eq!(r.code(), 2);
}

#[test]
fn classify_checks_traditional_first() {
    assert_eq!(classify("x", "y", "z"), ScriptClass::Traditional);
}

#[test]
fn session_success_closes_then_finishes() {
    let (mut s, a) = ConversionSession::start("lib/opencc", "s2t", false, 5);
    match a {
        SessionAction::Open(p) => assert_eq!(p, "lib/opencc/s2t.json"),
        _ => panic!("expected open"),
    }
    assert!(matches!(s.step(SessionEvent::Opened), SessionAction::Convert));
    assert!(matches!(s.step(SessionEvent::Converted("龍".to_string())), SessionAction::Close));
    match s.step(SessionEvent::Closed) {
        SessionAction::Finish(t) => assert_eq!(t, "龍"),
        _ => panic!("expected finish"),
    }
    assert_eq!(s.phase, SessionPhase::Finished);
}

#[test]
fn session_failure_still_closes() {
    let (mut s, a) = ConversionSession::start("base", "bad", true, 4);
    match a {
        SessionAction::Open(p) => assert_eq!(p, "base/s2t.json"),
        _ => panic!("expected open"),
    }
    assert!(matches!(s.step(SessionEvent::Opened), SessionAction::ConvertToBuffer(5)));
    assert!(matches!(s.step(SessionEvent::ConvertFailed), SessionAction::FetchError));
    assert!(matches!(
        s.step(SessionEvent::ErrorMessage("boom".to_string())),
        SessionAction::Close
    ));
    match s.step(SessionEvent::Closed) {
        SessionAction::Finish(t) => assert_eq!(t, "Error convert UTF-8 string: boom"),
        _ => panic!("expected finish"),
    }
}

#[test]
fn event_answers_phase() {
    assert!(SessionEvent::Opened.answers(SessionPhase::Opening));
    assert!(!SessionEvent::Closed.answers(SessionPhase::Opening));
    assert!(SessionEvent::ConvertFailed.answers(SessionPhase::Converting));
    assert!(!SessionEvent::Opened.answers(SessionPhase::Finished));
}

#[test]
fn convert_punctuation_unsupported_name_uses_default_direction() {
    assert_eq!(convert_punctuation_cow("“龍”", "ts"), "「龍」");
    assert_eq!(convert_punctuation_cow("“龍”", "ts"), convert_punctuation_cow("“龍”", "s2t"));
    let out = convert_punctuation_cow("「龍」", "bogus");
    assert_eq!(out, "「龍」");
    assert!(matches!(out, Cow::Borrowed(_)));
}

#[test]
fn find_max_utf8_length_empty_and_zero() {
    assert_eq!(find_max_utf8_length("", 5), 0);
    assert_eq!(find_max_utf8_length("a", 0), 0);
    assert_eq!(find_max_utf8_length("😀", 3), 0);
    assert_eq!(find_max_utf8_length("😀a", 4), 4);
}
