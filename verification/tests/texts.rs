//! Identifiers, points in time, numerals, and the texts that are read and written.
use nflow_daemon::cleanup::{can_parse_duration, parse_duration_secs};
use nflow_daemon::claude::StreamEvent;
use nflow_daemon::config::{determine_layer, ConfigKey, PartialConfig};
use nflow_daemon::dispatch::Command;
use nflow_daemon::drafts::{can_number, read_drafts, Draft};
use nflow_daemon::extract::{extract_json_from_text, first_chars};
use nflow_daemon::ident::{Timestamp, Uuid};
use nflow_daemon::json::Json;
use nflow_daemon::logs::split_log;
use nflow_daemon::pipeline_data::StageType;
use nflow_daemon::plan_view::wave_short_id;
use nflow_daemon::stage_output::{
    can_cut_result, extract_pipeline_json_from_text, fallback_output, logged_line,
};
use nflow_daemon::text::{
    after_last, join, join_texts, matches_word, parse_i64, parse_u64, split_lines,
    split_words, trim, u64_text,
};

#[test]
fn identifiers_are_written_and_read_back() {
    let id = Uuid { value: 0x0123_4567_89ab_cdef_0123_4567_89ab_cdef };
    assert_eq!(id.to_text(), "01234567-89ab-cdef-0123-456789abcdef");
    assert_eq!(Uuid::parse(&id.to_text()), Some(id));
    assert_eq!(Uuid::parse("0123456789abcdef0123456789abcdef"), Some(id));
    assert_eq!(Uuid::parse("not-a-uuid"), None);
    assert_eq!(Uuid::parse(""), None);
}

#[test]
fn points_in_time_are_written() {
    let t = Timestamp::new(1_717_243_200, 0).unwrap();
    assert_eq!(t.to_rfc3339(), "2024-06-01T12:00:00+00:00");
    let t = Timestamp::new(0, 500_000_000).unwrap();
    assert_eq!(t.to_rfc3339(), "1970-01-01T00:00:00.500+00:00");
    assert_eq!(t.get_secs(), 0);
    assert_eq!(t.get_nanos(), 500_000_000);
}

#[test]
fn points_in_time_have_a_range() {
    assert!(Timestamp::new(8_210_266_876_799, 0).is_some());
    assert!(Timestamp::new(8_210_266_876_800, 0).is_none());
    assert!(Timestamp::new(-8_334_601_228_800, 0).is_some());
    assert!(Timestamp::new(-8_334_601_228_801, 0).is_none());
    assert!(Timestamp::new(0, 1_000_000_000).is_none());
    // a leap second
    let leap = Timestamp::new(59, 1_500_000_000).unwrap();
    assert_eq!(leap.to_rfc3339(), "1970-01-01T00:00:60.500+00:00");
}

#[test]
fn the_ends_of_time_can_be_written() {
    for secs in [8_210_266_876_799, -8_334_601_228_800] {
        assert!(!Timestamp::new(secs, 0).unwrap().to_rfc3339().is_empty());
    }
}

#[test]
fn numerals_are_read_back() {
    for n in [0, 1, 9, 10, 4_294_967_296, u64::MAX] {
        assert_eq!(u64_text(n), n.to_string());
        assert_eq!(parse_u64(&u64_text(n)), Some(n));
    }
    for n in [0, -1, i64::MAX, i64::MIN] {
        assert_eq!(parse_i64(&n.to_string()), Some(n));
    }
    for t in ["", "+", "-", "1a", " 1", "18446744073709551616"] {
        assert_eq!(parse_u64(t), t.parse::<u64>().ok());
    }
    for t in ["+7", "-7", "--7", "9223372036854775808", "-9223372036854775808"] {
        assert_eq!(parse_i64(t), t.parse::<i64>().ok());
    }
}

#[test]
fn durations_are_read() {
    assert_eq!(parse_duration_secs("0s"), Some(0));
    assert_eq!(parse_duration_secs(" 2h "), Some(7200));
    assert_eq!(parse_duration_secs("7w"), None);
    assert_eq!(parse_duration_secs("-1d"), None);
    assert_eq!(parse_duration_secs("d"), None);
    assert!(can_parse_duration("213503982334601d"));
    assert!(!can_parse_duration("213503982334602d"));
    assert!(can_parse_duration("abc"));
}

#[test]
fn texts_are_cut_and_joined() {
    assert_eq!(trim("  a b\t\n"), "a b");
    assert_eq!(trim(" \u{3000}x\u{a0}"), "x");
    assert_eq!(split_words(" a  bc\td "), vec!["a", "bc", "d"]);
    assert_eq!(split_lines("a\nb\r\n\nc"), vec!["a", "b", "", "c"]);
    assert_eq!(split_lines(""), Vec::<String>::new());
    assert_eq!(after_last("(a) b) c", ')'), Some(" c"));
    assert_eq!(after_last("abc", ')'), None);
    assert_eq!(join("/home/user", "specs"), "/home/user/specs");
    assert_eq!(join("/home/user/", "specs"), "/home/user/specs");
    assert_eq!(join("/home/user", "/etc"), "/etc");
    assert_eq!(join_texts(&vec!["a".to_string(), "b".to_string()], ", "), "a, b");
    assert!(matches_word("GitHub", "github"));
    assert!(!matches_word("GitHubs", "github"));
    assert_eq!(first_chars("h\u{e9}llo", 2), "h\u{e9}");
    assert_eq!(first_chars("h\u{e9}", 5), "h\u{e9}");
    assert_eq!(split_log("{}\n\n  \nx\n"), vec!["{}", "x"]);
    assert_eq!(wave_short_id(3, "S1"), "W3-S1");
}

#[test]
fn extracting_again_changes_nothing() {
    for text in [
        "",
        "  {\"a\": 1} ",
        "x\n```json\n {} \n```\ny",
        "x ```json ``` ```json {} ```",
        "```json\n{",
        "```\n[1]\n```\n```json\n{}",
        "``````json {} ```",
    ] {
        let once = extract_json_from_text(text);
        assert_eq!(extract_json_from_text(once), once);
        assert_eq!(once.trim(), once);
        assert!(text.contains(once));
    }
}

#[test]
fn json_is_found_in_what_an_agent_wrote() {
    assert_eq!(extract_json_from_text("  {\"a\": 1} "), "{\"a\": 1}");
    assert_eq!(extract_json_from_text("x\n```json\n{}\n```\ny"), "{}");
    assert_eq!(extract_json_from_text("x\n```text\n[1]\n```\ny"), "[1]");
    assert_eq!(extract_json_from_text("```json\n{"), "```json\n{");
    assert_eq!(extract_json_from_text("no fences"), "no fences");
}

#[test]
fn the_output_of_a_stage_is_found() {
    assert_eq!(
        extract_pipeline_json_from_text("so: {\"success\": true} and on"),
        Some("{\"success\": true}".to_string())
    );
    assert_eq!(extract_pipeline_json_from_text("nothing here"), None);
}

#[test]
fn a_stage_without_output_is_summed_up() {
    let out = fallback_output(StageType::Plan, "all went well");
    assert!(out.review.is_none());
    assert!(out.summary.contains("all went well"));
    let long = "x".repeat(5000);
    assert!(fallback_output(StageType::Plan, &long).summary.chars().count() < 1000);
    let review = fallback_output(StageType::Review, "fine").review.unwrap();
    assert!(!review.passed);
}

#[test]
fn events_are_logged() {
    let said = StreamEvent::TextDelta { text: "hello".to_string() };
    assert!(logged_line(&said).unwrap().contains("hello"));
    assert!(can_cut_result("short"));
    assert!(can_cut_result(&"x".repeat(1000)));
}

#[test]
fn settings_have_names_and_layers() {
    for key in ConfigKey::all() {
        assert_eq!(ConfigKey::named(key.as_str()), Some(key));
        let empty = PartialConfig::empty();
        assert_eq!(determine_layer(key, &empty, &empty, &empty), "default");
    }
    assert_eq!(ConfigKey::all().len(), 10);
    assert_eq!(ConfigKey::named("unknown_key"), None);
    let set = PartialConfig::empty().set(ConfigKey::MaxParallel, &Json::U64(4)).unwrap();
    assert_eq!(set.max_parallel, Some(4));
    assert_eq!(set.base_branch, None);
    assert!(PartialConfig::empty().set(ConfigKey::MaxParallel, &Json::text("4")).is_err());
}

#[test]
fn commands_have_names() {
    assert!(Command::named("exec.run").is_some());
    assert!(Command::named("exec.ru").is_none());
}

#[test]
fn members_are_put_and_found() {
    let v = Json::object().with("a", Json::U64(1)).with("b", Json::Null);
    assert_eq!(v.field("a"), Some(&Json::U64(1)));
    assert_eq!(v.u64_field("a"), Some(1));
    assert_eq!(v.field("c"), None);
    let w = v.put("a", Json::Bool(true));
    assert_eq!(w.bool_field("a"), Some(true));
    assert_eq!(w.field("b"), Some(&Json::Null));
    assert_eq!(Json::text("x").field("a"), None);
    assert_eq!(Json::I64(-1).as_u64(), None);
}

#[test]
fn drafts_are_read_in_order() {
    let task = Json::object().with("title", Json::text("t"));
    let story = Json::object().with("id", Json::text("S5")).with("tasks", Json::Arr(vec![task]));
    let epic = Json::object().with("stories", Json::Arr(vec![story]));
    let parsed = Json::object().with("epics", Json::Arr(vec![epic.copy(), Json::Null]));
    assert!(can_number(&parsed));
    let drafts = read_drafts(&vec![epic, Json::Null]);
    assert_eq!(drafts.len(), 4);
    assert_eq!(
        drafts[0],
        Draft::Epic {
            short_id: "E1".to_string(),
            title: "Untitled Epic".to_string(),
            description: String::new(),
            sort_order: 0,
        }
    );
    assert!(matches!(&drafts[1], Draft::Story { short_id, .. } if short_id == "S5"));
    assert!(matches!(&drafts[2], Draft::Task { short_id, title, .. }
        if short_id == "T1" && title == "t"));
    assert!(matches!(&drafts[3], Draft::Epic { short_id, .. } if short_id == "E2"));
}
