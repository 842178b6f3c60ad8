use tpt_consumer::timestamps::earliest_reading;
use tpt_consumer::models::ILgv;
use tpt_consumer::queries::{
    inventory_query, lgv_insert_query, lgv_plc_insert_statement, locations_query, try_lgv_plc_insert_statement,
};
use tpt_consumer::text::{chars_of, int_to_text, replace_all_text, string_of_chars, trim_char_text};
use tpt_consumer::timestamps::utc_timestamp_text;

#[test]
fn int_to_text_matches_display() {
    for n in [0i64, 7, 42, 100, -1, -7, -100, 1234567890, i64::MAX, i64::MIN] {
        assert_eq!(int_to_text(n), n.to_string());
    }
}

#[test]
fn int_to_text_extremes() {
    assert_eq!(int_to_text(i64::MIN), "-9223372036854775808");
    assert_eq!(int_to_text(i64::MAX), "9223372036854775807");
    assert_eq!(int_to_text(0), "0");
}

#[test]
fn int_to_text_reads_back() {
    for n in [0i64, 9, 10, 99, -99, 123456, -9876543210] {
        assert_eq!(int_to_text(n).parse::<i64>().unwrap(), n);
    }
}

#[test]
fn chars_round_trip() {
    let s = "Göteborg {} ünïcode";
    let cs = chars_of(s);
    assert_eq!(cs, s.chars().collect::<Vec<char>>());
    assert_eq!(string_of_chars(&cs), s);
}

#[test]
fn replace_matches_std_replace() {
    let cases = [
        ("SELECT * FROM t WHERE sku = '{}'", "{}", "A1"),
        ("'{}' OR '{}'", "{}", "X"),
        ("{{}}", "{}", "v"),
        ("no placeholder here", "{}", "v"),
        ("", "{}", "v"),
        ("{}", "{}", ""),
        ("aaa", "aa", "b"),
        ("aaaa", "aa", "b"),
        ("abcabc", "bc", "{}"),
        ("{", "{}", "v"),
    ];
    for (t, p, v) in cases {
        assert_eq!(replace_all_text(t, p, v), t.replace(p, v), "template {:?}", t);
    }
}

#[test]
fn replace_without_placeholder_keeps_template() {
    let t = "EXEC sp_locations 'ABC'";
    assert_eq!(replace_all_text(t, "{}", "ZZZ"), t);
    assert_eq!(locations_query(t, "ZZZ"), t);
}

#[test]
fn trim_matches_std_trim_matches() {
    for s in ["\"abc\"", "\"\"abc\"\"", "abc", "\"", "\"\"", "", "a\"b", "\"a\"b\""] {
        assert_eq!(trim_char_text(s, '"'), s.trim_matches('"'));
    }
}

#[test]
fn trim_twice_is_trim_once() {
    let once = trim_char_text("\"\"x\"y\"\"", '"');
    assert_eq!(once, "x\"y");
    assert_eq!(trim_char_text(&once, '"'), once);
}

#[test]
fn inventory_query_appends_trip() {
    assert_eq!(inventory_query("EXEC dbo.sp_inventory", 4711), "EXEC dbo.sp_inventory 4711");
    assert_eq!(inventory_query("EXEC p", -3), "EXEC p -3");
    assert_eq!(inventory_query("", 0), " 0");
}

#[test]
fn locations_query_fills_every_placeholder() {
    let t = "EXEC sp_loc @sku='{}', @alt='{}'";
    assert_eq!(locations_query(t, "SKU-9"), "EXEC sp_loc @sku='SKU-9', @alt='SKU-9'");
}

fn sample_lgv() -> ILgv {
    ILgv {
        log_dttm: "2024-03-01T10:20:30+01:00".to_string(),
        lgv_id: Some(12),
        x_pos: Some(-340),
        y_pos: None,
        reset_notify: Some(true),
        auto_mode: Some(false),
        loaded: None,
        in_system: Some(true),
        position_valid: Some(true),
        remove_block_request: None,
        local_mode: Some(false),
        end_op_ok: Some(true),
        moving_fw: None,
        moving_bw: Some(true),
        waiting_for_command: Some(false),
        on_target: Some(true),
        end_op_fail: None,
        low_battery_alarm: Some(false),
        agv_alarm: Some(true),
        low_battery_warning: None,
    }
}

fn bit(b: Option<bool>) -> i32 {
    if b.unwrap_or_default() { 1 } else { 0 }
}

fn expected_insert(ts: &str, lgv: &ILgv) -> String {
    format!(
        "INSERT INTO [RCH-E80-REP-DB].[dbo].[LGV_PLC_LOG] (LOG_DTTM, LGV_ID, X_POS, Y_POS, RESET_NOTIFY, AUTO_MODE, LOADED, IN_SYSTEM, POSITION_VALID, REMOVE_BLOCK_REQUEST, LOCAL_MODE, END_OP_OK, MOVING_FW, MOVING_BW, WAITING_FOR_COMMAND, ON_TARGET, END_OP_FAIL, LOW_BATTERY_ALARM, AGV_ALARM, LOW_BATTERY_WARNING)
        VALUES ('{}', {}, {}, {}, {}, {}, {}, {}, {}, {}, {}, {}, {}, {}, {}, {}, {}, {}, {}, {})",
        ts,
        lgv.lgv_id.unwrap_or_default(),
        lgv.x_pos.unwrap_or_default(),
        lgv.y_pos.unwrap_or_default(),
        bit(lgv.reset_notify),
        bit(lgv.auto_mode),
        bit(lgv.loaded),
        bit(lgv.in_system),
        bit(lgv.position_valid),
        bit(lgv.remove_block_request),
        bit(lgv.local_mode),
        bit(lgv.end_op_ok),
        bit(lgv.moving_fw),
        bit(lgv.moving_bw),
        bit(lgv.waiting_for_command),
        bit(lgv.on_target),
        bit(lgv.end_op_fail),
        bit(lgv.low_battery_alarm),
        bit(lgv.agv_alarm),
        bit(lgv.low_battery_warning)
    )
}

#[test]
fn lgv_insert_query_matches_format() {
    let lgv = sample_lgv();
    assert_eq!(lgv_insert_query("2024-03-01 09:20:30", &lgv), expected_insert("2024-03-01 09:20:30", &lgv));
}

#[test]
fn lgv_insert_query_exact_tail() {
    let lgv = sample_lgv();
    let q = lgv_insert_query("T", &lgv);
    assert!(q.ends_with("VALUES ('T', 12, -340, 0, 1, 0, 0, 1, 1, 0, 0, 1, 0, 1, 0, 1, 0, 0, 1, 0)"));
}

#[test]
fn utc_timestamp_rfc3339_with_offset() {
    assert_eq!(utc_timestamp_text("2024-03-01T10:20:30+01:00").as_deref(), Some("2024-03-01 09:20:30"));
    assert_eq!(utc_timestamp_text("2024-03-01T00:20:30.250+02:00").as_deref(), Some("2024-02-29 22:20:30"));
    assert_eq!(utc_timestamp_text("2024-03-01T10:20:30Z").as_deref(), Some("2024-03-01 10:20:30"));
}

#[test]
fn utc_timestamp_space_separated_with_offset() {
    assert_eq!(utc_timestamp_text("2024-03-01 10:20:30.5 +0100").as_deref(), Some("2024-03-01 09:20:30"));
}

#[test]
fn utc_timestamp_without_offset_is_refused() {
    assert_eq!(utc_timestamp_text("2024-03-01 10:20:30.5"), None);
    assert_eq!(utc_timestamp_text("yesterday"), None);
    assert_eq!(utc_timestamp_text(""), None);
}

#[test]
fn lgv_statement_normalises_timestamp() {
    let lgv = sample_lgv();
    let q = lgv_plc_insert_statement(&lgv);
    assert_eq!(try_lgv_plc_insert_statement(&lgv), Some(q.clone()));
    assert_eq!(q, expected_insert("2024-03-01 09:20:30", &lgv));
}

#[test]
fn lgv_statement_refuses_unreadable_timestamp() {
    let mut lgv = sample_lgv();
    lgv.log_dttm = "not a time".to_string();
    assert!(try_lgv_plc_insert_statement(&lgv).is_none());
    lgv.log_dttm = "2024-03-01 10:20:30".to_string();
    assert!(try_lgv_plc_insert_statement(&lgv).is_none());
}

#[test]
fn earliest_reading_takes_first_success() {
    let s = |x: &str| Some(x.to_string());
    assert_eq!(earliest_reading(s("a"), s("b"), s("c")), s("a"));
    assert_eq!(earliest_reading(None, s("b"), s("c")), s("b"));
    assert_eq!(earliest_reading(None, None, s("c")), s("c"));
    assert_eq!(earliest_reading(None, None, None), None);
}
