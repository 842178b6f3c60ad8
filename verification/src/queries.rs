//! SQL text sent to the warehouse database, and the timestamp normalisation it needs.
use vstd::prelude::*;

use crate::models::ILgv;
use crate::timestamps::{
    chrono_pattern_rendered, chrono_rfc3339_rendered, offset_pattern, seconds_format, utc_timestamp,
    utc_timestamp_text,
};
use crate::text::{
    int_text, lemma_int_text_reads_back, push_char, push_int_text, replace_all, replace_all_text,
    signed_value,
};

verus! {

/// The placeholder that a locations query template holds for the SKU.
pub open spec fn sku_placeholder() -> Seq<char> {
    seq!['{', '}']
}

/// The inventory query of a trip: the stored procedure call, a space, the trip number.
pub open spec fn inventory_sql(procedure: Seq<char>, trip_number: int) -> Seq<char> {
    procedure + seq![' '] + int_text(trip_number)
}

/// The inventory snapshot query for `trip_number`, from the configured procedure call.
pub fn inventory_query(procedure: &str, trip_number: i64) -> (res: String)
    ensures
        res@ == inventory_sql(procedure@, trip_number as int),
{
    let mut s = String::from_str(procedure);
    push_char(&mut s, ' ');
    push_int_text(&mut s, trip_number);
    s
}

/// The inventory query of a trip is the procedure call, a space, and the trip number
/// itself: the text after the procedure and the space reads back as `trip_number`.
pub proof fn lemma_inventory_query_names_trip(procedure: Seq<char>, trip_number: int)
    ensures
        inventory_sql(procedure, trip_number).take(procedure.len() as int) == procedure,
        inventory_sql(procedure, trip_number)[procedure.len() as int] == ' ',
        signed_value(inventory_sql(procedure, trip_number).skip(procedure.len() + 1int))
            == trip_number,
{
    let q = inventory_sql(procedure, trip_number);
    assert(q.take(procedure.len() as int) =~= procedure);
    assert(q.skip(procedure.len() + 1int) =~= int_text(trip_number));
    lemma_int_text_reads_back(trip_number);
}

/// The locations query for `sku`: the template with every `{}` replaced by the SKU.
pub fn locations_query(template: &str, sku: &str) -> (res: String)
    ensures
        res@ == replace_all(template@, sku_placeholder(), sku@),
{
    let pat = "{}";
    proof {
        reveal_strlit("{}");
        assert(pat@ =~= sku_placeholder());
    }
    replace_all_text(template, pat, sku)
}

/// The column list of the vehicle log insert, up to the opening quote of the timestamp.
pub open spec fn lgv_insert_head() -> Seq<char> {
    "INSERT INTO [RCH-E80-REP-DB].[dbo].[LGV_PLC_LOG] (LOG_DTTM, LGV_ID, X_POS, Y_POS, RESET_NOTIFY, AUTO_MODE, LOADED, IN_SYSTEM, POSITION_VALID, REMOVE_BLOCK_REQUEST, LOCAL_MODE, END_OP_OK, MOVING_FW, MOVING_BW, WAITING_FOR_COMMAND, ON_TARGET, END_OP_FAIL, LOW_BATTERY_ALARM, AGV_ALARM, LOW_BATTERY_WARNING)\n        VALUES ('"@
}

/// A flag as a SQL bit: 1 when set, 0 when clear or absent.
pub open spec fn flag_bit(f: Option<bool>) -> Seq<char> {
    if f == Some(true) {
        seq!['1']
    } else {
        seq!['0']
    }
}

/// The status flags of a vehicle report, in column order.
pub open spec fn lgv_flags(lgv: ILgv) -> Seq<Option<bool>> {
    seq![
        lgv.reset_notify,
        lgv.auto_mode,
        lgv.loaded,
        lgv.in_system,
        lgv.position_valid,
        lgv.remove_block_request,
        lgv.local_mode,
        lgv.end_op_ok,
        lgv.moving_fw,
        lgv.moving_bw,
        lgv.waiting_for_command,
        lgv.on_target,
        lgv.end_op_fail,
        lgv.low_battery_alarm,
        lgv.agv_alarm,
        lgv.low_battery_warning,
    ]
}

/// Each flag as ", " followed by its bit.
pub open spec fn flags_sql(fs: Seq<Option<bool>>) -> Seq<char>
    decreases fs.len(),
{
    if fs.len() == 0 {
        Seq::empty()
    } else {
        flags_sql(fs.drop_last()) + seq![',', ' '] + flag_bit(fs.last())
    }
}

/// An absent number counts as 0.
pub open spec fn number_or_zero(v: Option<i64>) -> int {
    match v {
        Some(n) => n as int,
        None => 0,
    }
}

/// The insert statement of a vehicle report whose timestamp reads `ts`.
pub open spec fn lgv_insert_sql(ts: Seq<char>, lgv: ILgv) -> Seq<char> {
    lgv_insert_head() + ts + seq!['\'', ',', ' '] + int_text(number_or_zero(lgv.lgv_id))
        + seq![',', ' '] + int_text(number_or_zero(lgv.x_pos)) + seq![',', ' '] + int_text(
        number_or_zero(lgv.y_pos),
    ) + flags_sql(lgv_flags(lgv)) + seq![')']
}

/// The status flag columns of the vehicle log, as the column list names them.
pub open spec fn lgv_flag_columns() -> Seq<Seq<char>> {
    seq![
        "RESET_NOTIFY"@,
        "AUTO_MODE"@,
        "LOADED"@,
        "IN_SYSTEM"@,
        "POSITION_VALID"@,
        "REMOVE_BLOCK_REQUEST"@,
        "LOCAL_MODE"@,
        "END_OP_OK"@,
        "MOVING_FW"@,
        "MOVING_BW"@,
        "WAITING_FOR_COMMAND"@,
        "ON_TARGET"@,
        "END_OP_FAIL"@,
        "LOW_BATTERY_ALARM"@,
        "AGV_ALARM"@,
        "LOW_BATTERY_WARNING"@,
    ]
}

/// The flag of the report `lgv` that the log column named `column` records.
pub open spec fn flag_of_column(lgv: ILgv, column: Seq<char>) -> Option<bool> {
    if column == "RESET_NOTIFY"@ {
        lgv.reset_notify
    } else if column == "AUTO_MODE"@ {
        lgv.auto_mode
    } else if column == "LOADED"@ {
        lgv.loaded
    } else if column == "IN_SYSTEM"@ {
        lgv.in_system
    } else if column == "POSITION_VALID"@ {
        lgv.position_valid
    } else if column == "REMOVE_BLOCK_REQUEST"@ {
        lgv.remove_block_request
    } else if column == "LOCAL_MODE"@ {
        lgv.local_mode
    } else if column == "END_OP_OK"@ {
        lgv.end_op_ok
    } else if column == "MOVING_FW"@ {
        lgv.moving_fw
    } else if column == "MOVING_BW"@ {
        lgv.moving_bw
    } else if column == "WAITING_FOR_COMMAND"@ {
        lgv.waiting_for_command
    } else if column == "ON_TARGET"@ {
        lgv.on_target
    } else if column == "END_OP_FAIL"@ {
        lgv.end_op_fail
    } else if column == "LOW_BATTERY_ALARM"@ {
        lgv.low_battery_alarm
    } else if column == "AGV_ALARM"@ {
        lgv.agv_alarm
    } else if column == "LOW_BATTERY_WARNING"@ {
        lgv.low_battery_warning
    } else {
        None
    }
}

/// Column names written as a comma-separated list.
pub open spec fn column_list(columns: Seq<Seq<char>>) -> Seq<char>
    decreases columns.len(),
{
    if columns.len() == 0 {
        Seq::empty()
    } else if columns.len() == 1 {
        columns[0]
    } else {
        column_list(columns.drop_last()) + seq![',', ' '] + columns.last()
    }
}

/// Each flag value of the vehicle log insert lands in its own column: the statement names
/// the flag columns in the order of `lgv_flag_columns`, and after `Y_POS` it gives, in the
/// same order, the bit of the report field that each of those columns records.
pub proof fn lemma_lgv_flags_follow_columns(ts: Seq<char>, lgv: ILgv)
    ensures
        lgv_insert_head() == "INSERT INTO [RCH-E80-REP-DB].[dbo].[LGV_PLC_LOG] (LOG_DTTM, LGV_ID, X_POS, Y_POS, "@
            + column_list(lgv_flag_columns()) + ")\n        VALUES ('"@,
        lgv_insert_sql(ts, lgv) == lgv_insert_head() + ts + seq!['\'', ',', ' '] + int_text(
            number_or_zero(lgv.lgv_id),
        ) + seq![',', ' '] + int_text(number_or_zero(lgv.x_pos)) + seq![',', ' '] + int_text(
            number_or_zero(lgv.y_pos),
        ) + flags_sql(
            Seq::new(
                lgv_flag_columns().len(),
                |k: int| flag_of_column(lgv, lgv_flag_columns()[k]),
            ),
        ) + seq![')'],
{
    reveal_strlit("RESET_NOTIFY");
    reveal_strlit("AUTO_MODE");
    reveal_strlit("LOADED");
    reveal_strlit("IN_SYSTEM");
    reveal_strlit("POSITION_VALID");
    reveal_strlit("REMOVE_BLOCK_REQUEST");
    reveal_strlit("LOCAL_MODE");
    reveal_strlit("END_OP_OK");
    reveal_strlit("MOVING_FW");
    reveal_strlit("MOVING_BW");
    reveal_strlit("WAITING_FOR_COMMAND");
    reveal_strlit("ON_TARGET");
    reveal_strlit("END_OP_FAIL");
    reveal_strlit("LOW_BATTERY_ALARM");
    reveal_strlit("AGV_ALARM");
    reveal_strlit("LOW_BATTERY_WARNING");
    assert("RESET_NOTIFY"@.len() == 12 && "RESET_NOTIFY"@[0] == 'R' && "RESET_NOTIFY"@[7] == 'O');
    assert("AUTO_MODE"@.len() == 9 && "AUTO_MODE"@[0] == 'A' && "AUTO_MODE"@[7] == 'D');
    assert("IN_SYSTEM"@.len() == 9 && "IN_SYSTEM"@[0] == 'I' && "IN_SYSTEM"@[7] == 'E');
    assert("POSITION_VALID"@.len() == 14 && "POSITION_VALID"@[0] == 'P' && "POSITION_VALID"@[7] == 'N');
    assert("REMOVE_BLOCK_REQUEST"@.len() == 20 && "REMOVE_BLOCK_REQUEST"@[0] == 'R' && "REMOVE_BLOCK_REQUEST"@[7] == 'B');
    assert("LOCAL_MODE"@.len() == 10 && "LOCAL_MODE"@[0] == 'L' && "LOCAL_MODE"@[7] == 'O');
    assert("END_OP_OK"@.len() == 9 && "END_OP_OK"@[0] == 'E' && "END_OP_OK"@[7] == 'O');
    assert("MOVING_FW"@.len() == 9 && "MOVING_FW"@[0] == 'M' && "MOVING_FW"@[7] == 'F');
    assert("MOVING_BW"@.len() == 9 && "MOVING_BW"@[0] == 'M' && "MOVING_BW"@[7] == 'B');
    assert("WAITING_FOR_COMMAND"@.len() == 19 && "WAITING_FOR_COMMAND"@[0] == 'W' && "WAITING_FOR_COMMAND"@[7] == '_');
    assert("ON_TARGET"@.len() == 9 && "ON_TARGET"@[0] == 'O' && "ON_TARGET"@[7] == 'E');
    assert("END_OP_FAIL"@.len() == 11 && "END_OP_FAIL"@[0] == 'E' && "END_OP_FAIL"@[7] == 'F');
    assert("LOW_BATTERY_ALARM"@.len() == 17 && "LOW_BATTERY_ALARM"@[0] == 'L' && "LOW_BATTERY_ALARM"@[7] == 'T');
    assert("AGV_ALARM"@.len() == 9 && "AGV_ALARM"@[0] == 'A' && "AGV_ALARM"@[7] == 'R');
    assert("LOW_BATTERY_WARNING"@.len() == 19 && "LOW_BATTERY_WARNING"@[0] == 'L' && "LOW_BATTERY_WARNING"@[7] == 'T');
    assert("LOADED"@.len() == 6);
    let named = Seq::new(lgv_flag_columns().len(), |k: int| flag_of_column(lgv, lgv_flag_columns()[k]));
    assert(named =~= lgv_flags(lgv));
    reveal_with_fuel(column_list, 17);
    reveal_strlit("INSERT INTO [RCH-E80-REP-DB].[dbo].[LGV_PLC_LOG] (LOG_DTTM, LGV_ID, X_POS, Y_POS, ");
    reveal_strlit(")\n        VALUES ('");
    reveal_strlit("INSERT INTO [RCH-E80-REP-DB].[dbo].[LGV_PLC_LOG] (LOG_DTTM, LGV_ID, X_POS, Y_POS, RESET_NOTIFY, AUTO_MODE, LOADED, IN_SYSTEM, POSITION_VALID, REMOVE_BLOCK_REQUEST, LOCAL_MODE, END_OP_OK, MOVING_FW, MOVING_BW, WAITING_FOR_COMMAND, ON_TARGET, END_OP_FAIL, LOW_BATTERY_ALARM, AGV_ALARM, LOW_BATTERY_WARNING)\n        VALUES ('");
    assert(lgv_insert_head() =~= "INSERT INTO [RCH-E80-REP-DB].[dbo].[LGV_PLC_LOG] (LOG_DTTM, LGV_ID, X_POS, Y_POS, "@
        + column_list(lgv_flag_columns()) + ")\n        VALUES ('"@);
}

fn push_flag(s: &mut String, f: Option<bool>)
    ensures
        final(s)@ == old(s)@ + seq![',', ' '] + flag_bit(f),
{
    push_char(s, ',');
    push_char(s, ' ');
    let set = match f {
        Some(b) => b,
        None => false,
    };
    if set {
        push_char(s, '1');
    } else {
        push_char(s, '0');
    }
    assert(final(s)@ =~= old(s)@ + seq![',', ' '] + flag_bit(f));
}

fn push_number(s: &mut String, v: Option<i64>)
    ensures
        final(s)@ == old(s)@ + int_text(number_or_zero(v)),
{
    let n: i64 = match v {
        Some(n) => n,
        None => 0,
    };
    push_int_text(s, n);
}

/// The insert statement that logs `lgv`, with its timestamp already rendered as `ts`.
pub fn lgv_insert_query(ts: &str, lgv: &ILgv) -> (res: String)
    ensures
        res@ == lgv_insert_sql(ts@, *lgv),
{
    let mut s = String::from_str(
        "INSERT INTO [RCH-E80-REP-DB].[dbo].[LGV_PLC_LOG] (LOG_DTTM, LGV_ID, X_POS, Y_POS, RESET_NOTIFY, AUTO_MODE, LOADED, IN_SYSTEM, POSITION_VALID, REMOVE_BLOCK_REQUEST, LOCAL_MODE, END_OP_OK, MOVING_FW, MOVING_BW, WAITING_FOR_COMMAND, ON_TARGET, END_OP_FAIL, LOW_BATTERY_ALARM, AGV_ALARM, LOW_BATTERY_WARNING)\n        VALUES ('",
    );
    s.append(ts);
    push_char(&mut s, '\'');
    push_char(&mut s, ',');
    push_char(&mut s, ' ');
    push_number(&mut s, lgv.lgv_id);
    push_char(&mut s, ',');
    push_char(&mut s, ' ');
    push_number(&mut s, lgv.x_pos);
    push_char(&mut s, ',');
    push_char(&mut s, ' ');
    push_number(&mut s, lgv.y_pos);
    let ghost before = s@;
    let flags: Vec<Option<bool>> = vec![
        lgv.reset_notify,
        lgv.auto_mode,
        lgv.loaded,
        lgv.in_system,
        lgv.position_valid,
        lgv.remove_block_request,
        lgv.local_mode,
        lgv.end_op_ok,
        lgv.moving_fw,
        lgv.moving_bw,
        lgv.waiting_for_command,
        lgv.on_target,
        lgv.end_op_fail,
        lgv.low_battery_alarm,
        lgv.agv_alarm,
        lgv.low_battery_warning,
    ];
    assert(flags@ =~= lgv_flags(*lgv));
    let mut i: usize = 0;
    while i < flags.len()
        invariant
            i <= flags.len(),
            s@ == before + flags_sql(flags@.take(i as int)),
        decreases flags.len() - i,
    {
        push_flag(&mut s, flags[i]);
        assert(flags@.take(i + 1).drop_last() =~= flags@.take(i as int));
        i = i + 1;
    }
    assert(flags@.take(flags.len() as int) =~= flags@);
    push_char(&mut s, ')');
    assert(s@ =~= lgv_insert_sql(ts@, *lgv));
    s
}

/// The insert statement that logs the vehicle report `lgv`, its timestamp normalised to
/// UTC. The report's timestamp must be readable.
pub fn lgv_plc_insert_statement(lgv: &ILgv) -> (res: String)
    requires
        utc_timestamp(lgv.log_dttm@) is Some,
    ensures
        res@ == lgv_insert_sql(utc_timestamp(lgv.log_dttm@)->0, *lgv),
{
    let ts = utc_timestamp_text(lgv.log_dttm.as_str()).unwrap();
    lgv_insert_query(ts.as_str(), lgv)
}

/// The insert statement that logs the vehicle report `lgv`; `None` when the report's
/// timestamp cannot be read, that is when it is neither RFC 3339 nor date, time and
/// numeric offset.
pub fn try_lgv_plc_insert_statement(lgv: &ILgv) -> (res: Option<String>)
    ensures
        res is None <==> utc_timestamp(lgv.log_dttm@) is None,
        res is None <==> chrono_rfc3339_rendered(lgv.log_dttm@, 0, seconds_format()) is None
            && chrono_pattern_rendered(lgv.log_dttm@, offset_pattern(), 0, seconds_format()) is None,
        res matches Some(q) ==> q@ == lgv_insert_sql(utc_timestamp(lgv.log_dttm@)->0, *lgv),
{
    match utc_timestamp_text(lgv.log_dttm.as_str()) {
        Some(_) => Some(lgv_plc_insert_statement(lgv)),
        None => None,
    }
}

} // verus!
