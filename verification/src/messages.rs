//! Decoding of the queue messages: UTF-8 text holding a JSON object.
use vstd::prelude::*;
use vstd::utf8::{decode_utf8, valid_utf8};

use crate::models::MPlantAsset;
use crate::text::{lemma_i32_narrowing, trim_char, trim_char_text};

verus! {

/// Why a message could not be decoded.
#[derive(Debug, Clone, Copy, PartialEq, Eq)]
pub enum MessageError {
    /// The message body is not UTF-8.
    NotUtf8,
    /// The message text is not JSON.
    NotJson,
    /// A field that must hold an integer is missing or holds something else.
    MissingInteger,
}

/// `String::from_utf8`: the bytes as text when they are UTF-8, which the standard
/// library documents as its only condition for success.
#[verifier::external_body]
fn utf8_text(bytes: Vec<u8>) -> (res: Option<String>)
    ensures
        res is Some <==> valid_utf8(bytes@),
        res matches Some(s) ==> s@ == decode_utf8(bytes@),
{
    match String::from_utf8(bytes) {
        Ok(s) => Some(s),
        Err(_) => None,
    }
}

/// Whether `serde_json::from_str::<serde_json::Value>` accepts `text`.
pub uninterp spec fn json_is_valid(text: Seq<char>) -> bool;

/// What `serde_json::Value::as_i64` gives for the value that the JSON pointer `pointer`
/// reaches in the JSON text `text`, `None` where the pointer reaches nothing.
pub uninterp spec fn json_integer_at(text: Seq<char>, pointer: Seq<char>) -> Option<i64>;

/// The JSON rendering (`Value::to_string`) of the value that `pointer` reaches in `text`,
/// or of `null` where it reaches nothing.
pub uninterp spec fn json_text_at(text: Seq<char>, pointer: Seq<char>) -> Seq<char>;

/// Parses `text` with `serde_json::from_str` and reads the integer at `pointer` with
/// `Value::pointer` and `Value::as_i64`. The contract claims that the parse succeeds
/// exactly when `json_is_valid` holds and names the integer `json_integer_at`; which
/// texts are JSON and what integer a value gives are not stated here. For the object
/// keys used in this crate (no '/', '~', and not numbers) `pointer` reaches what
/// indexing the value by those keys reaches.
#[verifier::external_body]
fn json_integer(text: &str, pointer: &str) -> (res: Option<Option<i64>>)
    ensures
        res is Some <==> json_is_valid(text@),
        res matches Some(v) ==> v == json_integer_at(text@, pointer@),
{
    match serde_json::from_str::<serde_json::Value>(text) {
        Ok(v) => Some(v.pointer(pointer).and_then(serde_json::Value::as_i64)),
        Err(_) => None,
    }
}

/// Parses `text` with `serde_json::from_str` and renders the value at `pointer` with
/// `to_string`, rendering `Value::Null` where the pointer reaches nothing. The contract
/// claims that the parse succeeds exactly when `json_is_valid` holds and names the
/// rendering `json_text_at`; the rendering itself is not stated here.
#[verifier::external_body]
fn json_text(text: &str, pointer: &str) -> (res: Option<String>)
    ensures
        res is Some <==> json_is_valid(text@),
        res matches Some(t) ==> t@ == json_text_at(text@, pointer@),
{
    match serde_json::from_str::<serde_json::Value>(text) {
        Ok(v) => Some(v.pointer(pointer).unwrap_or(&serde_json::Value::Null).to_string()),
        Err(_) => None,
    }
}

/// The text of a message body, where it is UTF-8.
pub open spec fn message_text(data: Seq<u8>) -> Seq<char> {
    decode_utf8(data)
}

/// The error that a message body yields before any field is read, if any.
pub open spec fn envelope_error(data: Seq<u8>) -> Option<MessageError> {
    if !valid_utf8(data) {
        Some(MessageError::NotUtf8)
    } else if !json_is_valid(message_text(data)) {
        Some(MessageError::NotJson)
    } else {
        None
    }
}

/// The trip number of a location message: its integer `TRIP_NUMBER`, 0 when there is
/// none, narrowed to `i32` by truncation.
pub open spec fn location_trip_number(text: Seq<char>) -> i32 {
    trip_or_zero(json_integer_at(text, "/TRIP_NUMBER"@))
}

/// A trip number as read from a message field: the integer narrowed to `i32` by
/// truncation, 0 when there is none.
pub open spec fn trip_or_zero(v: Option<i64>) -> i32 {
    match v {
        Some(n) => n as i32,
        None => 0,
    }
}

/// A trip number read from a field is the field's integer itself where it fits in `i32`,
/// that integer's low 32 bits otherwise, and 0 where the field holds no integer.
pub proof fn lemma_trip_number_is_field(v: Option<i64>)
    ensures
        v matches Some(n) ==> (i32::MIN <= n <= i32::MAX ==> trip_or_zero(v) == n),
        v matches Some(n) ==> (trip_or_zero(v) as i64 as u64) & 0xffff_ffffu64 == (n as u64)
            & 0xffff_ffffu64,
        v is None ==> trip_or_zero(v) == 0,
{
    if let Some(n) = v {
        lemma_i32_narrowing(n);
    }
}

/// The trip number of a location message is its integer `TRIP_NUMBER` where that fits in
/// `i32` (its low 32 bits otherwise), and 0 where the message has no integer there.
pub proof fn lemma_location_trip_number_is_field(text: Seq<char>)
    ensures
        json_integer_at(text, "/TRIP_NUMBER"@) matches Some(n) ==> (i32::MIN <= n <= i32::MAX
            ==> location_trip_number(text) == n),
        json_integer_at(text, "/TRIP_NUMBER"@) matches Some(n) ==> (location_trip_number(text)
            as i64 as u64) & 0xffff_ffffu64 == (n as u64) & 0xffff_ffffu64,
        json_integer_at(text, "/TRIP_NUMBER"@) is None ==> location_trip_number(text) == 0,
{
    lemma_trip_number_is_field(json_integer_at(text, "/TRIP_NUMBER"@));
}

/// An integer field of a complete message is read as the integer itself where it fits in
/// `i32`, and as its low 32 bits otherwise.
pub proof fn lemma_field_i32_is_integer(text: Seq<char>, pointer: Seq<char>)
    requires
        json_integer_at(text, pointer) is Some,
    ensures
        i32::MIN <= json_integer_at(text, pointer)->0 <= i32::MAX ==> field_i32(text, pointer)
            == json_integer_at(text, pointer)->0,
        (field_i32(text, pointer) as i64 as u64) & 0xffff_ffffu64 == (json_integer_at(
            text,
            pointer,
        )->0 as u64) & 0xffff_ffffu64,
{
    lemma_i32_narrowing(json_integer_at(text, pointer)->0);
}

/// The trip number that a message field `v` gives.
pub fn trip_number_or_zero(v: Option<i64>) -> (res: i32)
    ensures
        res == trip_or_zero(v),
{
    match v {
        Some(n) => n as i32,
        None => 0,
    }
}

/// The trip number of a location message.
pub fn decode_location_trip_number(data: Vec<u8>) -> (res: Result<i32, MessageError>)
    ensures
        envelope_error(data@) matches Some(e) ==> res == Err::<i32, MessageError>(e),
        envelope_error(data@) is None ==> res == Ok::<i32, MessageError>(
            location_trip_number(message_text(data@)),
        ),
{
    let text = match utf8_text(data) {
        Some(t) => t,
        None => return Err(MessageError::NotUtf8),
    };
    match json_integer(text.as_str(), "/TRIP_NUMBER") {
        None => Err(MessageError::NotJson),
        Some(v) => Ok(trip_number_or_zero(v)),
    }
}

/// The document id of a new-order change event: the rendering of
/// `fullDocument._id.$oid` without its surrounding quotes.
pub open spec fn order_document_id(text: Seq<char>) -> Seq<char> {
    trim_char(json_text_at(text, "/fullDocument/_id/$oid"@), '"')
}

/// The document id that a new-order change event announces.
pub fn decode_order_document_id(data: Vec<u8>) -> (res: Result<String, MessageError>)
    ensures
        envelope_error(data@) matches Some(e) ==> (res matches Err(f) && f == e),
        envelope_error(data@) is None ==> (res matches Ok(id) && id@ == order_document_id(
            message_text(data@),
        )),
{
    let text = match utf8_text(data) {
        Some(t) => t,
        None => return Err(MessageError::NotUtf8),
    };
    match json_text(text.as_str(), "/fullDocument/_id/$oid") {
        None => Err(MessageError::NotJson),
        Some(raw) => Ok(trim_char_text(raw.as_str(), '"')),
    }
}

/// The integer fields of a plant asset message, in the order they are read.
pub open spec fn plant_asset_pointers() -> Seq<Seq<char>> {
    seq![
        "/TRIP_NUMBER"@,
        "/DOCKS_ENABLED"@,
        "/DOCKS_DISABLED"@,
        "/TOTAL_DOCKS"@,
        "/PRELOAD"@,
        "/LIVE_LOAD"@,
        "/LOAD_COUNT"@,
        "/DOORS_AVAILABLE"@,
        "/REMOVED_LGVS"@,
        "/FLEET_COUNT"@,
    ]
}

/// Every integer field of a plant asset message is present.
pub open spec fn plant_asset_complete(text: Seq<char>) -> bool {
    forall|i: int|
        0 <= i < plant_asset_pointers().len() ==> #[trigger] json_integer_at(
            text,
            plant_asset_pointers()[i],
        ) is Some
}

/// The integer at `pointer`, narrowed to `i32` by truncation.
pub open spec fn field_i32(text: Seq<char>, pointer: Seq<char>) -> i32 {
    json_integer_at(text, pointer)->0 as i32
}

/// `a` is the plant asset record that the complete message `text` describes.
pub open spec fn is_plant_asset_of(text: Seq<char>, a: MPlantAsset) -> bool {
    &&& a.log_dttm@ == json_text_at(text, "/LOG_DTTM"@)
    &&& a.docks_enabled == field_i32(text, "/DOCKS_ENABLED"@)
    &&& a.docks_disabled == field_i32(text, "/DOCKS_DISABLED"@)
    &&& a.total_docks == field_i32(text, "/TOTAL_DOCKS"@)
    &&& a.preload == field_i32(text, "/PRELOAD"@)
    &&& a.live_load == field_i32(text, "/LIVE_LOAD"@)
    &&& a.load_count == field_i32(text, "/LOAD_COUNT"@)
    &&& a.doors_available == field_i32(text, "/DOORS_AVAILABLE"@)
    &&& a.removed_lgvs == field_i32(text, "/REMOVED_LGVS"@)
    &&& a.fleet_count == field_i32(text, "/FLEET_COUNT"@)
}

/// All of the integer fields are present.
pub open spec fn all_present(fields: Seq<Option<i64>>) -> bool {
    forall|i: int| 0 <= i < fields.len() ==> #[trigger] fields[i] is Some
}

/// `a` is the record that the field values describe, each integer narrowed to `i32` by
/// truncation.
pub open spec fn is_asset_of_fields(
    log_dttm: Seq<char>,
    fields: Seq<Option<i64>>,
    a: MPlantAsset,
) -> bool {
    &&& a.log_dttm@ == log_dttm
    &&& a.docks_enabled == fields[1]->0 as i32
    &&& a.docks_disabled == fields[2]->0 as i32
    &&& a.total_docks == fields[3]->0 as i32
    &&& a.preload == fields[4]->0 as i32
    &&& a.live_load == fields[5]->0 as i32
    &&& a.load_count == fields[6]->0 as i32
    &&& a.doors_available == fields[7]->0 as i32
    &&& a.removed_lgvs == fields[8]->0 as i32
    &&& a.fleet_count == fields[9]->0 as i32
}

fn present(v: Option<i64>) -> (res: i32)
    requires
        v is Some,
    ensures
        res == v->0 as i32,
{
    match v {
        Some(n) => n as i32,
        None => 0,
    }
}

/// The trip number and plant asset record that the field values of a complete plant asset
/// message give, in the order of `plant_asset_pointers`, each integer narrowed to `i32`.
pub fn plant_asset_from_fields(
    log_dttm: String,
    trip_number: Option<i64>,
    docks_enabled: Option<i64>,
    docks_disabled: Option<i64>,
    total_docks: Option<i64>,
    preload: Option<i64>,
    live_load: Option<i64>,
    load_count: Option<i64>,
    doors_available: Option<i64>,
    removed_lgvs: Option<i64>,
    fleet_count: Option<i64>,
) -> (res: (i32, MPlantAsset))
    requires
        all_present(
            seq![
                trip_number,
                docks_enabled,
                docks_disabled,
                total_docks,
                preload,
                live_load,
                load_count,
                doors_available,
                removed_lgvs,
                fleet_count,
            ],
        ),
    ensures
        res.0 == trip_number->0 as i32,
        is_asset_of_fields(
            log_dttm@,
            seq![
                trip_number,
                docks_enabled,
                docks_disabled,
                total_docks,
                preload,
                live_load,
                load_count,
                doors_available,
                removed_lgvs,
                fleet_count,
            ],
            res.1,
        ),
{
    let ghost fields = seq![
        trip_number,
        docks_enabled,
        docks_disabled,
        total_docks,
        preload,
        live_load,
        load_count,
        doors_available,
        removed_lgvs,
        fleet_count,
    ];
    assert(fields[0] is Some && fields[1] is Some && fields[2] is Some && fields[3] is Some
        && fields[4] is Some && fields[5] is Some && fields[6] is Some && fields[7] is Some
        && fields[8] is Some && fields[9] is Some);
    (
        present(trip_number),
        MPlantAsset {
            log_dttm,
            docks_enabled: present(docks_enabled),
            docks_disabled: present(docks_disabled),
            total_docks: present(total_docks),
            preload: present(preload),
            live_load: present(live_load),
            load_count: present(load_count),
            doors_available: present(doors_available),
            removed_lgvs: present(removed_lgvs),
            fleet_count: present(fleet_count),
        },
    )
}

fn integer_at(text: &str, pointer: &str) -> (res: Option<i64>)
    requires
        json_is_valid(text@),
    ensures
        res == json_integer_at(text@, pointer@),
{
    match json_integer(text, pointer) {
        Some(v) => v,
        None => None,
    }
}

/// The integers of a plant asset message, in the order of `plant_asset_pointers`.
fn integer_fields(t: &str) -> (res: Vec<Option<i64>>)
    requires
        json_is_valid(t@),
    ensures
        res@.len() == 10,
        forall|i: int| 0 <= i < 10 ==> res@[i] == json_integer_at(t@, #[trigger] plant_asset_pointers()[i]),
{
    let res = vec![
        integer_at(t, "/TRIP_NUMBER"),
        integer_at(t, "/DOCKS_ENABLED"),
        integer_at(t, "/DOCKS_DISABLED"),
        integer_at(t, "/TOTAL_DOCKS"),
        integer_at(t, "/PRELOAD"),
        integer_at(t, "/LIVE_LOAD"),
        integer_at(t, "/LOAD_COUNT"),
        integer_at(t, "/DOORS_AVAILABLE"),
        integer_at(t, "/REMOVED_LGVS"),
        integer_at(t, "/FLEET_COUNT"),
    ];
    assert forall|i: int| 0 <= i < 10 implies res@[i] == json_integer_at(
        t@,
        #[trigger] plant_asset_pointers()[i],
    ) by {}
    res
}

/// The trip number and plant asset record of a plant asset message whose text, where it is
/// JSON, holds every integer field.
pub fn decode_plant_asset_message(data: Vec<u8>) -> (res: Result<(i32, MPlantAsset), MessageError>)
    requires
        envelope_error(data@) is None ==> plant_asset_complete(message_text(data@)),
    ensures
        envelope_error(data@) matches Some(e) ==> (res matches Err(f) && f == e),
        envelope_error(data@) is None ==> (res matches Ok((trip, a)) && trip == field_i32(
            message_text(data@),
            "/TRIP_NUMBER"@,
        ) && is_plant_asset_of(message_text(data@), a)),
{
    let text = match utf8_text(data) {
        Some(t) => t,
        None => return Err(MessageError::NotUtf8),
    };
    let t = text.as_str();
    let log_dttm = match json_text(t, "/LOG_DTTM") {
        Some(x) => x,
        None => return Err(MessageError::NotJson),
    };
    let f = integer_fields(t);
    let ghost s = t@;
    let ghost ptrs = plant_asset_pointers();
    proof {
        assert forall|i: int| 0 <= i < 10 implies #[trigger] f@[i] is Some by {
            assert(f@[i] == json_integer_at(s, ptrs[i]));
        }
        assert(f@[0] == json_integer_at(s, ptrs[0]));
        assert(f@[1] == json_integer_at(s, ptrs[1]));
        assert(f@[2] == json_integer_at(s, ptrs[2]));
        assert(f@[3] == json_integer_at(s, ptrs[3]));
        assert(f@[4] == json_integer_at(s, ptrs[4]));
        assert(f@[5] == json_integer_at(s, ptrs[5]));
        assert(f@[6] == json_integer_at(s, ptrs[6]));
        assert(f@[7] == json_integer_at(s, ptrs[7]));
        assert(f@[8] == json_integer_at(s, ptrs[8]));
        assert(f@[9] == json_integer_at(s, ptrs[9]));
        let fs = seq![f@[0], f@[1], f@[2], f@[3], f@[4], f@[5], f@[6], f@[7], f@[8], f@[9]];
        assert forall|i: int| 0 <= i < fs.len() implies #[trigger] fs[i] is Some by {
            assert(fs[i] == f@[i]);
        }
    }
    Ok(
        plant_asset_from_fields(
            log_dttm,
            f[0],
            f[1],
            f[2],
            f[3],
            f[4],
            f[5],
            f[6],
            f[7],
            f[8],
            f[9],
        ),
    )
}

/// The trip number and plant asset record of a plant asset message; a message whose text
/// lacks one of the integer fields is refused with `MissingInteger`.
pub fn try_decode_plant_asset_message(data: Vec<u8>) -> (res: Result<(i32, MPlantAsset), MessageError>)
    ensures
        envelope_error(data@) matches Some(e) ==> (res matches Err(f) && f == e),
        envelope_error(data@) is None && !plant_asset_complete(message_text(data@)) ==> (res
            matches Err(f) && f == MessageError::MissingInteger),
        envelope_error(data@) is None && plant_asset_complete(message_text(data@)) ==> (res
            matches Ok((trip, a)) && trip == field_i32(message_text(data@), "/TRIP_NUMBER"@)
            && is_plant_asset_of(message_text(data@), a)),
{
    let copy = data.clone();
    assert(copy@ =~= data@);
    let text = match utf8_text(copy) {
        Some(t) => t,
        None => return Err(MessageError::NotUtf8),
    };
    let t = text.as_str();
    if json_text(t, "/LOG_DTTM").is_none() {
        return Err(MessageError::NotJson);
    }
    let f = integer_fields(t);
    let mut k: usize = 0;
    while k < 10
        invariant
            k <= 10,
            f@.len() == 10,
            forall|i: int| 0 <= i < k ==> #[trigger] f@[i] is Some,
            forall|i: int|
                0 <= i < 10 ==> f@[i] == json_integer_at(t@, #[trigger] plant_asset_pointers()[i]),
            t@ == message_text(data@),
            envelope_error(data@) is None,
        decreases 10 - k,
    {
        if f[k].is_none() {
            proof {
                let ghost p = plant_asset_pointers()[k as int];
                assert(json_integer_at(t@, p) is None);
                assert(!plant_asset_complete(t@));
            }
            return Err(MessageError::MissingInteger);
        }
        k = k + 1;
    }
    proof {
        assert forall|i: int| 0 <= i < plant_asset_pointers().len() implies #[trigger] json_integer_at(
            t@,
            plant_asset_pointers()[i],
        ) is Some by {
            assert(f@[i] == json_integer_at(t@, plant_asset_pointers()[i]));
        }
    }
    decode_plant_asset_message(data)
}

} // verus!
