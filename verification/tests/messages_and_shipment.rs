use mongodb::bson::{Bson, Document};
use tpt_consumer::messages::plant_asset_from_fields;
use tpt_consumer::messages::trip_number_or_zero;
use tpt_consumer::messages::{
    decode_location_trip_number, decode_order_document_id, decode_plant_asset_message,
    try_decode_plant_asset_message, MessageError,
};
use tpt_consumer::models::ILoadDetails;
use tpt_consumer::shipment::{
    aging_lpn_positions, is_document_id, plan_shipment_update, shipment_update_target, total_pallet_count,
    ShipmentTarget,
};

const ASSET_MESSAGE: &str = r#"{"LOG_DTTM":"2024-03-01T10:20:30","DOCKS_ENABLED":10,"DOCKS_DISABLED":2,"TOTAL_DOCKS":12,"PRELOAD":3,"LIVE_LOAD":4,"LOAD_COUNT":7,"DOORS_AVAILABLE":5,"REMOVED_LGVS":1,"FLEET_COUNT":9,"TRIP_NUMBER":5551}"#;

#[test]
fn plant_asset_message_decodes() {
    let (trip, a) = decode_plant_asset_message(ASSET_MESSAGE.as_bytes().to_vec()).unwrap();
    assert_eq!(trip, 5551);
    assert_eq!(a.log_dttm, "\"2024-03-01T10:20:30\"");
    assert_eq!(
        (a.docks_enabled, a.docks_disabled, a.total_docks, a.preload, a.live_load),
        (10, 2, 12, 3, 4)
    );
    assert_eq!((a.load_count, a.doors_available, a.removed_lgvs, a.fleet_count), (7, 5, 1, 9));
}

#[test]
fn plant_asset_message_without_timestamp_renders_null() {
    let msg = ASSET_MESSAGE.replace(r#""LOG_DTTM":"2024-03-01T10:20:30","#, "");
    let (_, a) = decode_plant_asset_message(msg.into_bytes()).unwrap();
    assert_eq!(a.log_dttm, "null");
}

#[test]
fn plant_asset_message_truncates_to_i32() {
    let msg = ASSET_MESSAGE.replace("\"FLEET_COUNT\":9", "\"FLEET_COUNT\":4294967297");
    let (_, a) = decode_plant_asset_message(msg.into_bytes()).unwrap();
    assert_eq!(a.fleet_count, 1);
}

#[test]
fn plant_asset_message_missing_integer() {
    let msg = ASSET_MESSAGE.replace("\"PRELOAD\":3", "\"PRELOAD\":\"3\"");
    assert_eq!(try_decode_plant_asset_message(msg.into_bytes()).err(), Some(MessageError::MissingInteger));
    let msg = ASSET_MESSAGE.replace(",\"TRIP_NUMBER\":5551", "");
    assert_eq!(try_decode_plant_asset_message(msg.into_bytes()).err(), Some(MessageError::MissingInteger));
}

#[test]
fn plant_asset_message_checked_decode() {
    let (trip, a) = try_decode_plant_asset_message(ASSET_MESSAGE.as_bytes().to_vec()).unwrap();
    assert_eq!((trip, a.total_docks, a.fleet_count), (5551, 12, 9));
    assert_eq!(try_decode_plant_asset_message(vec![0xff]).err(), Some(MessageError::NotUtf8));
    assert_eq!(try_decode_plant_asset_message(b"{".to_vec()).err(), Some(MessageError::NotJson));
}

#[test]
fn plant_asset_message_not_utf8() {
    assert_eq!(decode_plant_asset_message(vec![0xff, 0xfe, b'{']).err(), Some(MessageError::NotUtf8));
}

#[test]
fn plant_asset_message_not_json() {
    assert_eq!(decode_plant_asset_message(b"{not json".to_vec()).err(), Some(MessageError::NotJson));
}

#[test]
fn location_trip_number_read_or_zero() {
    assert_eq!(decode_location_trip_number(br#"{"TRIP_NUMBER":77,"LOCATIONS":[]}"#.to_vec()), Ok(77));
    assert_eq!(decode_location_trip_number(br#"{"LOCATIONS":[]}"#.to_vec()), Ok(0));
    assert_eq!(decode_location_trip_number(br#"{"TRIP_NUMBER":"77"}"#.to_vec()), Ok(0));
    assert_eq!(decode_location_trip_number(br#"{"TRIP_NUMBER":-4294967295}"#.to_vec()), Ok(1));
    assert_eq!(decode_location_trip_number(b"[".to_vec()), Err(MessageError::NotJson));
    assert_eq!(decode_location_trip_number(vec![0xc3]), Err(MessageError::NotUtf8));
}

#[test]
fn order_document_id_unquoted() {
    let msg = br#"{"fullDocument":{"_id":{"$oid":"65a1b2c3d4e5f60718293a4b"},"TRIP_NUMBER":12.0}}"#;
    assert_eq!(decode_order_document_id(msg.to_vec()).unwrap(), "65a1b2c3d4e5f60718293a4b");
}

#[test]
fn order_document_id_missing_is_null() {
    assert_eq!(decode_order_document_id(br#"{"fullDocument":{}}"#.to_vec()).unwrap(), "null");
    assert!(decode_order_document_id(b"nope".to_vec()).is_err());
}

fn load(id: i64, pallets: i64, sku: &str, total: i64) -> ILoadDetails {
    ILoadDetails::new(id, pallets, sku.to_string(), Some(2), true, false, 48, total)
}

#[test]
fn pallet_total_sums_rows() {
    let loads = vec![load(1, 10, "A", 5), load(1, 20, "B", 6), load(1, -5, "C", 7)];
    assert_eq!(total_pallet_count(&loads), Some(25));
    assert_eq!(total_pallet_count(&vec![]), Some(0));
}

#[test]
fn pallet_total_overflow_is_none() {
    let loads = vec![load(1, i64::MAX, "A", 5), load(1, 1, "B", 6), load(1, -10, "C", 7)];
    assert_eq!(total_pallet_count(&loads), None);
}

#[test]
fn shipment_update_of_empty_snapshot() {
    assert!(plan_shipment_update(&vec![]).is_none());
}

#[test]
fn shipment_update_fields() {
    let mut second = load(9, 3, "SKU-2", 4294967296 + 8);
    second.SKU_CROSSDOCKING_ENABLED = true;
    second.LOAD_CROSSDOCKING_ENABLED = false;
    second.SKU_LOCATION_COUNT = None;
    let loads = vec![load(7, 4, "SKU-1", 11), second];
    let u = plan_shipment_update(&loads).unwrap();
    assert_eq!(u.sdm_shipment_id, 7);
    assert_eq!(u.pallet_count, 7);
    assert!(u.load_crossdocking_enabled);
    let keys: Vec<&str> = u.skus.keys().map(|k| k.as_str()).collect();
    assert_eq!(keys, vec!["SKU-1", "SKU-2"]);
    let first = u.skus.get_document("SKU-1").unwrap();
    assert_eq!(first.get_i64("SKU_LOCATION_COUNT"), Ok(2));
    assert_eq!(first.get_i32("TOTAL_INVENTORY"), Ok(11));
    assert_eq!(first.get_i32("SKU_CROSSDOCKING_ENABLED"), Ok(0));
    assert_eq!(first.get_i32("HOLD_HOURS"), Ok(48));
    let second = u.skus.get_document("SKU-2").unwrap();
    assert_eq!(second.get("SKU_LOCATION_COUNT"), Some(&Bson::Null));
    assert_eq!(second.get_i32("TOTAL_INVENTORY"), Ok(8));
    assert_eq!(second.get_i32("SKU_CROSSDOCKING_ENABLED"), Ok(1));
}

#[test]
fn aging_positions_keep_order() {
    assert_eq!(aging_lpn_positions(&vec![1, 0, 1, 2, 1, -1]), vec![0, 2, 4]);
    assert_eq!(aging_lpn_positions(&vec![]), Vec::<usize>::new());
    assert_eq!(aging_lpn_positions(&vec![0, 0]), Vec::<usize>::new());
}

#[test]
fn shipment_target_cases() {
    let oid = "0123456789abcdefABCDEF01";
    assert!(matches!(shipment_update_target(&vec![], "bad"), ShipmentTarget::NothingToUpdate));
    let rows = vec![load(3, 2, "S", 1)];
    match shipment_update_target(&rows, oid) {
        ShipmentTarget::Update { object_id, update } => {
            assert_eq!(object_id, [0x01, 0x23, 0x45, 0x67, 0x89, 0xab, 0xcd, 0xef, 0xab, 0xcd, 0xef, 0x01]);
            assert_eq!(update.pallet_count, 2);
        }
        other => panic!("unexpected {:?}", other),
    }
}

#[test]
fn document_ids_are_24_hex_digits() {
    assert!(is_document_id("0123456789abcdefABCDEF01"));
    assert!(!is_document_id("bad"));
    assert!(!is_document_id("null"));
    assert!(!is_document_id("0123456789abcdefABCDEF0"));
    assert!(!is_document_id("0123456789abcdefABCDEF0g"));
    assert!(!is_document_id("0123456789abcdefABCDEF012"));
}

#[test]
fn shipment_update_merges_repeated_skus() {
    let mut later_a = load(5, 1, "A", 70);
    later_a.HOLD_HOURS = 6;
    later_a.SKU_LOCATION_COUNT = None;
    let rows = vec![load(5, 2, "A", 10), load(5, 3, "B", 20), later_a, load(5, 4, "C", 30), load(5, 5, "B", 40)];
    let u = plan_shipment_update(&rows).unwrap();
    let keys: Vec<&str> = u.skus.keys().map(|k| k.as_str()).collect();
    assert_eq!(keys, vec!["A", "B", "C"]);
    let a: &Document = u.skus.get_document("A").unwrap();
    assert_eq!(a.get_i32("TOTAL_INVENTORY"), Ok(70));
    assert_eq!(a.get_i32("HOLD_HOURS"), Ok(6));
    assert_eq!(a.get("SKU_LOCATION_COUNT"), Some(&Bson::Null));
    assert_eq!(u.skus.get_document("B").unwrap().get_i32("TOTAL_INVENTORY"), Ok(40));
    assert_eq!(u.skus.get_document("C").unwrap().get_i32("TOTAL_INVENTORY"), Ok(30));
    assert_eq!(u.pallet_count, 15);
}

#[test]
fn shipment_update_last_row_wins() {
    let rows = vec![load(1, 1, "x", 1), load(1, 1, "x", 2), load(1, 1, "y", 3), load(1, 1, "x", 4)];
    let u = plan_shipment_update(&rows).unwrap();
    assert_eq!(u.skus.len(), 2);
    let keys: Vec<&str> = u.skus.keys().map(|k| k.as_str()).collect();
    assert_eq!(keys, vec!["x", "y"]);
    assert_eq!(u.skus.get_document("x").unwrap().get_i32("TOTAL_INVENTORY"), Ok(4));
    assert_eq!(u.skus.get_document("y").unwrap().get_i32("TOTAL_INVENTORY"), Ok(3));
}

#[test]
fn plant_asset_from_field_values() {
    let (trip, a) = plant_asset_from_fields(
        "\"t\"".to_string(), Some(4294967303), Some(1), Some(2), Some(3), Some(4), Some(5), Some(6), Some(7), Some(8), Some(-9),
    );
    assert_eq!(trip, 7);
    assert_eq!((a.docks_enabled, a.fleet_count, a.log_dttm.as_str()), (1, -9, "\"t\""));
}

#[test]
fn trip_number_from_field_value() {
    assert_eq!(trip_number_or_zero(Some(12)), 12);
    assert_eq!(trip_number_or_zero(None), 0);
    assert_eq!(trip_number_or_zero(Some(-4294967295)), 1);
}
