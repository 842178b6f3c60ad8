use tpt_consumer::error::AppError;
use tpt_consumer::models::{
    Coordinates, ILoadDetails, INewOrder, LPNActivity, LoadPattern, LoadedLPN, Location, MPlantAsset,
    PlantAssets,
};
use tpt_consumer::supervisor::{supervise, ListenerEvent, SupervisorAction, RESTART_DELAY_SECONDS};
use tpt_consumer::workflow::{advance_order, start_order, OrderAction, OrderEvent, OrderRun, Stage};

const OID: &str = "65a1b2c3d4e5f60718293a4b";

fn loads() -> Vec<ILoadDetails> {
    vec![
        ILoadDetails::new(31, 5, "SKU-A".to_string(), Some(1), true, true, 12, 100),
        ILoadDetails::new(31, 6, "SKU-B".to_string(), None, true, false, 0, 50),
    ]
}

fn step(run: OrderRun, e: OrderEvent) -> (OrderRun, OrderAction) {
    advance_order(run, e)
}

#[test]
fn order_success_path() {
    let (run, a) = start_order(&INewOrder::new(OID.to_string(), 8801));
    assert!(matches!(a, OrderAction::FetchInventory { trip_number: 8801 }));
    let (run, a) = step(run, OrderEvent::InventoryLoaded(loads()));
    assert_eq!(run.stage, Stage::UpdatingShipment);
    match a {
        OrderAction::UpdateShipment { object_id, update } => {
            assert_eq!(object_id, [0x65, 0xa1, 0xb2, 0xc3, 0xd4, 0xe5, 0xf6, 0x07, 0x18, 0x29, 0x3a, 0x4b]);
            assert_eq!(update.pallet_count, 11);
            assert_eq!(update.sdm_shipment_id, 31);
        }
        other => panic!("unexpected {:?}", other),
    }
    let (run, a) = step(run, OrderEvent::ShipmentUpdated);
    assert!(matches!(a, OrderAction::FetchAssets));
    let (run, a) = step(run, OrderEvent::AssetsLoaded);
    assert!(matches!(a, OrderAction::PublishAssets { trip_number: 8801 }));
    let (run, a) = step(run, OrderEvent::AssetsPublished);
    match &a {
        OrderAction::FetchLocations { sku } => assert_eq!(sku, "SKU-A"),
        other => panic!("unexpected {:?}", other),
    }
    let (run, a) = step(run, OrderEvent::LocationsLoaded);
    assert!(matches!(a, OrderAction::PublishLocations { trip_number: 8801 }));
    let (run, a) = step(run, OrderEvent::LocationsPublished);
    assert!(matches!(a, OrderAction::Acknowledge));
    let (run, a) = step(run, OrderEvent::Acknowledged);
    assert_eq!(run.stage, Stage::Done);
    assert!(matches!(a, OrderAction::Complete));
}

#[test]
fn order_upper_case_object_id() {
    let (run, _) = start_order(&INewOrder::new("65A1B2C3D4E5F60718293A4B".to_string(), 1));
    let (_, a) = step(run, OrderEvent::InventoryLoaded(loads()));
    assert!(matches!(a, OrderAction::UpdateShipment { object_id, .. } if object_id[1] == 0xa1));
}

#[test]
fn order_inventory_out_of_turn_aborts() {
    let (run, _) = start_order(&INewOrder::new(OID.to_string(), 1));
    let (run, _) = step(run, OrderEvent::InventoryLoaded(loads()));
    let (run, a) = step(run, OrderEvent::InventoryLoaded(vec![]));
    assert_eq!(run.stage, Stage::Aborted);
    assert!(matches!(a, OrderAction::Abort));
}

#[test]
fn order_failed_step_is_final() {
    let (run, _) = start_order(&INewOrder::new(OID.to_string(), 1));
    let (run, _) = step(run, OrderEvent::InventoryLoaded(loads()));
    let (run, _) = step(run, OrderEvent::ShipmentUpdated);
    let (run, a) = step(run, OrderEvent::StepFailed);
    assert_eq!(run.stage, Stage::Failed);
    assert!(matches!(a, OrderAction::Fail));
    let (run, a) = step(run, OrderEvent::AssetsLoaded);
    assert_eq!(run.stage, Stage::Failed);
    assert!(matches!(a, OrderAction::Fail));
    let (run, a) = step(run, OrderEvent::Acknowledged);
    assert_eq!(run.stage, Stage::Failed);
    assert!(matches!(a, OrderAction::Fail));
}

#[test]
fn order_inventory_failure_fails() {
    let (run, _) = start_order(&INewOrder::new(OID.to_string(), 1));
    let (run, a) = step(run, OrderEvent::StepFailed);
    assert_eq!(run.stage, Stage::Failed);
    assert!(matches!(a, OrderAction::Fail));
}

#[test]
fn order_out_of_turn_event_aborts() {
    let (run, _) = start_order(&INewOrder::new(OID.to_string(), 1));
    let (run, a) = step(run, OrderEvent::Acknowledged);
    assert_eq!(run.stage, Stage::Aborted);
    assert!(matches!(a, OrderAction::Abort));
}

#[test]
fn supervisor_decisions() {
    assert_eq!(supervise(ListenerEvent::ShutdownRequested), SupervisorAction::Stop);
    assert_eq!(supervise(ListenerEvent::ListenerEnded { succeeded: true }), SupervisorAction::Resume);
    assert_eq!(
        supervise(ListenerEvent::ListenerEnded { succeeded: false }),
        SupervisorAction::PauseThenResume { seconds: 5 }
    );
    assert_eq!(RESTART_DELAY_SECONDS, 5);
}

#[test]
fn app_error_from_conversions() {
    let e: AppError = anyhow::Error::msg("bad config").into();
    assert!(matches!(e, AppError::LoggerInitError(ref x) if x.to_string() == "bad config"));
    let e: AppError = std::io::Error::new(std::io::ErrorKind::Other, "disk").into();
    assert!(matches!(e, AppError::IoError(_)));
}

#[test]
fn model_constructors_keep_fields() {
    let a = MPlantAsset::new("t".to_string(), 1, 2, 3, 4, 5, 6, 7, 8, 9);
    assert_eq!((a.log_dttm.as_str(), a.docks_enabled, a.fleet_count), ("t", 1, 9));
    let o = INewOrder::new("id".to_string(), -2);
    assert_eq!((o.mongo_id.as_str(), o.trip_number), ("id", -2));
    let p = PlantAssets::new(Some(1), None, Some(3), None, Some(5), None);
    assert_eq!((p.DOCKS_AVAILABLE, p.DOCKS_ALLOCATED, p.LGVS_IN_THE_SYSTEM), (Some(1), None, Some(5)));
    let l = Location::new(Some(1), Some("L".to_string()), Some(2), Some(3), Some(true), None, Some(4), Some(5));
    assert_eq!((l.LOCATION_ID, l.LOCATION_NAME.as_deref(), l.POSITION_DISABLED), (Some(1), Some("L"), Some(5)));
    let lp = LoadPattern::new(Some(3), Some("v".to_string()));
    assert_eq!((lp.key, lp.value.as_deref()), (Some(3), Some("v")));
    let c = Coordinates::new(Some(-1), Some(2));
    assert_eq!((c.x, c.y), (Some(-1), Some(2)));
    let act = LPNActivity::new(Some(1), Some("LPN".to_string()), Some(2), Some(false), Some(true), None);
    assert_eq!((act.STOCKUNIT_ID, act.PALLETS_IN_FRONT, act.POSITIONS_BLOCKED), (Some(1), Some(2), Some(true)));
    let ll = LoadedLPN::new(Some(1), Some("S".to_string()), None, Some("LOT".to_string()), Some(40));
    assert_eq!((ll.SKU.as_deref(), ll.LOT_NUMBER.as_deref(), ll.QUANTITY), (Some("S"), Some("LOT"), Some(40)));
}

#[test]
fn plant_asset_into_tuple() {
    let a = MPlantAsset::new("t".to_string(), 1, 2, 3, 4, 5, 6, 7, 8, 9);
    let t: (String, i32, i32, i32, i32, i32, i32, i32, i32, i32) = a.into();
    assert_eq!(t, ("t".to_string(), 1, 2, 3, 4, 5, 6, 7, 8, 9));
}
