//! Records exchanged with the message queue and the databases.
use vstd::prelude::*;

verus! {

/// A snapshot of the plant's dock and vehicle assets, as published for a trip.
#[derive(Debug, Clone)]
pub struct MPlantAsset {
    pub log_dttm: String,
    pub docks_enabled: i32,
    pub docks_disabled: i32,
    pub total_docks: i32,
    pub preload: i32,
    pub live_load: i32,
    pub load_count: i32,
    pub doors_available: i32,
    pub removed_lgvs: i32,
    pub fleet_count: i32,
}

impl MPlantAsset {
    pub fn new(
        log_dttm: String,
        docks_enabled: i32,
        docks_disabled: i32,
        total_docks: i32,
        preload: i32,
        live_load: i32,
        load_count: i32,
        doors_available: i32,
        removed_lgvs: i32,
        fleet_count: i32,
    ) -> (res: MPlantAsset)
        ensures
            res.log_dttm@ == log_dttm@,
            res.docks_enabled == docks_enabled,
            res.docks_disabled == docks_disabled,
            res.total_docks == total_docks,
            res.preload == preload,
            res.live_load == live_load,
            res.load_count == load_count,
            res.doors_available == doors_available,
            res.removed_lgvs == removed_lgvs,
            res.fleet_count == fleet_count,
    {
        MPlantAsset {
            log_dttm,
            docks_enabled,
            docks_disabled,
            total_docks,
            preload,
            live_load,
            load_count,
            doors_available,
            removed_lgvs,
            fleet_count,
        }
    }
}

impl From<MPlantAsset> for (String, i32, i32, i32, i32, i32, i32, i32, i32, i32) {
    fn from(a: MPlantAsset) -> (res: (String, i32, i32, i32, i32, i32, i32, i32, i32, i32)) {
        (
            a.log_dttm,
            a.docks_enabled,
            a.docks_disabled,
            a.total_docks,
            a.preload,
            a.live_load,
            a.load_count,
            a.doors_available,
            a.removed_lgvs,
            a.fleet_count,
        )
    }
}

impl vstd::std_specs::convert::FromSpecImpl<MPlantAsset> for (String, i32, i32, i32, i32, i32, i32, i32, i32, i32) {
    open spec fn obeys_from_spec() -> bool {
        true
    }

    open spec fn from_spec(a: MPlantAsset) -> (String, i32, i32, i32, i32, i32, i32, i32, i32, i32) {
        (
            a.log_dttm,
            a.docks_enabled,
            a.docks_disabled,
            a.total_docks,
            a.preload,
            a.live_load,
            a.load_count,
            a.doors_available,
            a.removed_lgvs,
            a.fleet_count,
        )
    }
}

/// A new shipment order announced by the change stream: its document id and trip number.
#[derive(Debug, Clone)]
pub struct INewOrder {
    pub mongo_id: String,
    pub trip_number: i64,
}

impl INewOrder {
    pub fn new(mongo_id: String, trip_number: i64) -> (res: INewOrder)
        ensures
            res.mongo_id@ == mongo_id@,
            res.trip_number == trip_number,
    {
        INewOrder { mongo_id, trip_number }
    }
}

/// One row of the inventory snapshot of a load: a SKU of the shipment with its counts.
#[derive(Debug, Clone)]
pub struct ILoadDetails {
    pub SDM_SHIPMENT_ID: i64,
    pub PALLET_COUNT: i64,
    pub SKU: String,
    pub SKU_LOCATION_COUNT: Option<i64>,
    pub LOAD_CROSSDOCKING_ENABLED: bool,
    pub SKU_CROSSDOCKING_ENABLED: bool,
    pub HOLD_HOURS: i64,
    pub TOTAL_INVENTORY: i64,
}

impl ILoadDetails {
    pub fn new(
        SDM_SHIPMENT_ID: i64,
        PALLET_COUNT: i64,
        SKU: String,
        SKU_LOCATION_COUNT: Option<i64>,
        LOAD_CROSSDOCKING_ENABLED: bool,
        SKU_CROSSDOCKING_ENABLED: bool,
        HOLD_HOURS: i64,
        TOTAL_INVENTORY: i64,
    ) -> (res: ILoadDetails)
        ensures
            res.SDM_SHIPMENT_ID == SDM_SHIPMENT_ID,
            res.PALLET_COUNT == PALLET_COUNT,
            res.SKU@ == SKU@,
            res.SKU_LOCATION_COUNT == SKU_LOCATION_COUNT,
            res.LOAD_CROSSDOCKING_ENABLED == LOAD_CROSSDOCKING_ENABLED,
            res.SKU_CROSSDOCKING_ENABLED == SKU_CROSSDOCKING_ENABLED,
            res.HOLD_HOURS == HOLD_HOURS,
            res.TOTAL_INVENTORY == TOTAL_INVENTORY,
    {
        ILoadDetails {
            SDM_SHIPMENT_ID,
            PALLET_COUNT,
            SKU,
            SKU_LOCATION_COUNT,
            LOAD_CROSSDOCKING_ENABLED,
            SKU_CROSSDOCKING_ENABLED,
            HOLD_HOURS,
            TOTAL_INVENTORY,
        }
    }
}

/// A state report of one laser-guided vehicle, as its PLC publishes it.
#[derive(Debug, Clone)]
pub struct ILgv {
    pub log_dttm: String,
    pub lgv_id: Option<i64>,
    pub x_pos: Option<i64>,
    pub y_pos: Option<i64>,
    pub reset_notify: Option<bool>,
    pub auto_mode: Option<bool>,
    pub loaded: Option<bool>,
    pub in_system: Option<bool>,
    pub position_valid: Option<bool>,
    pub remove_block_request: Option<bool>,
    pub local_mode: Option<bool>,
    pub end_op_ok: Option<bool>,
    pub moving_fw: Option<bool>,
    pub moving_bw: Option<bool>,
    pub waiting_for_command: Option<bool>,
    pub on_target: Option<bool>,
    pub end_op_fail: Option<bool>,
    pub low_battery_alarm: Option<bool>,
    pub agv_alarm: Option<bool>,
    pub low_battery_warning: Option<bool>,
}

/// Dock and vehicle availability stored with a shipment document.
#[derive(Debug, Clone)]
pub struct PlantAssets {
    pub DOCKS_AVAILABLE: Option<i32>,
    pub DOCKS_ALLOCATED: Option<i32>,
    pub LIVE_LOAD_COUNT: Option<i32>,
    pub PRELOAD_COUNT: Option<i32>,
    pub LGVS_IN_THE_SYSTEM: Option<i32>,
    pub LGVS_REMOVED: Option<i32>,
}

impl PlantAssets {
    pub fn new(
        DOCKS_AVAILABLE: Option<i32>,
        DOCKS_ALLOCATED: Option<i32>,
        LIVE_LOAD_COUNT: Option<i32>,
        PRELOAD_COUNT: Option<i32>,
        LGVS_IN_THE_SYSTEM: Option<i32>,
        LGVS_REMOVED: Option<i32>,
    ) -> (res: PlantAssets)
        ensures
            res.DOCKS_AVAILABLE == DOCKS_AVAILABLE,
            res.DOCKS_ALLOCATED == DOCKS_ALLOCATED,
            res.LIVE_LOAD_COUNT == LIVE_LOAD_COUNT,
            res.PRELOAD_COUNT == PRELOAD_COUNT,
            res.LGVS_IN_THE_SYSTEM == LGVS_IN_THE_SYSTEM,
            res.LGVS_REMOVED == LGVS_REMOVED,
    {
        PlantAssets {
            DOCKS_AVAILABLE,
            DOCKS_ALLOCATED,
            LIVE_LOAD_COUNT,
            PRELOAD_COUNT,
            LGVS_IN_THE_SYSTEM,
            LGVS_REMOVED,
        }
    }
}

/// A storage location of a shipment's SKU.
#[derive(Debug, Clone)]
pub struct Location {
    pub LOCATION_ID: Option<i32>,
    pub LOCATION_NAME: Option<String>,
    pub UNITS_IN_LOCATION: Option<i32>,
    pub UNITS_ALLOCATABLE: Option<i32>,
    pub LOCATION_BLOCKED: Option<bool>,
    pub LOCATION_DISABLE: Option<bool>,
    pub POSITIONS_BLOCKED: Option<i32>,
    pub POSITION_DISABLED: Option<i32>,
}

impl Location {
    pub fn new(
        LOCATION_ID: Option<i32>,
        LOCATION_NAME: Option<String>,
        UNITS_IN_LOCATION: Option<i32>,
        UNITS_ALLOCATABLE: Option<i32>,
        LOCATION_BLOCKED: Option<bool>,
        LOCATION_DISABLE: Option<bool>,
        POSITIONS_BLOCKED: Option<i32>,
        POSITION_DISABLED: Option<i32>,
    ) -> (res: Location)
        ensures
            res.LOCATION_ID == LOCATION_ID,
            res.LOCATION_NAME == LOCATION_NAME,
            res.UNITS_IN_LOCATION == UNITS_IN_LOCATION,
            res.UNITS_ALLOCATABLE == UNITS_ALLOCATABLE,
            res.LOCATION_BLOCKED == LOCATION_BLOCKED,
            res.LOCATION_DISABLE == LOCATION_DISABLE,
            res.POSITIONS_BLOCKED == POSITIONS_BLOCKED,
            res.POSITION_DISABLED == POSITION_DISABLED,
    {
        Location {
            LOCATION_ID,
            LOCATION_NAME,
            UNITS_IN_LOCATION,
            UNITS_ALLOCATABLE,
            LOCATION_BLOCKED,
            LOCATION_DISABLE,
            POSITIONS_BLOCKED,
            POSITION_DISABLED,
        }
    }
}

/// One entry of a trailer's load pattern.
#[derive(Debug, Clone)]
pub struct LoadPattern {
    pub key: Option<i32>,
    pub value: Option<String>,
}

impl LoadPattern {
    pub fn new(key: Option<i32>, value: Option<String>) -> (res: LoadPattern)
        ensures
            res.key == key,
            res.value == value,
    {
        LoadPattern { key, value }
    }
}

/// A point on the plant floor.
#[derive(Debug, Clone)]
pub struct Coordinates {
    pub x: Option<i32>,
    pub y: Option<i32>,
}

impl Coordinates {
    pub fn new(x: Option<i32>, y: Option<i32>) -> (res: Coordinates)
        ensures
            res.x == x,
            res.y == y,
    {
        Coordinates { x, y }
    }
}

/// Activity around one licence plate (pallet) in storage.
#[derive(Debug, Clone)]
pub struct LPNActivity {
    pub STOCKUNIT_ID: Option<i32>,
    pub LPN: Option<String>,
    pub PALLETS_IN_FRONT: Option<i32>,
    pub POSITION_DISABLED: Option<bool>,
    pub POSITIONS_BLOCKED: Option<bool>,
    pub LOCATION_NAME: Option<String>,
}

impl LPNActivity {
    pub fn new(
        STOCKUNIT_ID: Option<i32>,
        LPN: Option<String>,
        PALLETS_IN_FRONT: Option<i32>,
        POSITION_DISABLED: Option<bool>,
        POSITIONS_BLOCKED: Option<bool>,
        LOCATION_NAME: Option<String>,
    ) -> (res: LPNActivity)
        ensures
            res.STOCKUNIT_ID == STOCKUNIT_ID,
            res.LPN == LPN,
            res.PALLETS_IN_FRONT == PALLETS_IN_FRONT,
            res.POSITION_DISABLED == POSITION_DISABLED,
            res.POSITIONS_BLOCKED == POSITIONS_BLOCKED,
            res.LOCATION_NAME == LOCATION_NAME,
    {
        LPNActivity {
            STOCKUNIT_ID,
            LPN,
            PALLETS_IN_FRONT,
            POSITION_DISABLED,
            POSITIONS_BLOCKED,
            LOCATION_NAME,
        }
    }
}

/// A licence plate loaded onto the trailer.
#[derive(Debug, Clone)]
pub struct LoadedLPN {
    pub STOCKUNIT_ID: Option<i32>,
    pub SKU: Option<String>,
    pub LPN: Option<String>,
    pub LOT_NUMBER: Option<String>,
    pub QUANTITY: Option<i32>,
}

impl LoadedLPN {
    pub fn new(
        STOCKUNIT_ID: Option<i32>,
        SKU: Option<String>,
        LPN: Option<String>,
        LOT_NUMBER: Option<String>,
        QUANTITY: Option<i32>,
    ) -> (res: LoadedLPN)
        ensures
            res.STOCKUNIT_ID == STOCKUNIT_ID,
            res.SKU == SKU,
            res.LPN == LPN,
            res.LOT_NUMBER == LOT_NUMBER,
            res.QUANTITY == QUANTITY,
    {
        LoadedLPN { STOCKUNIT_ID, SKU, LPN, LOT_NUMBER, QUANTITY }
    }
}

} // verus!
