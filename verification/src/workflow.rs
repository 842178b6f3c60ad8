//! The processing of one new-order message, as a machine from the outcome of each
//! outside step to the next step.
use vstd::prelude::*;

use crate::models::{ILoadDetails, INewOrder};
use crate::shipment::{
    ShipmentTarget,
    ShipmentUpdate,
    is_object_id_text,
    is_update_for,
    object_id_bytes,
    pallet_total_fits,
    shipment_update_target,
};

verus! {

/// Where the processing of a new-order message stands.
#[derive(Debug, Clone, Copy, PartialEq, Eq, Structural)]
pub enum Stage {
    /// Waiting for the inventory snapshot of the trip.
    FetchingInventory,
    /// Waiting for the shipment document to be updated.
    UpdatingShipment,
    /// Waiting for the plant asset snapshot.
    FetchingAssets,
    /// Waiting for the plant asset snapshot to be published.
    PublishingAssets,
    /// Waiting for the stock locations of the first SKU.
    FetchingLocations,
    /// Waiting for the stock locations to be published.
    PublishingLocations,
    /// Waiting for the message to be acknowledged.
    Acknowledging,
    /// Processed and acknowledged.
    Done,
    /// A step failed; the message stays unacknowledged.
    Failed,
    /// The message cannot be processed at all.
    Aborted,
}

/// The outcome of the outside step that the machine asked for.
#[derive(Debug, Clone)]
pub enum OrderEvent {
    /// The inventory snapshot of the trip, one row per SKU.
    InventoryLoaded(Vec<ILoadDetails>),
    ShipmentUpdated,
    AssetsLoaded,
    AssetsPublished,
    LocationsLoaded,
    LocationsPublished,
    Acknowledged,
    /// The step that was asked for failed.
    StepFailed,
}

/// The next outside step.
#[derive(Debug)]
pub enum OrderAction {
    FetchInventory { trip_number: i64 },
    /// Update the shipment document with this id.
    UpdateShipment { object_id: [u8; 12], update: ShipmentUpdate },
    FetchAssets,
    /// Publish the plant asset snapshot, tagged with the trip number.
    PublishAssets { trip_number: i64 },
    /// Fetch the stock locations of this SKU.
    FetchLocations { sku: String },
    /// Publish the stock locations, tagged with the trip number.
    PublishLocations { trip_number: i64 },
    Acknowledge,
    /// Processing is over and succeeded.
    Complete,
    /// Processing is over and failed; the message is not acknowledged.
    Fail,
    /// Processing cannot go on: the message must not be processed further.
    Abort,
}

/// The state of the processing of one new-order message.
#[derive(Debug, Clone)]
pub struct OrderRun {
    pub trip_number: i64,
    pub document_id: String,
    /// The SKU of the first snapshot row, once the snapshot is known.
    pub sku: String,
    pub stage: Stage,
}

/// What the machine learns from an event.
#[derive(Debug, Clone, Copy, PartialEq, Eq, Structural)]
pub enum Signal {
    /// The inventory snapshot was loaded.
    InventoryLoaded,
    ShipmentUpdated,
    AssetsLoaded,
    AssetsPublished,
    LocationsLoaded,
    LocationsPublished,
    Acknowledged,
    StepFailed,
}

/// A snapshot, with the document id, from which the shipment can be updated.
pub open spec fn inventory_usable(loads: Seq<ILoadDetails>, document_id: Seq<char>) -> bool {
    &&& loads.len() > 0
    &&& pallet_total_fits(loads)
    &&& is_object_id_text(document_id)
}

/// `event` can be taken in `run`: a snapshot loaded for the inventory step is one that the
/// shipment can be updated from. (An empty snapshot, a malformed document id or an
/// overflowing pallet total leaves nothing that processing could go on with.)
pub open spec fn admissible(run: OrderRun, event: OrderEvent) -> bool {
    match event {
        OrderEvent::InventoryLoaded(loads) => run.stage == Stage::FetchingInventory
            ==> inventory_usable(loads@, run.document_id@),
        _ => true,
    }
}

/// The signal that `event` carries for `run`.
pub open spec fn signal_of(run: OrderRun, event: OrderEvent) -> Signal {
    match event {
        OrderEvent::InventoryLoaded(_) => Signal::InventoryLoaded,
        OrderEvent::ShipmentUpdated => Signal::ShipmentUpdated,
        OrderEvent::AssetsLoaded => Signal::AssetsLoaded,
        OrderEvent::AssetsPublished => Signal::AssetsPublished,
        OrderEvent::LocationsLoaded => Signal::LocationsLoaded,
        OrderEvent::LocationsPublished => Signal::LocationsPublished,
        OrderEvent::Acknowledged => Signal::Acknowledged,
        OrderEvent::StepFailed => Signal::StepFailed,
    }
}

/// The stage is final: no event moves the processing on.
pub open spec fn is_final(stage: Stage) -> bool {
    stage == Stage::Done || stage == Stage::Failed || stage == Stage::Aborted
}

/// The stage after signal `s` in stage `stage`: each step moves on when it succeeds, a
/// failed step ends in `Failed`, an unusable snapshot or an out-of-turn event ends in
/// `Aborted`, and a final stage stays.
pub open spec fn stage_after(stage: Stage, s: Signal) -> Stage {
    if is_final(stage) {
        stage
    } else if s == Signal::StepFailed {
        Stage::Failed
    } else {
        match (stage, s) {
            (Stage::FetchingInventory, Signal::InventoryLoaded) => Stage::UpdatingShipment,
            (Stage::UpdatingShipment, Signal::ShipmentUpdated) => Stage::FetchingAssets,
            (Stage::FetchingAssets, Signal::AssetsLoaded) => Stage::PublishingAssets,
            (Stage::PublishingAssets, Signal::AssetsPublished) => Stage::FetchingLocations,
            (Stage::FetchingLocations, Signal::LocationsLoaded) => Stage::PublishingLocations,
            (Stage::PublishingLocations, Signal::LocationsPublished) => Stage::Acknowledging,
            (Stage::Acknowledging, Signal::Acknowledged) => Stage::Done,
            _ => Stage::Aborted,
        }
    }
}

/// `action` is the step that `run` asks for in its stage.
pub open spec fn asks_for(run: OrderRun, action: OrderAction) -> bool {
    match run.stage {
        Stage::FetchingInventory => action matches OrderAction::FetchInventory { trip_number }
            && trip_number == run.trip_number,
        Stage::UpdatingShipment => action is UpdateShipment,
        Stage::FetchingAssets => action is FetchAssets,
        Stage::PublishingAssets => action matches OrderAction::PublishAssets { trip_number }
            && trip_number == run.trip_number,
        Stage::FetchingLocations => action matches OrderAction::FetchLocations { sku } && sku@
            == run.sku@,
        Stage::PublishingLocations => action matches OrderAction::PublishLocations {
            trip_number,
        } && trip_number == run.trip_number,
        Stage::Acknowledging => action is Acknowledge,
        Stage::Done => action is Complete,
        Stage::Failed => action is Fail,
        Stage::Aborted => action is Abort,
    }
}

/// `action` updates the shipment document with id `document_id` from the snapshot `loads`.
pub open spec fn plans_update(
    action: OrderAction,
    document_id: Seq<char>,
    loads: Seq<ILoadDetails>,
) -> bool {
    action matches OrderAction::UpdateShipment { object_id, update } && object_id@
        == object_id_bytes(document_id) && is_update_for(loads, update)
}

/// Starts processing the order `order`: the first step fetches the inventory of its trip.
pub fn start_order(order: &INewOrder) -> (res: (OrderRun, OrderAction))
    ensures
        res.0.stage == Stage::FetchingInventory,
        res.0.trip_number == order.trip_number,
        res.0.document_id@ == order.mongo_id@,
        res.0.sku@ == Seq::<char>::empty(),
        asks_for(res.0, res.1),
{
    let run = OrderRun {
        trip_number: order.trip_number,
        document_id: order.mongo_id.clone(),
        sku: String::new(),
        stage: Stage::FetchingInventory,
    };
    let action = OrderAction::FetchInventory { trip_number: order.trip_number };
    (run, action)
}

fn action_of(run: &OrderRun) -> (res: OrderAction)
    requires
        run.stage != Stage::UpdatingShipment,
    ensures
        asks_for(*run, res),
{
    match run.stage {
        Stage::FetchingInventory => OrderAction::FetchInventory { trip_number: run.trip_number },
        Stage::FetchingAssets => OrderAction::FetchAssets,
        Stage::PublishingAssets => OrderAction::PublishAssets { trip_number: run.trip_number },
        Stage::FetchingLocations => OrderAction::FetchLocations { sku: run.sku.clone() },
        Stage::PublishingLocations => OrderAction::PublishLocations {
            trip_number: run.trip_number,
        },
        Stage::Acknowledging => OrderAction::Acknowledge,
        Stage::Done => OrderAction::Complete,
        Stage::Failed => OrderAction::Fail,
        _ => OrderAction::Abort,
    }
}

fn next_stage(stage: Stage, s: Signal) -> (res: Stage)
    ensures
        res == stage_after(stage, s),
{
    match stage {
        Stage::Done | Stage::Failed | Stage::Aborted => stage,
        _ => match s {
            Signal::StepFailed => Stage::Failed,
            Signal::InventoryLoaded => match stage {
                Stage::FetchingInventory => Stage::UpdatingShipment,
                _ => Stage::Aborted,
            },
            Signal::ShipmentUpdated => match stage {
                Stage::UpdatingShipment => Stage::FetchingAssets,
                _ => Stage::Aborted,
            },
            Signal::AssetsLoaded => match stage {
                Stage::FetchingAssets => Stage::PublishingAssets,
                _ => Stage::Aborted,
            },
            Signal::AssetsPublished => match stage {
                Stage::PublishingAssets => Stage::FetchingLocations,
                _ => Stage::Aborted,
            },
            Signal::LocationsLoaded => match stage {
                Stage::FetchingLocations => Stage::PublishingLocations,
                _ => Stage::Aborted,
            },
            Signal::LocationsPublished => match stage {
                Stage::PublishingLocations => Stage::Acknowledging,
                _ => Stage::Aborted,
            },
            Signal::Acknowledged => match stage {
                Stage::Acknowledging => Stage::Done,
                _ => Stage::Aborted,
            },
        },
    }
}

/// Moves the processing of `run` on by the outcome `event` of the step it asked for, and
/// gives the next step. From the inventory snapshot the shipment update is planned and the
/// first row's SKU kept for the locations query.
pub fn advance_order(run: OrderRun, event: OrderEvent) -> (res: (OrderRun, OrderAction))
    requires
        admissible(run, event),
    ensures
        res.0.stage == stage_after(run.stage, signal_of(run, event)),
        res.0.trip_number == run.trip_number,
        res.0.document_id@ == run.document_id@,
        asks_for(res.0, res.1),
        res.0.stage == Stage::UpdatingShipment ==> (event matches OrderEvent::InventoryLoaded(
            loads,
        ) && res.0.sku@ == loads@[0].SKU@ && plans_update(res.1, run.document_id@, loads@)),
        res.0.stage != Stage::UpdatingShipment ==> res.0.sku@ == run.sku@,
{
    match event {
        OrderEvent::InventoryLoaded(loads) => {
            if run.stage == Stage::FetchingInventory {
                match shipment_update_target(&loads, run.document_id.as_str()) {
                    ShipmentTarget::Update { object_id, update } => {
                        let next = OrderRun {
                            trip_number: run.trip_number,
                            document_id: run.document_id,
                            sku: loads[0].SKU.clone(),
                            stage: Stage::UpdatingShipment,
                        };
                        return (next, OrderAction::UpdateShipment { object_id, update });
                    },
                    ShipmentTarget::NothingToUpdate => {},
                }
                let next = OrderRun { stage: Stage::Aborted, ..run };
                let action = action_of(&next);
                (next, action)
            } else {
                let stage = next_stage(run.stage, Signal::InventoryLoaded);
                let next = OrderRun { stage, ..run };
                let action = action_of(&next);
                (next, action)
            }
        },
        other => {
            let s = match other {
                OrderEvent::ShipmentUpdated => Signal::ShipmentUpdated,
                OrderEvent::AssetsLoaded => Signal::AssetsLoaded,
                OrderEvent::AssetsPublished => Signal::AssetsPublished,
                OrderEvent::LocationsLoaded => Signal::LocationsLoaded,
                OrderEvent::LocationsPublished => Signal::LocationsPublished,
                OrderEvent::Acknowledged => Signal::Acknowledged,
                _ => Signal::StepFailed,
            };
            let stage = next_stage(run.stage, s);
            let next = OrderRun { stage, ..run };
            let action = action_of(&next);
            (next, action)
        },
    }
}

/// The stage reached from the start by the signals `signals`, in order.
pub open spec fn stage_after_signals(signals: Seq<Signal>) -> Stage
    decreases signals.len(),
{
    if signals.len() == 0 {
        Stage::FetchingInventory
    } else {
        stage_after(stage_after_signals(signals.drop_last()), signals.last())
    }
}

/// The signals of a message whose every step succeeds, in order.
pub open spec fn success_signals() -> Seq<Signal> {
    seq![
        Signal::InventoryLoaded,
        Signal::ShipmentUpdated,
        Signal::AssetsLoaded,
        Signal::AssetsPublished,
        Signal::LocationsLoaded,
        Signal::LocationsPublished,
        Signal::Acknowledged,
    ]
}

/// The stage after the first `k` steps have succeeded.
pub open spec fn progress(k: int) -> Stage {
    if k <= 0 {
        Stage::FetchingInventory
    } else if k == 1 {
        Stage::UpdatingShipment
    } else if k == 2 {
        Stage::FetchingAssets
    } else if k == 3 {
        Stage::PublishingAssets
    } else if k == 4 {
        Stage::FetchingLocations
    } else if k == 5 {
        Stage::PublishingLocations
    } else if k == 6 {
        Stage::Acknowledging
    } else {
        Stage::Done
    }
}

proof fn lemma_progress_step(k: int, s: Signal)
    requires
        0 <= k < 7,
    ensures
        s == success_signals()[k] ==> stage_after(progress(k), s) == progress(k + 1),
        s != success_signals()[k] ==> is_final(stage_after(progress(k), s)) && stage_after(
            progress(k),
            s,
        ) != Stage::Done,
{
}

proof fn lemma_stage_after_signals(signals: Seq<Signal>)
    ensures
        stage_after_signals(signals) == Stage::Done <==> (signals.len() >= 7 && signals.take(7)
            == success_signals()),
        !is_final(stage_after_signals(signals)) <==> (signals.len() <= 6 && signals
            == success_signals().take(signals.len() as int)),
        !is_final(stage_after_signals(signals)) ==> stage_after_signals(signals) == progress(
            signals.len() as int,
        ),
    decreases signals.len(),
{
    let succ = success_signals();
    if signals.len() == 0 {
        assert(signals =~= succ.take(0));
    } else {
        let p = signals.drop_last();
        let l = signals.last();
        let n = p.len() as int;
        lemma_stage_after_signals(p);
        assert(signals.take(n) =~= p);
        if !is_final(stage_after_signals(p)) {
            lemma_progress_step(n, l);
            if l == succ[n] {
                assert(signals =~= succ.take(n + 1));
                if n + 1 == 7 {
                    assert(signals.take(7) =~= signals);
                    assert(succ.take(7) =~= succ);
                }
            } else {
                assert(signals[n] != succ.take(n + 1)[n]);
                if signals.len() >= 7 {
                    assert(signals.take(7)[n] != succ[n]);
                }
            }
        } else if stage_after_signals(p) == Stage::Done {
            assert(signals.take(7) =~= p.take(7));
        } else {
            if signals.len() >= 7 && signals.take(7) == succ {
                if n >= 7 {
                    assert(p.take(7) =~= signals.take(7));
                } else {
                    assert(p =~= succ.take(n));
                }
            }
            if signals.len() <= 6 && signals == succ.take(signals.len() as int) {
                assert(p =~= succ.take(n));
            }
        }
    }
}

/// A new-order message is processed to the end, and acknowledged, exactly when every
/// step succeeds in order: the inventory is usable, the shipment is updated, the assets are
/// fetched and published, the locations are fetched and published, and the message is
/// acknowledged.
pub proof fn lemma_done_iff_every_step_succeeded(signals: Seq<Signal>)
    ensures
        stage_after_signals(signals) == Stage::Done <==> (signals.len() >= 7 && signals.take(7)
            == success_signals()),
{
    lemma_stage_after_signals(signals);
}

/// The message is acknowledged only after both snapshots were published: the
/// acknowledgement is asked for exactly after the first six steps have succeeded, and
/// after no other signals.
pub proof fn lemma_acknowledge_only_after_publishing(signals: Seq<Signal>)
    ensures
        stage_after_signals(signals) == Stage::Acknowledging <==> signals == success_signals().take(
            6,
        ),
{
    lemma_stage_after_signals(signals);
    if signals == success_signals().take(6) {
        assert(signals.len() == 6);
    }
}

/// Once processing has failed or been aborted, no later signal moves it on, and a failed
/// step always ends processing without acknowledgement.
pub proof fn lemma_failure_is_final(signals: Seq<Signal>, later: Seq<Signal>)
    requires
        stage_after_signals(signals) == Stage::Failed || stage_after_signals(signals)
            == Stage::Aborted,
    ensures
        stage_after_signals(signals + later) == stage_after_signals(signals),
    decreases later.len(),
{
    if later.len() == 0 {
        assert(signals + later =~= signals);
    } else {
        lemma_failure_is_final(signals, later.drop_last());
        assert((signals + later).drop_last() =~= signals + later.drop_last());
    }
}

/// A failed step ends the processing of a message that is not yet finished, without
/// acknowledgement.
pub proof fn lemma_failed_step_stops(stage: Stage)
    requires
        !is_final(stage),
    ensures
        stage_after(stage, Signal::StepFailed) == Stage::Failed,
{
}

} // verus!
