//! The update that a shipment document receives from the inventory snapshot of its load.
use vstd::prelude::*;

use crate::models::ILoadDetails;
use crate::text::lemma_i32_narrowing;

verus! {

/// Total pallet count of the loads `s`.
pub open spec fn pallet_total(s: Seq<ILoadDetails>) -> int
    decreases s.len(),
{
    if s.len() == 0 {
        0
    } else {
        pallet_total(s.drop_last()) + s.last().PALLET_COUNT
    }
}

/// Every running total of the pallet counts, summed in order, fits in an `i64`.
pub open spec fn pallet_total_fits(s: Seq<ILoadDetails>) -> bool {
    forall|k: int|
        0 <= k <= s.len() ==> i64::MIN <= #[trigger] pallet_total(s.take(k)) <= i64::MAX
}

/// The total pallet count of `loads`, summed in order; `None` when a running total
/// leaves the range of `i64`.
pub fn total_pallet_count(loads: &Vec<ILoadDetails>) -> (res: Option<i64>)
    ensures
        res is Some <==> pallet_total_fits(loads@),
        res matches Some(t) ==> t == pallet_total(loads@),
{
    let mut total: i64 = 0;
    let mut i: usize = 0;
    assert(loads@.take(0) =~= Seq::<ILoadDetails>::empty());
    while i < loads.len()
        invariant
            i <= loads.len(),
            total == pallet_total(loads@.take(i as int)),
            forall|k: int|
                0 <= k <= i ==> i64::MIN <= #[trigger] pallet_total(loads@.take(k)) <= i64::MAX,
        decreases loads.len() - i,
    {
        assert(loads@.take(i + 1).drop_last() =~= loads@.take(i as int));
        let next = total.checked_add(loads[i].PALLET_COUNT);
        match next {
            Some(t) => {
                total = t;
                i = i + 1;
            },
            None => {
                assert(!(i64::MIN <= pallet_total(loads@.take(i + 1)) <= i64::MAX));
                return None;
            },
        }
    }
    assert(loads@.take(loads.len() as int) =~= loads@);
    Some(total)
}

/// The figures kept for one SKU of the load.
#[derive(Debug, Clone)]
pub struct SkuTotals {
    pub sku: String,
    pub sku_location_count: Option<i64>,
    pub total_inventory: i32,
    pub sku_crossdocking_enabled: i32,
    pub hold_hours: i32,
}

/// The fields that a shipment document is given from the inventory snapshot of its load.
#[derive(Debug)]
pub struct ShipmentUpdate {
    pub sdm_shipment_id: i64,
    /// One entry per SKU, in the order of its first row, with the figures of its last row.
    pub skus: mongodb::bson::Document,
    pub pallet_count: i64,
    pub load_crossdocking_enabled: bool,
}

/// A flag stored as 1 or 0.
pub open spec fn flag_int(b: bool) -> i32 {
    if b {
        1
    } else {
        0
    }
}

/// The figures of an entry as plain values: SKU, location count, inventory, cross-docking
/// flag, hold hours.
pub open spec fn figures(t: SkuTotals) -> (Seq<char>, Option<i64>, i32, i32, i32) {
    (t.sku@, t.sku_location_count, t.total_inventory, t.sku_crossdocking_enabled, t.hold_hours)
}

/// The figures of one snapshot row; counts are narrowed to `i32` by truncation.
pub open spec fn row_figures(load: ILoadDetails) -> (Seq<char>, Option<i64>, i32, i32, i32) {
    (
        load.SKU@,
        load.SKU_LOCATION_COUNT,
        load.TOTAL_INVENTORY as i32,
        flag_int(load.SKU_CROSSDOCKING_ENABLED),
        load.HOLD_HOURS as i32,
    )
}

/// The figures of each snapshot row, in order.
pub open spec fn rows_figures(loads: Seq<ILoadDetails>) -> Seq<(Seq<char>, Option<i64>, i32, i32, i32)> {
    loads.map_values(|l: ILoadDetails| row_figures(l))
}

/// The first position of an entry whose SKU is `k`, or -1 when there is none.
pub open spec fn key_position(m: Seq<(Seq<char>, Option<i64>, i32, i32, i32)>, k: Seq<char>) -> int
    decreases m.len(),
{
    if m.len() == 0 {
        -1
    } else if key_position(m.drop_last(), k) >= 0 {
        key_position(m.drop_last(), k)
    } else if m.last().0 == k {
        m.len() - 1
    } else {
        -1
    }
}

/// Records `f` in `m`: it replaces the entry of its SKU where there is one, in place, and
/// is appended otherwise (what inserting a key into an insertion-ordered map does).
pub open spec fn merge_in(
    m: Seq<(Seq<char>, Option<i64>, i32, i32, i32)>,
    f: (Seq<char>, Option<i64>, i32, i32, i32),
) -> Seq<(Seq<char>, Option<i64>, i32, i32, i32)> {
    let p = key_position(m, f.0);
    if p >= 0 {
        m.update(p, f)
    } else {
        m.push(f)
    }
}

/// The entries `rows` recorded one after another.
pub open spec fn merged(rows: Seq<(Seq<char>, Option<i64>, i32, i32, i32)>) -> Seq<
    (Seq<char>, Option<i64>, i32, i32, i32),
>
    decreases rows.len(),
{
    if rows.len() == 0 {
        Seq::empty()
    } else {
        merge_in(merged(rows.drop_last()), rows.last())
    }
}

/// `u` is the update for the non-empty snapshot `loads`.
pub open spec fn is_update_for(loads: Seq<ILoadDetails>, u: ShipmentUpdate) -> bool {
    &&& loads.len() > 0
    &&& u.sdm_shipment_id == loads[0].SDM_SHIPMENT_ID
    &&& u.load_crossdocking_enabled == loads[0].LOAD_CROSSDOCKING_ENABLED
    &&& u.pallet_count == pallet_total(loads)
    &&& sku_document_entries(u.skus) == merged(rows_figures(loads))
}

proof fn lemma_key_position(m: Seq<(Seq<char>, Option<i64>, i32, i32, i32)>, k: Seq<char>)
    ensures
        -1 <= key_position(m, k) < m.len(),
        key_position(m, k) >= 0 ==> m[key_position(m, k)].0 == k,
        forall|q: int| 0 <= q < m.len() && (key_position(m, k) < 0 || q < key_position(m, k))
            ==> m[q].0 != k,
    decreases m.len(),
{
    if m.len() > 0 {
        let d = m.drop_last();
        lemma_key_position(d, k);
        assert forall|q: int| 0 <= q < d.len() implies d[q] == m[q] by {}
    }
}

/// The SKUs of the entries `m` are distinct.
pub open spec fn distinct_skus(m: Seq<(Seq<char>, Option<i64>, i32, i32, i32)>) -> bool {
    forall|i: int, j: int| 0 <= i < j < m.len() ==> #[trigger] m[i].0 != #[trigger] m[j].0
}

/// `m` has an entry for the SKU `k`.
pub open spec fn has_entry(m: Seq<(Seq<char>, Option<i64>, i32, i32, i32)>, k: Seq<char>) -> bool {
    exists|p: int| #![trigger m[p]] 0 <= p < m.len() && m[p].0 == k
}

/// Every row's SKU has an entry in `m`.
pub open spec fn covers_rows(
    rows: Seq<(Seq<char>, Option<i64>, i32, i32, i32)>,
    m: Seq<(Seq<char>, Option<i64>, i32, i32, i32)>,
) -> bool {
    forall|r: int| #![trigger rows[r]] 0 <= r < rows.len() ==> has_entry(m, rows[r].0)
}

/// Row `r` holds the figures `e`, and no later row has the SKU of `e`.
pub open spec fn is_last_row_of(
    rows: Seq<(Seq<char>, Option<i64>, i32, i32, i32)>,
    r: int,
    e: (Seq<char>, Option<i64>, i32, i32, i32),
) -> bool {
    &&& 0 <= r < rows.len()
    &&& rows[r] == e
    &&& forall|q: int| #![trigger rows[q]] r < q < rows.len() ==> rows[q].0 != e.0
}

/// Each entry of `m` holds the figures of the last row of its SKU.
pub open spec fn holds_last_rows(
    rows: Seq<(Seq<char>, Option<i64>, i32, i32, i32)>,
    m: Seq<(Seq<char>, Option<i64>, i32, i32, i32)>,
) -> bool {
    forall|p: int| #![trigger m[p]] 0 <= p < m.len() ==> is_last_entry(rows, m[p])
}

/// Some row holds the figures `e` and no later row has the SKU of `e`.
pub open spec fn is_last_entry(
    rows: Seq<(Seq<char>, Option<i64>, i32, i32, i32)>,
    e: (Seq<char>, Option<i64>, i32, i32, i32),
) -> bool {
    exists|r: int| #[trigger] is_last_row_of(rows, r, e)
}

proof fn lemma_step_distinct(
    m: Seq<(Seq<char>, Option<i64>, i32, i32, i32)>,
    f: (Seq<char>, Option<i64>, i32, i32, i32),
)
    requires
        distinct_skus(m),
    ensures
        distinct_skus(merge_in(m, f)),
{
    lemma_key_position(m, f.0);
    let p0 = key_position(m, f.0);
    let mm = merge_in(m, f);
    assert forall|i: int, j: int| 0 <= i < j < mm.len() implies #[trigger] mm[i].0
        != #[trigger] mm[j].0 by {
        if p0 >= 0 {
            assert(m[i].0 != m[j].0);
        } else if j == m.len() {
            assert(m[i].0 != f.0);
        } else {
            assert(m[i].0 != m[j].0);
        }
    }
}

proof fn lemma_step_covers(
    d: Seq<(Seq<char>, Option<i64>, i32, i32, i32)>,
    m: Seq<(Seq<char>, Option<i64>, i32, i32, i32)>,
    f: (Seq<char>, Option<i64>, i32, i32, i32),
)
    requires
        covers_rows(d, m),
    ensures
        covers_rows(d.push(f), merge_in(m, f)),
{
    lemma_key_position(m, f.0);
    let p0 = key_position(m, f.0);
    let mm = merge_in(m, f);
    let rows = d.push(f);
    assert forall|r: int| #![trigger rows[r]] 0 <= r < rows.len() implies has_entry(
        mm,
        rows[r].0,
    ) by {
        if r == d.len() {
            if p0 >= 0 {
                assert(mm[p0].0 == rows[r].0);
            } else {
                assert(mm[m.len() as int].0 == rows[r].0);
            }
        } else {
            assert(rows[r] == d[r]);
            assert(has_entry(m, d[r].0));
            let p = choose|p: int| #![trigger m[p]] 0 <= p < m.len() && m[p].0 == d[r].0;
            assert(mm[p].0 == rows[r].0);
        }
    }
}

proof fn lemma_step_last_rows(
    d: Seq<(Seq<char>, Option<i64>, i32, i32, i32)>,
    m: Seq<(Seq<char>, Option<i64>, i32, i32, i32)>,
    f: (Seq<char>, Option<i64>, i32, i32, i32),
    rows: Seq<(Seq<char>, Option<i64>, i32, i32, i32)>,
    mm: Seq<(Seq<char>, Option<i64>, i32, i32, i32)>,
)
    requires
        distinct_skus(m),
        holds_last_rows(d, m),
        rows == d.push(f),
        mm == merge_in(m, f),
    ensures
        holds_last_rows(rows, mm),
{
    lemma_key_position(m, f.0);
    let p0 = key_position(m, f.0);
    let n = d.len() as int;
    assert forall|p: int| #![trigger mm[p]] 0 <= p < mm.len() implies is_last_entry(rows, mm[p]) by {
        if (p0 >= 0 && p == p0) || (p0 < 0 && p == m.len()) {
            assert(is_last_row_of(rows, n, mm[p]));
        } else {
            assert(mm[p] == m[p]);
            assert(is_last_entry(d, m[p]));
            let r = choose|r: int| #[trigger] is_last_row_of(d, r, m[p]);
            if p0 >= 0 {
                assert(m[p].0 != m[p0].0);
            }
            assert forall|q: int| #![trigger rows[q]] r < q < rows.len() implies rows[q].0
                != mm[p].0 by {
                if q < n {
                    assert(rows[q] == d[q]);
                }
            }
            assert(is_last_row_of(rows, r, mm[p]));
        }
    }
}

/// Recording the snapshot rows keeps one entry per SKU: the entries' SKUs are distinct,
/// every row's SKU has an entry, and each entry holds the figures of the last row of its SKU.
pub proof fn lemma_merged_one_entry_per_sku(rows: Seq<(Seq<char>, Option<i64>, i32, i32, i32)>)
    ensures
        distinct_skus(merged(rows)),
        covers_rows(rows, merged(rows)),
        holds_last_rows(rows, merged(rows)),
    decreases rows.len(),
{
    if rows.len() > 0 {
        let d = rows.drop_last();
        let f = rows.last();
        lemma_merged_one_entry_per_sku(d);
        assert(rows =~= d.push(f));
        lemma_step_distinct(merged(d), f);
        lemma_step_covers(d, merged(d), f);
        lemma_step_last_rows(d, merged(d), f, rows, merged(rows));
    }
}

/// The update of a snapshot holds one entry per SKU, in the order of the SKUs' first rows,
/// each with the figures of the SKU's last row, and an entry for every SKU of the snapshot.
pub proof fn lemma_update_one_entry_per_sku(loads: Seq<ILoadDetails>, u: ShipmentUpdate)
    requires
        is_update_for(loads, u),
    ensures
        distinct_skus(sku_document_entries(u.skus)),
        covers_rows(rows_figures(loads), sku_document_entries(u.skus)),
        holds_last_rows(rows_figures(loads), sku_document_entries(u.skus)),
{
    lemma_merged_one_entry_per_sku(rows_figures(loads));
}

/// The entry that the update of a snapshot holds for the SKU of row `i`, the last row of
/// that SKU, carries that row's own figures: its location count, its inventory and hold
/// hours (each where it fits in `i32`, its low 32 bits otherwise), and its cross-docking
/// flag as 1 or 0.
pub proof fn lemma_update_entry_has_row_values(loads: Seq<ILoadDetails>, u: ShipmentUpdate, i: int)
    requires
        is_update_for(loads, u),
        0 <= i < loads.len(),
        forall|q: int| i < q < loads.len() ==> loads[q].SKU@ != loads[i].SKU@,
    ensures
        exists|p: int|
            #![trigger sku_document_entries(u.skus)[p]]
            {
                let e = sku_document_entries(u.skus)[p];
                let row = loads[i];
                &&& 0 <= p < sku_document_entries(u.skus).len()
                &&& e.0 == row.SKU@
                &&& e.1 == row.SKU_LOCATION_COUNT
                &&& (i32::MIN <= row.TOTAL_INVENTORY <= i32::MAX ==> e.2 == row.TOTAL_INVENTORY)
                &&& (e.2 as i64 as u64) & 0xffff_ffffu64 == (row.TOTAL_INVENTORY as u64)
                    & 0xffff_ffffu64
                &&& e.3 == (if row.SKU_CROSSDOCKING_ENABLED {
                    1int
                } else {
                    0int
                })
                &&& (i32::MIN <= row.HOLD_HOURS <= i32::MAX ==> e.4 == row.HOLD_HOURS)
                &&& (e.4 as i64 as u64) & 0xffff_ffffu64 == (row.HOLD_HOURS as u64) & 0xffff_ffffu64
            },
{
    let rows = rows_figures(loads);
    let m = sku_document_entries(u.skus);
    lemma_update_one_entry_per_sku(loads, u);
    assert(rows[i] == row_figures(loads[i]));
    assert(has_entry(m, rows[i].0));
    let p = choose|p: int| #![trigger m[p]] 0 <= p < m.len() && m[p].0 == rows[i].0;
    assert(is_last_entry(rows, m[p]));
    let r = choose|r: int| #[trigger] is_last_row_of(rows, r, m[p]);
    if r < i {
        assert(rows[i].0 == m[p].0);
        assert(false);
    } else if r > i {
        assert(rows[r] == row_figures(loads[r]));
        assert(loads[r].SKU@ != loads[i].SKU@);
        assert(false);
    }
    assert(m[p] == row_figures(loads[i]));
    lemma_i32_narrowing(loads[i].TOTAL_INVENTORY);
    lemma_i32_narrowing(loads[i].HOLD_HOURS);
}

fn sku_totals(load: &ILoadDetails) -> (res: SkuTotals)
    ensures
        figures(res) == row_figures(*load),
{
    SkuTotals {
        sku: load.SKU.clone(),
        sku_location_count: load.SKU_LOCATION_COUNT,
        total_inventory: load.TOTAL_INVENTORY as i32,
        sku_crossdocking_enabled: if load.SKU_CROSSDOCKING_ENABLED {
            1
        } else {
            0
        },
        hold_hours: load.HOLD_HOURS as i32,
    }
}

/// `mongodb::bson::Document`, the insertion-ordered map that a document is.
#[verifier::external_type_specification]
#[verifier::external_body]
pub struct ExDocument(mongodb::bson::Document);

/// The entries of a document whose values are SKU figure documents, in the document's
/// order: each key with the figures that its value holds.
pub uninterp spec fn sku_document_entries(d: mongodb::bson::Document) -> Seq<
    (Seq<char>, Option<i64>, i32, i32, i32),
>;

/// `Document::new`: a document without entries.
#[verifier::external_body]
fn empty_document() -> (res: mongodb::bson::Document)
    ensures
        sku_document_entries(res) == Seq::<(Seq<char>, Option<i64>, i32, i32, i32)>::empty(),
{
    mongodb::bson::Document::new()
}

/// `Document::insert` of the figures of `t`, converted to a document of the four fields
/// `SKU_LOCATION_COUNT`, `TOTAL_INVENTORY`, `SKU_CROSSDOCKING_ENABLED` and `HOLD_HOURS`,
/// under the key `t.sku`. As the source shows (`IndexMap::insert`), an existing key keeps
/// its position and takes the new value, and a new key is appended.
#[verifier::external_body]
fn insert_sku_figures(d: &mut mongodb::bson::Document, t: &SkuTotals)
    ensures
        sku_document_entries(*final(d)) == merge_in(sku_document_entries(*old(d)), figures(*t)),
{
    let mut value = mongodb::bson::Document::new();
    value.insert("SKU_LOCATION_COUNT", t.sku_location_count);
    value.insert("TOTAL_INVENTORY", t.total_inventory);
    value.insert("SKU_CROSSDOCKING_ENABLED", t.sku_crossdocking_enabled);
    value.insert("HOLD_HOURS", t.hold_hours);
    d.insert(t.sku.clone(), value);
}

/// The update for the shipment whose load has the inventory snapshot `loads`: the
/// shipment id and cross-docking flag of the first row, a document with one entry per SKU
/// holding the figures of its last row, and the total pallet count; `None` for an empty
/// snapshot, which updates nothing.
pub fn plan_shipment_update(loads: &Vec<ILoadDetails>) -> (res: Option<ShipmentUpdate>)
    requires
        pallet_total_fits(loads@),
    ensures
        res is None <==> loads@.len() == 0,
        res matches Some(u) ==> is_update_for(loads@, u),
{
    if loads.len() == 0 {
        return None;
    }
    let mut skus = empty_document();
    let mut i: usize = 0;
    assert(rows_figures(loads@.take(0)) =~= Seq::<(Seq<char>, Option<i64>, i32, i32, i32)>::empty());
    while i < loads.len()
        invariant
            i <= loads.len(),
            sku_document_entries(skus) == merged(rows_figures(loads@.take(i as int))),
        decreases loads.len() - i,
    {
        let t = sku_totals(&loads[i]);
        insert_sku_figures(&mut skus, &t);
        let ghost next = rows_figures(loads@.take(i + 1));
        assert(loads@.take(i + 1) =~= loads@.take(i as int).push(loads@[i as int]));
        assert(next =~= rows_figures(loads@.take(i as int)).push(row_figures(loads@[i as int])));
        assert(next.drop_last() =~= rows_figures(loads@.take(i as int)));
        i = i + 1;
    }
    assert(loads@.take(loads.len() as int) =~= loads@);
    let pallet_count = total_pallet_count(loads).unwrap();
    Some(
        ShipmentUpdate {
            sdm_shipment_id: loads[0].SDM_SHIPMENT_ID,
            skus,
            pallet_count,
            load_crossdocking_enabled: loads[0].LOAD_CROSSDOCKING_ENABLED,
        },
    )
}

/// `c` is a hexadecimal digit, in either case.
pub open spec fn is_hex_digit(c: char) -> bool {
    ('0' <= c <= '9') || ('a' <= c <= 'f') || ('A' <= c <= 'F')
}

/// The value of the hexadecimal digit `c`.
pub open spec fn hex_value(c: char) -> int {
    if '0' <= c <= '9' {
        c as int - '0' as int
    } else if 'a' <= c <= 'f' {
        c as int - 'a' as int + 10
    } else {
        c as int - 'A' as int + 10
    }
}

/// `s` spells a document id: 24 hexadecimal digits.
pub open spec fn is_object_id_text(s: Seq<char>) -> bool {
    s.len() == 24 && forall|i: int| 0 <= i < 24 ==> is_hex_digit(#[trigger] s[i])
}

/// The 12 bytes that the 24 hexadecimal digits `s` spell, two digits per byte.
pub open spec fn object_id_bytes(s: Seq<char>) -> Seq<u8> {
    Seq::new(12, |i: int| (hex_value(s[2 * i]) * 16 + hex_value(s[2 * i + 1])) as u8)
}

/// `mongodb::bson::oid::ObjectId::parse_str`, giving the id's bytes. As its source shows
/// (a hex decode that must give exactly 12 bytes), it accepts exactly the strings of 24
/// hexadecimal digits of either case, and the bytes are those the digit pairs spell.
#[verifier::external_body]
pub(crate) fn parse_object_id(s: &str) -> (res: Option<[u8; 12]>)
    ensures
        res is Some <==> is_object_id_text(s@),
        res matches Some(b) ==> b@ == object_id_bytes(s@),
{
    match mongodb::bson::oid::ObjectId::parse_str(s) {
        Ok(oid) => Some(oid.bytes()),
        Err(_) => None,
    }
}

/// What a shipment document is to receive from the inventory snapshot of its load.
#[derive(Debug)]
pub enum ShipmentTarget {
    /// The snapshot is empty: nothing is updated.
    NothingToUpdate,
    /// Update the document with this id.
    Update { object_id: [u8; 12], update: ShipmentUpdate },
}

/// `target` updates the document with id `document_id` from the snapshot `loads`.
pub open spec fn targets_update(
    target: ShipmentTarget,
    document_id: Seq<char>,
    loads: Seq<ILoadDetails>,
) -> bool {
    target matches ShipmentTarget::Update { object_id, update } && object_id@ == object_id_bytes(
        document_id,
    ) && is_update_for(loads, update)
}

/// Whether `document_id` spells a document id: 24 hexadecimal digits.
pub fn is_document_id(document_id: &str) -> (res: bool)
    ensures
        res == is_object_id_text(document_id@),
{
    parse_object_id(document_id).is_some()
}

/// The update that the shipment document with id `document_id` receives from the
/// snapshot `loads`: nothing for an empty snapshot, otherwise the update of the document
/// that the id spells. A non-empty snapshot needs a well-formed id and a pallet total that
/// fits in `i64`.
pub fn shipment_update_target(loads: &Vec<ILoadDetails>, document_id: &str) -> (res:
    ShipmentTarget)
    requires
        loads@.len() > 0 ==> is_object_id_text(document_id@) && pallet_total_fits(loads@),
    ensures
        loads@.len() == 0 ==> res is NothingToUpdate,
        loads@.len() > 0 ==> targets_update(res, document_id@, loads@),
{
    if loads.len() == 0 {
        return ShipmentTarget::NothingToUpdate;
    }
    let object_id = parse_object_id(document_id).unwrap();
    let update = plan_shipment_update(loads).unwrap();
    ShipmentTarget::Update { object_id, update }
}

/// The stock locations that are marked as aging licence plates: those whose flag is 1.
pub open spec fn is_aging_selection(flags: Seq<i64>, sel: Seq<usize>) -> bool {
    &&& forall|i: int, j: int| 0 <= i < j < sel.len() ==> sel[i] < sel[j]
    &&& forall|i: int| 0 <= i < sel.len() ==> #[trigger] sel[i] < flags.len() && flags[sel[i] as int] == 1
    &&& forall|k: int| 0 <= k < flags.len() && flags[k] == 1 ==> exists|i: int|
        0 <= i < sel.len() && #[trigger] sel[i] == k
}

/// The positions, in increasing order, of the locations whose aging flag is 1: the
/// locations that are kept as the shipment's aging licence plates.
pub fn aging_lpn_positions(flags: &Vec<i64>) -> (res: Vec<usize>)
    ensures
        is_aging_selection(flags@, res@),
{
    let mut sel: Vec<usize> = Vec::new();
    let mut k: usize = 0;
    while k < flags.len()
        invariant
            k <= flags.len(),
            forall|i: int, j: int| 0 <= i < j < sel@.len() ==> sel@[i] < sel@[j],
            forall|i: int| 0 <= i < sel@.len() ==> #[trigger] sel@[i] < k && flags@[sel@[i] as int] == 1,
            forall|m: int| 0 <= m < k && flags@[m] == 1 ==> exists|i: int|
                0 <= i < sel@.len() && #[trigger] sel@[i] == m,
        decreases flags.len() - k,
    {
        let ghost prev = sel@;
        if flags[k] == 1 {
            sel.push(k);
            assert(sel@[sel@.len() - 1] == k);
        }
        assert forall|m: int| 0 <= m < k + 1 && flags@[m] == 1 implies exists|i: int|
            0 <= i < sel@.len() && #[trigger] sel@[i] == m by {
            if m < k {
                let i = choose|i: int| 0 <= i < prev.len() && #[trigger] prev[i] == m;
                assert(sel@[i] == prev[i]);
            } else {
                assert(sel@[sel@.len() - 1] == m);
            }
        }
        k = k + 1;
    }
    sel
}

} // verus!
