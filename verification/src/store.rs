//! The collector store: for every device, the report that was taken in last.
//!
//! The store keeps its reports in a sharded concurrent map. Its model is a
//! finite map from a device's identifier to the report of that device; all
//! that is promised of the store is promised of that map.

use crate::report::{SystemInfo, SystemInfoView};
use dashmap::DashMap;
use vstd::prelude::*;

verus! {

#[verifier::external_type_specification]
#[verifier::external_body]
#[verifier::reject_recursive_types(K)]
#[verifier::reject_recursive_types(V)]
#[verifier::reject_recursive_types(S)]
pub struct ExDashMap<K, V, S>(DashMap<K, V, S>);

/// The model of a store: what each device's current report says, under the
/// characters of the device's identifier.
pub type Reports = Map<Seq<char>, SystemInfoView>;

/// What a map of reports holds: under the characters of each key, what the
/// report kept under that key says.
pub uninterp spec fn entries(map: DashMap<String, SystemInfo>) -> Reports;

/// Whether `values` is what one walk over `entries` hands out when it comes
/// by the keys in the order of `keys`: every key once, and under each key
/// its value.
pub open spec fn walk_of(
    entries: Reports,
    keys: Seq<Seq<char>>,
    values: Seq<SystemInfoView>,
) -> bool {
    &&& keys.no_duplicates()
    &&& keys.to_set() == entries.dom()
    &&& values.len() == keys.len()
    &&& forall|i: int| 0 <= i < keys.len() ==> values[i] == entries[#[trigger] keys[i]]
}

/// Makes an empty map of reports.
///
/// Trusted: this is `dashmap::DashMap::new`, which makes a map without
/// entries.
#[verifier::external_body]
fn map_new() -> (created: DashMap<String, SystemInfo>)
    ensures
        entries(created) == Reports::empty(),
{
    DashMap::new()
}

/// Puts a report into the map under a key.
///
/// Trusted: this is `dashmap::DashMap::insert`, which gives the key the new
/// value, whether or not the key had one before, and leaves every other key
/// with what it had. The value that the key had before is dropped.
#[verifier::external_body]
fn map_insert(map: &mut DashMap<String, SystemInfo>, key: String, value: SystemInfo)
    ensures
        entries(*final(map)) == entries(*old(map)).insert(key@, value@),
{
    map.insert(key, value);
}

/// Copies out the reports of the map.
///
/// Trusted: this is `dashmap::DashMap::iter`, whose items are taken by
/// `RefMulti::value` and copied. The walk comes by every entry of the map
/// once, in an order that is the map's own affair: the claim is that some
/// order of the keys accounts for what comes out.
#[verifier::external_body]
fn map_values(map: &DashMap<String, SystemInfo>) -> (values: Vec<SystemInfo>)
    ensures
        exists|keys: Seq<Seq<char>>| walk_of(entries(*map), keys, values.deep_view()),
{
    map.iter().map(|entry| entry.value().clone()).collect()
}

/// Whether every report of the map is kept under its own device's
/// identifier, and there are finitely many.
pub open spec fn keyed_by_device(entries: Reports) -> bool {
    &&& entries.dom().finite()
    &&& forall|key: Seq<char>| #[trigger] entries.contains_key(key) ==> entries[key].device_id == key
}

/// The map after a report was taken in: the report stands under its
/// device's identifier, in place of any report that stood there.
pub open spec fn ingested(entries: Reports, report: SystemInfoView) -> Reports {
    entries.insert(report.device_id, report)
}

/// Whether `reports` is a snapshot of the map: each of them is the current
/// report of its device, every device of the map has its report among them,
/// and no device has two.
pub open spec fn is_snapshot_of(
    reports: Seq<SystemInfoView>,
    entries: Reports,
) -> bool {
    &&& forall|i: int|
        0 <= i < reports.len() ==> entries.contains_key((#[trigger] reports[i]).device_id)
            && entries[reports[i].device_id] == reports[i]
    &&& forall|key: Seq<char>| #[trigger]
        entries.contains_key(key) ==> exists|i: int|
            0 <= i < reports.len() && (#[trigger] reports[i]).device_id == key
    &&& forall|i: int, j: int|
        0 <= i < j < reports.len() ==> (#[trigger] reports[i]).device_id != (
        #[trigger] reports[j]).device_id
}

/// The map after the body of a submission was handled: with the report
/// taken in where the body was one, as it was where the body was malformed.
pub open spec fn received(entries: Reports, body: Option<SystemInfoView>) -> Reports {
    match body {
        Some(report) => ingested(entries, report),
        None => entries,
    }
}

/// The status with which an accepted report is acknowledged.
pub const ACK_STATUS: u16 = 200;

/// The text with which an accepted report is acknowledged.
pub const ACK_BODY: &'static str = "Veri Al\u{131}nd\u{131}";

/// The latest report of every device that has reported.
pub struct Store {
    metrics: DashMap<String, SystemInfo>,
}

impl View for Store {
    type V = Reports;

    closed spec fn view(&self) -> Reports {
        entries(self.metrics)
    }
}

impl Store {
    /// The store's invariant: finitely many reports, each kept under its
    /// own device's identifier.
    pub open spec fn wf(&self) -> bool {
        keyed_by_device(self@)
    }

    /// A store without reports, as at process start.
    pub fn new() -> (store: Store)
        ensures
            store.wf(),
            store@ == Reports::empty(),
    {
        Store { metrics: map_new() }
    }

    /// Takes a report in: it becomes the report of its device, in place of
    /// the one that the store had of that device, if it had one. The reports
    /// of all other devices stay as they are.
    pub fn ingest(&mut self, report: SystemInfo)
        requires
            old(self).wf(),
        ensures
            final(self).wf(),
            final(self)@ == ingested(old(self)@, report@),
    {
        let key = report.device_id.clone();
        map_insert(&mut self.metrics, key, report);
    }

    /// Copies out the current report of every device, in no particular
    /// order.
    pub fn snapshot(&self) -> (reports: Vec<SystemInfo>)
        requires
            self.wf(),
        ensures
            is_snapshot_of(reports.deep_view(), self@),
            reports.len() == self@.dom().len(),
    {
        let reports = map_values(&self.metrics);
        proof {
            let entries = self@;
            let views = reports.deep_view();
            let keys = choose|keys: Seq<Seq<char>>| walk_of(entries, keys, views);
            keys.unique_seq_to_set();
            assert forall|i: int| 0 <= i < views.len() implies #[trigger] views[i].device_id
                == keys[i] && entries.contains_key(keys[i]) by {
                assert(keys.contains(keys[i]));
                assert(keys.to_set().contains(keys[i]));
            }
            assert forall|key: Seq<char>| #[trigger] entries.contains_key(key) implies exists|
                i: int,
            |
                0 <= i < views.len() && (#[trigger] views[i]).device_id == key by {
                assert(keys.to_set().contains(key));
                let i = choose|i: int| 0 <= i < keys.len() && keys[i] == key;
                assert(views[i].device_id == key);
            }
        }
        reports
    }
}

/// Handles the body of one submission: a report where the body could be
/// read as one, `None` where it was malformed.
///
/// A report is taken into the store and acknowledged. A malformed body
/// leaves the store as it is and gets no acknowledgment: the answer to it is
/// the refusal of whoever failed to read it.
pub fn receive_metrics(store: &mut Store, body: Option<SystemInfo>) -> (reply: Option<
    (u16, &'static str),
>)
    requires
        old(store).wf(),
    ensures
        final(store).wf(),
        final(store)@ == received(old(store)@, body.deep_view()),
        reply is Some <==> body is Some,
        reply matches Some(ack) ==> ack.0 == ACK_STATUS && ack.1@ == ACK_BODY@,
{
    match body {
        Some(report) => {
            store.ingest(report);
            Some((ACK_STATUS, ACK_BODY))
        },
        None => None,
    }
}

/// Two reports of one device, taken in one after the other, leave what the
/// second alone would have left: the device still has one entry, and the
/// entry says what the second report says.
pub proof fn law_later_report_replaces_earlier(
    entries: Reports,
    first: SystemInfoView,
    second: SystemInfoView,
)
    requires
        first.device_id == second.device_id,
    ensures
        ingested(ingested(entries, first), second) == ingested(entries, second),
        ingested(ingested(entries, first), second).dom() == ingested(entries, first).dom(),
        ingested(ingested(entries, first), second)[second.device_id] == second,
{
    assert(ingested(ingested(entries, first), second) =~= ingested(entries, second));
    assert(ingested(ingested(entries, first), second).dom() =~= ingested(entries, first).dom());
}

/// Reports of two different devices do not touch each other: in whichever
/// order they are taken in, the store ends the same, with both reports in
/// it, and with every other device's report as it was.
pub proof fn law_devices_are_independent(entries: Reports, a: SystemInfoView, b: SystemInfoView)
    requires
        a.device_id != b.device_id,
    ensures
        ingested(ingested(entries, a), b) == ingested(ingested(entries, b), a),
        ingested(ingested(entries, a), b)[a.device_id] == a,
        ingested(ingested(entries, a), b)[b.device_id] == b,
        forall|key: Seq<char>|
            key != a.device_id && key != b.device_id ==> (#[trigger] ingested(
                ingested(entries, a),
                b,
            ).contains_key(key) <==> entries.contains_key(key)) && ingested(
                ingested(entries, a),
                b,
            )[key] == entries[key],
{
    assert(ingested(ingested(entries, a), b) =~= ingested(ingested(entries, b), a));
}

/// Taking a report in keeps the store's invariant: the reports stay
/// finitely many, each under its own device's identifier.
pub proof fn law_ingest_keeps_reports_keyed(entries: Reports, report: SystemInfoView)
    requires
        keyed_by_device(entries),
    ensures
        keyed_by_device(ingested(entries, report)),
{
}

/// A snapshot has exactly one report for every device of the store.
pub proof fn law_snapshot_counts_devices(reports: Seq<SystemInfoView>, entries: Reports)
    requires
        is_snapshot_of(reports, entries),
    ensures
        entries.dom().finite(),
        reports.len() == entries.dom().len(),
{
    let ids = Seq::new(reports.len(), |i: int| reports[i].device_id);
    assert forall|i: int, j: int| 0 <= i < ids.len() && 0 <= j < ids.len() && i != j implies ids[i]
        != ids[j] by {
        if i < j {
            assert(reports[i].device_id != reports[j].device_id);
        } else {
            assert(reports[j].device_id != reports[i].device_id);
        }
    }
    assert(ids.to_set() =~= entries.dom()) by {
        assert forall|key: Seq<char>| entries.dom().contains(key) implies ids.to_set().contains(
            key,
        ) by {
            assert(entries.contains_key(key));
            let i = choose|i: int| 0 <= i < reports.len() && (#[trigger] reports[i]).device_id == key;
            assert(ids[i] == key);
        }
        assert forall|key: Seq<char>| ids.to_set().contains(key) implies entries.dom().contains(
            key,
        ) by {
            let i = choose|i: int| 0 <= i < ids.len() && ids[i] == key;
            assert(entries.contains_key(reports[i].device_id));
        }
    }
    ids.unique_seq_to_set();
    vstd::seq_lib::seq_to_set_is_finite(ids);
}

/// In a snapshot the current report of a device of the store stands at one
/// place, and no other place holds a report of that device.
pub proof fn law_snapshot_shows_current_report(
    reports: Seq<SystemInfoView>,
    entries: Reports,
    device_id: Seq<char>,
)
    requires
        is_snapshot_of(reports, entries),
        entries.contains_key(device_id),
    ensures
        exists|i: int|
            0 <= i < reports.len() && #[trigger] reports[i] == entries[device_id] && forall|j: int|
                0 <= j < reports.len() && (#[trigger] reports[j]).device_id == device_id ==> j == i,
{
    let i = choose|i: int| 0 <= i < reports.len() && (#[trigger] reports[i]).device_id == device_id;
    assert(entries[reports[i].device_id] == reports[i]);
    assert forall|j: int|
        0 <= j < reports.len() && (#[trigger] reports[j]).device_id == device_id implies j == i by {
        if j < i {
            assert(reports[j].device_id != reports[i].device_id);
        } else if i < j {
            assert(reports[i].device_id != reports[j].device_id);
        }
    }
}

/// A snapshot of a store that has taken in the reports of two different
/// devices, and nothing else, consists of those two reports, in one order
/// or the other.
pub proof fn law_snapshot_of_two_devices(
    reports: Seq<SystemInfoView>,
    a: SystemInfoView,
    b: SystemInfoView,
)
    requires
        a.device_id != b.device_id,
        is_snapshot_of(reports, ingested(ingested(Reports::empty(), a), b)),
    ensures
        reports == seq![a, b] || reports == seq![b, a],
{
    let entries = ingested(ingested(Reports::empty(), a), b);
    law_snapshot_counts_devices(reports, entries);
    assert(entries.dom() =~= set![a.device_id, b.device_id]);
    assert(set![a.device_id, b.device_id].len() == 2) by {
        assert(set![a.device_id, b.device_id] =~= Set::empty().insert(a.device_id).insert(
            b.device_id,
        ));
    }
    assert(reports.len() == 2);
    assert(entries.contains_key(reports[0].device_id));
    assert(entries.contains_key(reports[1].device_id));
    assert(reports[0].device_id != reports[1].device_id);
    assert(entries[reports[0].device_id] == reports[0]);
    assert(entries[reports[1].device_id] == reports[1]);
    if reports[0].device_id == a.device_id {
        assert(reports =~= seq![a, b]);
    } else {
        assert(reports =~= seq![b, a]);
    }
}

} // verus!
