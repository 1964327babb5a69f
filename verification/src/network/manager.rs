//! The set of network interfaces of the machine, built from the addresses and traffic
//! statistics that the system reports.

use vstd::prelude::*;
use crate::error::Error;
use crate::network::addresses::{
    name_index, records_view, unique_names, AddressRecord, AddressRecordView,
};
use crate::network::interface::{
    spec_interface_type_of, Counters, Interface, InterfaceType, IpAddress, TrafficStatsParams,
};
use crate::network::netstat::{
    put_record, traffic_index, traffic_view, unique_traffic_names, TrafficRecord,
    TrafficRecordView,
};
use crate::utils::ffi::bindings::{if_data64, if_flags};
use crate::utils::text::{has_prefix, same_text};

verus! {

/// An interface as name, type, flags, MAC address, IP addresses and traffic counters.
pub type InterfaceView = (Seq<char>, InterfaceType, u32, Option<Seq<char>>, Seq<IpAddress>, Counters);

/// The parts of an interface.
pub open spec fn interface_view(i: Interface) -> InterfaceView {
    (i.spec_name(), i.spec_type(), i.spec_flags(), i.spec_mac(), i.spec_addresses(), i.spec_counters())
}

/// The parts of each of a sequence of interfaces.
pub open spec fn interfaces_view(s: Seq<Interface>) -> Seq<InterfaceView> {
    s.map_values(|i: Interface| interface_view(i))
}

/// All seven counters at zero.
pub open spec fn zero_counters() -> Counters {
    (0u64, 0u64, 0u64, 0u64, 0u64, 0u64, 0u64)
}

/// The counters of the traffic record named `n`, or zeros when there is none.
pub open spec fn counters_for(traffic: Seq<TrafficRecordView>, n: Seq<char>) -> Counters {
    let k = traffic_index(traffic, n);
    if k >= 0 {
        traffic[k].1
    } else {
        zero_counters()
    }
}

/// The interface made from an address record: its type follows from its name and
/// flags, a missing MAC address becomes the empty one, and its counters are those of
/// the traffic record of its name.
pub open spec fn record_interface(r: AddressRecordView, traffic: Seq<TrafficRecordView>) -> InterfaceView {
    (
        r.0,
        spec_interface_type_of(r.0, r.1),
        r.1,
        Some(
            match r.2 {
                Some(m) => m,
                None => seq![],
            },
        ),
        r.3,
        counters_for(traffic, r.0),
    )
}

/// Whether a traffic record names an interface that no address record names.
pub open spec fn is_extra(recs: Seq<AddressRecordView>, t: TrafficRecordView) -> bool {
    t.0.len() > 0 && name_index(recs, t.0) < 0
}

/// The interface made from a traffic record alone: of type other, with no flags,
/// MAC address or IP address.
pub open spec fn extra_interface(t: TrafficRecordView) -> InterfaceView {
    (t.0, InterfaceType::Other, 0u32, None, seq![], t.1)
}

/// The interfaces made from the traffic records whose names no address record has.
pub open spec fn extra_interfaces(recs: Seq<AddressRecordView>, traffic: Seq<TrafficRecordView>) -> Seq<
    InterfaceView,
>
    decreases traffic.len(),
{
    if traffic.len() == 0 {
        seq![]
    } else {
        let prev = extra_interfaces(recs, traffic.drop_last());
        if is_extra(recs, traffic.last()) {
            prev.push(extra_interface(traffic.last()))
        } else {
            prev
        }
    }
}

/// The interfaces built from address records and traffic records: one per address
/// record, then one per traffic record of a name that no address record has.
pub open spec fn built_interfaces(recs: Seq<AddressRecordView>, traffic: Seq<TrafficRecordView>) -> Seq<
    InterfaceView,
> {
    recs.map_values(|r: AddressRecordView| record_interface(r, traffic)) + extra_interfaces(
        recs,
        traffic,
    )
}

/// The positions of the built interfaces: the address records' first, then the others.
proof fn lemma_built_index(recs: Seq<AddressRecordView>, traffic: Seq<TrafficRecordView>)
    ensures
        built_interfaces(recs, traffic).len() == recs.len() + extra_interfaces(recs, traffic).len(),
        forall|m: int| 0 <= m < recs.len() ==> #[trigger] built_interfaces(recs, traffic)[m]
            == record_interface(recs[m], traffic),
        forall|m: int| recs.len() <= m < built_interfaces(recs, traffic).len() ==> #[trigger] built_interfaces(
            recs,
            traffic,
        )[m] == extra_interfaces(recs, traffic)[m - recs.len()],
{
}

/// The traffic records, none when there are no statistics.
pub open spec fn traffic_records_of(traffic: Option<Vec<TrafficRecord>>) -> Seq<TrafficRecordView> {
    match traffic {
        Some(t) => traffic_view(t@),
        None => seq![],
    }
}

/// The counters of one more traffic record are those of its name, or the earlier ones.
proof fn lemma_counters_step(traffic: Seq<TrafficRecordView>, i: int, n: Seq<char>)
    requires
        0 <= i < traffic.len(),
    ensures
        counters_for(traffic.take(i + 1), n) == (if traffic[i].0 == n {
            traffic[i].1
        } else {
            counters_for(traffic.take(i), n)
        }),
{
    let t1 = traffic.take(i + 1);
    assert(t1.drop_last() =~= traffic.take(i));
    assert(t1.last() == traffic[i]);
    if traffic[i].0 != n {
        let k = traffic_index(traffic.take(i), n);
        if k >= 0 {
            lemma_traffic_index_bound(traffic.take(i), n);
            assert(t1[k] == traffic.take(i)[k]);
        }
    }
}

/// The index of a traffic record lies within the records.
proof fn lemma_traffic_index_bound(traffic: Seq<TrafficRecordView>, n: Seq<char>)
    ensures
        -1 <= traffic_index(traffic, n) < traffic.len(),
        traffic_index(traffic, n) >= 0 ==> traffic[traffic_index(traffic, n)].0 == n,
    decreases traffic.len(),
{
    if traffic.len() > 0 {
        lemma_traffic_index_bound(traffic.drop_last(), n);
    }
}

/// A name that no earlier record of unique names has keeps zero counters.
proof fn lemma_counters_unseen(traffic: Seq<TrafficRecordView>, i: int)
    requires
        0 <= i < traffic.len(),
        unique_traffic_names(traffic),
    ensures
        counters_for(traffic.take(i), traffic[i].0) == zero_counters(),
{
    lemma_traffic_index_bound(traffic.take(i), traffic[i].0);
    let k = traffic_index(traffic.take(i), traffic[i].0);
    if k >= 0 {
        assert(traffic.take(i)[k] == traffic[k]);
    }
}

/// The MAC address text of a record, empty when it has none.
fn mac_or_empty(m: &Option<String>) -> (r: String)
    ensures
        r@ == (match *m {
            Some(s) => s@,
            None => seq![],
        }),
{
    match m {
        Some(s) => s.clone(),
        None => String::new(),
    }
}

/// A copy of a sequence of IP addresses.
fn copy_addresses(a: &Vec<IpAddress>) -> (r: Vec<IpAddress>)
    ensures
        r@ == a@,
{
    let mut out: Vec<IpAddress> = Vec::new();
    let mut i: usize = 0;
    while i < a.len()
        invariant
            i <= a@.len(),
            out@ == a@.take(i as int),
        decreases a@.len() - i,
    {
        out.push(a[i]);
        i = i + 1;
        assert(out@ =~= a@.take(i as int));
    }
    assert(a@.take(a@.len() as int) =~= a@);
    out
}

/// The interface of an address record, with zero counters.
fn interface_of_record(rec: &AddressRecord) -> (r: Result<Interface, Error>)
    ensures
        r matches Ok(i) && interface_view(i) == record_interface(rec@, seq![]),
{
    let interface_type = NetworkManager::determine_interface_type(rec.name.as_str(), rec.flags);
    let mac = mac_or_empty(&rec.mac_address);
    let built = Interface::builder().name(rec.name.as_str()).interface_type(interface_type).flags(
        rec.flags,
    ).mac_address(mac.as_str()).addresses(copy_addresses(&rec.addresses)).traffic_stats(
        TrafficStatsParams {
            bytes_received: 0,
            bytes_sent: 0,
            packets_received: 0,
            packets_sent: 0,
            receive_errors: 0,
            send_errors: 0,
            collisions: 0,
        },
    ).build();
    match built {
        Ok(i) => Ok(i),
        Err(e) => {
            let mut m = String::new();
            m.append("Failed to create interface: ");
            let t = e.to_string();
            m.append(t.as_str());
            Err(Error::system(m.as_str()))
        },
    }
}

/// The position, among the first `upto` interfaces, of the one named `name`.
fn find_interface(v: &Vec<Interface>, upto: usize, name: &str) -> (r: Option<usize>)
    requires
        upto <= v@.len(),
    ensures
        r matches Some(k) ==> k < upto && v@[k as int].spec_name() == name@,
        r is None ==> forall|k: int| 0 <= k < upto ==> v@[k].spec_name() != name@,
{
    let mut i: usize = 0;
    while i < upto
        invariant
            upto <= v@.len(),
            i <= upto,
            forall|k: int| 0 <= k < i ==> v@[k].spec_name() != name@,
        decreases upto - i,
    {
        if same_text(v[i].name(), name) {
            return Some(i);
        }
        i = i + 1;
    }
    None
}

/// Builds the interfaces of the machine from the address records of `getifaddrs` and
/// the traffic statistics, if any were read: one interface per address record, with
/// the counters of the traffic record of its name, then one interface of type other
/// per traffic record whose name is not empty and that no address record has.
pub fn build_interfaces(records: &Vec<AddressRecord>, traffic: &Option<Vec<TrafficRecord>>) -> (r:
    Result<Vec<Interface>, Error>)
    requires
        unique_names(records_view(records@)),
        unique_traffic_names(traffic_records_of(*traffic)),
    ensures
        r matches Ok(v) && interfaces_view(v@) == built_interfaces(
            records_view(records@),
            traffic_records_of(*traffic),
        ),
{
    let ghost recs = records_view(records@);
    let ghost tr = traffic_records_of(*traffic);
    let mut v: Vec<Interface> = Vec::new();
    let mut i: usize = 0;
    while i < records.len()
        invariant
            i <= records@.len(),
            recs == records_view(records@),
            v@.len() == i,
            forall|k: int| 0 <= k < i ==> #[trigger] interface_view(v@[k]) == record_interface(
                recs[k],
                seq![],
            ),
        decreases records@.len() - i,
    {
        let iface = match interface_of_record(&records[i]) {
            Ok(x) => x,
            Err(e) => return Err(e),
        };
        v.push(iface);
        i = i + 1;
    }
    let nrec = records.len();
    proof {
        lemma_built_index(recs, tr.take(0));
        assert(tr.take(0) =~= seq![]);
        assert(extra_interfaces(recs, tr.take(0)).len() == 0);
        assert forall|k: int| 0 <= k < v@.len() implies #[trigger] interfaces_view(v@)[k]
            == built_interfaces(recs, tr.take(0))[k] by {
            assert(interface_view(v@[k]) == record_interface(recs[k], seq![]));
        }
        assert(interfaces_view(v@) =~= built_interfaces(recs, tr.take(0)));
    }
    match traffic {
        None => {
            assert(tr =~= tr.take(0));
        },
        Some(t) => {
            let mut j: usize = 0;
            while j < t.len()
                invariant
                    j <= t@.len(),
                    nrec == recs.len(),
                    recs == records_view(records@),
                    tr == traffic_view(t@),
                    unique_names(recs),
                    unique_traffic_names(tr),
                    nrec <= v@.len(),
                    interfaces_view(v@) == built_interfaces(recs, tr.take(j as int)),
                decreases t@.len() - j,
            {
                let rec = &t[j];
                let ghost before = interfaces_view(v@);
                let ghost tj = tr[j as int];
                proof {
                    assert(tj == rec@);
                    assert(tr.take(j + 1).drop_last() =~= tr.take(j as int));
                    assert(tr.take(j + 1).last() == tj);
                    lemma_counters_unseen(tr, j as int);
                    assert forall|n: Seq<char>| #[trigger]
                        counters_for(tr.take(j + 1), n) == (if tj.0 == n {
                            tj.1
                        } else {
                            counters_for(tr.take(j as int), n)
                        }) by {
                        lemma_counters_step(tr, j as int, n);
                    }
                    crate::network::addresses::lemma_name_index(recs, tj.0);
                }
                proof {
                    lemma_built_index(recs, tr.take(j as int));
                    lemma_built_index(recs, tr.take(j + 1));
                }
                match find_interface(&v, nrec, rec.name.as_str()) {
                    Some(k) => {
                        proof {
                            assert(before[k as int] == record_interface(
                                recs[k as int],
                                tr.take(j as int),
                            ));
                            assert(interface_view(v@[k as int]) == before[k as int]);
                            assert(recs[k as int].0 == tj.0);
                            assert(!is_extra(recs, tj));
                        }
                        let c = rec.counters;
                        v[k].update_traffic(c.0, c.1, c.2, c.3, c.4, c.5, c.6);
                        proof {
                            assert forall|m: int| 0 <= m < nrec implies #[trigger] interfaces_view(
                                v@,
                            )[m] == record_interface(recs[m], tr.take(j + 1)) by {
                                if m != k {
                                    assert(recs[m].0 != tj.0);
                                    assert(before[m] == record_interface(recs[m], tr.take(j as int)));
                                }
                            }
                            assert(extra_interfaces(recs, tr.take(j + 1)) == extra_interfaces(
                                recs,
                                tr.take(j as int),
                            ));
                            assert forall|m: int| nrec <= m < v@.len() implies #[trigger] interfaces_view(
                                v@,
                            )[m] == built_interfaces(recs, tr.take(j + 1))[m] by {
                                assert(interface_view(v@[m]) == before[m]);
                            }
                            assert(interfaces_view(v@) =~= built_interfaces(recs, tr.take(j + 1)));
                        }
                    },
                    None => {
                        if !rec.name.as_str().is_empty() {
                            let extra = Interface::new(
                                rec.name.clone(),
                                InterfaceType::Other,
                                0,
                                None,
                                Vec::new(),
                                rec.counters.0,
                                rec.counters.1,
                                rec.counters.2,
                                rec.counters.3,
                                rec.counters.4,
                                rec.counters.5,
                                rec.counters.6,
                            );
                            v.push(extra);
                            assert(interface_view(v@[v@.len() - 1]) == extra_interface(tj));
                        }
                        proof {
                            assert forall|m: int| 0 <= m < nrec implies #[trigger] interfaces_view(
                                v@,
                            )[m] == record_interface(recs[m], tr.take(j + 1)) by {
                                assert(before[m] == record_interface(recs[m], tr.take(j as int)));
                                assert(interface_view(v@[m]) == before[m]);
                                assert(recs[m].0 != tj.0);
                            }
                            assert forall|m: int| 0 <= m < recs.len() implies recs[m].0 != tj.0 by {
                                assert(before[m] == record_interface(recs[m], tr.take(j as int)));
                                assert(interface_view(v@[m]) == before[m]);
                            }
                            assert(name_index(recs, tj.0) == -1);
                            assert(is_extra(recs, tj) == (tj.0.len() > 0));
                            let ext0 = extra_interfaces(recs, tr.take(j as int));
                            let ext1 = extra_interfaces(recs, tr.take(j + 1));
                            if tj.0.len() > 0 {
                                assert(ext1 == ext0.push(extra_interface(tj)));
                            } else {
                                assert(ext1 == ext0);
                            }
                            assert forall|m: int| nrec <= m < v@.len() implies #[trigger] interfaces_view(
                                v@,
                            )[m] == built_interfaces(recs, tr.take(j + 1))[m] by {
                                if m < before.len() {
                                    assert(interface_view(v@[m]) == before[m]);
                                    assert(ext1[m - nrec] == ext0[m - nrec]);
                                }
                            }
                            assert(interfaces_view(v@) =~= built_interfaces(recs, tr.take(j + 1)));
                        }
                    },
                }
                j = j + 1;
            }
            assert(tr.take(t@.len() as int) =~= tr);
        },
    }
    Ok(v)
}

/// The traffic record of an interface from its 64-bit interface data.
pub open spec fn data_counters(d: if_data64) -> Counters {
    (d.ifi_ibytes, d.ifi_obytes, d.ifi_ipackets, d.ifi_opackets, d.ifi_ierrors, d.ifi_oerrors, d.ifi_collisions)
}

/// The traffic records of the interfaces whose 64-bit interface data could be read,
/// each later reading of a name replacing an earlier one.
pub open spec fn data_records(readings: Seq<(String, Option<if_data64>)>) -> Seq<TrafficRecordView>
    decreases readings.len(),
{
    if readings.len() == 0 {
        seq![]
    } else {
        let prev = data_records(readings.drop_last());
        match readings.last().1 {
            Some(d) => put_record(prev, (readings.last().0@, data_counters(d))),
            None => prev,
        }
    }
}

/// The record `traffic_index` finds is the last one of its name.
proof fn lemma_traffic_index_last(recs: Seq<TrafficRecordView>, n: Seq<char>)
    ensures
        -1 <= traffic_index(recs, n) < recs.len(),
        traffic_index(recs, n) >= 0 ==> recs[traffic_index(recs, n)].0 == n,
        forall|j: int| traffic_index(recs, n) < j < recs.len() ==> recs[j].0 != n,
    decreases recs.len(),
{
    if recs.len() > 0 && recs.last().0 != n {
        let init = recs.drop_last();
        lemma_traffic_index_last(init, n);
        assert forall|j: int| traffic_index(recs, n) < j < recs.len() implies recs[j].0 != n by {
            if j < init.len() {
                assert(recs[j] == init[j]);
            }
        }
    }
}

/// The last record of a name is the one `traffic_index` finds.
proof fn lemma_traffic_index_is(recs: Seq<TrafficRecordView>, n: Seq<char>, k: int)
    requires
        0 <= k < recs.len(),
        recs[k].0 == n,
        forall|j: int| k < j < recs.len() ==> recs[j].0 != n,
    ensures
        traffic_index(recs, n) == k,
    decreases recs.len(),
{
    if k < recs.len() - 1 {
        lemma_traffic_index_is(recs.drop_last(), n, k);
    }
}

/// After a record is put in, looking its name up finds that record.
proof fn lemma_put_record_found(recs: Seq<TrafficRecordView>, r: TrafficRecordView)
    ensures
        0 <= traffic_index(put_record(recs, r), r.0) < put_record(recs, r).len(),
        put_record(recs, r)[traffic_index(put_record(recs, r), r.0)] == r,
{
    lemma_traffic_index_last(recs, r.0);
    let k = traffic_index(recs, r.0);
    if k >= 0 {
        lemma_traffic_index_is(recs.update(k, r), r.0, k);
    } else {
        lemma_traffic_index_is(recs.push(r), r.0, recs.len() as int);
    }
}

/// Putting in a record of another name leaves the lookup of `n` where it was.
proof fn lemma_put_other_name(recs: Seq<TrafficRecordView>, r: TrafficRecordView, n: Seq<char>)
    requires
        r.0 != n,
    ensures
        traffic_index(put_record(recs, r), n) == traffic_index(recs, n),
        traffic_index(recs, n) >= 0 ==> put_record(recs, r)[traffic_index(recs, n)] == recs[traffic_index(recs, n)],
        recs.len() <= put_record(recs, r).len(),
{
    lemma_traffic_index_last(recs, n);
    lemma_traffic_index_last(recs, r.0);
    let t = traffic_index(recs, n);
    let k = traffic_index(recs, r.0);
    let out = put_record(recs, r);
    lemma_traffic_index_last(out, n);
    if k >= 0 {
        assert(out.len() == recs.len());
        if t >= 0 {
            assert(t != k);
            assert forall|j: int| t < j < out.len() implies out[j].0 != n by {
                if j != k {
                    assert(out[j] == recs[j]);
                }
            }
            lemma_traffic_index_is(out, n, t);
        } else {
            let u = traffic_index(out, n);
            if u >= 0 {
                if u != k {
                    assert(out[u] == recs[u]);
                }
                assert(false);
            }
        }
    } else {
        assert(out.drop_last() =~= recs);
    }
}

/// The native traffic record of a name holds the fields of the last reading of that
/// name whose data could be read, each counter from the field of the same meaning:
/// bytes received and sent from `ifi_ibytes` and `ifi_obytes`, packets received and
/// sent from `ifi_ipackets` and `ifi_opackets`, receive and send errors from
/// `ifi_ierrors` and `ifi_oerrors`, and collisions from `ifi_collisions`.
pub proof fn law_native_record_of_name(
    readings: Seq<(String, Option<if_data64>)>,
    i: int,
    d: if_data64,
)
    requires
        0 <= i < readings.len(),
        readings[i].1 == Some(d),
        forall|j: int|
            i < j < readings.len() && #[trigger] readings[j].0@ == readings[i].0@ ==> readings[j].1
                is None,
    ensures
        ({
            let recs = data_records(readings);
            let k = traffic_index(recs, readings[i].0@);
            &&& 0 <= k < recs.len()
            &&& recs[k].0 == readings[i].0@
            &&& recs[k].1.0 == d.ifi_ibytes
            &&& recs[k].1.1 == d.ifi_obytes
            &&& recs[k].1.2 == d.ifi_ipackets
            &&& recs[k].1.3 == d.ifi_opackets
            &&& recs[k].1.4 == d.ifi_ierrors
            &&& recs[k].1.5 == d.ifi_oerrors
            &&& recs[k].1.6 == d.ifi_collisions
        }),
    decreases readings.len(),
{
    let n = readings[i].0@;
    let init = readings.drop_last();
    if i == readings.len() - 1 {
        assert(readings.last() == readings[i]);
        lemma_put_record_found(data_records(init), (n, data_counters(d)));
    } else {
        assert(init[i] == readings[i]);
        assert forall|j: int| i < j < init.len() && #[trigger] init[j].0@ == init[i].0@ implies init[j].1
            is None by {
            assert(init[j] == readings[j]);
        }
        law_native_record_of_name(init, i, d);
        let last = readings.last();
        assert(last == readings[readings.len() - 1]);
        if let Some(e) = last.1 {
            assert(last.0@ != n);
            lemma_put_other_name(data_records(init), (last.0@, data_counters(e)), n);
            assert(data_records(readings) == put_record(data_records(init), (last.0@, data_counters(e))));
        } else {
            assert(data_records(readings) == data_records(init));
        }
    }
}

/// A name none of whose readings could be read has no native traffic record.
pub proof fn law_native_unread_name_absent(readings: Seq<(String, Option<if_data64>)>, n: Seq<char>)
    requires
        forall|j: int| 0 <= j < readings.len() && #[trigger] readings[j].0@ == n ==> readings[j].1 is None,
    ensures
        traffic_index(data_records(readings), n) == -1,
    decreases readings.len(),
{
    if readings.len() > 0 {
        let init = readings.drop_last();
        assert forall|j: int| 0 <= j < init.len() && #[trigger] init[j].0@ == n implies init[j].1
            is None by {
            assert(init[j] == readings[j]);
        }
        law_native_unread_name_absent(init, n);
        let last = readings.last();
        assert(last == readings[readings.len() - 1]);
        if let Some(e) = last.1 {
            lemma_put_other_name(data_records(init), (last.0@, data_counters(e)), n);
        }
    }
}

/// Each counter of an interface's native traffic record is the interface data field
/// of the same meaning: bytes received and sent are `ifi_ibytes` and `ifi_obytes`,
/// packets received and sent are `ifi_ipackets` and `ifi_opackets`, receive and send
/// errors are `ifi_ierrors` and `ifi_oerrors`, and collisions are `ifi_collisions`, of
/// the last reading of the name.
pub proof fn law_native_counters_follow_fields(readings: Seq<(String, Option<if_data64>)>, d: if_data64)
    requires
        readings.len() > 0,
        readings.last().1 == Some(d),
    ensures
        ({
            let recs = data_records(readings);
            let k = traffic_index(recs, readings.last().0@);
            &&& 0 <= k < recs.len()
            &&& recs[k].1.0 == d.ifi_ibytes
            &&& recs[k].1.1 == d.ifi_obytes
            &&& recs[k].1.2 == d.ifi_ipackets
            &&& recs[k].1.3 == d.ifi_opackets
            &&& recs[k].1.4 == d.ifi_ierrors
            &&& recs[k].1.5 == d.ifi_oerrors
            &&& recs[k].1.6 == d.ifi_collisions
        }),
{
    lemma_put_record_found(data_records(readings.drop_last()), (readings.last().0@, data_counters(d)));
}

/// The traffic statistics of the interfaces from their 64-bit interface data, as read
/// by name; `None` when no interface's data could be read.
pub fn traffic_from_interface_data(readings: &Vec<(String, Option<if_data64>)>) -> (r: Option<
    Vec<TrafficRecord>,
>)
    ensures
        match r {
            Some(v) => traffic_view(v@) == data_records(readings@) && v@.len() > 0,
            None => data_records(readings@).len() == 0,
        },
        r matches Some(v) ==> unique_traffic_names(traffic_view(v@)),
{
    let mut recs: Vec<TrafficRecord> = Vec::new();
    let mut i: usize = 0;
    while i < readings.len()
        invariant
            i <= readings@.len(),
            traffic_view(recs@) == data_records(readings@.take(i as int)),
            unique_traffic_names(traffic_view(recs@)),
        decreases readings@.len() - i,
    {
        let (name, data) = &readings[i];
        proof {
            assert(readings@.take(i + 1).drop_last() =~= readings@.take(i as int));
        }
        match data {
            Some(d) => {
                let t = TrafficRecord {
                    name: name.clone(),
                    counters: (
                        d.ifi_ibytes,
                        d.ifi_obytes,
                        d.ifi_ipackets,
                        d.ifi_opackets,
                        d.ifi_ierrors,
                        d.ifi_oerrors,
                        d.ifi_collisions,
                    ),
                };
                crate::network::netstat::put_traffic_record(&mut recs, t);
            },
            None => {},
        }
        i = i + 1;
    }
    proof {
        assert(readings@.take(readings@.len() as int) =~= readings@);
    }
    if recs.len() == 0 {
        None
    } else {
        Some(recs)
    }
}

/// The index of the last interface named `n`, or -1.
pub open spec fn interface_index(s: Seq<InterfaceView>, n: Seq<char>) -> int
    decreases s.len(),
{
    if s.len() == 0 {
        -1
    } else if s.last().0 == n {
        s.len() - 1
    } else {
        interface_index(s.drop_last(), n)
    }
}

/// The interface named `n`, if any; the last one where several have that name.
pub open spec fn lookup(s: Seq<InterfaceView>, n: Seq<char>) -> Option<InterfaceView> {
    let k = interface_index(s, n);
    if k >= 0 {
        Some(s[k])
    } else {
        None
    }
}

/// The interfaces with `i` put in: it replaces the interface of its name, or is appended.
pub open spec fn upsert(s: Seq<InterfaceView>, i: InterfaceView) -> Seq<InterfaceView> {
    let k = interface_index(s, i.0);
    if k >= 0 {
        s.update(k, i)
    } else {
        s.push(i)
    }
}

/// The interfaces with each of `list` put in, in order.
pub open spec fn upsert_all(s: Seq<InterfaceView>, list: Seq<InterfaceView>) -> Seq<InterfaceView>
    decreases list.len(),
{
    if list.len() == 0 {
        s
    } else {
        upsert(upsert_all(s, list.drop_last()), list.last())
    }
}

/// The index of the last interface named `n` lies within them and names `n`, and no
/// later one does.
pub proof fn lemma_interface_index(s: Seq<InterfaceView>, n: Seq<char>)
    ensures
        -1 <= interface_index(s, n) < s.len(),
        interface_index(s, n) >= 0 ==> s[interface_index(s, n)].0 == n,
        forall|k: int| interface_index(s, n) < k < s.len() ==> s[k].0 != n,
    decreases s.len(),
{
    if s.len() > 0 {
        lemma_interface_index(s.drop_last(), n);
        assert forall|k: int| interface_index(s, n) < k < s.len() implies s[k].0 != n by {
            if k < s.len() - 1 {
                assert(s.drop_last()[k] == s[k]);
            }
        }
        if interface_index(s, n) >= 0 && interface_index(s, n) < s.len() - 1 {
            assert(s.drop_last()[interface_index(s, n)] == s[interface_index(s, n)]);
        }
    }
}

/// The interface named `n` with no later one of that name is the one found.
proof fn lemma_interface_index_exact(s: Seq<InterfaceView>, n: Seq<char>, k: int)
    requires
        0 <= k < s.len(),
        s[k].0 == n,
        forall|j: int| k < j < s.len() ==> s[j].0 != n,
    ensures
        interface_index(s, n) == k,
    decreases s.len(),
{
    if k < s.len() - 1 {
        assert(s.drop_last()[k] == s[k]);
        assert forall|j: int| k < j < s.drop_last().len() implies s.drop_last()[j].0 != n by {
            assert(s.drop_last()[j] == s[j]);
        }
        lemma_interface_index_exact(s.drop_last(), n, k);
    }
}

/// Replacing an interface of another name leaves the index of `n` unchanged.
proof fn lemma_index_update_other(s: Seq<InterfaceView>, k: int, i: InterfaceView, n: Seq<char>)
    requires
        0 <= k < s.len(),
        i.0 != n,
        s[k].0 == i.0,
    ensures
        interface_index(s.update(k, i), n) == interface_index(s, n),
    decreases s.len(),
{
    let u = s.update(k, i);
    if k == s.len() - 1 {
        assert(u.drop_last() =~= s.drop_last());
    } else {
        assert(u.drop_last() =~= s.drop_last().update(k, i));
        assert(u.last() == s.last());
        if s.last().0 != n {
            lemma_index_update_other(s.drop_last(), k, i, n);
        }
    }
}

/// The set of network interfaces of the machine, by name.
#[derive(Debug)]
pub struct NetworkManager {
    interfaces: Vec<Interface>,
}

impl NetworkManager {
    /// The interfaces, in the order in which their names first appeared.
    pub closed spec fn spec_interfaces(&self) -> Seq<InterfaceView> {
        interfaces_view(self.interfaces@)
    }

    /// Determines the type of an interface from its name and flags.
    pub fn determine_interface_type(name: &str, flags: u32) -> (r: InterfaceType)
        ensures
            r == spec_interface_type_of(name@, flags),
    {
        if (flags & if_flags::IFF_LOOPBACK) != 0 {
            InterfaceType::Loopback
        } else if has_prefix(name, "en") {
            if same_text(name, "en0") {
                InterfaceType::WiFi
            } else {
                InterfaceType::Ethernet
            }
        } else if has_prefix(name, "wl") || has_prefix(name, "ath") {
            InterfaceType::WiFi
        } else if has_prefix(name, "vnic") || has_prefix(name, "bridge") || has_prefix(
            name,
            "utun",
        ) {
            InterfaceType::Virtual
        } else {
            InterfaceType::Other
        }
    }

    /// A manager of the interfaces that were discovered; when discovery failed, a manager
    /// of no interface.
    pub fn new(discovered: Result<Vec<Interface>, Error>) -> (r: Result<Self, Error>)
        ensures
            r matches Ok(m) && m.spec_interfaces() == (match discovered {
                Ok(v) => upsert_all(seq![], interfaces_view(v@)),
                Err(_) => seq![],
            }),
    {
        let mut manager = NetworkManager { interfaces: Vec::new() };
        assert(manager.spec_interfaces() =~= seq![]);
        let _ = manager.update(discovered);
        Ok(manager)
    }

    /// Puts in each of the discovered interfaces, replacing the one of the same name;
    /// when discovery failed, returns its error and changes nothing.
    pub fn update(&mut self, discovered: Result<Vec<Interface>, Error>) -> (r: Result<(), Error>)
        ensures
            match discovered {
                Ok(v) => r is Ok && final(self).spec_interfaces() == upsert_all(
                    old(self).spec_interfaces(),
                    interfaces_view(v@),
                ),
                Err(e) => r == Err::<(), Error>(e) && final(self).spec_interfaces()
                    == old(self).spec_interfaces(),
            },
    {
        let list = match discovered {
            Ok(v) => v,
            Err(e) => return Err(e),
        };
        let ghost lv = interfaces_view(list@);
        let ghost start = interfaces_view(self.interfaces@);
        let mut i: usize = 0;
        while i < list.len()
            invariant
                i <= list@.len(),
                lv == interfaces_view(list@),
                start == interfaces_view(old(self).interfaces@),
                interfaces_view(self.interfaces@) == upsert_all(start, lv.take(i as int)),
            decreases list@.len() - i,
        {
            proof {
                assert(lv.take(i + 1).drop_last() =~= lv.take(i as int));
                assert(lv.take(i + 1).last() == interface_view(list@[i as int]));
            }
            self.put(list[i].duplicate());
            i = i + 1;
        }
        assert(lv.take(list@.len() as int) =~= lv);
        Ok(())
    }

    /// Puts in one interface, replacing the last one of the same name.
    fn put(&mut self, item: Interface)
        ensures
            final(self).spec_interfaces() == upsert(old(self).spec_interfaces(), interface_view(item)),
    {
        let ghost before = interfaces_view(self.interfaces@);
        let ghost iv = interface_view(item);
        proof {
            lemma_interface_index(before, iv.0);
        }
        let mut i: usize = self.interfaces.len();
        while i > 0
            invariant
                i <= self.interfaces@.len(),
                before == interfaces_view(self.interfaces@),
                before == interfaces_view(old(self).interfaces@),
                iv == interface_view(item),
                forall|k: int| i <= k < self.interfaces@.len() ==> self.interfaces@[k].spec_name() != iv.0,
                -1 <= interface_index(before, iv.0) < before.len(),
                interface_index(before, iv.0) >= 0 ==> before[interface_index(before, iv.0)].0 == iv.0,
                forall|k: int| interface_index(before, iv.0) < k < before.len() ==> before[k].0 != iv.0,
            decreases i,
        {
            i = i - 1;
            if same_text(self.interfaces[i].name(), item.name()) {
                proof {
                    assert(before[i as int].0 == iv.0);
                    assert(interface_index(before, iv.0) == i as int);
                }
                self.interfaces.set(i, item);
                assert(interfaces_view(self.interfaces@) =~= before.update(i as int, iv));
                return;
            }
        }
        proof {
            if interface_index(before, iv.0) >= 0 {
                assert(before[interface_index(before, iv.0)].0 == iv.0);
            }
        }
        self.interfaces.push(item);
        assert(interfaces_view(self.interfaces@) =~= before.push(iv));
    }

    /// The interfaces, in the order in which their names first appeared.
    pub fn interfaces(&self) -> (r: Vec<&Interface>)
        ensures
            r@.len() == self.spec_interfaces().len(),
            forall|k: int| 0 <= k < r@.len() ==> interface_view(*#[trigger] r@[k])
                == self.spec_interfaces()[k],
    {
        let mut out: Vec<&Interface> = Vec::new();
        let mut i: usize = 0;
        while i < self.interfaces.len()
            invariant
                i <= self.interfaces@.len(),
                out@.len() == i,
                forall|k: int| 0 <= k < i ==> *#[trigger] out@[k] == self.interfaces@[k],
            decreases self.interfaces@.len() - i,
        {
            out.push(&self.interfaces[i]);
            i = i + 1;
        }
        out
    }

    /// The interface named `name`, if there is one.
    pub fn get_interface(&self, name: &str) -> (r: Option<&Interface>)
        ensures
            match r {
                Some(i) => lookup(self.spec_interfaces(), name@) == Some(interface_view(*i)),
                None => lookup(self.spec_interfaces(), name@) is None,
            },
    {
        let ghost s = self.spec_interfaces();
        proof {
            lemma_interface_index(s, name@);
        }
        let mut i: usize = self.interfaces.len();
        while i > 0
            invariant
                i <= self.interfaces@.len(),
                s == interfaces_view(self.interfaces@),
                forall|k: int| i <= k < self.interfaces@.len() ==> self.interfaces@[k].spec_name() != name@,
                -1 <= interface_index(s, name@) < s.len(),
                interface_index(s, name@) >= 0 ==> s[interface_index(s, name@)].0 == name@,
                forall|k: int| interface_index(s, name@) < k < s.len() ==> s[k].0 != name@,
            decreases i,
        {
            i = i - 1;
            if same_text(self.interfaces[i].name(), name) {
                proof {
                    assert(s[i as int].0 == name@);
                }
                return Some(&self.interfaces[i]);
            }
        }
        proof {
            if interface_index(s, name@) >= 0 {
                assert(s[interface_index(s, name@)].0 == name@);
            }
        }
        None
    }
}

/// After the discovered interfaces are put in, the interface of a name is the last
/// discovered one of that name, or else the one known before.
pub proof fn law_update_then_lookup(before: Seq<InterfaceView>, list: Seq<InterfaceView>, n: Seq<char>)
    ensures
        lookup(upsert_all(before, list), n) == (if interface_index(list, n) >= 0 {
            Some(list[interface_index(list, n)])
        } else {
            lookup(before, n)
        }),
    decreases list.len(),
{
    if list.len() > 0 {
        let init = list.drop_last();
        law_update_then_lookup(before, init, n);
        let s = upsert_all(before, init);
        let i = list.last();
        lemma_interface_index(s, i.0);
        lemma_interface_index(s, n);
        lemma_interface_index(init, n);
        let k = interface_index(s, i.0);
        let u = upsert(s, i);
        assert(u == upsert_all(before, list));
        if i.0 == n {
            assert(interface_index(list, n) == list.len() - 1);
            if k >= 0 {
                assert forall|j: int| k < j < u.len() implies u[j].0 != n by {
                    assert(u[j] == s[j]);
                }
                lemma_interface_index_exact(u, n, k);
            } else {
                assert(u.drop_last() =~= s);
            }
        } else {
            assert(interface_index(list, n) == interface_index(init, n));
            if interface_index(init, n) >= 0 {
                assert(list[interface_index(init, n)] == init[interface_index(init, n)]);
            }
            if k >= 0 {
                lemma_index_update_other(s, k, i, n);
                let m = interface_index(s, n);
                if m >= 0 {
                    assert(m != k);
                    assert(u[m] == s[m]);
                }
            } else {
                assert(u.drop_last() =~= s);
                assert(u.last().0 != n);
                let m = interface_index(s, n);
                if m >= 0 {
                    assert(u[m] == s[m]);
                }
            }
        }
    }
}

} // verus!
