//! Traffic statistics per interface, read from the output of `netstat -ib`.
//!
//! The host application runs the command; [`parse_netstat_output`] reads its output.

use vstd::prelude::*;
use crate::network::interface::Counters;
use crate::utils::text::{
    chars_of, decode_utf8_lossy, lines, parse_u64, same_text, spec_parse_u64, split_lines,
    split_words, string_of_chars, texts, utf8_lossy, words,
};

verus! {

/// The traffic counters of one interface, by name.
pub struct TrafficRecord {
    /// The interface name.
    pub name: String,
    /// Bytes received, bytes sent, packets received, packets sent, receive errors,
    /// send errors and collisions.
    pub counters: Counters,
}

/// A traffic record as name and counters.
pub type TrafficRecordView = (Seq<char>, Counters);

impl View for TrafficRecord {
    type V = TrafficRecordView;

    open spec fn view(&self) -> TrafficRecordView {
        (self.name@, self.counters)
    }
}

/// The views of a sequence of traffic records.
pub open spec fn traffic_view(s: Seq<TrafficRecord>) -> Seq<TrafficRecordView> {
    s.map_values(|r: TrafficRecord| r@)
}

/// The number in a column: the word read as a number, or zero when it is none.
pub open spec fn column_value(w: Seq<char>) -> u64 {
    match spec_parse_u64(w) {
        Some(v) => v,
        None => 0,
    }
}

/// The traffic record of the words of one line of `netstat -ib`, whose columns are
/// name, MTU, network, address, packets in, errors in, bytes in, packets out, errors
/// out, bytes out and, optionally, collisions; lines of fewer than ten words give none.
pub open spec fn line_record(ws: Seq<Seq<char>>) -> Option<TrafficRecordView> {
    if ws.len() < 10 {
        None
    } else {
        Some(
            (
                ws[0],
                (
                    column_value(ws[6]),
                    column_value(ws[9]),
                    column_value(ws[4]),
                    column_value(ws[7]),
                    column_value(ws[5]),
                    column_value(ws[8]),
                    if ws.len() > 10 {
                        column_value(ws[10])
                    } else {
                        0
                    },
                ),
            ),
        )
    }
}

/// The index of the record named `n`, or -1.
pub open spec fn traffic_index(recs: Seq<TrafficRecordView>, n: Seq<char>) -> int
    decreases recs.len(),
{
    if recs.len() == 0 {
        -1
    } else if recs.last().0 == n {
        recs.len() - 1
    } else {
        traffic_index(recs.drop_last(), n)
    }
}

/// Whether no two traffic records have the same name.
pub open spec fn unique_traffic_names(recs: Seq<TrafficRecordView>) -> bool {
    forall|i: int, j: int| 0 <= i < j < recs.len() ==> recs[i].0 != recs[j].0
}

/// The records with `r` put in: it replaces the record of its name, or is appended.
pub open spec fn put_record(recs: Seq<TrafficRecordView>, r: TrafficRecordView) -> Seq<
    TrafficRecordView,
> {
    let k = traffic_index(recs, r.0);
    if k >= 0 {
        recs.update(k, r)
    } else {
        recs.push(r)
    }
}

/// The traffic records of lines of `netstat -ib` output after the header: for each
/// name the counters of its last line.
pub open spec fn netstat_records(ls: Seq<Seq<char>>) -> Seq<TrafficRecordView>
    decreases ls.len(),
{
    if ls.len() == 0 {
        seq![]
    } else {
        let prev = netstat_records(ls.drop_last());
        match line_record(words(ls.last())) {
            Some(r) => put_record(prev, r),
            None => prev,
        }
    }
}

/// The traffic records that the text of `netstat -ib` output holds: the records of its
/// lines after the first.
pub open spec fn netstat_text_records(text: Seq<char>) -> Seq<TrafficRecordView> {
    let ls = lines(text);
    if ls.len() == 0 {
        seq![]
    } else {
        netstat_records(ls.drop_first())
    }
}

/// Where records have unique names, the record named `n` is the one `traffic_index` finds.
proof fn lemma_traffic_index(recs: Seq<TrafficRecordView>, n: Seq<char>)
    requires
        unique_traffic_names(recs),
    ensures
        traffic_index(recs, n) == -1 <==> (forall|k: int| 0 <= k < recs.len() ==> recs[k].0 != n),
        traffic_index(recs, n) != -1 ==> 0 <= traffic_index(recs, n) < recs.len() && recs[traffic_index(
            recs,
            n,
        )].0 == n,
        forall|k: int| 0 <= k < recs.len() && recs[k].0 == n ==> traffic_index(recs, n) == k,
    decreases recs.len(),
{
    if recs.len() > 0 {
        let init = recs.drop_last();
        assert(unique_traffic_names(init));
        lemma_traffic_index(init, n);
        if recs.last().0 != n {
            assert forall|k: int| 0 <= k < init.len() && init[k].0 == n implies recs[k].0 == n by {}
            assert forall|k: int| 0 <= k < recs.len() && recs[k].0 == n implies k < init.len()
                && init[k].0 == n by {}
        }
    }
}

/// Putting a record in keeps names unique.
proof fn lemma_put_unique(recs: Seq<TrafficRecordView>, r: TrafficRecordView)
    requires
        unique_traffic_names(recs),
    ensures
        unique_traffic_names(put_record(recs, r)),
{
    lemma_traffic_index(recs, r.0);
}

/// The records of any lines have unique names.
pub proof fn lemma_netstat_records_unique(ls: Seq<Seq<char>>)
    ensures
        unique_traffic_names(netstat_records(ls)),
    decreases ls.len(),
{
    if ls.len() > 0 {
        lemma_netstat_records_unique(ls.drop_last());
        if let Some(r) = line_record(words(ls.last())) {
            lemma_put_unique(netstat_records(ls.drop_last()), r);
        }
    }
}

/// The number in a column; see [`column_value`].
fn column(w: &Vec<char>) -> (r: u64)
    ensures
        r == column_value(w@),
{
    match parse_u64(w) {
        Some(v) => v,
        None => 0,
    }
}

/// The traffic record of the words of one line; see [`line_record`].
pub fn netstat_line_record(ws: &Vec<Vec<char>>) -> (r: Option<TrafficRecord>)
    ensures
        match r {
            Some(t) => line_record(texts(ws@)) == Some(t@),
            None => line_record(texts(ws@)) is None,
        },
{
    if ws.len() < 10 {
        return None;
    }
    let collisions: u64 = if ws.len() > 10 {
        column(&ws[10])
    } else {
        0
    };
    let counters: Counters = (
        column(&ws[6]),
        column(&ws[9]),
        column(&ws[4]),
        column(&ws[7]),
        column(&ws[5]),
        column(&ws[8]),
        collisions,
    );
    Some(TrafficRecord { name: string_of_chars(&ws[0]), counters })
}

/// Puts a record in: it replaces the record of its name, or is appended.
pub(crate) fn put_traffic_record(recs: &mut Vec<TrafficRecord>, r: TrafficRecord)
    requires
        unique_traffic_names(traffic_view(old(recs)@)),
    ensures
        traffic_view(final(recs)@) == put_record(traffic_view(old(recs)@), r@),
        unique_traffic_names(traffic_view(final(recs)@)),
{
    let ghost before = traffic_view(recs@);
    proof {
        lemma_traffic_index(before, r@.0);
        lemma_put_unique(before, r@);
    }
    let mut i: usize = 0;
    while i < recs.len()
        invariant
            i <= recs@.len(),
            before == traffic_view(recs@),
            before == traffic_view(old(recs)@),
            unique_traffic_names(before),
            forall|k: int| 0 <= k < i ==> recs@[k].name@ != r.name@,
        decreases recs@.len() - i,
    {
        if same_text(recs[i].name.as_str(), r.name.as_str()) {
            let ghost rv = r@;
            proof {
                lemma_traffic_index(before, rv.0);
                lemma_put_unique(before, rv);
            }
            assert(before[i as int].0 == rv.0);
            assert(traffic_index(before, rv.0) == i as int);
            assert(put_record(before, rv) == before.update(i as int, rv));
            recs.set(i, r);
            assert(traffic_view(recs@) =~= before.update(i as int, rv));
            return;
        }
        i = i + 1;
    }
    let ghost rv = r@;
    recs.push(r);
    assert(traffic_view(recs@) =~= before.push(rv));
}

/// The traffic records of the text of `netstat -ib` output; see [`netstat_text_records`].
pub fn parse_netstat_text(text: &str) -> (r: Vec<TrafficRecord>)
    ensures
        traffic_view(r@) == netstat_text_records(text@),
        unique_traffic_names(traffic_view(r@)),
{
    let cs = chars_of(text);
    let ls = split_lines(&cs);
    let mut recs: Vec<TrafficRecord> = Vec::new();
    if ls.len() == 0 {
        return recs;
    }
    let ghost body = texts(ls@).drop_first();
    let mut i: usize = 1;
    while i < ls.len()
        invariant
            1 <= i <= ls@.len(),
            body == texts(ls@).drop_first(),
            traffic_view(recs@) == netstat_records(body.take(i - 1)),
            unique_traffic_names(traffic_view(recs@)),
        decreases ls@.len() - i,
    {
        let ws = split_words(&ls[i]);
        proof {
            assert(body.take(i as int).drop_last() =~= body.take(i - 1));
            assert(body.take(i as int).last() == ls@[i as int]@);
        }
        match netstat_line_record(&ws) {
            Some(t) => {
                put_traffic_record(&mut recs, t);
            },
            None => {},
        }
        i = i + 1;
    }
    proof {
        assert(body.take(ls@.len() - 1) =~= body);
    }
    recs
}

/// The traffic records of the output of `netstat -ib`, decoded as UTF-8 with invalid
/// sequences replaced: for each interface name the counters of its last line.
pub fn parse_netstat_output(stdout: &[u8]) -> (r: Vec<TrafficRecord>)
    ensures
        traffic_view(r@) == netstat_text_records(utf8_lossy(stdout@)),
        unique_traffic_names(traffic_view(r@)),
{
    let text = decode_utf8_lossy(stdout);
    parse_netstat_text(text.as_str())
}

} // verus!
