//! The port scanner's engine: which ports a scan probes, what one probe
//! reports, and how reports are aggregated and presented.
//!
//! Probes run concurrently and each attempts one bounded-time connection
//! outside the library; the engine here fixes everything the probes do
//! not decide.  The enumeration covers the configured range exactly
//! once; a probe reports its port exactly when its connection attempt
//! succeeded; and the presentation order of the collected reports does
//! not depend on the order in which the probes finished.

use vstd::assert_multisets_equal;
use vstd::prelude::*;
use vstd::relations::sorted_by;
use vstd::relations::total_ordering;
use vstd::seq_lib::lemma_sorted_unique;
use vstd::string::StringExecFns;

use crate::text::decimal_digits_of;
use crate::text::push_decimal_u16;

verus! {

/// A scan of the ports `start ..= end` of one host, each probe bounded
/// by a timeout in milliseconds.
pub struct PortScanner {
    host: String,
    start: u16,
    end: u16,
    timeout: u64,
}

/// Mathematical model of a configured scan.
pub struct PortScannerModel {
    pub host: Seq<char>,
    pub start: u16,
    pub end: u16,
    pub timeout: u64,
}

impl View for PortScanner {
    type V = PortScannerModel;

    closed spec fn view(&self) -> PortScannerModel {
        PortScannerModel {
            host: self.host@,
            start: self.start,
            end: self.end,
            timeout: self.timeout,
        }
    }
}

/// The ports a scan of `[start, end]` probes, in ascending order; an
/// empty range probes nothing.
pub open spec fn port_range(start: u16, end: u16) -> Seq<u16> {
    if start > end {
        Seq::empty()
    } else {
        Seq::new((end - start + 1) as nat, |i: int| (start + i) as u16)
    }
}

/// The ascending order on port numbers.
pub open spec fn ascending() -> spec_fn(u16, u16) -> bool {
    |a: u16, b: u16| a <= b
}

impl PortScanner {
    /// A scan of the ports `start ..= end` of `host`, with the default
    /// timeout of 200 milliseconds per probe.
    pub fn new(host: &str, start: u16, end: u16) -> (s: Self)
        ensures
            s@.host == host@,
            s@.start == start,
            s@.end == end,
            s@.timeout == 200,
    {
        let host = host.to_owned();
        let timeout: u64 = 200;
        Self { host, start, end, timeout }
    }

    /// The same scan with each probe bounded by `timeout` milliseconds
    /// instead.
    pub fn with_timeout(self, timeout: u64) -> (s: Self)
        ensures
            s@.host == self@.host,
            s@.start == self@.start,
            s@.end == self@.end,
            s@.timeout == timeout,
    {
        Self { timeout, ..self }
    }

    /// The configured timeout, in milliseconds.
    pub fn timeout_millis(&self) -> (t: u64)
        ensures
            t == self@.timeout,
    {
        self.timeout
    }

    /// Every port the scan probes, in ascending order: exactly the
    /// range `start ..= end`, one probe per port, none outside it.
    pub fn ports_to_probe(&self) -> (ports: Vec<u16>)
        ensures
            ports@ == port_range(self@.start, self@.end),
    {
        let mut ports: Vec<u16> = Vec::new();
        if self.start > self.end {
            proof {
                assert(ports@ =~= port_range(self@.start, self@.end));
            }
            return ports;
        }
        let count: usize = (self.end - self.start) as usize + 1;
        let mut i: usize = 0;
        while i < count
            invariant
                self.start <= self.end,
                count == self@.end - self@.start + 1,
                i <= count,
                ports@.len() == i,
                forall|j: int| 0 <= j < i ==> ports@[j] == self@.start + j,
            decreases count - i,
        {
            ports.push(self.start + (i as u16));
            i = i + 1;
        }
        proof {
            assert(ports@ =~= port_range(self@.start, self@.end));
        }
        ports
    }

    /// The textual probe target for one port: `host:port`.
    pub fn probe_target(&self, port: u16) -> (t: String)
        ensures
            t@ == self@.host + seq![':'] + decimal_digits_of(port as int),
    {
        let mut out = self.host.clone();
        proof {
            reveal_strlit(":");
            assert(":"@ =~= seq![':']);
        }
        out.append(":");
        push_decimal_u16(port, &mut out);
        proof {
            assert(out@ =~= self@.host + seq![':'] + decimal_digits_of(port as int));
        }
        out
    }
}

/// What one probe reports: its port exactly when the bounded connection
/// attempt succeeded; nothing on a timeout, refusal or error.
pub fn probe_report(port: u16, connected: bool) -> (r: Option<u16>)
    ensures
        connected ==> r == Some(port),
        !connected ==> r is None,
{
    if connected {
        Some(port)
    } else {
        None
    }
}

/// Sorts collected reports for presentation: the result is ascending
/// and holds exactly the reported ports, multiplicity included.
pub fn sort_ports(ports: Vec<u16>) -> (r: Vec<u16>)
    ensures
        sorted_by(r@, ascending()),
        r@.to_multiset() == ports@.to_multiset(),
{
    let mut out: Vec<u16> = Vec::new();
    let mut k: usize = 0;
    proof {
        assert(ports@.subrange(0, 0) =~= Seq::<u16>::empty());
        assert_multisets_equal!(out@.to_multiset(), ports@.subrange(0, 0).to_multiset());
    }
    while k < ports.len()
        invariant
            k <= ports@.len(),
            sorted_by(out@, ascending()),
            out@.to_multiset() == ports@.subrange(0, k as int).to_multiset(),
        decreases ports@.len() - k,
    {
        let x: u16 = ports[k];
        let mut j: usize = 0;
        while j < out.len() && out[j] <= x
            invariant
                j <= out@.len(),
                forall|t: int| 0 <= t < j ==> out@[t] <= x,
            decreases out@.len() - j,
        {
            j = j + 1;
        }
        let ghost before = out@;
        out.insert(j, x);
        proof {
            assert(out@ == before.insert(j as int, x));
            before.insert_ensures(j as int, x);
            assert forall|a: int, b: int| 0 <= a < b < out@.len() implies ascending()(
                out@[a],
                out@[b],
            ) by {
                if b < j {
                    assert(out@[a] == before[a] && out@[b] == before[b]);
                } else if a > j {
                    assert(out@[a] == before[a - 1] && out@[b] == before[b - 1]);
                } else if a == j {
                    assert(out@[a] == x && out@[b] == before[b - 1]);
                    if j < before.len() {
                        assert(!(before[j as int] <= x));
                        if b - 1 > j {
                            assert(ascending()(before[j as int], before[b - 1]));
                        }
                    }
                } else if b == j {
                    assert(out@[a] == before[a] && out@[b] == x);
                } else {
                    // a < j < b
                    assert(out@[a] == before[a] && out@[b] == before[b - 1]);
                    assert(!(before[j as int] <= x));
                    if b - 1 > j {
                        assert(ascending()(before[j as int], before[b - 1]));
                    }
                    assert(out@[a] <= x);
                    assert(x <= out@[b]);
                }
            }
            vstd::seq_lib::to_multiset_insert(before, j as int, x);
            assert(before.insert(j as int, x).to_multiset() == before.to_multiset().insert(x));
            assert(ports@.subrange(0, k as int + 1) =~= ports@.subrange(0, k as int).push(
                ports@[k as int],
            ));
            vstd::seq_lib::to_multiset_build(ports@.subrange(0, k as int), ports@[k as int]);
            assert(ports@.subrange(0, k as int).push(ports@[k as int]).to_multiset()
                == ports@.subrange(0, k as int).to_multiset().insert(ports@[k as int]));
            assert(out@.to_multiset() == ports@.subrange(0, k as int + 1).to_multiset());
        }
        k = k + 1;
    }
    proof {
        assert(ports@.subrange(0, ports@.len() as int) =~= ports@);
    }
    out
}

/// LAW (range exactness and boundaries).  A scan probes a port exactly
/// when it lies in the configured range, never one outside it; each
/// port is probed once; a one-port range probes exactly that port; an
/// inverted range probes nothing.
pub proof fn lemma_port_range_exact(start: u16, end: u16)
    ensures
        forall|p: u16| port_range(start, end).contains(p) <==> start <= p <= end,
        port_range(start, end).no_duplicates(),
        start == end ==> port_range(start, end) =~= seq![start],
        start > end ==> port_range(start, end) =~= Seq::<u16>::empty(),
{
    assert forall|p: u16| port_range(start, end).contains(p) <==> start <= p <= end by {
        if start <= p <= end {
            assert(port_range(start, end)[p - start] == p);
        }
    }
}

/// LAW (the result set does not depend on probe completion order, and a
/// repeated scan with the same outcomes presents the same list).  Two
/// collections of reports that hold the same ports — in whatever order
/// the probes happened to finish — sort to the same presentation list,
/// and in particular name the same set of open ports.
pub proof fn lemma_scan_presentation_deterministic(r1: Seq<u16>, r2: Seq<u16>, s1: Seq<u16>, s2: Seq<u16>)
    requires
        r1.to_multiset() == r2.to_multiset(),
        sorted_by(s1, ascending()),
        sorted_by(s2, ascending()),
        s1.to_multiset() == r1.to_multiset(),
        s2.to_multiset() == r2.to_multiset(),
    ensures
        s1 == s2,
        r1.to_set() == r2.to_set(),
{
    lemma_ascending_total();
    lemma_sorted_unique(s1, s2, ascending());
    assert(s1 =~= s2);
    broadcast use vstd::seq_lib::group_to_multiset_ensures;

    assert forall|p: u16| r1.to_set().contains(p) <==> r2.to_set().contains(p) by {
        assert(r1.contains(p) <==> r1.to_multiset().count(p) > 0);
        assert(r2.contains(p) <==> r2.to_multiset().count(p) > 0);
    }
    assert(r1.to_set() =~= r2.to_set());
}

/// The ascending order on ports is a total order.
pub proof fn lemma_ascending_total()
    ensures
        total_ordering(ascending()),
{
}

/// The reports a full fan-out produces: one probe per port of the
/// range, in order, each reporting its port exactly when the port is
/// open.
pub open spec fn spec_scan_reports(start: u16, end: u16, open: Set<u16>) -> Seq<u16> {
    port_range(start, end).filter(|p: u16| open.contains(p))
}

proof fn lemma_filter_keeps_no_duplicates(s: Seq<u16>, pred: spec_fn(u16) -> bool)
    requires
        s.no_duplicates(),
    ensures
        s.filter(pred).no_duplicates(),
    decreases s.len(),
{
    reveal(Seq::filter);
    if s.len() > 0 {
        let rest = s.drop_last();
        let last = s.last();
        assert forall|i: int, j: int|
            0 <= i < rest.len() && 0 <= j < rest.len() && i != j implies rest[i] != rest[j] by {
            assert(rest[i] == s[i] && rest[j] == s[j]);
        }
        lemma_filter_keeps_no_duplicates(rest, pred);
        if pred(last) {
            let kept = rest.filter(pred);
            assert(!kept.contains(last)) by {
                if kept.contains(last) {
                    rest.lemma_filter_contains_rev(pred, last);
                    let i = choose|i: int| 0 <= i < rest.len() && rest[i] == last;
                    assert(s[i] == s[s.len() - 1]);
                }
            }
            assert forall|i: int, j: int|
                0 <= i < kept.push(last).len() && 0 <= j < kept.push(last).len() && i
                    != j implies kept.push(last)[i] != kept.push(last)[j] by {
                if i < kept.len() && j < kept.len() {
                    assert(kept.push(last)[i] == kept[i] && kept.push(last)[j] == kept[j]);
                } else if i < kept.len() {
                    assert(kept.push(last)[i] == kept[i] && kept.push(last)[j] == last);
                    assert(kept.contains(kept[i]));
                } else {
                    assert(kept.push(last)[i] == last && kept.push(last)[j] == kept[j]);
                    assert(kept.contains(kept[j]));
                }
            }
        }
    }
}

/// LAW (full fan-out, no double counting).  Probing every port of the
/// range exactly once, where exactly the ports in `open` accept a
/// connection, yields one report for each open in-range port — none
/// missing, none repeated — and no report for any other port.
pub proof fn lemma_scan_pipeline(start: u16, end: u16, open: Set<u16>)
    ensures
        forall|p: u16|
            #[trigger] spec_scan_reports(start, end, open).contains(p) <==> (start <= p <= end
                && open.contains(p)),
        spec_scan_reports(start, end, open).no_duplicates(),
{
    let range = port_range(start, end);
    let pred = |p: u16| open.contains(p);
    let reports = range.filter(pred);
    lemma_port_range_exact(start, end);
    lemma_filter_keeps_no_duplicates(range, pred);
    assert forall|p: u16| #[trigger] reports.contains(p) <==> (start <= p <= end
        && open.contains(p)) by {
        if reports.contains(p) {
            range.lemma_filter_contains_rev(pred, p);
            assert(range.contains(p));
            let i = choose|i: int| 0 <= i < reports.len() && reports[i] == p;
            range.lemma_filter_pred(pred, i);
            assert(pred(p));
        }
        if start <= p <= end && open.contains(p) {
            assert(range.contains(p));
            let i = choose|i: int| 0 <= i < range.len() && range[i] == p;
            assert(pred(range[i]));
            range.lemma_filter_contains(pred, i);
            assert(reports.contains(p));
        }
    }
}

/// LAW (aggregation is exact).  If every report names an open port of
/// the scanned range, and every open port of the range is reported,
/// then the reported set is exactly the open ports of the range —
/// ports outside the range never appear, whatever their state.
pub proof fn lemma_scan_result_exact(start: u16, end: u16, open: Set<u16>, reports: Seq<u16>)
    requires
        forall|p: u16| reports.contains(p) ==> start <= p <= end && open.contains(p),
        forall|p: u16| start <= p <= end && open.contains(p) ==> reports.contains(p),
    ensures
        forall|p: u16| reports.to_set().contains(p) <==> (start <= p <= end && open.contains(p)),
        forall|p: u16| !(start <= p <= end) ==> !reports.to_set().contains(p),
{
}

} // verus!
