//! The records the collector appends to a trace: plain frame records and the
//! structured events produced by the built-in framework rules.

use vstd::prelude::*;

verus! {

use crate::event::EventKind;

/// The nearest currently-active recorded caller of a frame, captured at the
/// moment of the call.
#[derive(Clone, Copy, Debug, PartialEq, Eq, Structural)]
pub struct CallerSite {
    /// The frame id generated for the caller frame.
    pub call_frame_id: u64,
    /// The caller frame's line number as read at the moment of this call.
    pub line_number: u32,
}

/// One observed call or return event that passed filtering.
pub struct FrameRecord {
    /// Project-relative source location, as `file:line`.
    pub path: String,
    /// Best-effort fully qualified dotted name.
    pub function_name: String,
    /// The raw code name.
    pub co_name: String,
    pub event_kind: EventKind,
    /// The id generated at this activation's call event; `None` on the
    /// return of a frame whose call was never recorded.
    pub frame_id: Option<u64>,
    pub caller_site: Option<CallerSite>,
    /// The serialized event argument, degraded to a placeholder on failure.
    pub argument_snapshot: String,
    /// The serialized locals, each degraded to a placeholder on failure.
    pub locals_snapshot: Vec<(String, String)>,
    /// Wall-clock time of the event, in microseconds since the epoch.
    pub timestamp_micros: u64,
}

/// What a structured event means to trace segmentation.
#[derive(Clone, Copy, Debug, PartialEq, Eq, Structural)]
pub enum MarkerKind {
    /// Opens a new segment.
    StartTest,
    /// Closes the current segment and flushes it.
    EndTest,
    /// Carries framework context without touching segmentation.
    Note,
}

/// A structured event emitted by a built-in framework rule in place of a
/// plain frame record.
pub struct StructuredRecord {
    pub marker: MarkerKind,
    /// The emitting rule's label, e.g. `"start_test"`.
    pub label: String,
    /// Project-relative source location of the matched frame.
    pub path: String,
    /// The raw code name of the matched frame.
    pub co_name: String,
    pub event_kind: EventKind,
    /// The serialized event argument, degraded to a placeholder on failure.
    pub argument_snapshot: String,
    /// Wall-clock time of the event, in microseconds since the epoch.
    pub timestamp_micros: u64,
}

/// One entry of a trace, in event arrival order.
pub enum Record {
    Frame(FrameRecord),
    Structured(StructuredRecord),
}

/// Two frame records hold the same content, field for field; the locals are
/// compared entry by entry.
pub open spec fn same_frame(x: FrameRecord, y: FrameRecord) -> bool {
    &&& x.path == y.path
    &&& x.function_name == y.function_name
    &&& x.co_name == y.co_name
    &&& x.event_kind == y.event_kind
    &&& x.frame_id == y.frame_id
    &&& x.caller_site == y.caller_site
    &&& x.argument_snapshot == y.argument_snapshot
    &&& x.locals_snapshot@ == y.locals_snapshot@
    &&& x.timestamp_micros == y.timestamp_micros
}

/// Two records hold the same content.
pub open spec fn same_record(a: Record, b: Record) -> bool {
    match (a, b) {
        (Record::Frame(x), Record::Frame(y)) => same_frame(x, y),
        (Record::Structured(x), Record::Structured(y)) => x == y,
        _ => false,
    }
}

/// Two record sequences hold the same content, record for record.
pub open spec fn same_records(a: Seq<Record>, b: Seq<Record>) -> bool {
    a.len() == b.len() && forall|i: int| 0 <= i < a.len() ==> same_record(a[i], b[i])
}

fn copy_pairs(v: &Vec<(String, String)>) -> (c: Vec<(String, String)>)
    ensures
        c@ == v@,
{
    let mut c: Vec<(String, String)> = Vec::new();
    let mut i: usize = 0;
    while i < v.len()
        invariant
            i <= v@.len(),
            c@ =~= v@.subrange(0, i as int),
        decreases v@.len() - i,
    {
        let pair = (v[i].0.clone(), v[i].1.clone());
        assert(pair == v@[i as int]);
        c.push(pair);
        i += 1;
    }
    proof {
        assert(c@ =~= v@);
    }
    c
}

/// A value-preserving copy of one record.
pub fn copy_record(r: &Record) -> (c: Record)
    ensures
        same_record(c, *r),
{
    match r {
        Record::Frame(fr) => {
            let c = FrameRecord {
                path: fr.path.clone(),
                function_name: fr.function_name.clone(),
                co_name: fr.co_name.clone(),
                event_kind: fr.event_kind,
                frame_id: fr.frame_id,
                caller_site: fr.caller_site,
                argument_snapshot: fr.argument_snapshot.clone(),
                locals_snapshot: copy_pairs(&fr.locals_snapshot),
                timestamp_micros: fr.timestamp_micros,
            };
            Record::Frame(c)
        },
        Record::Structured(st) => {
            let c = StructuredRecord {
                marker: st.marker,
                label: st.label.clone(),
                path: st.path.clone(),
                co_name: st.co_name.clone(),
                event_kind: st.event_kind,
                argument_snapshot: st.argument_snapshot.clone(),
                timestamp_micros: st.timestamp_micros,
            };
            assert(c == *st);
            Record::Structured(c)
        },
    }
}

/// A content-preserving copy of a contiguous slice of records.
pub fn copy_records(v: &Vec<Record>, start: usize) -> (c: Vec<Record>)
    requires
        start <= v@.len(),
    ensures
        same_records(c@, v@.subrange(start as int, v@.len() as int)),
{
    let mut c: Vec<Record> = Vec::new();
    let mut i: usize = start;
    while i < v.len()
        invariant
            start <= i <= v@.len(),
            same_records(c@, v@.subrange(start as int, i as int)),
        decreases v@.len() - i,
    {
        c.push(copy_record(&v[i]));
        i += 1;
    }
    c
}

} // verus!
