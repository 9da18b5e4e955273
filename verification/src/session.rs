//! The trace session: per-event dispatch, call-stack correlation and trace
//! assembly.
//!
//! A session is created at attach time and fed every call and return event of
//! the observed program, in order.  Each event gets exactly one disposition
//! from the filter chain; recorded events append exactly one record to the
//! append-only buffer.  In segmented mode a start marker opens a fresh trace
//! and an end marker hands the finished segment back for storage; a manual
//! flush (or detach) hands back the full buffer.

use std::collections::HashMap;
use vstd::prelude::*;
use vstd::string::*;

verus! {

use crate::event::{back_line, find_back_line, BackFrame, EventKind, FrameEvent, LocalEntry};
use crate::filter::{classify, spec_disposition, Disposition, TraceConfig};
use crate::host::{now_micros, ulid_text};
use crate::path::{display_path, spec_display_path};
use crate::qualname::{resolve_qualname, spec_qualname};
use crate::record::{
    copy_records, same_records, CallerSite, FrameRecord, MarkerKind, Record, StructuredRecord,
};
use crate::text::starts_with_seq;

/// One entry of the live call stack: a recorded frame's identity key and the
/// frame id generated at its call event.
#[derive(Clone, Copy, Debug, PartialEq, Eq, Structural)]
pub struct StackEntry {
    pub key: u64,
    pub frame_id: u64,
}

/// The metadata flushed beside a trace's records.
pub struct TraceMeta {
    pub version: String,
    pub commit_sha: String,
    pub command_line: Vec<String>,
    /// Wall-clock time of attach, in microseconds since the epoch.
    pub timestamp_micros: u64,
}

/// One flushed trace: its id, its records in arrival order, and metadata.
pub struct TracePayload {
    pub trace_id: String,
    /// How many trace ids this session had handed out before this one; fresh
    /// trace ids carry a strictly larger number.
    pub trace_seq: u64,
    pub frames: Vec<Record>,
    pub meta: TraceMeta,
}

/// What one event did to the session.
pub enum EventOutcome {
    /// The event was filtered out; nothing was appended.
    Ignored,
    /// One record was appended.
    Recorded,
    /// One record was appended and it closed a segment: the payload is ready
    /// for the persistence sink.
    Flushed(TracePayload),
}

/// The collector's session state.
pub struct TraceSession {
    pub config: TraceConfig,
    /// The trace buffer, strictly append-only while the session lives.
    pub frames: Vec<Record>,
    /// How many trace ids have been handed out before the current one.
    pub trace_seq: u64,
    /// The current trace id.
    pub trace_id: String,
    /// Index of the first record of the currently open segment.
    pub start_index: usize,
    /// The live call stack of recorded frames.
    pub call_stack: Vec<StackEntry>,
    /// Frame identity key to the frame id generated at its call event.
    pub frame_ids: HashMap<u64, u64>,
    /// The next frame id to hand out; ids increase strictly.
    pub next_frame_seq: u64,
    /// Wall-clock time of attach, in microseconds since the epoch.
    pub attach_micros: u64,
    /// The most recent record timestamp; new stamps clamp against it, so the
    /// trace's timestamps never step backwards even if the clock does.
    pub last_micros: u64,
}

/// The shape of every trace id this collector generates.
pub open spec fn trace_id_form(s: Seq<char>) -> bool {
    s.len() == 30 && starts_with_seq(s, "trc_"@)
}

fn make_trace_id() -> (r: String)
    ensures
        trace_id_form(r@),
{
    let mut s = String::from_str("trc_");
    let u = ulid_text();
    s.append(u.as_str());
    proof {
        reveal_strlit("trc_");
        assert(s@.subrange(0, 4) =~= "trc_"@);
    }
    s
}

/// The frame id a record carries, if any.
pub open spec fn frame_id_of(r: Record) -> Option<u64> {
    match r {
        Record::Frame(fr) => fr.frame_id,
        Record::Structured(_) => None,
    }
}

/// A recorded call event: the records whose ids were fresh when appended.
pub open spec fn is_recorded_call(r: Record) -> bool {
    match r {
        Record::Frame(fr) => fr.event_kind is Call && fr.frame_id is Some,
        Record::Structured(_) => false,
    }
}

/// The id of a recorded call.
pub open spec fn call_id(r: Record) -> u64 {
    frame_id_of(r)->0
}

/// The frame record inside a plain record.
pub open spec fn as_frame(r: Record) -> FrameRecord
    recommends
        r is Frame,
{
    match r {
        Record::Frame(fr) => fr,
        Record::Structured(_) => arbitrary(),
    }
}

/// The structured record inside a structured entry.
pub open spec fn as_structured(r: Record) -> StructuredRecord
    recommends
        r is Structured,
{
    match r {
        Record::Frame(_) => arbitrary(),
        Record::Structured(st) => st,
    }
}

/// The payload inside a `Flushed` outcome.
pub open spec fn flushed_payload(out: EventOutcome) -> TracePayload
    recommends
        out is Flushed,
{
    match out {
        EventOutcome::Flushed(p) => p,
        _ => arbitrary(),
    }
}

/// Every id a record carries stays below the generator's next value.
pub open spec fn id_bound(r: Record, n: u64) -> bool {
    match frame_id_of(r) {
        Some(id) => id < n,
        None => true,
    }
}

/// The wall-clock stamp a record carries.
pub open spec fn record_stamp(r: Record) -> u64 {
    match r {
        Record::Frame(fr) => fr.timestamp_micros,
        Record::Structured(st) => st.timestamp_micros,
    }
}

/// A snapshot string is the serialized value, or the placeholder where
/// serialization failed.
pub open spec fn snapshot_matches(snap: Seq<char>, src: Option<String>) -> bool {
    match src {
        Some(s) => snap == s@,
        None => snap == "<unserializable>"@,
    }
}

/// The locals snapshot carries every local, in order, each degraded to the
/// placeholder where its serialization failed.
pub open spec fn locals_match(snap: Seq<(String, String)>, src: Seq<LocalEntry>) -> bool {
    &&& snap.len() == src.len()
    &&& forall|i: int|
        0 <= i < src.len() ==> (#[trigger] snap[i]).0@ == src[i].name@ && snapshot_matches(
            snap[i].1@,
            src[i].value,
        )
}

/// The caller site recorded for a call event: the stack top's id, and that
/// frame's line number as delivered with this very event.
pub open spec fn spec_caller_site(
    stack: Seq<StackEntry>,
    kind: EventKind,
    back: Seq<BackFrame>,
) -> Option<CallerSite> {
    if kind is Call && stack.len() > 0 {
        Some(
            CallerSite {
                call_frame_id: stack.last().frame_id,
                line_number: back_line(back, stack.last().key),
            },
        )
    } else {
        None
    }
}

impl TraceSession {
    /// Session well-formedness: the open segment lies inside the buffer, and
    /// every id ever handed out stays below the generator and was handed out
    /// in strictly increasing order.
    pub open spec fn wf(self) -> bool {
        &&& self.start_index <= self.frames@.len()
        &&& (forall|i: int|
            0 <= i < self.frames@.len() ==> id_bound(#[trigger] self.frames@[i],
            self.next_frame_seq))
        &&& (forall|i: int, j: int|
            0 <= i < j < self.frames@.len() && is_recorded_call(self.frames@[i])
                && is_recorded_call(self.frames@[j]) ==> call_id(self.frames@[i]) < call_id(
                self.frames@[j],
            ))
        &&& (forall|i: int|
            0 <= i < self.call_stack@.len() ==> (#[trigger] self.call_stack@[i]).frame_id
                < self.next_frame_seq)
        &&& (forall|k: u64|
            self.frame_ids@.contains_key(k) ==> #[trigger] self.frame_ids@[k]
                < self.next_frame_seq)
        &&& (forall|i: int|
            0 <= i < self.frames@.len() ==> record_stamp(#[trigger] self.frames@[i])
                <= self.last_micros)
        &&& (forall|i: int, j: int|
            0 <= i < j < self.frames@.len() ==> record_stamp(self.frames@[i]) <= record_stamp(
                self.frames@[j],
            ))
    }

    /// The currently open segment: the buffer from the segment start on.
    pub open spec fn segment(self) -> Seq<Record> {
        self.frames@.subrange(self.start_index as int, self.frames@.len() as int)
    }

    /// Attaches a collector: an empty buffer, an empty stack, and a freshly
    /// generated trace id.
    pub fn attach(config: TraceConfig) -> (s: TraceSession)
        ensures
            s.wf(),
            s.config == config,
            s.frames@.len() == 0,
            s.call_stack@.len() == 0,
            s.frame_ids@ == Map::<u64, u64>::empty(),
            s.next_frame_seq == 0,
            s.trace_seq == 0,
            s.start_index == 0,
            trace_id_form(s.trace_id@),
            s.last_micros == s.attach_micros,
    {
        let t = now_micros();
        TraceSession {
            config,
            frames: Vec::new(),
            trace_seq: 0,
            trace_id: make_trace_id(),
            start_index: 0,
            call_stack: Vec::new(),
            frame_ids: HashMap::new(),
            next_frame_seq: 0,
            attach_micros: t,
            last_micros: t,
        }
    }

    /// Whether another event can still be numbered; a session that has
    /// handed out the largest id must be detached.
    pub fn has_capacity(&self) -> (r: bool)
        ensures
            r == (self.next_frame_seq < u64::MAX && self.trace_seq < u64::MAX),
    {
        self.next_frame_seq < u64::MAX && self.trace_seq < u64::MAX
    }
}

/// Fields no event ever changes.
pub open spec fn post_common(pre: TraceSession, post: TraceSession) -> bool {
    &&& post.config == pre.config
    &&& post.attach_micros == pre.attach_micros
}

/// An ignored event changes nothing.
pub open spec fn post_ignored(pre: TraceSession, post: TraceSession) -> bool {
    &&& post_common(pre, post)
    &&& post.frames@ == pre.frames@
    &&& post.call_stack@ == pre.call_stack@
    &&& post.frame_ids@ == pre.frame_ids@
    &&& post.next_frame_seq == pre.next_frame_seq
    &&& post.trace_seq == pre.trace_seq
    &&& post.trace_id == pre.trace_id
    &&& post.start_index == pre.start_index
    &&& post.last_micros == pre.last_micros
}

/// The frame record a plain event appends, field for field.  The timestamp
/// is the clock's; the session postcondition bounds it below by the previous
/// stamp, so it is not pinned here.
pub open spec fn plain_record_for(pre: TraceSession, ev: FrameEvent, r: FrameRecord) -> bool {
    &&& r.path@ == spec_display_path(ev.canon_path@, pre.config.working_dir@, ev.line)
    &&& r.function_name@ == spec_qualname(ev.name@, ev.qual)
    &&& r.co_name@ == ev.name@
    &&& r.event_kind == ev.kind
    &&& r.caller_site == spec_caller_site(pre.call_stack@, ev.kind, ev.back@)
    &&& r.frame_id == (match ev.kind {
        EventKind::Call => Some(pre.next_frame_seq),
        EventKind::Return => if pre.frame_ids@.contains_key(ev.key) {
            Some(pre.frame_ids@[ev.key])
        } else {
            None
        },
    })
    &&& snapshot_matches(r.argument_snapshot@, ev.arg)
    &&& locals_match(r.locals_snapshot@, ev.locals@)
}

/// What a plain event does to the session.
pub open spec fn post_plain(pre: TraceSession, post: TraceSession, ev: FrameEvent) -> bool {
    &&& post_common(pre, post)
    &&& post.frames@.len() == pre.frames@.len() + 1
    &&& post.frames@ == pre.frames@.push(post.frames@.last())
    &&& post.frames@.last() is Frame
    &&& plain_record_for(pre, ev, as_frame(post.frames@.last()))
    &&& (ev.kind is Call ==> {
        &&& post.next_frame_seq == pre.next_frame_seq + 1
        &&& post.call_stack@ == pre.call_stack@.push(
            StackEntry { key: ev.key, frame_id: pre.next_frame_seq },
        )
        &&& post.frame_ids@ == pre.frame_ids@.insert(ev.key, pre.next_frame_seq)
    })
    &&& (ev.kind is Return ==> {
        &&& post.next_frame_seq == pre.next_frame_seq
        &&& post.call_stack@ == (if pre.call_stack@.len() > 0 {
            pre.call_stack@.drop_last()
        } else {
            pre.call_stack@
        })
        &&& post.frame_ids@ == pre.frame_ids@
    })
    &&& post.trace_seq == pre.trace_seq
    &&& post.trace_id == pre.trace_id
    &&& post.start_index == pre.start_index
    &&& post.last_micros == record_stamp(post.frames@.last())
    &&& post.last_micros >= pre.last_micros
}

/// The structured record the framework rule at `idx` emits, field for field.
/// The timestamp is the clock's; the session postcondition bounds it below by
/// the previous stamp, so it is not pinned here.
pub open spec fn structured_record_for(
    pre: TraceSession,
    ev: FrameEvent,
    idx: int,
    st: StructuredRecord,
) -> bool {
    &&& st.marker == pre.config.framework_rules@[idx].marker
    &&& st.label@ == pre.config.framework_rules@[idx].label@
    &&& st.path@ == spec_display_path(ev.canon_path@, pre.config.working_dir@, ev.line)
    &&& st.co_name@ == ev.name@
    &&& st.event_kind == ev.kind
    &&& snapshot_matches(st.argument_snapshot@, ev.arg)
}

/// What a structured event does to the session.  In segmented mode a
/// start marker regenerates the trace id and opens the segment at the marker
/// itself; any other marker leaves the trace identity alone.
pub open spec fn post_structured(
    pre: TraceSession,
    post: TraceSession,
    ev: FrameEvent,
    idx: int,
) -> bool {
    &&& post_common(pre, post)
    &&& post.frames@.len() == pre.frames@.len() + 1
    &&& post.frames@ == pre.frames@.push(post.frames@.last())
    &&& post.frames@.last() is Structured
    &&& structured_record_for(pre, ev, idx, as_structured(post.frames@.last()))
    &&& post.call_stack@ == pre.call_stack@
    &&& post.frame_ids@ == pre.frame_ids@
    &&& post.next_frame_seq == pre.next_frame_seq
    &&& (if pre.config.one_trace_per_test && pre.config.framework_rules@[idx].marker
        is StartTest {
        &&& post.trace_seq == pre.trace_seq + 1
        &&& trace_id_form(post.trace_id@)
        &&& post.start_index + 1 == post.frames@.len()
    } else {
        &&& post.trace_seq == pre.trace_seq
        &&& post.trace_id == pre.trace_id
        &&& post.start_index == pre.start_index
    })
    &&& post.last_micros == record_stamp(post.frames@.last())
    &&& post.last_micros >= pre.last_micros
}

/// A payload carries the session's trace identity and metadata.
pub open spec fn payload_meta_ok(s: TraceSession, p: TracePayload) -> bool {
    &&& p.trace_id@ == s.trace_id@
    &&& p.trace_seq == s.trace_seq
    &&& p.meta.version == s.config.version
    &&& p.meta.commit_sha == s.config.commit_sha
    &&& p.meta.command_line@ == s.config.command_line@
    &&& p.meta.timestamp_micros == s.attach_micros
}

fn snapshot_of(src: &Option<String>) -> (r: String)
    ensures
        snapshot_matches(r@, *src),
{
    match src {
        Some(s) => s.clone(),
        None => String::from_str("<unserializable>"),
    }
}

fn locals_of(src: &Vec<LocalEntry>) -> (r: Vec<(String, String)>)
    ensures
        locals_match(r@, src@),
{
    let mut r: Vec<(String, String)> = Vec::new();
    let mut i: usize = 0;
    while i < src.len()
        invariant
            i <= src@.len(),
            r@.len() == i,
            forall|k: int|
                0 <= k < i ==> (#[trigger] r@[k]).0@ == src@[k].name@ && snapshot_matches(
                    r@[k].1@,
                    src@[k].value,
                ),
        decreases src@.len() - i,
    {
        let ghost prev = r@;
        let entry = (src[i].name.clone(), snapshot_of(&src[i].value));
        r.push(entry);
        proof {
            assert forall|k: int| 0 <= k < i + 1 implies (#[trigger] r@[k]).0@ == src@[k].name@
                && snapshot_matches(r@[k].1@, src@[k].value) by {
                if k < i {
                    assert(r@[k] == prev[k]);
                } else {
                    assert(r@[k] == entry);
                }
            }
        }
        i += 1;
    }
    r
}

fn copy_strings(v: &Vec<String>) -> (c: Vec<String>)
    ensures
        c@ == v@,
{
    let mut c: Vec<String> = Vec::new();
    let mut i: usize = 0;
    while i < v.len()
        invariant
            i <= v@.len(),
            c@ =~= v@.subrange(0, i as int),
        decreases v@.len() - i,
    {
        c.push(v[i].clone());
        i += 1;
    }
    proof {
        assert(c@ =~= v@);
    }
    c
}

impl TraceSession {
    fn meta_now(&self) -> (m: TraceMeta)
        ensures
            m.version == self.config.version,
            m.commit_sha == self.config.commit_sha,
            m.command_line@ == self.config.command_line@,
            m.timestamp_micros == self.attach_micros,
    {
        TraceMeta {
            version: self.config.version.clone(),
            commit_sha: self.config.commit_sha.clone(),
            command_line: copy_strings(&self.config.command_line),
            timestamp_micros: self.attach_micros,
        }
    }

    /// Copies the open segment out as a payload; the buffer is untouched, so
    /// a failed store can safely be retried with the same slice.
    fn flush_segment(&self) -> (p: TracePayload)
        requires
            self.start_index <= self.frames@.len(),
        ensures
            same_records(p.frames@, self.segment()),
            payload_meta_ok(*self, p),
    {
        TracePayload {
            trace_id: self.trace_id.clone(),
            trace_seq: self.trace_seq,
            frames: copy_records(&self.frames, self.start_index),
            meta: self.meta_now(),
        }
    }

    /// The manual flush: the full buffer from index 0 under the session's
    /// current trace id.  The buffer is untouched, so a failed store can
    /// safely be retried.
    pub fn flush_all(&self) -> (p: TracePayload)
        ensures
            same_records(p.frames@, self.frames@),
            payload_meta_ok(*self, p),
    {
        let p = TracePayload {
            trace_id: self.trace_id.clone(),
            trace_seq: self.trace_seq,
            frames: copy_records(&self.frames, 0),
            meta: self.meta_now(),
        };
        proof {
            assert(self.frames@.subrange(0, self.frames@.len() as int) =~= self.frames@);
        }
        p
    }

    /// Detaches the collector: the whole buffer is handed back for storage
    /// rather than discarded, and the session state is released.
    pub fn detach(self) -> (p: TracePayload)
        ensures
            p.frames@ == self.frames@,
            payload_meta_ok(self, p),
    {
        let meta = self.meta_now();
        TracePayload {
            trace_id: self.trace_id,
            trace_seq: self.trace_seq,
            frames: self.frames,
            meta,
        }
    }

    /// The next record's timestamp: the wall clock, clamped against the most
    /// recent stamp so that trace timestamps never step backwards.
    fn next_stamp(&mut self) -> (t: u64)
        ensures
            t >= old(self).last_micros,
            final(self).last_micros == t,
            final(self).config == old(self).config,
            final(self).frames@ == old(self).frames@,
            final(self).trace_seq == old(self).trace_seq,
            final(self).trace_id == old(self).trace_id,
            final(self).start_index == old(self).start_index,
            final(self).call_stack@ == old(self).call_stack@,
            final(self).frame_ids@ == old(self).frame_ids@,
            final(self).next_frame_seq == old(self).next_frame_seq,
            final(self).attach_micros == old(self).attach_micros,
    {
        let now = now_micros();
        let t = if now > self.last_micros {
            now
        } else {
            self.last_micros
        };
        self.last_micros = t;
        t
    }

    fn record_plain(&mut self, ev: &FrameEvent)
        requires
            old(self).wf(),
            old(self).next_frame_seq < u64::MAX,
        ensures
            final(self).wf(),
            post_plain(*old(self), *final(self), *ev),
    {
        let caller_site: Option<CallerSite> = match ev.kind {
            EventKind::Call => {
                if self.call_stack.len() > 0 {
                    let top = self.call_stack[self.call_stack.len() - 1];
                    Some(
                        CallerSite {
                            call_frame_id: top.frame_id,
                            line_number: find_back_line(&ev.back, top.key),
                        },
                    )
                } else {
                    None
                }
            },
            EventKind::Return => None,
        };
        let frame_id: Option<u64> = match ev.kind {
            EventKind::Call => {
                let id = self.next_frame_seq;
                self.next_frame_seq = id + 1;
                self.frame_ids.insert(ev.key, id);
                self.call_stack.push(StackEntry { key: ev.key, frame_id: id });
                Some(id)
            },
            EventKind::Return => {
                self.call_stack.pop();
                match self.frame_ids.get(&ev.key) {
                    Some(v) => Some(*v),
                    None => None,
                }
            },
        };
        let stamp = self.next_stamp();
        let rec = FrameRecord {
            path: display_path(ev.canon_path.as_str(), self.config.working_dir.as_str(), ev.line),
            function_name: resolve_qualname(ev.name.as_str(), &ev.qual),
            co_name: ev.name.clone(),
            event_kind: ev.kind,
            frame_id,
            caller_site,
            argument_snapshot: snapshot_of(&ev.arg),
            locals_snapshot: locals_of(&ev.locals),
            timestamp_micros: stamp,
        };
        self.frames.push(Record::Frame(rec));
    }

    /// Feeds one event through the filter chain and, where it is recorded,
    /// appends exactly one record; a segment-closing marker hands the
    /// finished segment back for storage.
    pub fn on_event(&mut self, ev: &FrameEvent) -> (out: EventOutcome)
        requires
            old(self).wf(),
            old(self).next_frame_seq < u64::MAX,
            old(self).trace_seq < u64::MAX,
        ensures
            final(self).wf(),
            (match spec_disposition(old(self).config, *ev) {
                Disposition::Ignore => post_ignored(*old(self), *final(self)) && out is Ignored,
                Disposition::RecordPlain => post_plain(*old(self), *final(self), *ev) && out
                    is Recorded,
                Disposition::RecordStructured(i) => {
                    &&& post_structured(*old(self), *final(self), *ev, i as int)
                    &&& (if old(self).config.one_trace_per_test
                        && old(self).config.framework_rules@[i as int].marker is EndTest {
                        &&& out is Flushed
                        &&& same_records(flushed_payload(out).frames@, final(self).segment())
                        &&& payload_meta_ok(*final(self), flushed_payload(out))
                    } else {
                        out is Recorded
                    })
                },
            }),
    {
        let disp = classify(&self.config, ev);
        match disp {
            Disposition::Ignore => EventOutcome::Ignored,
            Disposition::RecordPlain => {
                self.record_plain(ev);
                EventOutcome::Recorded
            },
            Disposition::RecordStructured(i) => {
                proof {
                    if crate::filter::first_rule(self.config.framework_rules@, *ev) is Some {
                        crate::filter::lemma_first_rule_in_range(
                            self.config.framework_rules@,
                            *ev,
                        );
                    }
                }
                let marker = self.config.framework_rules[i].marker;
                let stamp = self.next_stamp();
                let rec = StructuredRecord {
                    marker,
                    label: self.config.framework_rules[i].label.clone(),
                    path: display_path(
                        ev.canon_path.as_str(),
                        self.config.working_dir.as_str(),
                        ev.line,
                    ),
                    co_name: ev.name.clone(),
                    event_kind: ev.kind,
                    argument_snapshot: snapshot_of(&ev.arg),
                    timestamp_micros: stamp,
                };
                self.frames.push(Record::Structured(rec));
                if self.config.one_trace_per_test {
                    match marker {
                        MarkerKind::StartTest => {
                            self.trace_seq = self.trace_seq + 1;
                            self.trace_id = make_trace_id();
                            self.start_index = self.frames.len() - 1;
                            EventOutcome::Recorded
                        },
                        MarkerKind::EndTest => {
                            let payload = self.flush_segment();
                            EventOutcome::Flushed(payload)
                        },
                        MarkerKind::Note => EventOutcome::Recorded,
                    }
                } else {
                    EventOutcome::Recorded
                }
            },
        }
    }
}

/// Law: frame ids are pairwise distinct and increase monotonically in
/// generation order across the whole trace buffer.
pub proof fn lemma_frame_ids_monotone(s: TraceSession, i: int, j: int)
    requires
        s.wf(),
        0 <= i < j < s.frames@.len(),
        is_recorded_call(s.frames@[i]),
        is_recorded_call(s.frames@[j]),
    ensures
        call_id(s.frames@[i]) < call_id(s.frames@[j]),
        frame_id_of(s.frames@[i]) != frame_id_of(s.frames@[j]),
{
}

/// Law: record timestamps are nondecreasing across the buffer, in arrival
/// order — the wall clock is clamped against the previous stamp, so a clock
/// that steps backwards cannot reorder the trace.
pub proof fn lemma_timestamps_monotone(s: TraceSession, i: int, j: int)
    requires
        s.wf(),
        0 <= i <= j < s.frames@.len(),
    ensures
        record_stamp(s.frames@[i]) <= record_stamp(s.frames@[j]),
{
}

/// Law: a recorded event extends the open segment by exactly its own record,
/// and history before the segment start is untouched.
pub proof fn lemma_segment_extends(pre: TraceSession, post: TraceSession, r: Record)
    requires
        pre.start_index <= pre.frames@.len(),
        post.frames@ == pre.frames@.push(r),
        post.start_index == pre.start_index,
    ensures
        post.segment() == pre.segment().push(r),
        post.frames@.subrange(0, pre.frames@.len() as int) == pre.frames@,
{
    assert(post.segment() =~= pre.segment().push(r));
    assert(post.frames@.subrange(0, pre.frames@.len() as int) =~= pre.frames@);
}

/// A recorded event that leaves the segment start alone: it appends exactly
/// one record.  Both a plain frame and a non-opening structured event take
/// this shape.
pub open spec fn recording_step(pre: TraceSession, post: TraceSession) -> bool {
    &&& pre.start_index <= pre.frames@.len()
    &&& post.frames@ == pre.frames@.push(post.frames@.last())
    &&& post.start_index == pre.start_index
}

/// The records the steps of a chain of sessions appended, in arrival order.
pub open spec fn appended_records(chain: Seq<TraceSession>) -> Seq<Record> {
    Seq::new((chain.len() - 1) as nat, |i: int| chain[i + 1].frames@.last())
}

/// Law: a segment-opening marker leaves the open segment holding exactly
/// that marker record.
pub proof fn lemma_segment_opens_at_marker(pre: TraceSession, post: TraceSession)
    requires
        post.frames@ == pre.frames@.push(post.frames@.last()),
        post.start_index + 1 == post.frames@.len(),
    ensures
        post.segment() == seq![post.frames@.last()],
{
    assert(post.segment() =~= seq![post.frames@.last()]);
}

/// Law: across any run of recorded events that do not move the segment
/// start, the open segment is exactly the segment as the run found it
/// followed by the run's own records, in arrival order.  With the opening
/// marker's law this pins a flushed segment to the start marker, the
/// recorded frames, and the closing marker, and nothing else.
pub proof fn lemma_segment_accumulates(chain: Seq<TraceSession>)
    requires
        chain.len() >= 1,
        forall|i: int| 0 <= i < chain.len() - 1 ==> recording_step(#[trigger] chain[i], chain[i + 1]),
    ensures
        chain.last().segment() == chain.first().segment() + appended_records(chain),
    decreases chain.len(),
{
    if chain.len() == 1 {
        assert(chain.last().segment() =~= chain.first().segment() + appended_records(chain));
    } else {
        let prefix = chain.drop_last();
        lemma_segment_accumulates(prefix);
        let pre = chain[chain.len() - 2];
        let post = chain.last();
        lemma_segment_extends(pre, post, post.frames@.last());
        assert(appended_records(chain) =~= appended_records(prefix).push(post.frames@.last()));
        assert(chain.first().segment() + appended_records(chain) =~= (chain.first().segment()
            + appended_records(prefix)).push(post.frames@.last()));
    }
}

} // verus!
