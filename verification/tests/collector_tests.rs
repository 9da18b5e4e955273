//! Session-level behavior: dispositions, ids, caller sites, segmentation,
//! flushing and the sink round trip.

use kolo::event::{BackFrame, EventKind, FrameEvent, LocalEntry, QualSource};
use kolo::filter::TraceConfig;
use kolo::record::{MarkerKind, Record};
use kolo::session::{EventOutcome, TraceSession};
use kolo::sink::MemorySink;

fn no_qual() -> QualSource {
    QualSource {
        co_qualname: None,
        module: None,
        caller_local: None,
        self_attr: None,
        cls_attr: None,
        local_override: None,
        global_attr: None,
    }
}

fn plain_event(kind: EventKind, key: u64, path: &str, name: &str, line: u32) -> FrameEvent {
    FrameEvent {
        kind,
        key,
        filename: String::from(path),
        name: String::from(name),
        line,
        canon_path: String::from(path),
        back: Vec::new(),
        qual: no_qual(),
        arg: None,
        locals: Vec::new(),
        receiver_is_task: false,
        code_not_update_compiler: false,
    }
}

fn config(inc: Vec<&str>, ignore: Vec<&str>, segmented: bool) -> TraceConfig {
    TraceConfig::standard(
        inc.into_iter().map(String::from).collect(),
        ignore.into_iter().map(String::from).collect(),
        segmented,
        String::from("/workdir"),
        String::from("9.9.9"),
        String::from("0000commit"),
        vec![String::from("prog")],
    )
}

fn frame_of(r: &Record) -> &kolo::record::FrameRecord {
    match r {
        Record::Frame(fr) => fr,
        Record::Structured(_) => panic!("expected a plain frame record"),
    }
}

fn structured_of(r: &Record) -> &kolo::record::StructuredRecord {
    match r {
        Record::Structured(st) => st,
        Record::Frame(_) => panic!("expected a structured record"),
    }
}

#[test]
fn plain_call_with_empty_stack() {
    let mut s = TraceSession::attach(config(vec![], vec![], false));
    let ev = plain_event(EventKind::Call, 7, "/proj/app.py", "handler", 10);
    let out = s.on_event(&ev);
    assert!(matches!(out, EventOutcome::Recorded));
    assert_eq!(s.frames.len(), 1);
    let fr = frame_of(&s.frames[0]);
    assert_eq!(fr.event_kind, EventKind::Call);
    assert!(fr.caller_site.is_none());
    assert_eq!(fr.path, "/proj/app.py:10");
    assert_eq!(fr.co_name, "handler");
    assert_eq!(fr.function_name, "unknown");
    assert_eq!(fr.frame_id, Some(0));
    assert_eq!(fr.argument_snapshot, "<unserializable>");
}

#[test]
fn include_pattern_overrides_builtin_ignore() {
    let mut s = TraceSession::attach(config(vec!["myapp"], vec![], false));
    let ev = plain_event(
        EventKind::Call,
        1,
        "/venv/lib/python3.11/site-packages/myapp/views.py",
        "render_view",
        3,
    );
    s.on_event(&ev);
    assert_eq!(s.frames.len(), 1);
    assert!(matches!(s.frames[0], Record::Frame(_)));
}

#[test]
fn site_packages_path_is_dropped() {
    let mut s = TraceSession::attach(config(vec![], vec![], false));
    let ev = plain_event(
        EventKind::Call,
        1,
        "/venv/lib/python3.11/site-packages/lib/helper.py",
        "helper",
        3,
    );
    let out = s.on_event(&ev);
    assert!(matches!(out, EventOutcome::Ignored));
    assert_eq!(s.frames.len(), 0);
}

#[test]
fn explicit_ignore_pattern_drops_project_code() {
    let mut s = TraceSession::attach(config(vec![], vec!["generated"], false));
    let ev = plain_event(EventKind::Call, 1, "/proj/generated/models.py", "build", 8);
    let out = s.on_event(&ev);
    assert!(matches!(out, EventOutcome::Ignored));
    assert_eq!(s.frames.len(), 0);
}

#[test]
fn frame_ids_distinct_and_monotone() {
    let mut s = TraceSession::attach(config(vec![], vec![], false));
    for k in 0..5u64 {
        let ev = plain_event(EventKind::Call, 100 + k, "/proj/app.py", "f", 1 + k as u32);
        s.on_event(&ev);
    }
    let mut ids = Vec::new();
    for r in &s.frames {
        ids.push(frame_of(r).frame_id.unwrap());
    }
    for i in 0..ids.len() {
        for j in (i + 1)..ids.len() {
            assert!(ids[i] < ids[j]);
            assert_ne!(ids[i], ids[j]);
        }
    }
}

#[test]
fn return_reuses_the_call_frame_id() {
    let mut s = TraceSession::attach(config(vec![], vec![], false));
    s.on_event(&plain_event(EventKind::Call, 42, "/proj/a.py", "f", 1));
    s.on_event(&plain_event(EventKind::Return, 42, "/proj/a.py", "f", 2));
    let call_id = frame_of(&s.frames[0]).frame_id;
    let ret_id = frame_of(&s.frames[1]).frame_id;
    assert_eq!(call_id, Some(0));
    assert_eq!(ret_id, call_id);
}

#[test]
fn return_of_unseen_frame_has_no_id() {
    let mut s = TraceSession::attach(config(vec![], vec![], false));
    s.on_event(&plain_event(EventKind::Return, 999, "/proj/a.py", "f", 2));
    assert_eq!(frame_of(&s.frames[0]).frame_id, None);
}

#[test]
fn caller_line_is_read_at_the_moment_of_each_call() {
    let mut s = TraceSession::attach(config(vec![], vec![], false));
    s.on_event(&plain_event(EventKind::Call, 1, "/proj/a.py", "outer", 5));

    let mut ev_b = plain_event(EventKind::Call, 2, "/proj/a.py", "inner", 1);
    ev_b.back = vec![BackFrame { key: 1, filename: String::from("/proj/a.py"), line: 42 }];
    s.on_event(&ev_b);
    s.on_event(&plain_event(EventKind::Return, 2, "/proj/a.py", "inner", 9));

    let mut ev_c = plain_event(EventKind::Call, 3, "/proj/a.py", "inner", 1);
    ev_c.back = vec![BackFrame { key: 1, filename: String::from("/proj/a.py"), line: 99 }];
    s.on_event(&ev_c);

    let site_b = frame_of(&s.frames[1]).caller_site.unwrap();
    let site_c = frame_of(&s.frames[3]).caller_site.unwrap();
    assert_eq!(site_b.call_frame_id, 0);
    assert_eq!(site_b.line_number, 42);
    assert_eq!(site_c.call_frame_id, 0);
    assert_eq!(site_c.line_number, 99);
}

#[test]
fn recursion_three_deep_chains_caller_sites() {
    let mut s = TraceSession::attach(config(vec![], vec![], false));
    let ev1 = plain_event(EventKind::Call, 11, "/proj/r.py", "recurse", 4);
    s.on_event(&ev1);
    let mut ev2 = plain_event(EventKind::Call, 12, "/proj/r.py", "recurse", 4);
    ev2.back = vec![BackFrame { key: 11, filename: String::from("/proj/r.py"), line: 6 }];
    s.on_event(&ev2);
    let mut ev3 = plain_event(EventKind::Call, 13, "/proj/r.py", "recurse", 4);
    ev3.back = vec![
        BackFrame { key: 12, filename: String::from("/proj/r.py"), line: 6 },
        BackFrame { key: 11, filename: String::from("/proj/r.py"), line: 6 },
    ];
    s.on_event(&ev3);

    let id1 = frame_of(&s.frames[0]).frame_id.unwrap();
    let id2 = frame_of(&s.frames[1]).frame_id.unwrap();
    let id3 = frame_of(&s.frames[2]).frame_id.unwrap();
    assert!(id1 != id2 && id2 != id3 && id1 != id3);
    assert!(frame_of(&s.frames[0]).caller_site.is_none());
    assert_eq!(frame_of(&s.frames[1]).caller_site.unwrap().call_frame_id, id1);
    assert_eq!(frame_of(&s.frames[2]).caller_site.unwrap().call_frame_id, id2);
}

#[test]
fn segmentation_opens_fresh_trace_and_flushes_exact_slice() {
    let mut s = TraceSession::attach(config(vec![], vec![], true));
    let trace_before = s.trace_id.clone();

    let start = plain_event(
        EventKind::Call,
        50,
        "/py/unittest/result.py",
        "startTest",
        1,
    );
    let out = s.on_event(&start);
    assert!(matches!(out, EventOutcome::Recorded));
    let trace_during = s.trace_id.clone();
    assert_ne!(s.trace_seq, 0);

    for k in 0..3u64 {
        s.on_event(&plain_event(EventKind::Call, 60 + k, "/proj/t.py", "step", 7));
    }
    assert_eq!(s.trace_id, trace_during);

    let stop = plain_event(EventKind::Call, 51, "/py/unittest/result.py", "stopTest", 2);
    let out = s.on_event(&stop);
    let payload = match out {
        EventOutcome::Flushed(p) => p,
        _ => panic!("the end marker must flush the segment"),
    };
    assert_eq!(payload.trace_id, trace_during);
    assert_ne!(payload.trace_id, trace_before);
    assert_eq!(payload.frames.len(), 5);
    let first = structured_of(&payload.frames[0]);
    assert_eq!(first.marker, MarkerKind::StartTest);
    assert_eq!(first.label, "start_test");
    for k in 0..3usize {
        assert!(matches!(payload.frames[1 + k], Record::Frame(_)));
    }
    let last = structured_of(&payload.frames[4]);
    assert_eq!(last.marker, MarkerKind::EndTest);
    assert_eq!(last.label, "end_test");
    // The buffer keeps its history after the flush.
    assert_eq!(s.frames.len(), 5);
}

#[test]
fn detach_hands_back_the_full_buffer() {
    let mut s = TraceSession::attach(config(vec![], vec![], false));
    s.on_event(&plain_event(EventKind::Call, 1, "/proj/a.py", "f", 1));
    s.on_event(&plain_event(EventKind::Call, 2, "/proj/a.py", "g", 2));
    s.on_event(&plain_event(EventKind::Return, 2, "/proj/a.py", "g", 3));
    let trace_id = s.trace_id.clone();
    let payload = s.detach();
    assert_eq!(payload.frames.len(), 3);
    assert_eq!(payload.trace_id, trace_id);
    assert_eq!(payload.meta.version, "9.9.9");
    assert_eq!(payload.meta.commit_sha, "0000commit");
    assert_eq!(payload.meta.command_line, vec![String::from("prog")]);

    let mut sink = MemorySink::new();
    assert!(sink.store(payload).is_ok());
    assert_eq!(sink.entries.len(), 1);
}

#[test]
fn flush_then_read_back_is_byte_for_byte() {
    let mut s = TraceSession::attach(config(vec![], vec![], false));
    let mut ev = plain_event(EventKind::Call, 5, "/proj/a.py", "f", 3);
    ev.arg = Some(String::from("{\"n\": 1}"));
    ev.locals = vec![
        LocalEntry { name: String::from("x"), value: Some(String::from("\"abc\"")) },
        LocalEntry { name: String::from("y"), value: None },
    ];
    s.on_event(&ev);

    let payload = s.flush_all();
    let stored_id = payload.trace_id.clone();
    let mut sink = MemorySink::new();
    sink.store(payload).unwrap();

    let got = sink.read_back(stored_id.as_str()).expect("the stored trace must read back");
    assert_eq!(got.frames.len(), s.frames.len());
    let stored = frame_of(&s.frames[0]);
    let reread = frame_of(&got.frames[0]);
    assert_eq!(reread.path, stored.path);
    assert_eq!(reread.function_name, stored.function_name);
    assert_eq!(reread.argument_snapshot, "{\"n\": 1}");
    assert_eq!(reread.locals_snapshot[0], (String::from("x"), String::from("\"abc\"")));
    assert_eq!(reread.locals_snapshot[1], (String::from("y"), String::from("<unserializable>")));
    assert_eq!(reread.timestamp_micros, stored.timestamp_micros);
}

#[test]
fn read_back_of_unknown_trace_is_none() {
    let sink = MemorySink::new();
    assert!(sink.read_back("trc_missing").is_none());
}

#[test]
fn trace_ids_have_the_documented_shape() {
    let s = TraceSession::attach(config(vec![], vec![], false));
    assert!(s.trace_id.starts_with("trc_"));
    assert_eq!(s.trace_id.len(), 30);
}

#[test]
fn structured_event_is_emitted_for_logging_returns() {
    let mut s = TraceSession::attach(config(vec![], vec![], false));
    let ev = plain_event(
        EventKind::Return,
        8,
        "/py/lib/logging/handlers.py",
        "_log",
        77,
    );
    s.on_event(&ev);
    assert_eq!(s.frames.len(), 1);
    let st = structured_of(&s.frames[0]);
    assert_eq!(st.label, "log_message");
    assert_eq!(st.marker, MarkerKind::Note);
    assert_eq!(st.event_kind, EventKind::Return);
}

#[test]
fn logging_rule_requires_a_return_event() {
    let mut s = TraceSession::attach(config(vec![], vec![], false));
    let ev = plain_event(EventKind::Call, 8, "/py/lib/logging/handlers.py", "_log", 77);
    let out = s.on_event(&ev);
    // The rule needs a return event, and no built-in ignore rule matches this
    // path, so the call records plainly.
    assert!(matches!(out, EventOutcome::Recorded));
    assert!(matches!(s.frames[0], Record::Frame(_)));
}

#[test]
fn task_rule_needs_the_receiver_condition() {
    let mut s = TraceSession::attach(config(vec![], vec![], false));
    let mut ev = plain_event(EventKind::Call, 9, "/venv/huey/api.py", "execute", 5);
    ev.receiver_is_task = true;
    s.on_event(&ev);
    let st = structured_of(&s.frames[0]);
    assert_eq!(st.label, "huey_job");

    let mut ev2 = plain_event(EventKind::Call, 10, "/venv/huey/api.py", "execute", 5);
    ev2.receiver_is_task = false;
    s.on_event(&ev2);
    assert!(matches!(s.frames[1], Record::Frame(_)));
}

#[test]
fn sql_rule_skips_the_update_compiler() {
    let mut s = TraceSession::attach(config(vec![], vec![], false));
    let path = "/venv/django/db/models/sql/compiler.py";
    let mut ev = plain_event(EventKind::Call, 9, path, "execute_sql", 5);
    ev.code_not_update_compiler = true;
    s.on_event(&ev);
    assert_eq!(structured_of(&s.frames[0]).label, "sql_query");

    // An update-compiler frame, or a failed lookup, leaves the rule unmatched.
    let mut ev2 = plain_event(EventKind::Call, 10, path, "execute_sql", 5);
    ev2.code_not_update_compiler = false;
    s.on_event(&ev2);
    assert!(matches!(s.frames[1], Record::Frame(_)));
}

#[test]
fn timestamps_never_decrease_across_the_buffer() {
    let mut s = TraceSession::attach(config(vec![], vec![], false));
    s.on_event(&plain_event(EventKind::Call, 1, "/proj/a.py", "f", 1));
    s.on_event(&plain_event(EventKind::Return, 8, "/py/lib/logging/h.py", "_log", 7));
    s.on_event(&plain_event(EventKind::Return, 1, "/proj/a.py", "f", 2));
    let stamp = |r: &Record| match r {
        Record::Frame(fr) => fr.timestamp_micros,
        Record::Structured(st) => st.timestamp_micros,
    };
    for w in s.frames.windows(2) {
        assert!(stamp(&w[0]) <= stamp(&w[1]));
    }
}

#[test]
fn reused_frame_key_takes_the_latest_id() {
    let mut s = TraceSession::attach(config(vec![], vec![], false));
    s.on_event(&plain_event(EventKind::Call, 42, "/proj/a.py", "f", 1));
    s.on_event(&plain_event(EventKind::Return, 42, "/proj/a.py", "f", 2));
    // The host may reuse an identity key once the first activation is gone.
    s.on_event(&plain_event(EventKind::Call, 42, "/proj/a.py", "g", 3));
    s.on_event(&plain_event(EventKind::Return, 42, "/proj/a.py", "g", 4));
    assert_eq!(frame_of(&s.frames[2]).frame_id, Some(1));
    assert_eq!(frame_of(&s.frames[3]).frame_id, Some(1));
}

#[test]
fn explicit_ignore_beats_framework_rules() {
    let mut s = TraceSession::attach(config(vec![], vec!["logging"], false));
    let ev = plain_event(
        EventKind::Return,
        8,
        "/py/lib/logging/handlers.py",
        "_log",
        77,
    );
    let out = s.on_event(&ev);
    assert!(matches!(out, EventOutcome::Ignored));
    assert_eq!(s.frames.len(), 0);
}

#[test]
fn module_init_frames_are_ignored() {
    let mut s = TraceSession::attach(config(vec![], vec![], false));
    let ev = plain_event(EventKind::Call, 1, "/proj/pkg/__init__.py", "<module>", 1);
    let out = s.on_event(&ev);
    assert!(matches!(out, EventOutcome::Ignored));
}

#[test]
fn generated_ctor_frames_are_ignored_via_the_caller_chain() {
    let mut s = TraceSession::attach(config(vec![], vec![], false));
    let mut ev = plain_event(EventKind::Call, 1, "/proj/model.py", "__init__", 1);
    ev.back = vec![
        BackFrame { key: 2, filename: String::from(""), line: 1 },
        BackFrame { key: 3, filename: String::from("/venv/attr/_make.py"), line: 9 },
    ];
    let out = s.on_event(&ev);
    assert!(matches!(out, EventOutcome::Ignored));
}
