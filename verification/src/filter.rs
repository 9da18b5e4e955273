//! The filter chain: for every event, exactly one disposition.
//!
//! Evaluation order is load-bearing: explicit includes override everything,
//! explicit ignores come next, then the built-in framework rules, then the
//! built-in ignore rules, and only then the default of recording plainly.

use vstd::prelude::*;
use vstd::string::*;

verus! {

use crate::event::{EventKind, FrameEvent};
use crate::record::MarkerKind;
use crate::text::{
    contains_seq, contains_substr, ends_with_seq, ends_with_str, starts_with_seq, starts_with_str,
    str_eq,
};

/// The extra host-checked condition a framework rule may carry.  A failed
/// host lookup is delivered as the condition not holding, so the rule falls
/// through instead of propagating an error.
#[derive(Clone, Copy, Debug, PartialEq, Eq, Structural)]
pub enum RuleCondition {
    Always,
    /// The frame's bound receiver is an instance of the task queue's task
    /// class.
    ReceiverIsTask,
    /// The host confirmed the frame's code object is not the ORM's
    /// update-statement compiler variant (distinguishing read from write
    /// statement execution); a failed lookup counts as unconfirmed.
    CodeIsNotUpdateCompiler,
}

/// One built-in framework rule: a function-name and source-path condition,
/// and the structured event to emit on a match.  The table's membership is
/// configuration data, not engine structure.
pub struct FrameworkRule {
    /// The raw code name the rule fires on, matched exactly.
    pub function_name: String,
    /// A fragment the frame's raw source path must contain.
    pub path_fragment: String,
    /// A fragment the frame's raw source path must not contain, if any.
    pub path_exclude: Option<String>,
    /// The event kind the rule is restricted to, if any.
    pub event: Option<EventKind>,
    pub condition: RuleCondition,
    /// What the emitted structured event means to segmentation.
    pub marker: MarkerKind,
    /// The label the emitted structured event carries.
    pub label: String,
}

/// The collector's configuration, fixed at attach time.
pub struct TraceConfig {
    /// Explicit include patterns, matched as substrings of the raw path.
    pub include_frames: Vec<String>,
    /// Explicit ignore patterns, matched as substrings of the raw path.
    pub ignore_frames: Vec<String>,
    /// The built-in framework rule table, in evaluation order.
    pub framework_rules: Vec<FrameworkRule>,
    /// Segmented mode: one trace per test boundary.
    pub one_trace_per_test: bool,
    /// The canonical working directory paths are made relative to.
    pub working_dir: String,
    /// Collector version, recorded in flushed trace metadata.
    pub version: String,
    /// Commit of the observed project, recorded in flushed trace metadata.
    pub commit_sha: String,
    /// Command line of the observed program, recorded in flushed metadata.
    pub command_line: Vec<String>,
}

/// The filter chain's verdict for one event.
#[derive(Clone, Copy, Debug, PartialEq, Eq, Structural)]
pub enum Disposition {
    /// Record a plain frame record.
    RecordPlain,
    /// Record the structured event of the framework rule at this index.
    RecordStructured(usize),
    /// Append nothing.
    Ignore,
}

/// Some pattern of `pats` occurs in `path`.
pub open spec fn matches_any(path: Seq<char>, pats: Seq<String>) -> bool {
    exists|i: int| 0 <= i < pats.len() && contains_seq(path, pats[i]@)
}

/// Whether a framework rule's condition holds of an event.
pub open spec fn rule_condition_holds(c: RuleCondition, ev: FrameEvent) -> bool {
    match c {
        RuleCondition::Always => true,
        RuleCondition::ReceiverIsTask => ev.receiver_is_task,
        RuleCondition::CodeIsNotUpdateCompiler => ev.code_not_update_compiler,
    }
}

/// Whether a framework rule fires on an event.
pub open spec fn rule_matches(r: FrameworkRule, ev: FrameEvent) -> bool {
    &&& ev.name@ == r.function_name@
    &&& contains_seq(ev.filename@, r.path_fragment@)
    &&& (r.path_exclude is Some ==> !contains_seq(ev.filename@, r.path_exclude->0@))
    &&& (r.event is Some ==> ev.kind == r.event->0)
    &&& rule_condition_holds(r.condition, ev)
}

/// The index of the first rule at or after `i` that fires on `ev`.
pub open spec fn first_rule_from(rules: Seq<FrameworkRule>, ev: FrameEvent, i: int) -> Option<int>
    decreases rules.len() - i,
        when 0 <= i <= rules.len()
{
    if i >= rules.len() {
        None
    } else if rule_matches(rules[i], ev) {
        Some(i)
    } else {
        first_rule_from(rules, ev, i + 1)
    }
}

/// The index of the first rule that fires on `ev`, if any.
pub open spec fn first_rule(rules: Seq<FrameworkRule>, ev: FrameEvent) -> Option<int> {
    first_rule_from(rules, ev, 0)
}

proof fn lemma_first_rule_from_in_range(rules: Seq<FrameworkRule>, ev: FrameEvent, i: int)
    requires
        0 <= i <= rules.len(),
        first_rule_from(rules, ev, i) is Some,
    ensures
        i <= first_rule_from(rules, ev, i)->0 < rules.len(),
        rule_matches(rules[first_rule_from(rules, ev, i)->0], ev),
    decreases rules.len() - i,
{
    if i < rules.len() && !rule_matches(rules[i], ev) {
        lemma_first_rule_from_in_range(rules, ev, i + 1);
    }
}

/// A firing rule's index lies inside the table, and that rule fires.
pub proof fn lemma_first_rule_in_range(rules: Seq<FrameworkRule>, ev: FrameEvent)
    requires
        first_rule(rules, ev) is Some,
    ensures
        0 <= first_rule(rules, ev)->0 < rules.len(),
        rule_matches(rules[first_rule(rules, ev)->0], ev),
{
    lemma_first_rule_from_in_range(rules, ev, 0);
}

/// Standard-library and installed-package paths.
pub open spec fn library_path(f: Seq<char>) -> bool {
    contains_seq(f, "lib/python"@) || contains_seq(f, "/site-packages/"@)
}

/// Frozen-module paths.
pub open spec fn frozen_path(f: Seq<char>) -> bool {
    contains_seq(f, "<frozen "@)
}

/// The tracer's own source paths.
pub open spec fn own_code_path(f: Seq<char>) -> bool {
    ||| contains_seq(f, "/kolo/middleware"@)
    ||| contains_seq(f, "/kolo/profiler"@)
    ||| contains_seq(f, "/kolo/serialize"@)
}

/// Dynamically-compiled code paths.
pub open spec fn exec_path(f: Seq<char>) -> bool {
    contains_seq(f, "<string>"@)
}

/// Module-initialization frames carry the module-level synthetic name.
pub open spec fn module_init_name(n: Seq<char>) -> bool {
    n == "<module>"@
}

/// Dynamically-generated-class constructor frames: the path carries the code
/// generator's prefix, or the nearest caller (skipping one caller whose path
/// is empty) sits in the code-generation library's internal module.
pub open spec fn generated_ctor(ev: FrameEvent) -> bool {
    ||| starts_with_seq(ev.filename@, "<attrs generated"@)
    ||| (ev.back@.len() > 0 && (if ev.back@[0].filename@.len() == 0 {
        ev.back@.len() > 1 && ends_with_seq(ev.back@[1].filename@, "attr/_make.py"@)
    } else {
        ends_with_seq(ev.back@[0].filename@, "attr/_make.py"@)
    }))
}

/// The built-in ignore rules, as one predicate.
pub open spec fn builtin_ignore(ev: FrameEvent) -> bool {
    ||| library_path(ev.filename@)
    ||| frozen_path(ev.filename@)
    ||| own_code_path(ev.filename@)
    ||| module_init_name(ev.name@)
    ||| exec_path(ev.filename@)
    ||| generated_ctor(ev)
}

/// The filter chain's disposition for one event, in evaluation order.
pub open spec fn spec_disposition(cfg: TraceConfig, ev: FrameEvent) -> Disposition {
    if matches_any(ev.filename@, cfg.include_frames@) {
        Disposition::RecordPlain
    } else if matches_any(ev.filename@, cfg.ignore_frames@) {
        Disposition::Ignore
    } else {
        match first_rule(cfg.framework_rules@, ev) {
            Some(i) => Disposition::RecordStructured(i as usize),
            None => if builtin_ignore(ev) {
                Disposition::Ignore
            } else {
                Disposition::RecordPlain
            },
        }
    }
}

fn matches_any_exec(path: &str, pats: &Vec<String>) -> (r: bool)
    ensures
        r == matches_any(path@, pats@),
{
    let mut i: usize = 0;
    while i < pats.len()
        invariant
            i <= pats@.len(),
            forall|k: int| 0 <= k < i ==> !contains_seq(path@, pats@[k]@),
        decreases pats@.len() - i,
    {
        if contains_substr(path, pats[i].as_str()) {
            return true;
        }
        i += 1;
    }
    false
}

fn rule_matches_exec(r: &FrameworkRule, ev: &FrameEvent) -> (b: bool)
    ensures
        b == rule_matches(*r, *ev),
{
    if !str_eq(ev.name.as_str(), r.function_name.as_str()) {
        return false;
    }
    if !contains_substr(ev.filename.as_str(), r.path_fragment.as_str()) {
        return false;
    }
    if let Some(x) = &r.path_exclude {
        if contains_substr(ev.filename.as_str(), x.as_str()) {
            return false;
        }
    }
    if let Some(k) = &r.event {
        if ev.kind != *k {
            return false;
        }
    }
    match r.condition {
        RuleCondition::Always => true,
        RuleCondition::ReceiverIsTask => ev.receiver_is_task,
        RuleCondition::CodeIsNotUpdateCompiler => ev.code_not_update_compiler,
    }
}

/// The index of the first framework rule that fires on `ev`, if any.
pub fn first_rule_exec(rules: &Vec<FrameworkRule>, ev: &FrameEvent) -> (r: Option<usize>)
    ensures
        (match r {
            Some(i) => i < rules@.len() && first_rule(rules@, *ev) == Some(i as int),
            None => first_rule(rules@, *ev) is None,
        }),
{
    let mut i: usize = 0;
    while i < rules.len()
        invariant
            i <= rules@.len(),
            first_rule(rules@, *ev) == first_rule_from(rules@, *ev, i as int),
        decreases rules@.len() - i,
    {
        if rule_matches_exec(&rules[i], ev) {
            return Some(i);
        }
        i += 1;
    }
    None
}

fn generated_ctor_exec(ev: &FrameEvent) -> (b: bool)
    ensures
        b == generated_ctor(*ev),
{
    if starts_with_str(ev.filename.as_str(), "<attrs generated") {
        return true;
    }
    if ev.back.len() == 0 {
        return false;
    }
    if ev.back[0].filename.as_str().unicode_len() == 0 {
        if ev.back.len() < 2 {
            return false;
        }
        ends_with_str(ev.back[1].filename.as_str(), "attr/_make.py")
    } else {
        ends_with_str(ev.back[0].filename.as_str(), "attr/_make.py")
    }
}

fn builtin_ignore_exec(ev: &FrameEvent) -> (b: bool)
    ensures
        b == builtin_ignore(*ev),
{
    let f = ev.filename.as_str();
    if contains_substr(f, "lib/python") || contains_substr(f, "/site-packages/") {
        return true;
    }
    if contains_substr(f, "<frozen ") {
        return true;
    }
    if contains_substr(f, "/kolo/middleware") || contains_substr(f, "/kolo/profiler")
        || contains_substr(f, "/kolo/serialize") {
        return true;
    }
    if str_eq(ev.name.as_str(), "<module>") {
        return true;
    }
    if contains_substr(f, "<string>") {
        return true;
    }
    generated_ctor_exec(ev)
}

/// Runs the filter chain on one event.
pub fn classify(cfg: &TraceConfig, ev: &FrameEvent) -> (d: Disposition)
    ensures
        d == spec_disposition(*cfg, *ev),
{
    if matches_any_exec(ev.filename.as_str(), &cfg.include_frames) {
        return Disposition::RecordPlain;
    }
    if matches_any_exec(ev.filename.as_str(), &cfg.ignore_frames) {
        return Disposition::Ignore;
    }
    match first_rule_exec(&cfg.framework_rules, ev) {
        Some(i) => Disposition::RecordStructured(i),
        None => {
            if builtin_ignore_exec(ev) {
                Disposition::Ignore
            } else {
                Disposition::RecordPlain
            }
        },
    }
}

/// One rule of the table holds exactly these fields.
pub open spec fn rule_is(
    r: FrameworkRule,
    name: Seq<char>,
    frag: Seq<char>,
    excl: Option<Seq<char>>,
    event: Option<EventKind>,
    cond: RuleCondition,
    marker: MarkerKind,
    label: Seq<char>,
) -> bool {
    &&& r.function_name@ == name
    &&& r.path_fragment@ == frag
    &&& (match (r.path_exclude, excl) {
        (Option::None, Option::None) => true,
        (Option::Some(a), Option::Some(b)) => a@ == b,
        _ => false,
    })
    &&& r.event == event
    &&& r.condition == cond
    &&& r.marker == marker
    &&& r.label@ == label
}

/// The fixed built-in framework rule table: the web framework's
/// request-dispatch entry points, outbound HTTP, logging, read-side SQL
/// execution, and the test-boundary hooks of the two test runners.
pub open spec fn is_standard_rules(rules: Seq<FrameworkRule>) -> bool {
    &&& rules.len() == 14
    &&& rule_is(rules[0], "get_response"@, "/kolo/middleware.py"@, None, None,
        RuleCondition::Always, MarkerKind::Note, "django_request"@)
    &&& rule_is(rules[1], "render"@, "django/template/backends/django.py"@, None, None,
        RuleCondition::Always, MarkerKind::Note, "django_template"@)
    &&& rule_is(rules[2], "apply_async"@, "celery"@, Some("sentry_sdk"@), None,
        RuleCondition::Always, MarkerKind::Note, "celery_job"@)
    &&& rule_is(rules[3], "execute"@, "/huey/api.py"@, None, None,
        RuleCondition::ReceiverIsTask, MarkerKind::Note, "huey_job"@)
    &&& rule_is(rules[4], "send"@, "requests/sessions"@, None, None, RuleCondition::Always,
        MarkerKind::Note, "outbound_http"@)
    &&& rule_is(rules[5], "do_open"@, "urllib/request"@, None, None, RuleCondition::Always,
        MarkerKind::Note, "urllib_request"@)
    &&& rule_is(rules[6], "urlopen"@, "urllib3/connectionpool"@, None, None,
        RuleCondition::Always, MarkerKind::Note, "urllib3_request"@)
    &&& rule_is(rules[7], "handle_uncaught_exception"@, "django"@, None, Some(EventKind::Call),
        RuleCondition::Always, MarkerKind::Note, "exception"@)
    &&& rule_is(rules[8], "_log"@, "/logging/"@, None, Some(EventKind::Return),
        RuleCondition::Always, MarkerKind::Note, "log_message"@)
    &&& rule_is(rules[9], "execute_sql"@, "/django/db/models/sql/compiler.py"@, None, None,
        RuleCondition::CodeIsNotUpdateCompiler, MarkerKind::Note, "sql_query"@)
    &&& rule_is(rules[10], "startTest"@, "unittest/result.py"@, None, Some(EventKind::Call),
        RuleCondition::Always, MarkerKind::StartTest, "start_test"@)
    &&& rule_is(rules[11], "stopTest"@, "unittest/result.py"@, None, Some(EventKind::Call),
        RuleCondition::Always, MarkerKind::EndTest, "end_test"@)
    &&& rule_is(rules[12], "pytest_runtest_logstart"@, "kolo/pytest_plugin.py"@, None,
        Some(EventKind::Call), RuleCondition::Always, MarkerKind::StartTest, "start_test"@)
    &&& rule_is(rules[13], "pytest_runtest_logfinish"@, "kolo/pytest_plugin.py"@, None,
        Some(EventKind::Call), RuleCondition::Always, MarkerKind::EndTest, "end_test"@)
}

fn mk_rule(
    name: &str,
    frag: &str,
    excl: Option<&str>,
    event: Option<EventKind>,
    condition: RuleCondition,
    marker: MarkerKind,
    label: &str,
) -> (r: FrameworkRule)
    ensures
        rule_is(
            r,
            name@,
            frag@,
            (match excl {
                Option::Some(x) => Option::Some(x@),
                Option::None => Option::None,
            }),
            event,
            condition,
            marker,
            label@,
        ),
{
    FrameworkRule {
        function_name: String::from_str(name),
        path_fragment: String::from_str(frag),
        path_exclude: (match excl {
            Option::Some(x) => Option::Some(String::from_str(x)),
            Option::None => Option::None,
        }),
        event,
        condition,
        marker,
        label: String::from_str(label),
    }
}

/// Builds the fixed built-in framework rule table.
pub fn standard_rules() -> (rules: Vec<FrameworkRule>)
    ensures
        is_standard_rules(rules@),
{
    let mut v: Vec<FrameworkRule> = Vec::new();
    v.push(mk_rule("get_response", "/kolo/middleware.py", None, None, RuleCondition::Always,
        MarkerKind::Note, "django_request"));
    v.push(mk_rule("render", "django/template/backends/django.py", None, None,
        RuleCondition::Always, MarkerKind::Note, "django_template"));
    v.push(mk_rule("apply_async", "celery", Some("sentry_sdk"), None, RuleCondition::Always,
        MarkerKind::Note, "celery_job"));
    v.push(mk_rule("execute", "/huey/api.py", None, None, RuleCondition::ReceiverIsTask,
        MarkerKind::Note, "huey_job"));
    v.push(mk_rule("send", "requests/sessions", None, None, RuleCondition::Always,
        MarkerKind::Note, "outbound_http"));
    v.push(mk_rule("do_open", "urllib/request", None, None, RuleCondition::Always,
        MarkerKind::Note, "urllib_request"));
    v.push(mk_rule("urlopen", "urllib3/connectionpool", None, None, RuleCondition::Always,
        MarkerKind::Note, "urllib3_request"));
    v.push(mk_rule("handle_uncaught_exception", "django", None, Some(EventKind::Call),
        RuleCondition::Always, MarkerKind::Note, "exception"));
    v.push(mk_rule("_log", "/logging/", None, Some(EventKind::Return), RuleCondition::Always,
        MarkerKind::Note, "log_message"));
    v.push(mk_rule("execute_sql", "/django/db/models/sql/compiler.py", None, None,
        RuleCondition::CodeIsNotUpdateCompiler, MarkerKind::Note, "sql_query"));
    v.push(mk_rule("startTest", "unittest/result.py", None, Some(EventKind::Call),
        RuleCondition::Always, MarkerKind::StartTest, "start_test"));
    v.push(mk_rule("stopTest", "unittest/result.py", None, Some(EventKind::Call),
        RuleCondition::Always, MarkerKind::EndTest, "end_test"));
    v.push(mk_rule("pytest_runtest_logstart", "kolo/pytest_plugin.py", None,
        Some(EventKind::Call), RuleCondition::Always, MarkerKind::StartTest, "start_test"));
    v.push(mk_rule("pytest_runtest_logfinish", "kolo/pytest_plugin.py", None,
        Some(EventKind::Call), RuleCondition::Always, MarkerKind::EndTest, "end_test"));
    v
}

impl TraceConfig {
    /// A configuration with the standard built-in rule table.
    pub fn standard(
        include_frames: Vec<String>,
        ignore_frames: Vec<String>,
        one_trace_per_test: bool,
        working_dir: String,
        version: String,
        commit_sha: String,
        command_line: Vec<String>,
    ) -> (c: TraceConfig)
        ensures
            c.include_frames == include_frames,
            c.ignore_frames == ignore_frames,
            c.one_trace_per_test == one_trace_per_test,
            c.working_dir == working_dir,
            c.version == version,
            c.commit_sha == commit_sha,
            c.command_line == command_line,
            is_standard_rules(c.framework_rules@),
    {
        TraceConfig {
            include_frames,
            ignore_frames,
            framework_rules: standard_rules(),
            one_trace_per_test,
            working_dir,
            version,
            commit_sha,
            command_line,
        }
    }
}

/// Law: an event on a path matching an explicit include pattern is always
/// recorded plainly, even where a built-in ignore rule also matches.
pub proof fn lemma_include_overrides(cfg: TraceConfig, ev: FrameEvent)
    requires
        matches_any(ev.filename@, cfg.include_frames@),
    ensures
        spec_disposition(cfg, ev) == Disposition::RecordPlain,
{
}

/// Law: on a path a built-in ignore rule matches, with no explicit include
/// pattern matching and no framework rule firing, the disposition is Ignore,
/// so the event appends nothing to the trace.
pub proof fn lemma_builtin_ignored(cfg: TraceConfig, ev: FrameEvent)
    requires
        builtin_ignore(ev),
        !matches_any(ev.filename@, cfg.include_frames@),
        first_rule(cfg.framework_rules@, ev) is None,
    ensures
        spec_disposition(cfg, ev) == Disposition::Ignore,
{
}

} // verus!
