//! The plain-value form of one call/return event, as the host adapter hands
//! it to the collector.
//!
//! The host runtime owns the live frame objects; the collector never touches
//! them.  For every event the adapter snapshots what the engine reads: the
//! frame's raw source path, code name and current line, its identity key, the
//! chain of caller frames with their current lines, the introspection results
//! the qualified-name resolution falls back on, and the best-effort serialized
//! argument and locals.  A failed introspection or serialization is delivered
//! as `None`, never as an aborted event.

use vstd::prelude::*;

verus! {

/// Whether the event marks a function entry or a function exit.
#[derive(Clone, Copy, Debug, PartialEq, Eq, Structural)]
pub enum EventKind {
    Call,
    Return,
}

/// A fully qualified dotted name, split at the module boundary.
pub struct DottedName {
    pub module: String,
    pub qualname: String,
}

/// The host's introspection results for qualified-name resolution, one field
/// per step of the fallback chain.  A step whose lookup failed (or raised) is
/// `None`.
pub struct QualSource {
    /// The compiler-provided qualified name of the code object, if the
    /// runtime exposes one.
    pub co_qualname: Option<String>,
    /// The enclosing module's name, from the frame's globals.
    pub module: Option<String>,
    /// The raw code name looked up in the caller's locals.
    pub caller_local: Option<DottedName>,
    /// The raw code name statically resolved on the type of the frame's
    /// bound receiver (a conventional "self" slot), with any property
    /// descriptor already unwrapped.
    pub self_attr: Option<DottedName>,
    /// The raw code name statically resolved on a type held in a
    /// conventional "cls" slot.
    pub cls_attr: Option<DottedName>,
    /// An explicit qualified-name override in the frame's locals.
    pub local_override: Option<String>,
    /// The raw code name looked up as a module-level global.
    pub global_attr: Option<DottedName>,
}

/// One caller frame on the live stack behind the event's frame, nearest
/// first, with its source path and its line number as of this event.
pub struct BackFrame {
    /// The caller frame's identity key.
    pub key: u64,
    /// The caller frame's raw source path.
    pub filename: String,
    /// The caller frame's current line number, read at this event.
    pub line: u32,
}

/// One serialized local variable: its name, and its serialized value or
/// `None` where serialization failed.
pub struct LocalEntry {
    pub name: String,
    pub value: Option<String>,
}

/// One call or return event, in plain values.
pub struct FrameEvent {
    pub kind: EventKind,
    /// The frame's identity key, stable for the lifetime of one activation.
    pub key: u64,
    /// The raw source path of the frame's code, as the filters see it.
    pub filename: String,
    /// The raw code name.
    pub name: String,
    /// The frame's current line number.
    pub line: u32,
    /// The canonicalized absolute source path, resolved by the host.
    pub canon_path: String,
    /// The live caller frames, nearest first, with their current lines.
    pub back: Vec<BackFrame>,
    /// Introspection results for qualified-name resolution.
    pub qual: QualSource,
    /// The serialized event argument, or `None` where serialization failed.
    pub arg: Option<String>,
    /// The frame's local variables, serialized entry by entry.
    pub locals: Vec<LocalEntry>,
    /// Whether the frame's bound receiver is an instance of the task queue's
    /// task class; `false` where the lookup failed.
    pub receiver_is_task: bool,
    /// Whether the host's lookup succeeded and found the frame's code object
    /// to be something other than the ORM's update-statement compiler variant
    /// (a read-side execution); `false` where the lookup failed, so a failed
    /// lookup makes the rule fall through.
    pub code_not_update_compiler: bool,
}

/// The first line number recorded for `key` in the caller chain, or 0 where
/// the chain does not carry it.
pub open spec fn back_line(back: Seq<BackFrame>, key: u64) -> u32
    decreases back.len(),
{
    if back.len() == 0 {
        0u32
    } else if back[0].key == key {
        back[0].line
    } else {
        back_line(back.skip(1), key)
    }
}

/// Looks `key` up in the caller chain delivered with an event.
pub fn find_back_line(back: &Vec<BackFrame>, key: u64) -> (r: u32)
    ensures
        r == back_line(back@, key),
{
    let mut i: usize = 0;
    proof {
        assert(back@.skip(0) =~= back@);
    }
    while i < back.len()
        invariant
            i <= back@.len(),
            back_line(back@.skip(i as int), key) == back_line(back@, key),
        decreases back@.len() - i,
    {
        if back[i].key == key {
            proof {
                assert(back@.skip(i as int)[0] == back@[i as int]);
            }
            return back[i].line;
        }
        proof {
            assert(back@.skip(i as int).skip(1) =~= back@.skip(i as int + 1));
        }
        i += 1;
    }
    proof {
        assert(back@.skip(i as int).len() == 0);
    }
    0
}

} // verus!
