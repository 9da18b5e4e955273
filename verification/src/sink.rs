//! An in-memory realization of the persistence sink's contract: storing a
//! payload appends it unchanged, and reading a trace id back yields the most
//! recently stored payload under that id, record for record.
//!
//! A durable sink lives outside the collector; this one is the reference
//! model its contract is stated against.

use vstd::prelude::*;

verus! {

use crate::session::TracePayload;

/// Why a store was refused.
#[derive(Clone, Copy, Debug, PartialEq, Eq)]
pub enum StoreError {
    /// The sink holds as many traces as it can.
    Full,
}

/// The last payload stored under `id`, if any.
pub open spec fn spec_read_back(entries: Seq<TracePayload>, id: Seq<char>) -> Option<TracePayload>
    decreases entries.len(),
{
    if entries.len() == 0 {
        None
    } else if entries.last().trace_id@ == id {
        Some(entries.last())
    } else {
        spec_read_back(entries.drop_last(), id)
    }
}

/// An in-memory persistence sink.
pub struct MemorySink {
    pub entries: Vec<TracePayload>,
}

impl MemorySink {
    /// An empty sink.
    pub fn new() -> (s: MemorySink)
        ensures
            s.entries@.len() == 0,
    {
        MemorySink { entries: Vec::new() }
    }

    /// Stores one flushed trace.  Succeeds on every store the machine can
    /// hold; the payload is appended unchanged.
    pub fn store(&mut self, p: TracePayload) -> (r: Result<(), StoreError>)
        ensures
            r is Ok,
            final(self).entries@ == old(self).entries@.push(p),
    {
        self.entries.push(p);
        Ok(())
    }

    /// Reads the most recently stored payload under `id` back, unchanged.
    pub fn read_back(&self, id: &str) -> (r: Option<&TracePayload>)
        ensures
            (match r {
                Some(p) => spec_read_back(self.entries@, id@) == Some(*p),
                None => spec_read_back(self.entries@, id@) is None,
            }),
    {
        let mut i: usize = self.entries.len();
        proof {
            assert(self.entries@.subrange(0, i as int) =~= self.entries@);
        }
        while i > 0
            invariant
                i <= self.entries@.len(),
                spec_read_back(self.entries@.subrange(0, i as int), id@) == spec_read_back(
                    self.entries@,
                    id@,
                ),
            decreases i,
        {
            i = i - 1;
            if crate::text::str_eq(self.entries[i].trace_id.as_str(), id) {
                proof {
                    let pre = self.entries@.subrange(0, i as int + 1);
                    assert(pre.last() == self.entries@[i as int]);
                }
                return Some(&self.entries[i]);
            }
            proof {
                let pre = self.entries@.subrange(0, i as int + 1);
                assert(pre.last() == self.entries@[i as int]);
                assert(pre.drop_last() =~= self.entries@.subrange(0, i as int));
            }
        }
        proof {
            assert(self.entries@.subrange(0, 0) =~= Seq::<TracePayload>::empty());
        }
        None
    }
}

/// Law: a flushed trace read back through the sink's contract is the very
/// payload that was stored — the same ordered records, byte for byte in each
/// serialized value.
pub proof fn lemma_round_trip(entries: Seq<TracePayload>, p: TracePayload)
    ensures
        spec_read_back(entries.push(p), p.trace_id@) == Some(p),
{
    assert(entries.push(p).last() == p);
}

} // verus!
