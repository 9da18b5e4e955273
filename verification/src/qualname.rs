//! Best-effort resolution of a frame's fully qualified dotted name.
//!
//! The steps form an ordered fallback chain over the host's introspection
//! results; a step whose lookup failed was delivered as `None` and falls
//! through to the next.  Only when every step fails is the name `"unknown"`.

use vstd::prelude::*;
use vstd::string::*;

verus! {

use crate::event::{DottedName, QualSource};
use crate::text::{join_dotted, str_eq};

/// A dotted name joined back together.
pub open spec fn spec_dotted(d: DottedName) -> Seq<char> {
    d.module@ + "."@ + d.qualname@
}

/// The qualified name the fallback chain resolves to, given the raw code
/// name and the host's introspection results.
pub open spec fn spec_qualname(name: Seq<char>, q: QualSource) -> Seq<char> {
    if q.co_qualname is Some && q.module is Some {
        q.module->0@ + "."@ + q.co_qualname->0@
    } else if name == "<module>"@ && q.module is Some {
        q.module->0@ + "."@ + "<module>"@
    } else if q.caller_local is Some {
        spec_dotted(q.caller_local->0)
    } else if q.self_attr is Some {
        spec_dotted(q.self_attr->0)
    } else if q.cls_attr is Some {
        spec_dotted(q.cls_attr->0)
    } else if q.local_override is Some && q.module is Some {
        q.module->0@ + "."@ + q.local_override->0@
    } else if q.global_attr is Some {
        spec_dotted(q.global_attr->0)
    } else {
        "unknown"@
    }
}

/// Resolves the frame's qualified name through the fallback chain.
pub fn resolve_qualname(name: &str, q: &QualSource) -> (r: String)
    ensures
        r@ == spec_qualname(name@, *q),
{
    if let (Some(qn), Some(m)) = (&q.co_qualname, &q.module) {
        return join_dotted(m.as_str(), qn.as_str());
    }
    if str_eq(name, "<module>") {
        if let Some(m) = &q.module {
            return join_dotted(m.as_str(), "<module>");
        }
    }
    if let Some(d) = &q.caller_local {
        return join_dotted(d.module.as_str(), d.qualname.as_str());
    }
    if let Some(d) = &q.self_attr {
        return join_dotted(d.module.as_str(), d.qualname.as_str());
    }
    if let Some(d) = &q.cls_attr {
        return join_dotted(d.module.as_str(), d.qualname.as_str());
    }
    if let (Some(ov), Some(m)) = (&q.local_override, &q.module) {
        return join_dotted(m.as_str(), ov.as_str());
    }
    if let Some(d) = &q.global_attr {
        return join_dotted(d.module.as_str(), d.qualname.as_str());
    }
    String::from_str("unknown")
}

} // verus!
