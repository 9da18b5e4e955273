//! Source-location formatting: the project-relative `file:line` form each
//! record carries.
//!
//! The host resolves the frame's source file to a canonical absolute path and
//! supplies the canonical working directory; the collector strips the
//! directory prefix where it applies and appends the line number.

use vstd::prelude::*;
use vstd::string::*;

verus! {

use crate::text::{dec_seq, starts_with_seq, starts_with_str, u32_dec};

/// `path` made relative to `dir` where `dir` is a proper prefix on a
/// component boundary; otherwise `path` unchanged.
pub open spec fn spec_relative(path: Seq<char>, dir: Seq<char>) -> Seq<char> {
    if dir.len() > 0 && path.len() > dir.len() && starts_with_seq(path, dir) {
        if dir.last() == '/' {
            path.subrange(dir.len() as int, path.len() as int)
        } else if path[dir.len() as int] == '/' {
            path.subrange(dir.len() as int + 1, path.len() as int)
        } else {
            path
        }
    } else {
        path
    }
}

/// The `file:line` form: the relative path, a colon, the decimal line number.
pub open spec fn spec_display_path(path: Seq<char>, dir: Seq<char>, line: u32) -> Seq<char> {
    spec_relative(path, dir) + ":"@ + dec_seq(line as nat)
}

/// Renders the project-relative `file:line` location of a frame.
pub fn display_path(path: &str, dir: &str, line: u32) -> (r: String)
    ensures
        r@ == spec_display_path(path@, dir@, line),
{
    let pl = path.unicode_len();
    let dl = dir.unicode_len();
    let mut s: String;
    if dl > 0 && dl < pl && starts_with_str(path, dir) {
        if dir.get_char(dl - 1) == '/' {
            s = String::from_str(path.substring_char(dl, pl));
        } else if path.get_char(dl) == '/' {
            s = String::from_str(path.substring_char(dl + 1, pl));
        } else {
            s = String::from_str(path);
        }
    } else {
        s = String::from_str(path);
    }
    s.append(":");
    let d = u32_dec(line);
    s.append(d.as_str());
    s
}

} // verus!
