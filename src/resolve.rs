//! Following a pointer word to its target, through at most one far pointer.
use vstd::prelude::*;
use crate::message::{ErrorKind, Message};
use crate::pointer::{
    far_double, far_double_of, far_offset, far_offset_of, far_segment, far_segment_of, kind,
    kind_of, offset, signed_offset, KIND_FAR,
};

verus! {

/// Where a pointer leads: the segment and word at which its content starts,
/// and the word that describes that content (the pointer itself, or the tag of
/// a landing pad).
pub struct Target {
    pub seg: usize,
    pub start: usize,
    pub tag: u64,
}

/// The target of a struct or list pointer that is not far, relative to the
/// word that holds it; `start` may be the segment's end, never beyond it.
pub open spec fn near_target(m: Seq<Seq<u64>>, seg: int, at: int, w: u64) -> Result<(int, int, u64), ErrorKind> {
    let t = at + 1 + signed_offset(w);
    if 0 <= t <= m[seg].len() {
        Ok((seg, t, w))
    } else {
        Err(ErrorKind::OutOfBounds)
    }
}

/// What the pointer word at `m[seg][at]` resolves to.
pub open spec fn resolve_spec(m: Seq<Seq<u64>>, seg: int, at: int) -> Result<(int, int, u64), ErrorKind> {
    let w = m[seg][at];
    if kind_of(w) != KIND_FAR {
        near_target(m, seg, at, w)
    } else {
        let ps = far_segment_of(w) as int;
        let pad = far_offset_of(w) as int;
        if ps >= m.len() {
            Err(ErrorKind::OutOfBounds)
        } else if !far_double_of(w) {
            if pad + 1 > m[ps].len() {
                Err(ErrorKind::OutOfBounds)
            } else if kind_of(m[ps][pad]) == KIND_FAR {
                Err(ErrorKind::MalformedPointer)
            } else {
                near_target(m, ps, pad, m[ps][pad])
            }
        } else {
            if pad + 2 > m[ps].len() {
                Err(ErrorKind::OutOfBounds)
            } else {
                let pad0 = m[ps][pad];
                let pad1 = m[ps][pad + 1];
                if kind_of(pad0) != KIND_FAR || far_double_of(pad0) || kind_of(pad1) == KIND_FAR {
                    Err(ErrorKind::MalformedPointer)
                } else if far_segment_of(pad0) >= m.len() {
                    Err(ErrorKind::OutOfBounds)
                } else if far_offset_of(pad0) > m[far_segment_of(pad0) as int].len() {
                    Err(ErrorKind::OutOfBounds)
                } else {
                    Ok((far_segment_of(pad0) as int, far_offset_of(pad0) as int, pad1))
                }
            }
        }
    }
}

pub open spec fn target_matches(t: Target, r: (int, int, u64)) -> bool {
    t.seg == r.0 && t.start == r.1 && t.tag == r.2
}

fn near(msg: &Message, seg: usize, at: usize, w: u64) -> (r: Result<Target, ErrorKind>)
    requires
        seg < msg@.len(),
        at < msg@[seg as int].len(),
    ensures
        match (r, near_target(msg@, seg as int, at as int, w)) {
            (Ok(t), Ok(s)) => target_matches(t, s),
            (Err(e), Err(f)) => e == f,
            _ => false,
        },
{
    let len = msg.segment_len(seg);
    let t: i128 = at as i128 + 1 + offset(w) as i128;
    if 0 <= t && t <= len as i128 {
        Ok(Target { seg, start: t as usize, tag: w })
    } else {
        Err(ErrorKind::OutOfBounds)
    }
}

/// Resolves the pointer word at `at` in segment `seg`. A far pointer is
/// followed exactly once; a landing pad that holds another far pointer
/// (other than the one a two-word pad starts with) is refused.
pub fn resolve(msg: &Message, seg: usize, at: usize) -> (r: Result<Target, ErrorKind>)
    requires
        seg < msg@.len(),
        at < msg@[seg as int].len(),
    ensures
        match (r, resolve_spec(msg@, seg as int, at as int)) {
            (Ok(t), Ok(s)) => target_matches(t, s),
            (Err(e), Err(f)) => e == f,
            _ => false,
        },
{
    let w = msg.word(seg, at);
    if kind(w) != KIND_FAR {
        return near(msg, seg, at, w);
    }
    let ps = far_segment(w) as usize;
    let pad = far_offset(w) as usize;
    if ps >= msg.segment_count() {
        return Err(ErrorKind::OutOfBounds);
    }
    let plen = msg.segment_len(ps);
    if !far_double(w) {
        if pad + 1 > plen {
            return Err(ErrorKind::OutOfBounds);
        }
        let p = msg.word(ps, pad);
        if kind(p) == KIND_FAR {
            return Err(ErrorKind::MalformedPointer);
        }
        near(msg, ps, pad, p)
    } else {
        if pad + 2 > plen {
            return Err(ErrorKind::OutOfBounds);
        }
        let pad0 = msg.word(ps, pad);
        let pad1 = msg.word(ps, pad + 1);
        if kind(pad0) != KIND_FAR || far_double(pad0) || kind(pad1) == KIND_FAR {
            return Err(ErrorKind::MalformedPointer);
        }
        let ts = far_segment(pad0) as usize;
        if ts >= msg.segment_count() {
            return Err(ErrorKind::OutOfBounds);
        }
        let start = far_offset(pad0) as usize;
        if start > msg.segment_len(ts) {
            return Err(ErrorKind::OutOfBounds);
        }
        Ok(Target { seg: ts, start, tag: pad1 })
    }
}

} // verus!
