//! The size of everything a struct reaches through its pointers.
use vstd::prelude::*;
use crate::list::{ElementSize, ListReader};
use crate::message::{ErrorKind, Message};
use crate::pointer::{kind, kind_of, KIND_LIST, KIND_STRUCT};
use crate::reader::{addressable, StructReader};
use crate::resolve::{resolve, resolve_spec};

verus! {

/// A nesting limit as a measure: what is left of it, or nothing.
pub open spec fn depth_left(nesting_limit: i32) -> int {
    if nesting_limit > 0 { nesting_limit as int } else { 0 }
}

/// Walks pointers `idx..` of `s` and what they reach, with `b` words of
/// budget left: each non-null target is read as a struct or a list, charged
/// to the budget, and walked in turn (the elements of a list of structs with
/// pointers one by one). Gives what is left of the budget, or the first error.
pub open spec fn walk_pointers(m: Seq<Seq<u64>>, s: StructReader, idx: int, b: u64) -> Result<u64, ErrorKind>
    decreases depth_left(s.nesting_limit), 0int, s.ptr_count - idx,
{
    if idx < 0 || idx >= s.ptr_count {
        Ok(b)
    } else {
        let p = s.pointer_spec(idx as u16);
        if p.word(m) == 0 {
            walk_pointers(m, s, idx + 1, b)
        } else {
            match resolve_spec(m, p.seg as int, p.at as int) {
                Err(e) => Err(e),
                Ok(t) => if kind_of(t.2) == KIND_STRUCT {
                    match p.struct_spec(m, b) {
                        Err(e) => Err(e),
                        Ok(st) => {
                            let child = StructReader { seg: st.0 as usize, data_pos: (st.1 * 64) as u64,
                                data_bits: (st.2 * 64) as u64, ptr_word: (st.1 + st.2) as usize,
                                ptr_count: st.3 as u16, nesting_limit: (s.nesting_limit - 1) as i32 };
                            match walk_pointers(m, child, 0, (b - (st.2 + st.3)) as u64) {
                                Err(e) => Err(e),
                                Ok(b2) => walk_pointers(m, s, idx + 1, b2),
                            }
                        },
                    }
                } else if kind_of(t.2) == KIND_LIST {
                    match p.list_spec(m, ElementSize::Void, b) {
                        Err(e) => Err(e),
                        Ok(lc) => if lc.0.ptr_count > 0 {
                            match walk_elements(m, lc.0, 0, (b - lc.1) as u64) {
                                Err(e) => Err(e),
                                Ok(b2) => walk_pointers(m, s, idx + 1, b2),
                            }
                        } else {
                            walk_pointers(m, s, idx + 1, (b - lc.1) as u64)
                        },
                    }
                } else {
                    walk_pointers(m, s, idx + 1, b)
                },
            }
        }
    }
}

/// Walks the pointers of elements `k..` of `l`, as `walk_pointers` does.
pub open spec fn walk_elements(m: Seq<Seq<u64>>, l: ListReader, k: int, b: u64) -> Result<u64, ErrorKind>
    decreases depth_left(l.nesting_limit), 1int, l.count - k,
{
    if k < 0 || k >= l.count {
        Ok(b)
    } else {
        match walk_pointers(m, l.element_spec(k), 0, b) {
            Err(e) => Err(e),
            Ok(b2) => walk_elements(m, l, k + 1, b2),
        }
    }
}

impl StructReader {
    /// Words of the struct's own sections, a partial data word counted whole.
    pub open spec fn own_words(&self) -> int {
        (self.data_bits + 63) / 64 + self.ptr_count
    }

    /// Walks every pointer of the struct, and of what they reach, reading
    /// each target once per pointer to it; see `walk_pointers`. The result is
    /// the number of words charged on the way: each struct's sections, and
    /// each list's elements and tag word (elements of no size count one word
    /// each).
    pub fn pointers_size(&self, msg: &Message, budget: &mut u64) -> (r: Result<u64, ErrorKind>)
        requires
            self.wf(msg@),
            addressable(msg@),
        ensures
            match (r, walk_pointers(msg@, *self, 0, *old(budget))) {
                (Ok(n), Ok(left)) => *final(budget) == left && left <= *old(budget) && n == *old(budget) - left,
                (Err(e), Err(f)) => e == f,
                _ => false,
            },
        decreases depth_left(self.nesting_limit), 0int, 0int,
    {
        let ghost m = msg@;
        let ghost b0 = *budget;
        let start_budget = *budget;
        let mut i: u16 = 0;
        while i < self.ptr_count
            invariant
                self.wf(msg@),
                addressable(msg@),
                m == msg@,
                b0 == start_budget,
                b0 == *old(budget),
                *budget <= start_budget,
                i <= self.ptr_count,
                walk_pointers(m, *self, 0, b0) == walk_pointers(m, *self, i as int, *budget),
            decreases self.ptr_count - i,
        {
            let p = self.get_pointer_field(i);
            let ghost ii = i as int;
            let ghost bi = *budget;
            assert(p == self.pointer_spec(ii as u16));
            i = i + 1;
            if p.is_null(msg) {
                assert(walk_pointers(m, *self, ii, bi) == walk_pointers(m, *self, ii + 1, bi));
                continue;
            }
            let t = match resolve(msg, p.seg, p.at) {
                Ok(t) => t,
                Err(e) => {
                    assert(walk_pointers(m, *self, ii, bi) == Err::<u64, ErrorKind>(e));
                    return Err(e);
                },
            };
            if kind(t.tag) == KIND_STRUCT {
                let s = match p.get_struct(msg, budget) {
                    Ok(s) => s,
                    Err(e) => {
                        assert(walk_pointers(m, *self, ii, bi) == Err::<u64, ErrorKind>(e));
                        return Err(e);
                    },
                };
                let ghost st = p.struct_spec(m, bi)->Ok_0;
                let ghost child = StructReader { seg: st.0 as usize, data_pos: (st.1 * 64) as u64,
                    data_bits: (st.2 * 64) as u64, ptr_word: (st.1 + st.2) as usize,
                    ptr_count: st.3 as u16, nesting_limit: (self.nesting_limit - 1) as i32 };
                assert(s == child);
                let ghost bs = *budget;
                match s.pointers_size(msg, budget) {
                    Ok(_) => {
                        assert(walk_pointers(m, *self, ii, bi) == walk_pointers(m, *self, ii + 1, *budget));
                    },
                    Err(e) => {
                        assert(walk_pointers(m, *self, ii, bi) == Err::<u64, ErrorKind>(e));
                        return Err(e);
                    },
                }
            } else if kind(t.tag) == KIND_LIST {
                let l = match p.get_list(msg, ElementSize::Void, budget) {
                    Ok(l) => l,
                    Err(e) => {
                        assert(walk_pointers(m, *self, ii, bi) == Err::<u64, ErrorKind>(e));
                        return Err(e);
                    },
                };
                if l.ptr_count > 0 {
                    let ghost bl = *budget;
                    assert(walk_pointers(m, *self, ii, bi) == (match walk_elements(m, l, 0, bl) {
                        Err(e) => Err(e),
                        Ok(b2) => walk_pointers(m, *self, ii + 1, b2),
                    }));
                    let mut k: u32 = 0;
                    while k < l.count
                        invariant
                            l.wf(msg@),
                            addressable(msg@),
                            m == msg@,
                            *budget <= bl,
                            bl <= bi,
                            bi <= start_budget,
                            l.nesting_limit == self.nesting_limit - 1,
                            self.nesting_limit > 0,
                            k <= l.count,
                            walk_elements(m, l, 0, bl) == walk_elements(m, l, k as int, *budget),
                            walk_pointers(m, *self, ii, bi) == (match walk_elements(m, l, 0, bl) {
                                Err(e) => Err(e),
                                Ok(b2) => walk_pointers(m, *self, ii + 1, b2),
                            }),
                            walk_pointers(m, *self, 0, b0) == walk_pointers(m, *self, ii, bi),
                            b0 == *old(budget),
                            b0 == start_budget,
                        decreases l.count - k,
                    {
                        let e = l.get_struct_element(msg, k);
                        let ghost kk = k as int;
                        let ghost bk = *budget;
                        k = k + 1;
                        match e.pointers_size(msg, budget) {
                            Ok(_) => {
                                assert(walk_elements(m, l, kk, bk) == walk_elements(m, l, kk + 1, *budget));
                            },
                            Err(err) => {
                                assert(walk_elements(m, l, kk, bk) == Err::<u64, ErrorKind>(err));
                                assert(walk_pointers(m, *self, ii, bi) == Err::<u64, ErrorKind>(err));
                                return Err(err);
                            },
                        }
                    }
                    assert(walk_elements(m, l, k as int, *budget) == Ok::<u64, ErrorKind>(*budget));
                    assert(walk_pointers(m, *self, ii, bi) == walk_pointers(m, *self, ii + 1, *budget));
                } else {
                    assert(walk_pointers(m, *self, ii, bi) == walk_pointers(m, *self, ii + 1, *budget));
                }
            } else {
                assert(walk_pointers(m, *self, ii, bi) == walk_pointers(m, *self, ii + 1, bi));
            }
        }
        assert(walk_pointers(m, *self, i as int, *budget) == Ok::<u64, ErrorKind>(*budget));
        Ok(start_budget - *budget)
    }

    /// Words of the struct itself and of everything it reaches; see
    /// `pointers_size`. Fails as the walk fails, and where the sum would not
    /// fit in a `u64`.
    pub fn total_size(&self, msg: &Message, budget: &mut u64) -> (r: Result<u64, ErrorKind>)
        requires
            self.wf(msg@),
            addressable(msg@),
        ensures
            match (r, walk_pointers(msg@, *self, 0, *old(budget))) {
                (Ok(n), Ok(left)) => n == self.own_words() + (*old(budget) - left) && *final(budget) == left,
                (Err(e), Ok(left)) => e == ErrorKind::MessageTooLarge
                    && self.own_words() + (*old(budget) - left) > u64::MAX,
                (Err(e), Err(f)) => e == f,
                _ => false,
            },
    {
        let inner = match self.pointers_size(msg, budget) {
            Ok(n) => n,
            Err(e) => return Err(e),
        };
        let own = (self.data_bits + 63) / 64 + self.ptr_count as u64;
        if inner > u64::MAX - own {
            return Err(ErrorKind::MessageTooLarge);
        }
        Ok(own + inner)
    }
}

} // verus!
