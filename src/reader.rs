//! Read-only views of structs and lists, addressed by segment and offset.
use vstd::prelude::*;
use crate::message::{ErrorKind, Message};
use crate::pointer::{data_words, data_words_of, kind, kind_of, ptr_count, ptr_count_of, KIND_STRUCT};
use crate::resolve::{resolve, resolve_spec};

verus! {

/// Largest segment, in words, that views can address.
pub const MAX_SEGMENT_WORDS: usize = 0xFFFF_FFFF;

/// Every segment of `m` can be addressed by bit positions in a `u64`.
pub open spec fn addressable(m: Seq<Seq<u64>>) -> bool {
    forall|i: int| 0 <= i < m.len() ==> #[trigger] m[i].len() <= MAX_SEGMENT_WORDS
}

/// The low `w` bits set.
pub open spec fn mask(w: u64) -> u64 {
    if w >= 64 {
        0xFFFF_FFFF_FFFF_FFFFu64
    } else {
        ((1u64 << w) - 1) as u64
    }
}

/// Widths, in bits, of the scalar fields of a data section.
pub open spec fn is_width(w: u64) -> bool {
    w == 1 || w == 8 || w == 16 || w == 32 || w == 64
}

/// The `w` bits of `word` that start at bit `shift`.
pub open spec fn bits_of(word: u64, shift: u64, w: u64) -> u64 {
    (word >> shift) & mask(w)
}

/// A pointer slot: the word at `at` in segment `seg`, or, where `present` is
/// false, a slot beyond a struct's pointer section, which reads as null.
#[derive(Clone, Copy)]
pub struct PointerReader {
    pub seg: usize,
    pub at: usize,
    pub present: bool,
    pub nesting_limit: i32,
}

impl PointerReader {
    pub open spec fn wf(&self, m: Seq<Seq<u64>>) -> bool {
        self.present ==> (self.seg < m.len() && self.at < m[self.seg as int].len())
    }

    /// The pointer word, zero where the slot is absent.
    pub open spec fn word(&self, m: Seq<Seq<u64>>) -> u64 {
        if self.present {
            m[self.seg as int][self.at as int]
        } else {
            0
        }
    }

    /// A reader for the word at `at`, as for a message's root pointer.
    pub fn new(seg: usize, at: usize, nesting_limit: i32) -> (r: PointerReader)
        ensures
            r == (PointerReader { seg, at, present: true, nesting_limit }),
    {
        PointerReader { seg, at, present: true, nesting_limit }
    }

    pub fn is_null(&self, msg: &Message) -> (r: bool)
        requires
            self.wf(msg@),
            addressable(msg@),
        ensures
            r == (self.word(msg@) == 0),
    {
        !self.present || msg.word(self.seg, self.at) == 0
    }

    /// What reading a struct through this pointer gives: the segment, start,
    /// data words and pointer words of the target; a null pointer gives an
    /// empty struct.
    pub open spec fn struct_spec(&self, m: Seq<Seq<u64>>, budget: u64) -> Result<(int, int, u64, u64), ErrorKind> {
        if self.word(m) == 0 {
            Ok((self.seg as int, 0, 0, 0))
        } else if self.nesting_limit <= 0 {
            Err(ErrorKind::RecursionLimitExceeded)
        } else {
            match resolve_spec(m, self.seg as int, self.at as int) {
                Err(e) => Err(e),
                Ok(t) => {
                    let d = data_words_of(t.2);
                    let p = ptr_count_of(t.2);
                    if kind_of(t.2) != KIND_STRUCT {
                        Err(ErrorKind::MalformedPointer)
                    } else if t.1 + d + p > m[t.0].len() {
                        Err(ErrorKind::OutOfBounds)
                    } else if d + p > budget {
                        Err(ErrorKind::MessageTooLarge)
                    } else {
                        Ok((t.0, t.1, d, p))
                    }
                },
            }
        }
    }

    /// Reads the struct this pointer designates. `budget` is the number of
    /// words that may still be visited; it shrinks by the size of the struct.
    pub fn get_struct(&self, msg: &Message, budget: &mut u64) -> (r: Result<StructReader, ErrorKind>)
        requires
            self.wf(msg@),
            addressable(msg@),
        ensures
            match (r, self.struct_spec(msg@, *old(budget))) {
                (Ok(s), Ok(t)) => s.wf(msg@) && s.seg == t.0 && s.data_pos == t.1 * 64 && t.2 <= 0xFFFF
                    && s.data_bits == t.2 * 64 && s.ptr_word == t.1 + t.2 && s.ptr_count == t.3
                    && *final(budget) == *old(budget) - (t.2 + t.3)
                    && s.nesting_limit == (if self.word(msg@) == 0 {
                        self.nesting_limit as int
                    } else {
                        self.nesting_limit - 1
                    }),
                (Err(e), Err(f)) => e == f && *final(budget) == *old(budget),
                _ => false,
            },
    {
        if self.is_null(msg) {
            return Ok(StructReader::empty(self.seg, self.nesting_limit));
        }
        if self.nesting_limit <= 0 {
            return Err(ErrorKind::RecursionLimitExceeded);
        }
        let t = match resolve(msg, self.seg, self.at) {
            Ok(t) => t,
            Err(e) => return Err(e),
        };
        let d = data_words(t.tag);
        let p = ptr_count(t.tag);
        if kind(t.tag) != KIND_STRUCT {
            return Err(ErrorKind::MalformedPointer);
        }
        let len = msg.segment_len(t.seg);
        if t.start as u64 + d as u64 + p as u64 > len as u64 {
            return Err(ErrorKind::OutOfBounds);
        }
        if d as u64 + p as u64 > *budget {
            return Err(ErrorKind::MessageTooLarge);
        }
        *budget = *budget - (d as u64 + p as u64);
        Ok(StructReader {
            seg: t.seg,
            data_pos: t.start as u64 * 64,
            data_bits: d as u64 * 64,
            ptr_word: t.start + d as usize,
            ptr_count: p,
            nesting_limit: self.nesting_limit - 1,
        })
    }
}

impl Message {
    /// The root pointer: the first word of the first segment.
    pub fn root_pointer(&self, nesting_limit: i32) -> (r: Result<PointerReader, ErrorKind>)
        ensures
            self@.len() > 0 && self@[0].len() > 0 ==> r == Ok::<PointerReader, ErrorKind>(
                PointerReader { seg: 0, at: 0, present: true, nesting_limit }),
            !(self@.len() > 0 && self@[0].len() > 0) ==> r == Err::<PointerReader, ErrorKind>(ErrorKind::OutOfBounds),
    {
        if self.segment_count() == 0 || self.segment_len(0) == 0 {
            Err(ErrorKind::OutOfBounds)
        } else {
            Ok(PointerReader::new(0, 0, nesting_limit))
        }
    }
}

/// A struct: a data section of `data_bits` bits starting at bit `data_pos` of
/// segment `seg`, and `ptr_count` pointer words starting at word `ptr_word`.
#[derive(Clone, Copy)]
pub struct StructReader {
    pub seg: usize,
    pub data_pos: u64,
    pub data_bits: u64,
    pub ptr_word: usize,
    pub ptr_count: u16,
    pub nesting_limit: i32,
}

impl StructReader {
    /// Both sections lie inside the segment, and a data section of at most one
    /// word does not straddle two words.
    pub open spec fn wf(&self, m: Seq<Seq<u64>>) -> bool {
        (self.data_bits == 0 && self.ptr_count == 0) || (self.seg < m.len()
            && self.data_pos + self.data_bits <= 64 * m[self.seg as int].len()
            && (self.data_bits <= 64 ==> self.data_pos % 64 + self.data_bits <= 64)
            && (self.data_bits > 64 ==> self.data_pos % 64 == 0)
            && self.ptr_word + self.ptr_count <= m[self.seg as int].len())
    }

    /// The struct of no fields, which every field of reads as its default.
    pub fn empty(seg: usize, nesting_limit: i32) -> (r: StructReader)
        ensures
            r.data_bits == 0,
            r.ptr_count == 0,
            r.data_pos == 0,
            r.ptr_word == 0,
            r.seg == seg,
            r.nesting_limit == nesting_limit,
    {
        StructReader { seg, data_pos: 0, data_bits: 0, ptr_word: 0, ptr_count: 0, nesting_limit }
    }

    /// The field of width `w` at `slot` lies inside the data section.
    pub open spec fn field_in(&self, slot: int, w: u64) -> bool {
        (slot + 1) * w <= self.data_bits
    }

    /// The stored bits of the field of width `w` at `slot`; zero beyond the
    /// data section.
    pub open spec fn field_raw(&self, m: Seq<Seq<u64>>, slot: int, w: u64) -> u64 {
        if self.field_in(slot, w) {
            let pos = self.data_pos + slot * w;
            bits_of(m[self.seg as int][pos / 64], (pos % 64) as u64, w)
        } else {
            0
        }
    }

    fn get_raw(&self, msg: &Message, slot: u32, w: u64) -> (r: u64)
        requires
            self.wf(msg@),
            addressable(msg@),
            is_width(w),
        ensures
            r == self.field_raw(msg@, slot as int, w),
    {
        assert((slot as int + 1) * w <= 0x1_0000_0000 * 64) by (nonlinear_arith)
            requires
                slot < 0x1_0000_0000,
                w <= 64,
        ;
        if (slot as u64 + 1) * w > self.data_bits {
            return 0;
        }
        assert(slot as int * w + w == (slot as int + 1) * w) by (nonlinear_arith);
        assert(msg@[self.seg as int].len() <= MAX_SEGMENT_WORDS);
        let pos = self.data_pos + slot as u64 * w;
        let word = msg.word(self.seg, (pos / 64) as usize);
        let shift = pos % 64;
        assert(word == msg@[self.seg as int][(pos / 64) as int]);
        proof {
            if self.data_bits > 64 {
                lemma_aligned(self.data_pos, slot as u64, w);
            }
        }
        let m: u64 = if w >= 64 {
            0xFFFF_FFFF_FFFF_FFFF
        } else {
            assert(1u64 << w >= 1) by (bit_vector)
                requires
                    w < 64,
            ;
            (1u64 << w) - 1
        };
        assert(m == mask(w));
        (word >> shift) & m
    }

    pub fn get_data_field_u8(&self, msg: &Message, slot: u32, default: u8) -> (r: u8)
        requires
            self.wf(msg@),
            addressable(msg@),
        ensures
            r == (self.field_raw(msg@, slot as int, 8) as u8) ^ default,
    {
        (self.get_raw(msg, slot, 8) as u8) ^ default
    }

    pub fn get_data_field_u16(&self, msg: &Message, slot: u32, default: u16) -> (r: u16)
        requires
            self.wf(msg@),
            addressable(msg@),
        ensures
            r == (self.field_raw(msg@, slot as int, 16) as u16) ^ default,
    {
        (self.get_raw(msg, slot, 16) as u16) ^ default
    }

    pub fn get_data_field_u32(&self, msg: &Message, slot: u32, default: u32) -> (r: u32)
        requires
            self.wf(msg@),
            addressable(msg@),
        ensures
            r == (self.field_raw(msg@, slot as int, 32) as u32) ^ default,
    {
        (self.get_raw(msg, slot, 32) as u32) ^ default
    }

    pub fn get_data_field_u64(&self, msg: &Message, slot: u32, default: u64) -> (r: u64)
        requires
            self.wf(msg@),
            addressable(msg@),
        ensures
            r == self.field_raw(msg@, slot as int, 64) ^ default,
    {
        self.get_raw(msg, slot, 64) ^ default
    }

    pub fn get_data_field_i32(&self, msg: &Message, slot: u32, default: i32) -> (r: i32)
        requires
            self.wf(msg@),
            addressable(msg@),
        ensures
            r == ((self.field_raw(msg@, slot as int, 32) as u32) ^ (default as u32)) as i32,
    {
        ((self.get_raw(msg, slot, 32) as u32) ^ (default as u32)) as i32
    }

    pub fn get_data_field_i64(&self, msg: &Message, slot: u32, default: i64) -> (r: i64)
        requires
            self.wf(msg@),
            addressable(msg@),
        ensures
            r == (self.field_raw(msg@, slot as int, 64) ^ (default as u64)) as i64,
    {
        (self.get_raw(msg, slot, 64) ^ (default as u64)) as i64
    }

    pub fn get_bool_field(&self, msg: &Message, bit: u32, default: bool) -> (r: bool)
        requires
            self.wf(msg@),
            addressable(msg@),
        ensures
            r == ((self.field_raw(msg@, bit as int, 1) == 1) != default),
    {
        (self.get_raw(msg, bit, 1) == 1) != default
    }

    /// The slot of pointer `idx`, as `get_pointer_field` gives it.
    pub open spec fn pointer_spec(&self, idx: u16) -> PointerReader {
        if idx < self.ptr_count {
            PointerReader { seg: self.seg, at: (self.ptr_word + idx) as usize, present: true, nesting_limit: self.nesting_limit }
        } else {
            PointerReader { seg: self.seg, at: 0, present: false, nesting_limit: self.nesting_limit }
        }
    }

    /// The slot of pointer `idx`: a null slot beyond the pointer section.
    pub fn get_pointer_field(&self, idx: u16) -> (r: PointerReader)
        requires
            self.ptr_word + self.ptr_count <= usize::MAX,
        ensures
            r == self.pointer_spec(idx),
    {
        if idx < self.ptr_count {
            PointerReader { seg: self.seg, at: self.ptr_word + idx as usize, present: true, nesting_limit: self.nesting_limit }
        } else {
            PointerReader { seg: self.seg, at: 0, present: false, nesting_limit: self.nesting_limit }
        }
    }
}

/// Combining with a zero default leaves a value as it is.
pub proof fn lemma_xor_zero()
    by (bit_vector)
    ensures
        forall|x: u8| #[trigger] (x ^ 0) == x,
        forall|x: u16| #[trigger] (x ^ 0) == x,
        forall|x: u32| #[trigger] (x ^ 0) == x,
        forall|x: u64| #[trigger] (x ^ 0) == x,
{
}

/// A field of width `w` at `slot` of a word-aligned data section sits inside one word.
proof fn lemma_aligned(data_pos: u64, slot: u64, w: u64)
    requires
        data_pos % 64 == 0,
        slot < 0x1_0000_0000,
        is_width(w),
    ensures
        (data_pos + slot * w) % 64 + w <= 64,
{
    assert((slot * w) % 64 + w <= 64) by (bit_vector)
        requires
            slot < 0x1_0000_0000,
            w == 1 || w == 8 || w == 16 || w == 32 || w == 64,
    ;
    assert((data_pos + slot * w) % 64 == (slot * w) % 64) by (nonlinear_arith)
        requires
            data_pos % 64 == 0,
    ;
}

} // verus!
