//! Read-only views of lists, and the rules by which a stored list is read
//! under another element encoding than it was written with.
use vstd::prelude::*;
use crate::message::{ErrorKind, Message};
use crate::pointer::{
    data_words, data_words_of, elem_tag, elem_tag_of, kind, kind_of, list_count, list_count_of,
    offset_field, ptr_count, ptr_count_of, KIND_LIST, KIND_STRUCT,
};
use crate::reader::{addressable, PointerReader, StructReader, MAX_SEGMENT_WORDS};
use crate::resolve::{resolve, resolve_spec};

verus! {

/// How the elements of a list are encoded.
#[derive(Debug, Clone, Copy, PartialEq, Eq, Structural)]
pub enum ElementSize {
    Void,
    Bit,
    Byte,
    TwoBytes,
    FourBytes,
    EightBytes,
    Pointer,
    InlineComposite,
}

/// The element size named by a three-bit tag.
pub open spec fn size_of_tag(tag: u64) -> ElementSize {
    if tag == 0 {
        ElementSize::Void
    } else if tag == 1 {
        ElementSize::Bit
    } else if tag == 2 {
        ElementSize::Byte
    } else if tag == 3 {
        ElementSize::TwoBytes
    } else if tag == 4 {
        ElementSize::FourBytes
    } else if tag == 5 {
        ElementSize::EightBytes
    } else if tag == 6 {
        ElementSize::Pointer
    } else {
        ElementSize::InlineComposite
    }
}

/// Data bits of one element of a non-composite list.
pub open spec fn data_bits_spec(s: ElementSize) -> u64 {
    match s {
        ElementSize::Bit => 1,
        ElementSize::Byte => 8,
        ElementSize::TwoBytes => 16,
        ElementSize::FourBytes => 32,
        ElementSize::EightBytes => 64,
        _ => 0,
    }
}

/// Pointer words of one element of a non-composite list.
pub open spec fn pointers_spec(s: ElementSize) -> u64 {
    match s {
        ElementSize::Pointer => 1,
        _ => 0,
    }
}

impl ElementSize {
    pub fn from_tag(tag: u64) -> (r: ElementSize)
        ensures
            r == size_of_tag(tag),
    {
        if tag == 0 {
            ElementSize::Void
        } else if tag == 1 {
            ElementSize::Bit
        } else if tag == 2 {
            ElementSize::Byte
        } else if tag == 3 {
            ElementSize::TwoBytes
        } else if tag == 4 {
            ElementSize::FourBytes
        } else if tag == 5 {
            ElementSize::EightBytes
        } else if tag == 6 {
            ElementSize::Pointer
        } else {
            ElementSize::InlineComposite
        }
    }

    pub fn data_bits(self) -> (r: u64)
        ensures
            r == data_bits_spec(self),
    {
        match self {
            ElementSize::Bit => 1,
            ElementSize::Byte => 8,
            ElementSize::TwoBytes => 16,
            ElementSize::FourBytes => 32,
            ElementSize::EightBytes => 64,
            _ => 0,
        }
    }

    pub fn pointers(self) -> (r: u64)
        ensures
            r == pointers_spec(self),
    {
        match self {
            ElementSize::Pointer => 1,
            _ => 0,
        }
    }
}

/// A list stored as `stored` may be read as a list of `expected`: a bit list
/// only as a bit list (or void), and otherwise when each stored element holds
/// at least the data bits and pointers an expected element needs.
pub open spec fn compatible(stored: ElementSize, data: u64, ptrs: u64, expected: ElementSize) -> bool {
    if expected == ElementSize::Bit {
        stored == ElementSize::Bit
    } else if stored == ElementSize::Bit {
        expected == ElementSize::Void
    } else if expected == ElementSize::InlineComposite || expected == ElementSize::Void {
        true
    } else {
        data_bits_spec(expected) <= data && pointers_spec(expected) <= ptrs
    }
}

fn check_compatible(stored: ElementSize, data: u64, ptrs: u64, expected: ElementSize) -> (r: bool)
    ensures
        r == compatible(stored, data, ptrs, expected),
{
    if expected == ElementSize::Bit {
        stored == ElementSize::Bit
    } else if stored == ElementSize::Bit {
        expected == ElementSize::Void
    } else if expected == ElementSize::InlineComposite || expected == ElementSize::Void {
        true
    } else {
        expected.data_bits() <= data && expected.pointers() <= ptrs
    }
}

/// A list of `count` elements of `step` bits each, starting at word `start` of
/// segment `seg`. Each element is read as a struct of `data_bits` data bits
/// followed by `ptr_count` pointer words.
#[derive(Clone, Copy)]
pub struct ListReader {
    pub seg: usize,
    pub start: usize,
    pub count: u32,
    pub step: u64,
    pub data_bits: u64,
    pub ptr_count: u16,
    pub element_size: ElementSize,
    pub nesting_limit: i32,
}

/// Bits of a list of `count` elements of `step` bits, rounded up to whole words.
pub open spec fn list_words(count: int, step: int) -> int {
    (count * step + 63) / 64
}

impl ListReader {
    /// Elements below a word are packed without straddling words; elements of a
    /// word or more are whole words, data first; all of it inside the segment.
    pub open spec fn wf(&self, m: Seq<Seq<u64>>) -> bool {
        &&& self.count < 0x4000_0000
        &&& self.step < 0x80_0000
        &&& self.data_bits <= 0xFFFF * 64
        &&& (self.element_size == ElementSize::InlineComposite ==> self.data_bits % 64 == 0 && self.step % 64 == 0)
        &&& (self.count > 0 && self.element_size != ElementSize::InlineComposite ==> self.step
            == data_bits_spec(self.element_size) + 64 * pointers_spec(self.element_size))
        &&& (self.step < 64 ==> self.data_bits == self.step && self.ptr_count == 0 && (self.step == 0
            || self.step == 1 || self.step == 8 || self.step == 16 || self.step == 32))
        &&& (self.step >= 64 ==> self.step % 64 == 0 && self.data_bits % 64 == 0
            && self.data_bits + 64 * self.ptr_count == self.step)
        &&& (self.count > 0 ==> self.seg < m.len()
            && self.start + list_words(self.count as int, self.step as int) <= m[self.seg as int].len())
    }

    /// The list of no elements.
    pub fn empty(seg: usize, element_size: ElementSize, nesting_limit: i32) -> (r: ListReader)
        ensures
            r.count == 0,
            r.seg == seg,
            r.element_size == element_size,
            r.nesting_limit == nesting_limit,
            r.step == 0,
            r.start == 0,
            r.data_bits == 0,
            r.ptr_count == 0,
    {
        ListReader { seg, start: 0, count: 0, step: 0, data_bits: 0, ptr_count: 0, element_size, nesting_limit }
    }

    pub fn len(&self) -> (r: u32)
        ensures
            r == self.count,
    {
        self.count
    }

    /// Bit position at which element `i` starts.
    pub open spec fn element_pos(&self, i: int) -> int {
        self.start * 64 + i * self.step
    }

    /// The struct view of element `i`, found in constant time from the start
    /// of the list and the size of one element.
    pub open spec fn element_spec(&self, i: int) -> StructReader {
        StructReader {
            seg: self.seg,
            data_pos: self.element_pos(i) as u64,
            data_bits: self.data_bits,
            ptr_word: ((self.element_pos(i) + self.data_bits) / 64) as usize,
            ptr_count: self.ptr_count,
            nesting_limit: self.nesting_limit,
        }
    }

    /// The struct view of element `index`, which lies within the bits of the
    /// list: its data and its pointers both stand in element `index`'s share.
    pub fn get_struct_element(&self, msg: &Message, index: u32) -> (r: StructReader)
        requires
            index < self.count,
            self.wf(msg@),
            addressable(msg@),
        ensures
            r == self.element_spec(index as int),
            r.wf(msg@),
            self.start * 64 <= self.element_pos(index as int),
            self.element_pos(index as int) + self.step <= self.start * 64 + self.count * self.step,
            r.data_pos + r.data_bits <= self.element_pos(index as int) + self.step,
            r.ptr_count > 0 ==> r.ptr_word * 64 >= self.element_pos(index as int)
                && (r.ptr_word + r.ptr_count) * 64 <= self.element_pos(index as int) + self.step,
    {
        let ghost m = msg@;
        let ghost len = m[self.seg as int].len();
        let ghost i = index as int;
        let ghost step = self.step as int;
        let ghost cnt = self.count as int;
        assert(len <= MAX_SEGMENT_WORDS);
        assert(i * step < 0x4000_0000 * 0x80_0000 && i * step + step <= cnt * step && 0 <= i * step)
            by (nonlinear_arith)
            requires
                0 <= i < cnt <= 0x4000_0000,
                0 <= step < 0x80_0000,
        ;
        assert(cnt * step <= 64 * list_words(cnt, step)) by (nonlinear_arith)
            requires
                0 <= cnt,
                0 <= step,
        ;
        let pos: u64 = self.start as u64 * 64 + index as u64 * self.step;
        let ptr_word = ((pos + self.data_bits) / 64) as usize;
        proof {
            if self.step < 64 {
                lemma_packed(self.start as int, i, step);
            } else {
                lemma_words(self.start as int, i, step, self.data_bits as int);
            }
        }
        StructReader {
            seg: self.seg,
            data_pos: pos,
            data_bits: self.data_bits,
            ptr_word,
            ptr_count: self.ptr_count,
            nesting_limit: self.nesting_limit,
        }
    }
}

impl PointerReader {
    /// What reading a list of `expected` elements through this pointer gives,
    /// with the number of words charged against the budget: the words of the
    /// elements, and the tag word of a composite list. Elements of no
    /// size are charged one word each, so that a huge list of empty elements
    /// cannot be walked for free.
    pub open spec fn list_spec(&self, m: Seq<Seq<u64>>, expected: ElementSize, budget: u64) -> Result<(ListReader, u64), ErrorKind> {
        if self.word(m) == 0 {
            Ok((ListReader { seg: self.seg, start: 0, count: 0, step: 0, data_bits: 0, ptr_count: 0,
                element_size: expected, nesting_limit: self.nesting_limit }, 0))
        } else if self.nesting_limit <= 0 {
            Err(ErrorKind::RecursionLimitExceeded)
        } else {
            match resolve_spec(m, self.seg as int, self.at as int) {
                Err(e) => Err(e),
                Ok(t) => {
                    let w = t.2;
                    if kind_of(w) != KIND_LIST {
                        Err(ErrorKind::MalformedPointer)
                    } else if elem_tag_of(w) == 7 {
                        let wc = list_count_of(w);
                        if t.1 + 1 + wc > m[t.0].len() {
                            Err(ErrorKind::OutOfBounds)
                        } else {
                            let tag = m[t.0][t.1];
                            let n = offset_field(tag);
                            let d = data_words_of(tag);
                            let p = ptr_count_of(tag);
                            let charge = if d + p == 0 { n } else { (wc + 1) as u64 };
                            if kind_of(tag) != KIND_STRUCT {
                                Err(ErrorKind::MalformedPointer)
                            } else if n * (d + p) > wc {
                                Err(ErrorKind::MalformedPointer)
                            } else if !compatible(ElementSize::InlineComposite, (d * 64) as u64, p, expected) {
                                Err(ErrorKind::MalformedPointer)
                            } else if charge > budget {
                                Err(ErrorKind::MessageTooLarge)
                            } else {
                                Ok((ListReader { seg: t.0 as usize, start: (t.1 + 1) as usize, count: n as u32,
                                    step: ((d + p) * 64) as u64, data_bits: (d * 64) as u64, ptr_count: p as u16,
                                    element_size: ElementSize::InlineComposite,
                                    nesting_limit: (self.nesting_limit - 1) as i32 }, charge))
                            }
                        }
                    } else {
                        let es = size_of_tag(elem_tag_of(w));
                        let n = list_count_of(w);
                        let db = data_bits_spec(es);
                        let pc = pointers_spec(es);
                        let step = db + 64 * pc;
                        let words = list_words(n as int, step);
                        let charge = if step == 0 { n } else { words as u64 };
                        if t.1 + words > m[t.0].len() {
                            Err(ErrorKind::OutOfBounds)
                        } else if !compatible(es, db, pc, expected) {
                            Err(ErrorKind::MalformedPointer)
                        } else if charge > budget {
                            Err(ErrorKind::MessageTooLarge)
                        } else {
                            Ok((ListReader { seg: t.0 as usize, start: t.1 as usize, count: n as u32,
                                step: step as u64, data_bits: db, ptr_count: pc as u16, element_size: es,
                                nesting_limit: (self.nesting_limit - 1) as i32 }, charge))
                        }
                    }
                },
            }
        }
    }

    /// Reads the list this pointer designates as a list of `expected`
    /// elements, upgrading or narrowing the stored encoding where the two are
    /// compatible. `budget` shrinks by the words charged for the list.
    pub fn get_list(&self, msg: &Message, expected: ElementSize, budget: &mut u64) -> (r: Result<ListReader, ErrorKind>)
        requires
            self.wf(msg@),
            addressable(msg@),
        ensures
            match (r, self.list_spec(msg@, expected, *old(budget))) {
                (Ok(l), Ok(s)) => l == s.0 && l.wf(msg@) && *final(budget) == *old(budget) - s.1,
                (Err(e), Err(f)) => e == f && *final(budget) == *old(budget),
                _ => false,
            },
    {
        if self.is_null(msg) {
            return Ok(ListReader::empty(self.seg, expected, self.nesting_limit));
        }
        if self.nesting_limit <= 0 {
            return Err(ErrorKind::RecursionLimitExceeded);
        }
        let t = match resolve(msg, self.seg, self.at) {
            Ok(t) => t,
            Err(e) => return Err(e),
        };
        let w = t.tag;
        if kind(w) != KIND_LIST {
            return Err(ErrorKind::MalformedPointer);
        }
        let len = msg.segment_len(t.seg);
        proof {
            assert(len <= MAX_SEGMENT_WORDS);
        }
        if elem_tag(w) == 7 {
            let wc = list_count(w);
            if t.start as u64 + 1 + wc > len as u64 {
                return Err(ErrorKind::OutOfBounds);
            }
            let tag = msg.word(t.seg, t.start);
            let n = (tag & 0xFFFF_FFFF) >> 2;
            assert((tag & 0xFFFF_FFFF) >> 2 < 0x4000_0000) by (bit_vector);
            let d = data_words(tag) as u64;
            let p = ptr_count(tag) as u64;
            let charge = if d + p == 0 { n } else { wc + 1 };
            if kind(tag) != KIND_STRUCT {
                return Err(ErrorKind::MalformedPointer);
            }
            assert(n * (d + p) <= 0x4000_0000 * 0x2_0000) by (nonlinear_arith)
                requires
                    n < 0x4000_0000,
                    d + p <= 0x2_0000,
            ;
            if n * (d + p) > wc {
                return Err(ErrorKind::MalformedPointer);
            }
            if !check_compatible(ElementSize::InlineComposite, d * 64, p, expected) {
                return Err(ErrorKind::MalformedPointer);
            }
            if charge > *budget {
                return Err(ErrorKind::MessageTooLarge);
            }
            *budget = *budget - charge;
            let l = ListReader {
                seg: t.seg,
                start: t.start + 1,
                count: n as u32,
                step: (d + p) * 64,
                data_bits: d * 64,
                ptr_count: p as u16,
                element_size: ElementSize::InlineComposite,
                nesting_limit: self.nesting_limit - 1,
            };
            proof {
                let step = l.step as int;
                let cnt = n as int;
                assert(cnt * step == 64 * (cnt * (d + p))) by (nonlinear_arith)
                    requires
                        step == (d + p) * 64,
                ;
                assert(list_words(cnt, step) == cnt * (d + p));
            }
            Ok(l)
        } else {
            let es = ElementSize::from_tag(elem_tag(w));
            let n = list_count(w);
            let db = es.data_bits();
            let pc = es.pointers();
            let step = db + 64 * pc;
            assert(n * step <= 0x2000_0000 * 64) by (nonlinear_arith)
                requires
                    n <= 0x1FFF_FFFF,
                    step <= 64,
            ;
            let words = (n * step + 63) / 64;
            let charge = if step == 0 { n } else { words };
            if t.start as u64 + words > len as u64 {
                return Err(ErrorKind::OutOfBounds);
            }
            if !check_compatible(es, db, pc, expected) {
                return Err(ErrorKind::MalformedPointer);
            }
            if charge > *budget {
                return Err(ErrorKind::MessageTooLarge);
            }
            *budget = *budget - charge;
            Ok(ListReader {
                seg: t.seg,
                start: t.start,
                count: n as u32,
                step,
                data_bits: db,
                ptr_count: pc as u16,
                element_size: es,
                nesting_limit: self.nesting_limit - 1,
            })
        }
    }
}

/// A packed element below a word does not straddle two words.
proof fn lemma_packed(start: int, i: int, step: int)
    requires
        0 <= start,
        0 <= i < 0x4000_0000,
        step == 0 || step == 1 || step == 8 || step == 16 || step == 32,
    ensures
        (start * 64 + i * step) % 64 + step <= 64,
{
    let iu = i as u64;
    let su = step as u64;
    assert((iu * su) % 64 + su <= 64) by (bit_vector)
        requires
            iu < 0x4000_0000,
            su == 0 || su == 1 || su == 8 || su == 16 || su == 32,
    ;
    assert((start * 64 + i * step) % 64 == (i * step) % 64) by (nonlinear_arith)
        requires
            0 <= start,
            0 <= i,
            0 <= step,
    ;
}

/// An element of whole words starts on a word boundary, and its pointers
/// follow its data.
proof fn lemma_words(start: int, i: int, step: int, data_bits: int)
    requires
        0 <= start,
        0 <= i,
        step >= 64,
        step % 64 == 0,
        data_bits % 64 == 0,
        0 <= data_bits <= step,
    ensures
        (start * 64 + i * step) % 64 == 0,
        ((start * 64 + i * step + data_bits) / 64) * 64 == start * 64 + i * step + data_bits,
{
    let q = step / 64;
    assert(i * step == 64 * (i * q)) by (nonlinear_arith)
        requires
            step == 64 * q,
    ;
    vstd::arithmetic::div_mod::lemma_mod_multiples_basic(start + i * q, 64);
    assert((start + i * q) * 64 == start * 64 + i * step) by (nonlinear_arith)
        requires
            i * step == 64 * (i * q),
    ;
    assert((start * 64 + i * step + data_bits) % 64 == 0) by (nonlinear_arith)
        requires
            (start * 64 + i * step) % 64 == 0,
            data_bits % 64 == 0,
            0 <= start * 64 + i * step,
            0 <= data_bits,
    ;
}

} // verus!
