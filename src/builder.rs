//! Building a message in place: allocation at the end of a segment, pointers
//! written as offsets, and scalar fields set bit by bit.
use vstd::prelude::*;
use crate::message::{ErrorKind, Message};
use crate::pointer::{encode_list, encode_struct, kind, kind_of, list_word, set_offset, signed_offset, struct_word};
use crate::list::ElementSize;
use crate::reader::{addressable, bits_of, is_width, mask, PointerReader, StructReader, MAX_SEGMENT_WORDS};

verus! {

/// Largest segment, in words, that a builder grows: every word of it can be
/// reached by a direct pointer.
pub const MAX_BUILDER_WORDS: usize = 0x1FFF_FFFF;

/// The sizes of a struct type: data words and pointer words.
#[derive(Debug, Clone, Copy, PartialEq, Eq, Structural)]
pub struct StructSize {
    pub data: u16,
    pub pointers: u16,
}

impl StructSize {
    pub open spec fn words(&self) -> int {
        self.data + self.pointers
    }
}

/// `word` with the `w` bits at `shift` replaced by the low `w` bits of `v`.
pub open spec fn set_bits(word: u64, shift: u64, w: u64, v: u64) -> u64 {
    (word & !(mask(w) << shift)) | ((v & mask(w)) << shift)
}

/// Every segment before `seg` unchanged, segment `seg` unchanged below the old
/// length: what growing a message leaves as it was.
pub open spec fn extends(old: Seq<Seq<u64>>, new: Seq<Seq<u64>>) -> bool {
    &&& old.len() == new.len()
    &&& forall|s: int| 0 <= s < old.len() ==> #[trigger] new[s].len() >= old[s].len()
    &&& forall|s: int, i: int| 0 <= s < old.len() && 0 <= i < old[s].len() ==> #[trigger] new[s][i] == old[s][i]
}

impl Message {
    /// A message ready to be built: one segment holding a null root pointer.
    pub fn new() -> (r: Message)
        ensures
            r@ == seq![seq![0u64]],
    {
        let mut words: Vec<u64> = Vec::new();
        words.push(0);
        assert(words@ =~= seq![0u64]);
        Message::from_words(words)
    }

    /// Appends `n` zero words to segment `seg` and returns where they start.
    /// Words already in the message keep their places.
    pub fn allocate(&mut self, seg: usize, n: usize) -> (r: usize)
        requires
            seg < old(self)@.len(),
            old(self)@[seg as int].len() + n <= MAX_BUILDER_WORDS,
        ensures
            r == old(self)@[seg as int].len(),
            final(self)@ == old(self)@.update(seg as int, old(self)@[seg as int] + Seq::new(n as nat, |i: int| 0u64)),
            extends(old(self)@, final(self)@),
    {
        let ghost before = self@;
        let start = self.segments[seg].len();
        let mut words: Vec<u64> = Vec::new();
        self.segments.set_and_swap(seg, &mut words);
        let mut k: usize = 0;
        while k < n
            invariant
                k <= n,
                words@ == before[seg as int] + Seq::new(k as nat, |i: int| 0u64),
                self.segments@.len() == before.len(),
                forall|s: int| 0 <= s < before.len() && s != seg ==> #[trigger] self.segments@[s]@ == before[s],
            decreases n - k,
        {
            words.push(0);
            k = k + 1;
            assert(words@ =~= before[seg as int] + Seq::new(k as nat, |i: int| 0u64));
        }
        self.segments.set(seg, words);
        assert(self@ =~= before.update(seg as int, before[seg as int] + Seq::new(n as nat, |i: int| 0u64)));
        start
    }

    /// Overwrites one word.
    pub fn set_word(&mut self, seg: usize, idx: usize, w: u64)
        requires
            seg < old(self)@.len(),
            idx < old(self)@[seg as int].len(),
        ensures
            final(self)@ == old(self)@.update(seg as int, old(self)@[seg as int].update(idx as int, w)),
    {
        let ghost before = self@;
        let mut words: Vec<u64> = Vec::new();
        self.segments.set_and_swap(seg, &mut words);
        words.set(idx, w);
        self.segments.set(seg, words);
        assert(self@ =~= before.update(seg as int, before[seg as int].update(idx as int, w)));
    }
}

/// Setting the bits of a field and reading them back gives the low bits of
/// the value written.
pub proof fn lemma_set_bits(word: u64, shift: u64, w: u64, v: u64)
    requires
        is_width(w),
        shift + w <= 64,
    ensures
        bits_of(set_bits(word, shift, w, v), shift, w) == v & mask(w),
{
    let m = mask(w);
    if w == 64 {
        assert(shift == 0);
        assert(((((word & !(m << shift)) | ((v & m) << shift)) >> shift) & m) == v & m) by (bit_vector)
            requires
                shift == 0,
                m == 0xFFFF_FFFF_FFFF_FFFFu64,
        ;
    } else {
        assert(m == ((1u64 << w) - 1) as u64);
        assert(((((word & !(m << shift)) | ((v & m) << shift)) >> shift) & m) == v & m) by (bit_vector)
            requires
                w < 64,
                shift + w <= 64,
                m == ((1u64 << w) - 1) as u64,
        ;
    }
}

/// A struct being built: `data_words` words of data at `data_word`, then
/// `ptr_count` pointer words at `ptr_word`, in segment `seg`.
#[derive(Clone, Copy)]
pub struct StructBuilder {
    pub seg: usize,
    pub data_word: usize,
    pub data_words: u16,
    pub ptr_word: usize,
    pub ptr_count: u16,
}

impl StructBuilder {
    pub open spec fn wf(&self, m: Seq<Seq<u64>>) -> bool {
        &&& self.seg < m.len()
        &&& self.data_word + self.data_words <= m[self.seg as int].len()
        &&& self.ptr_word + self.ptr_count <= m[self.seg as int].len()
        &&& m[self.seg as int].len() <= MAX_SEGMENT_WORDS
    }

    /// The same struct seen by a reader.
    pub open spec fn reader_view(&self) -> StructReader {
        StructReader {
            seg: self.seg,
            data_pos: (self.data_word * 64) as u64,
            data_bits: (self.data_words * 64) as u64,
            ptr_word: self.ptr_word,
            ptr_count: self.ptr_count,
            nesting_limit: i32::MAX,
        }
    }

    pub fn as_reader(&self) -> (r: StructReader)
        requires
            self.data_word <= MAX_SEGMENT_WORDS,
        ensures
            r == self.reader_view(),
    {
        StructReader {
            seg: self.seg,
            data_pos: self.data_word as u64 * 64,
            data_bits: self.data_words as u64 * 64,
            ptr_word: self.ptr_word,
            ptr_count: self.ptr_count,
            nesting_limit: i32::MAX,
        }
    }

    /// Bit position of the field of width `w` at `slot`.
    pub open spec fn field_pos(&self, slot: int, w: u64) -> int {
        self.data_word * 64 + slot * w
    }

    /// The message `m` with the low `w` bits of `v` written into the field of
    /// width `w` at `slot`, and every other bit as it was.
    pub open spec fn with_field(&self, m: Seq<Seq<u64>>, slot: int, w: u64, v: u64) -> Seq<Seq<u64>> {
        m.update(self.seg as int, m[self.seg as int].update(
            self.field_pos(slot, w) / 64,
            set_bits(m[self.seg as int][self.field_pos(slot, w) / 64], (self.field_pos(slot, w) % 64) as u64, w, v)))
    }

    /// Writes the low `w` bits of `v` into the field of width `w` at `slot`;
    /// every other bit of the message stays as it was.
    fn set_raw(&self, msg: &mut Message, slot: u32, w: u64, v: u64)
        requires
            self.wf(old(msg)@),
            is_width(w),
            (slot + 1) * w <= self.data_words * 64,
        ensures
            final(msg)@ == self.with_field(old(msg)@, slot as int, w, v),
            self.reader_view().field_raw(final(msg)@, slot as int, w) == v & mask(w),
    {
        let ghost m0 = msg@;
        assert(slot * w + w == (slot + 1) * w) by (nonlinear_arith);
        assert(slot * w <= 0x1_0000 * 64) by (nonlinear_arith)
            requires
                (slot + 1) * w <= self.data_words * 64,
                self.data_words < 0x1_0000,
                w >= 1,
        ;
        let pos = self.data_word as u64 * 64 + slot as u64 * w;
        let idx = (pos / 64) as usize;
        let shift = pos % 64;
        proof {
            lemma_field_in_word(self.data_word as int, slot as int, w);
        }
        let old_word = msg.word(self.seg, idx);
        let m: u64 = if w >= 64 {
            0xFFFF_FFFF_FFFF_FFFF
        } else {
            assert(1u64 << w >= 1) by (bit_vector)
                requires
                    w < 64,
            ;
            (1u64 << w) - 1
        };
        assert(m == mask(w));
        let new_word = (old_word & !(m << shift)) | ((v & m) << shift);
        msg.set_word(self.seg, idx, new_word);
        proof {
            lemma_set_bits(old_word, shift, w, v);
            assert(msg@[self.seg as int][idx as int] == new_word);
        }
    }

    pub fn set_data_field_u8(&self, msg: &mut Message, slot: u32, value: u8, default: u8)
        requires
            self.wf(old(msg)@),
            (slot + 1) * 8 <= self.data_words * 64,
        ensures
            self.reader_view().field_raw(final(msg)@, slot as int, 8) == (value ^ default) as u64,
            final(msg)@ == self.with_field(old(msg)@, slot as int, 8, (value ^ default) as u64),
    {
        let v = (value ^ default) as u64;
        self.set_raw(msg, slot, 8, v);
        assert(v & mask(8) == v) by (bit_vector)
            requires
                v <= 0xFF,
        ;
    }

    pub fn set_data_field_u16(&self, msg: &mut Message, slot: u32, value: u16, default: u16)
        requires
            self.wf(old(msg)@),
            (slot + 1) * 16 <= self.data_words * 64,
        ensures
            self.reader_view().field_raw(final(msg)@, slot as int, 16) == (value ^ default) as u64,
            final(msg)@ == self.with_field(old(msg)@, slot as int, 16, (value ^ default) as u64),
    {
        let v = (value ^ default) as u64;
        self.set_raw(msg, slot, 16, v);
        assert(v & mask(16) == v) by (bit_vector)
            requires
                v <= 0xFFFF,
        ;
    }

    pub fn set_data_field_u32(&self, msg: &mut Message, slot: u32, value: u32, default: u32)
        requires
            self.wf(old(msg)@),
            (slot + 1) * 32 <= self.data_words * 64,
        ensures
            self.reader_view().field_raw(final(msg)@, slot as int, 32) == (value ^ default) as u64,
            final(msg)@ == self.with_field(old(msg)@, slot as int, 32, (value ^ default) as u64),
    {
        let v = (value ^ default) as u64;
        self.set_raw(msg, slot, 32, v);
        assert(v & mask(32) == v) by (bit_vector)
            requires
                v <= 0xFFFF_FFFF,
        ;
    }

    pub fn set_data_field_u64(&self, msg: &mut Message, slot: u32, value: u64, default: u64)
        requires
            self.wf(old(msg)@),
            (slot + 1) * 64 <= self.data_words * 64,
        ensures
            self.reader_view().field_raw(final(msg)@, slot as int, 64) == value ^ default,
            final(msg)@ == self.with_field(old(msg)@, slot as int, 64, value ^ default),
    {
        let v = value ^ default;
        self.set_raw(msg, slot, 64, v);
        assert(v & mask(64) == v) by (bit_vector);
    }

    pub fn set_bool_field(&self, msg: &mut Message, bit: u32, value: bool, default: bool)
        requires
            self.wf(old(msg)@),
            bit + 1 <= self.data_words * 64,
        ensures
            self.reader_view().field_raw(final(msg)@, bit as int, 1) == (if value != default { 1u64 } else { 0u64 }),
            final(msg)@ == self.with_field(old(msg)@, bit as int, 1, if value != default { 1u64 } else { 0u64 }),
    {
        let v: u64 = if value != default { 1 } else { 0 };
        self.set_raw(msg, bit, 1, v);
        assert(v & mask(1) == v) by (bit_vector)
            requires
                v <= 1,
        ;
    }

    /// The slot of pointer `idx`, which must lie in the pointer section.
    pub fn get_pointer_field(&self, idx: u16) -> (r: PointerBuilder)
        requires
            idx < self.ptr_count,
            self.ptr_word + self.ptr_count <= usize::MAX,
        ensures
            r == (PointerBuilder { seg: self.seg, at: (self.ptr_word + idx) as usize }),
    {
        PointerBuilder { seg: self.seg, at: self.ptr_word + idx as usize }
    }
}

/// A field inside a word-aligned data section lies in one word.
proof fn lemma_field_in_word(data_word: int, slot: int, w: u64)
    requires
        0 <= data_word,
        0 <= slot < 0x1_0000_0000,
        is_width(w),
    ensures
        (data_word * 64 + slot * w) % 64 + w <= 64,
        (data_word * 64 + slot * w) / 64 == data_word + (slot * w) / 64,
{
    let su = slot as u64;
    assert((su * w) % 64 + w <= 64) by (bit_vector)
        requires
            su < 0x1_0000_0000,
            w == 1 || w == 8 || w == 16 || w == 32 || w == 64,
    ;
    vstd::arithmetic::div_mod::lemma_mod_multiples_vanish(data_word, slot * w, 64);
    vstd::arithmetic::div_mod::lemma_hoist_over_denominator(slot * w, data_word, 64);
    assert(64 * data_word + slot * w == data_word * 64 + slot * w);
}

impl Message {
    /// Points the root pointer, the first word of the first segment, at a new
    /// zeroed struct of `size`.
    pub fn init_root(&mut self, size: StructSize) -> (r: Result<StructBuilder, ErrorKind>)
        requires
            old(self)@.len() > 0,
            old(self)@[0].len() > 0,
        ensures
            ({
                let m = old(self)@;
                let len = m[0].len();
                if len + size.words() > MAX_BUILDER_WORDS {
                    r == Err::<StructBuilder, ErrorKind>(ErrorKind::MalformedPointer) && final(self)@ == m
                } else {
                    r == Ok::<StructBuilder, ErrorKind>(StructBuilder {
                        seg: 0,
                        data_word: len as usize,
                        data_words: size.data,
                        ptr_word: (len + size.data) as usize,
                        ptr_count: size.pointers,
                    })
                    && final(self)@ == m.update(0, (m[0] + Seq::new(size.words() as nat, |i: int| 0u64)).update(0,
                        struct_word(len - 1, size.data, size.pointers)))
                }
            }),
    {
        let root = PointerBuilder { seg: 0, at: 0 };
        root.init_struct(self, size)
    }
}

/// A pointer slot being built: word `at` of segment `seg`.
#[derive(Clone, Copy, PartialEq, Eq, Structural)]
pub struct PointerBuilder {
    pub seg: usize,
    pub at: usize,
}

impl PointerBuilder {
    pub open spec fn wf(&self, m: Seq<Seq<u64>>) -> bool {
        self.seg < m.len() && self.at < m[self.seg as int].len()
    }

    /// The same slot seen by a reader with no nesting limit to speak of.
    pub open spec fn reader_view(&self) -> PointerReader {
        PointerReader { seg: self.seg, at: self.at, present: true, nesting_limit: i32::MAX }
    }

    /// What `get_struct_list` gives.
    pub open spec fn struct_list_spec(&self, m: Seq<Seq<u64>>, size: StructSize) -> Result<ListBuilder, ErrorKind> {
        match self.reader_view().list_spec(m, ElementSize::InlineComposite, u64::MAX) {
            Err(e) => Err(e),
            Ok(lc) => {
                let l = lc.0;
                let od = (l.data_bits / 64) as u16;
                let op = l.ptr_count;
                let nd = max16(od, size.data);
                let np = max16(op, size.pointers);
                let len = m[self.seg as int].len();
                if l.count == 0 {
                    Ok(ListBuilder { seg: self.seg, start: 0, count: 0, data_words: 0, ptr_count: 0 })
                } else if l.element_size != ElementSize::InlineComposite {
                    Err(ErrorKind::MalformedPointer)
                } else if od >= size.data && op >= size.pointers {
                    Ok(ListBuilder { seg: l.seg, start: l.start, count: l.count, data_words: od, ptr_count: op })
                } else if l.seg != self.seg || l.count * (nd + np) > 0x1FFF_FFFF
                    || len + 1 + l.count * (nd + np) > MAX_BUILDER_WORDS {
                    Err(ErrorKind::MalformedPointer)
                } else {
                    Ok(ListBuilder { seg: self.seg, start: (len + 1) as usize, count: l.count, data_words: nd, ptr_count: np })
                }
            },
        }
    }

    /// How `get_struct_list` leaves the message: unchanged, unless the list
    /// was copied forward; then the slot points at a new composite list whose
    /// elements hold the old data words and moved pointers, with the new
    /// words zero, everything else before the copy as it was.
    pub open spec fn struct_list_moved(&self, m: Seq<Seq<u64>>, f: Seq<Seq<u64>>, size: StructSize) -> bool {
        match (self.reader_view().list_spec(m, ElementSize::InlineComposite, u64::MAX), self.struct_list_spec(m, size)) {
            (Ok(lc), Ok(b)) => {
                let l = lc.0;
                let sg = self.seg as int;
                let len = m[sg].len();
                let od = (l.data_bits / 64) as int;
                let op = l.ptr_count as int;
                let os = od + op;
                let ns = b.data_words + b.ptr_count;
                if l.count == 0 || (od >= size.data && op >= size.pointers) {
                    f == m
                } else {
                    &&& f.len() == m.len()
                    &&& f[sg].len() == len + 1 + b.count * ns
                    &&& forall|s: int| 0 <= s < m.len() && s != sg ==> #[trigger] f[s] == m[s]
                    &&& forall|k: int| 0 <= k < len && k != self.at ==> #[trigger] f[sg][k] == m[sg][k]
                    &&& f[sg][self.at as int] == list_word(len - self.at - 1, 7, (b.count * ns) as u64)
                    &&& f[sg][len as int] == struct_word(b.count as int, b.data_words, b.ptr_count)
                    &&& forall|i: int, j: int| 0 <= i < b.count && 0 <= j < od ==>
                        #[trigger] f[sg][len + 1 + i * ns + j] == m[sg][l.start + i * os + j]
                    &&& forall|i: int, j: int| 0 <= i < b.count && od <= j < b.data_words ==>
                        #[trigger] f[sg][len + 1 + i * ns + j] == 0
                    &&& forall|i: int, j: int| 0 <= i < b.count && 0 <= j < op ==> moved_pointer(
                        m[sg][l.start + i * os + od + j], l.start + i * os + od + j,
                        #[trigger] f[sg][len + 1 + i * ns + b.data_words + j], len + 1 + i * ns + b.data_words + j)
                    &&& forall|i: int, j: int| 0 <= i < b.count && op <= j < b.ptr_count ==>
                        #[trigger] f[sg][len + 1 + i * ns + b.data_words + j] == 0
                }
            },
            _ => f == m,
        }
    }

    /// The composite list this slot already points to, for in-place changes,
    /// with elements of at least `size`. A null slot gives an empty list. A
    /// list of smaller elements is copied forward into a new list of elements
    /// of the larger of the two sizes, and the slot points at the copy; a list
    /// that is not composite, or one reached through a far pointer that would
    /// need copying, is refused.
    pub fn get_struct_list(&self, msg: &mut Message, size: StructSize) -> (r: Result<ListBuilder, ErrorKind>)
        requires
            self.wf(old(msg)@),
            addressable(old(msg)@),
        ensures
            r == self.struct_list_spec(old(msg)@, size),
            self.struct_list_moved(old(msg)@, final(msg)@, size),
            r matches Ok(b) ==> b.wf(final(msg)@) && (b.count > 0 ==> b.data_words >= size.data && b.ptr_count >= size.pointers),
    {
        let p = PointerReader { seg: self.seg, at: self.at, present: true, nesting_limit: i32::MAX };
        let mut budget: u64 = u64::MAX;
        let l = match p.get_list(msg, ElementSize::InlineComposite, &mut budget) {
            Ok(l) => l,
            Err(e) => return Err(e),
        };
        let ghost m0 = msg@;
        let len = msg.segment_len(self.seg);
        proof {
            assert(m0[self.seg as int].len() <= MAX_SEGMENT_WORDS);
        }
        if l.count == 0 {
            return Ok(ListBuilder::empty(self.seg));
        }
        if l.element_size != ElementSize::InlineComposite {
            return Err(ErrorKind::MalformedPointer);
        }
        let od = (l.data_bits / 64) as u16;
        let op = l.ptr_count;
        let ghost os = od as int + op as int;
        proof {
            let n = l.count as int;
            assert(l.data_bits % 64 == 0);
            assert(l.step == l.data_bits + 64 * l.ptr_count);
            assert(l.step == os * 64);
            assert((n * (os * 64) + 63) / 64 == n * os) by (nonlinear_arith)
                requires
                    n >= 0,
                    os >= 0,
            ;
            assert(m0[l.seg as int].len() <= MAX_SEGMENT_WORDS);
        }
        if od >= size.data && op >= size.pointers {
            let b = ListBuilder { seg: l.seg, start: l.start, count: l.count, data_words: od, ptr_count: op };
            return Ok(b);
        }
        if l.seg != self.seg {
            return Err(ErrorKind::MalformedPointer);
        }
        let nd: u16 = if od > size.data { od } else { size.data };
        let np: u16 = if op > size.pointers { op } else { size.pointers };
        let ns: u64 = nd as u64 + np as u64;
        let count = l.count;
        assert(count as u64 * ns <= 0x4000_0000 * 0x2_0000) by (nonlinear_arith)
            requires
                count < 0x4000_0000,
                ns <= 0x2_0000,
        ;
        let total = count as u64 * ns;
        if total > 0x1FFF_FFFF || len as u64 + 1 + total > MAX_BUILDER_WORDS as u64 {
            return Err(ErrorKind::MalformedPointer);
        }
        assert(count < 0x2000_0000) by (nonlinear_arith)
            requires
                count as u64 * ns <= 0x1FFF_FFFF,
                ns >= 1,
        ;
        let start = msg.allocate(self.seg, 1 + total as usize);
        let tag = encode_struct(count as i64, nd, np);
        msg.set_word(self.seg, start, tag);
        let base = start + 1;
        let seg = self.seg;
        let ghost nsi = ns as int;
        let mut i: u32 = 0;
        while i < count
            invariant
                i <= count,
                count == l.count,
                msg@.len() == m0.len(),
                seg == self.seg,
                seg < m0.len(),
                start == len,
                base == len + 1,
                len == m0[seg as int].len(),
                nsi == nd + np,
                ns == nd + np,
                total == count * ns,
                os == od + op,
                od < nd || op < np,
                od <= nd,
                op <= np,
                l.start + count * os <= len,
                len + 1 + count * nsi <= MAX_BUILDER_WORDS,
                msg@[seg as int].len() == len + 1 + count * nsi,
                forall|s: int| 0 <= s < m0.len() && s != seg ==> #[trigger] msg@[s] == m0[s],
                forall|k: int| 0 <= k < len ==> #[trigger] msg@[seg as int][k] == m0[seg as int][k],
                msg@[seg as int][len as int] == struct_word(count as int, nd, np),
                forall|q: int| base + i * nsi <= q < base + count * nsi ==> #[trigger] msg@[seg as int][q] == 0,
                forall|a: int, j: int| 0 <= a < i && 0 <= j < od ==>
                    #[trigger] msg@[seg as int][base + a * nsi + j] == m0[seg as int][l.start + a * os + j],
                forall|a: int, j: int| 0 <= a < i && od <= j < nd ==> #[trigger] msg@[seg as int][base + a * nsi + j] == 0,
                forall|a: int, j: int| 0 <= a < i && 0 <= j < op ==> moved_pointer(
                    m0[seg as int][l.start + a * os + od + j], l.start + a * os + od + j,
                    #[trigger] msg@[seg as int][base + a * nsi + nd + j], base + a * nsi + nd + j),
                forall|a: int, j: int| 0 <= a < i && op <= j < np ==> #[trigger] msg@[seg as int][base + a * nsi + nd + j] == 0,
            decreases count - i,
        {
            let ghost ii = i as int;
            proof {
                assert(ii * os + os <= count * os && ii * nsi + nsi <= count * nsi && 0 <= ii * os && 0 <= ii * nsi)
                    by (nonlinear_arith)
                    requires
                        0 <= ii < count,
                        os >= 0,
                        nsi >= 0,
                ;
            }
            let src = l.start + i as usize * (od as usize + op as usize);
            let dst = base + i as usize * ns as usize;
            let ghost prev = msg@;
            copy_struct(msg, seg, src, od as usize, src + od as usize, op as usize, len, dst, dst + nd as usize);
            proof {
                let sg = seg as int;
                assert forall|a: int, j: int| 0 <= a < ii && 0 <= j < od implies
                    #[trigger] msg@[sg][base + a * nsi + j] == m0[sg][l.start + a * os + j] by {
                    assert(a * nsi + nsi <= ii * nsi) by (nonlinear_arith)
                        requires
                            0 <= a < ii,
                            nsi >= 0,
                    ;
                    assert(prev[sg][base + a * nsi + j] == m0[sg][l.start + a * os + j]);
                }
                assert forall|a: int, j: int| 0 <= a < ii && od <= j < nd implies
                    #[trigger] msg@[sg][base + a * nsi + j] == 0 by {
                    assert(a * nsi + nsi <= ii * nsi) by (nonlinear_arith)
                        requires
                            0 <= a < ii,
                            nsi >= 0,
                    ;
                    assert(prev[sg][base + a * nsi + j] == 0);
                }
                assert forall|a: int, j: int| 0 <= a < ii && 0 <= j < op implies moved_pointer(
                    m0[sg][l.start + a * os + od + j], l.start + a * os + od + j,
                    #[trigger] msg@[sg][base + a * nsi + nd + j], base + a * nsi + nd + j) by {
                    assert(a * nsi + nsi <= ii * nsi) by (nonlinear_arith)
                        requires
                            0 <= a < ii,
                            nsi >= 0,
                    ;
                    assert(prev[sg][base + a * nsi + nd + j] == msg@[sg][base + a * nsi + nd + j]);
                }
                assert forall|a: int, j: int| 0 <= a < ii && op <= j < np implies
                    #[trigger] msg@[sg][base + a * nsi + nd + j] == 0 by {
                    assert(a * nsi + nsi <= ii * nsi) by (nonlinear_arith)
                        requires
                            0 <= a < ii,
                            nsi >= 0,
                    ;
                    assert(prev[sg][base + a * nsi + nd + j] == 0);
                }
                assert forall|j: int| od <= j < nd implies #[trigger] msg@[sg][dst + j] == 0 by {
                    assert(prev[sg][dst + j] == 0);
                }
                assert forall|j: int| op <= j < np implies #[trigger] msg@[sg][dst + nd + j] == 0 by {
                    assert(prev[sg][dst + nd + j] == 0);
                }
                assert((ii + 1) * nsi == ii * nsi + nsi) by (nonlinear_arith);
                assert forall|q: int| base + (ii + 1) * nsi <= q < base + count * nsi implies #[trigger] msg@[sg][q] == 0 by {
                    assert(prev[sg][q] == 0);
                }
                assert forall|j: int| 0 <= j < od implies #[trigger] msg@[sg][dst + j] == m0[sg][src + j] by {
                    assert(prev[sg][src + j] == m0[sg][src + j]);
                }
                assert forall|j: int| 0 <= j < op implies moved_pointer(m0[sg][src + od + j], src + od + j,
                    #[trigger] msg@[sg][dst + nd + j], dst + nd + j) by {
                    assert(prev[sg][src + od + j] == m0[sg][src + od + j]);
                }
            }
            i = i + 1;
        }
        let w = encode_list((start - self.at - 1) as i64, 7, total);
        let ghost before = msg@;
        msg.set_word(self.seg, self.at, w);
        proof {
            let sg = seg as int;
            let n = count as int;
            let ps = (nd + np) as int;
            assert(ps == nsi);
            assert forall|a: int, j: int| 0 <= a < n && 0 <= j < od implies
                #[trigger] msg@[sg][len + 1 + a * ps + j] == m0[sg][l.start + a * os + j] by {
                assert(a * nsi + nsi <= n * nsi) by (nonlinear_arith)
                    requires
                        0 <= a < n,
                        nsi >= 0,
                ;
                assert(before[sg][base + a * nsi + j] == m0[sg][l.start + a * os + j]);
            }
            assert forall|a: int, j: int| 0 <= a < n && od <= j < nd implies
                #[trigger] msg@[sg][len + 1 + a * ps + j] == 0 by {
                assert(a * nsi + nsi <= n * nsi) by (nonlinear_arith)
                    requires
                        0 <= a < n,
                        nsi >= 0,
                ;
                assert(before[sg][base + a * nsi + j] == 0);
            }
            assert forall|a: int, j: int| 0 <= a < n && 0 <= j < op implies moved_pointer(
                m0[sg][l.start + a * os + od + j], l.start + a * os + od + j,
                #[trigger] msg@[sg][len + 1 + a * ps + nd + j], len + 1 + a * ps + nd + j) by {
                assert(a * nsi + nsi <= n * nsi) by (nonlinear_arith)
                    requires
                        0 <= a < n,
                        nsi >= 0,
                ;
                assert(before[sg][base + a * nsi + nd + j] == msg@[sg][len + 1 + a * ps + nd + j]);
            }
            assert forall|a: int, j: int| 0 <= a < n && op <= j < np implies
                #[trigger] msg@[sg][len + 1 + a * ps + nd + j] == 0 by {
                assert(a * nsi + nsi <= n * nsi) by (nonlinear_arith)
                    requires
                        0 <= a < n,
                        nsi >= 0,
                ;
                assert(before[sg][base + a * nsi + nd + j] == 0);
            }
            assert forall|k: int| 0 <= k < len && k != self.at implies #[trigger] msg@[sg][k] == m0[sg][k] by {
                assert(before[sg][k] == m0[sg][k]);
            }
            assert((l.data_bits / 64) as u16 == od);
        }
        Ok(ListBuilder { seg: self.seg, start: base, count, data_words: nd, ptr_count: np })
    }

    /// What `init_struct` gives, and the message it leaves.
    pub open spec fn init_struct_spec(&self, m: Seq<Seq<u64>>, size: StructSize) -> (Result<StructBuilder, ErrorKind>, Seq<Seq<u64>>) {
        let len = m[self.seg as int].len();
        let grown = m[self.seg as int] + Seq::new(size.words() as nat, |i: int| 0u64);
        if len + size.words() > MAX_BUILDER_WORDS {
            (Err(ErrorKind::MalformedPointer), m)
        } else {
            (Ok(StructBuilder {
                seg: self.seg,
                data_word: len as usize,
                data_words: size.data,
                ptr_word: (len + size.data) as usize,
                ptr_count: size.pointers,
            }), m.update(self.seg as int, grown.update(self.at as int,
                struct_word(len - self.at - 1, size.data, size.pointers))))
        }
    }

    /// Allocates a zeroed struct of `size` at the end of this slot's segment
    /// and points the slot at it. Fails when the segment would grow past what
    /// a direct pointer reaches.
    pub fn init_struct(&self, msg: &mut Message, size: StructSize) -> (r: Result<StructBuilder, ErrorKind>)
        requires
            self.wf(old(msg)@),
        ensures
            (r, final(msg)@) == self.init_struct_spec(old(msg)@, size),
    {
        let words = size.data as usize + size.pointers as usize;
        if msg.segment_len(self.seg) > MAX_BUILDER_WORDS - words {
            return Err(ErrorKind::MalformedPointer);
        }
        let start = msg.allocate(self.seg, words);
        let off = (start - self.at - 1) as i64;
        let w = encode_struct(off, size.data, size.pointers);
        msg.set_word(self.seg, self.at, w);
        Ok(StructBuilder {
            seg: self.seg,
            data_word: start,
            data_words: size.data,
            ptr_word: start + size.data as usize,
            ptr_count: size.pointers,
        })
    }

    /// Allocates a composite list of `count` zeroed structs of `size`, after a
    /// tag word that records the count and the size, and points the slot at
    /// it. Fails when the list is too long to encode or the segment would grow
    /// past what a direct pointer reaches.
    pub fn init_struct_list(&self, msg: &mut Message, count: u32, size: StructSize) -> (r: Result<ListBuilder, ErrorKind>)
        requires
            self.wf(old(msg)@),
        ensures
            ({
                let m = old(msg)@;
                let len = m[self.seg as int].len();
                let total = count * size.words();
                let grown = m[self.seg as int] + Seq::new((1 + total) as nat, |i: int| 0u64);
                if count >= 0x2000_0000 || total > 0x1FFF_FFFF || len + 1 + total > MAX_BUILDER_WORDS {
                    r == Err::<ListBuilder, ErrorKind>(ErrorKind::MalformedPointer) && final(msg)@ == m
                } else {
                    r == Ok::<ListBuilder, ErrorKind>(ListBuilder {
                        seg: self.seg,
                        start: (len + 1) as usize,
                        count,
                        data_words: size.data,
                        ptr_count: size.pointers,
                    })
                    && final(msg)@ == m.update(self.seg as int, grown
                        .update(len as int, struct_word(count as int, size.data, size.pointers))
                        .update(self.at as int, list_word(len - self.at - 1, 7, total as u64)))
                }
            }),
    {
        let per = size.data as u64 + size.pointers as u64;
        assert(count as u64 * per <= 0xFFFF_FFFF * 0x2_0000) by (nonlinear_arith)
            requires
                per <= 0x2_0000,
        ;
        let total = count as u64 * per;
        if count >= 0x2000_0000 || total > 0x1FFF_FFFF {
            return Err(ErrorKind::MalformedPointer);
        }
        if msg.segment_len(self.seg) as u128 + 1 + total as u128 > MAX_BUILDER_WORDS as u128 {
            return Err(ErrorKind::MalformedPointer);
        }
        let start = msg.allocate(self.seg, 1 + total as usize);
        let tag = encode_struct(count as i64, size.data, size.pointers);
        msg.set_word(self.seg, start, tag);
        let off = (start - self.at - 1) as i64;
        let w = encode_list(off, 7, total);
        msg.set_word(self.seg, self.at, w);
        Ok(ListBuilder { seg: self.seg, start: start + 1, count, data_words: size.data, ptr_count: size.pointers })
    }
}

/// The pointer word `new_w` at `new_at` stands for `old_w` at `old_at`: a
/// struct or list pointer keeps its kind and sizes and reaches the same word
/// (or, where the old one reached before the segment's start, still does);
/// any other word is copied as it was.
pub open spec fn moved_pointer(old_w: u64, old_at: int, new_w: u64, new_at: int) -> bool {
    if old_w != 0 && kind_of(old_w) < 2 {
        kind_of(new_w) == kind_of(old_w) && new_w >> 32 == old_w >> 32 && (if old_at + 1 + signed_offset(old_w) >= 0 {
            new_at + signed_offset(new_w) == old_at + signed_offset(old_w)
        } else {
            new_at + 1 + signed_offset(new_w) < 0
        })
    } else {
        new_w == old_w
    }
}

pub open spec fn max16(a: u16, b: u16) -> u16 {
    if a > b { a } else { b }
}

/// Copies `od` data words from `src_data` to `dst_data` and moves `op`
/// pointer words from `src_ptr` to `dst_ptr`, all in segment `seg`; the
/// sources lie below `limit` and the targets at or above it.
fn copy_struct(msg: &mut Message, seg: usize, src_data: usize, od: usize, src_ptr: usize, op: usize,
    limit: usize, dst_data: usize, dst_ptr: usize)
    requires
        seg < old(msg)@.len(),
        src_data + od <= limit,
        src_ptr + op <= limit,
        limit <= dst_data,
        dst_data + od <= dst_ptr,
        dst_ptr + op <= old(msg)@[seg as int].len(),
        old(msg)@[seg as int].len() <= MAX_BUILDER_WORDS,
    ensures
        final(msg)@.len() == old(msg)@.len(),
        final(msg)@[seg as int].len() == old(msg)@[seg as int].len(),
        forall|s: int| 0 <= s < old(msg)@.len() && s != seg ==> #[trigger] final(msg)@[s] == old(msg)@[s],
        forall|k: int| 0 <= k < old(msg)@[seg as int].len() && !(dst_data <= k < dst_data + od)
            && !(dst_ptr <= k < dst_ptr + op) ==> #[trigger] final(msg)@[seg as int][k] == old(msg)@[seg as int][k],
        forall|j: int| 0 <= j < od ==> #[trigger] final(msg)@[seg as int][dst_data + j] == old(msg)@[seg as int][src_data + j],
        forall|j: int| 0 <= j < op ==> moved_pointer(old(msg)@[seg as int][src_ptr + j], src_ptr + j,
            #[trigger] final(msg)@[seg as int][dst_ptr + j], dst_ptr + j),
{
    let ghost m0 = msg@;
    let mut j: usize = 0;
    while j < od
        invariant
            j <= od,
            m0 == old(msg)@,
            seg < m0.len(),
            src_data + od <= limit,
            src_ptr + op <= limit,
            limit <= dst_data,
            dst_data + od <= dst_ptr,
            dst_ptr + op <= m0[seg as int].len(),
            m0[seg as int].len() <= MAX_BUILDER_WORDS,
            msg@.len() == m0.len(),
            msg@[seg as int].len() == m0[seg as int].len(),
            forall|s: int| 0 <= s < m0.len() && s != seg ==> #[trigger] msg@[s] == m0[s],
            forall|k: int| 0 <= k < m0[seg as int].len() && !(dst_data <= k < dst_data + j)
                ==> #[trigger] msg@[seg as int][k] == m0[seg as int][k],
            forall|k: int| 0 <= k < j ==> #[trigger] msg@[seg as int][dst_data + k] == m0[seg as int][src_data + k],
        decreases od - j,
    {
        let w = msg.word(seg, src_data + j);
        msg.set_word(seg, dst_data + j, w);
        j = j + 1;
    }
    let mut j: usize = 0;
    while j < op
        invariant
            j <= op,
            m0 == old(msg)@,
            seg < m0.len(),
            src_data + od <= limit,
            src_ptr + op <= limit,
            limit <= dst_data,
            dst_data + od <= dst_ptr,
            dst_ptr + op <= m0[seg as int].len(),
            m0[seg as int].len() <= MAX_BUILDER_WORDS,
            msg@.len() == m0.len(),
            msg@[seg as int].len() == m0[seg as int].len(),
            forall|s: int| 0 <= s < m0.len() && s != seg ==> #[trigger] msg@[s] == m0[s],
            forall|k: int| 0 <= k < m0[seg as int].len() && !(dst_data <= k < dst_data + od) && !(dst_ptr <= k < dst_ptr + j)
                ==> #[trigger] msg@[seg as int][k] == m0[seg as int][k],
            forall|k: int| 0 <= k < od ==> #[trigger] msg@[seg as int][dst_data + k] == m0[seg as int][src_data + k],
            forall|k: int| 0 <= k < j ==> moved_pointer(m0[seg as int][src_ptr + k], src_ptr + k,
                #[trigger] msg@[seg as int][dst_ptr + k], dst_ptr + k),
        decreases op - j,
    {
        let from = src_ptr + j;
        let to = dst_ptr + j;
        let w = msg.word(seg, from);
        let nw = if w != 0 && kind(w) < 2 {
            let off = crate::pointer::offset(w);
            let target: i64 = from as i64 + 1 + off;
            let noff: i64 = target - to as i64 - 1;
            if noff < -0x2000_0000 {
                set_offset(w, -0x2000_0000)
            } else {
                set_offset(w, noff)
            }
        } else {
            w
        };
        let ghost prev = msg@;
        msg.set_word(seg, to, nw);
        assert(forall|k: int| 0 <= k < od ==> #[trigger] msg@[seg as int][dst_data + k] == prev[seg as int][dst_data + k]);
        assert(forall|k: int| 0 <= k < j ==> #[trigger] msg@[seg as int][dst_ptr + k] == prev[seg as int][dst_ptr + k]);
        j = j + 1;
    }
}

impl PointerBuilder {
    /// The struct this slot points to, for in-place changes, with at least the
    /// sections of `size`. A null slot gets a new zeroed struct, as from
    /// `init_struct`. A struct smaller than `size` is copied forward into new
    /// storage of the larger of the two sizes, its data words as they were,
    /// its pointers moved so that they reach the same targets, and the new
    /// words zero; the slot then points at the copy. A struct reached through
    /// a far pointer is not copied forward.
    pub fn get_struct(&self, msg: &mut Message, size: StructSize) -> (r: Result<StructBuilder, ErrorKind>)
        requires
            self.wf(old(msg)@),
            addressable(old(msg)@),
        ensures
            self.reader_view().word(old(msg)@) == 0 ==> (r, final(msg)@) == self.init_struct_spec(old(msg)@, size),
            r matches Ok(b) ==> b.wf(final(msg)@) && b.data_words >= size.data && b.ptr_count >= size.pointers,
            match self.reader_view().struct_spec(old(msg)@, u64::MAX) {
                Err(e) => r == Err::<StructBuilder, ErrorKind>(e) && final(msg)@ == old(msg)@,
                Ok(t) => self.reader_view().word(old(msg)@) != 0 ==> ({
                    let m = old(msg)@;
                    let len = m[self.seg as int].len();
                    let nd = max16(t.2 as u16, size.data);
                    let np = max16(t.3 as u16, size.pointers);
                    if t.2 >= size.data && t.3 >= size.pointers {
                        r == Ok::<StructBuilder, ErrorKind>(StructBuilder { seg: t.0 as usize, data_word: t.1 as usize,
                            data_words: t.2 as u16, ptr_word: (t.1 + t.2) as usize, ptr_count: t.3 as u16 })
                        && final(msg)@ == m
                    } else if t.0 != self.seg || len + nd + np > MAX_BUILDER_WORDS {
                        r == Err::<StructBuilder, ErrorKind>(ErrorKind::MalformedPointer) && final(msg)@ == m
                    } else {
                        r == Ok::<StructBuilder, ErrorKind>(StructBuilder { seg: self.seg, data_word: len as usize,
                            data_words: nd, ptr_word: (len + nd) as usize, ptr_count: np })
                        && final(msg)@.len() == m.len()
                        && final(msg)@[self.seg as int].len() == len + nd + np
                        && final(msg)@[self.seg as int][self.at as int] == struct_word(len - self.at - 1, nd, np)
                        && (forall|k: int| 0 <= k < len && k != self.at ==> #[trigger] final(msg)@[self.seg as int][k] == m[self.seg as int][k])
                        && (forall|j: int| 0 <= j < t.2 ==> #[trigger] final(msg)@[self.seg as int][len + j] == m[t.0][t.1 + j])
                        && (forall|j: int| t.2 <= j < nd ==> #[trigger] final(msg)@[self.seg as int][len + j] == 0)
                        && (forall|j: int| 0 <= j < t.3 ==> moved_pointer(m[t.0][t.1 + t.2 + j], t.1 + t.2 + j,
                            #[trigger] final(msg)@[self.seg as int][len + nd + j], len + nd + j))
                        && (forall|j: int| t.3 <= j < np ==> #[trigger] final(msg)@[self.seg as int][len + nd + j] == 0)
                    }
                }),
            },
    {
        let p = PointerReader { seg: self.seg, at: self.at, present: true, nesting_limit: i32::MAX };
        if p.is_null(msg) {
            return self.init_struct(msg, size);
        }
        let mut budget: u64 = u64::MAX;
        let s = match p.get_struct(msg, &mut budget) {
            Ok(s) => s,
            Err(e) => return Err(e),
        };
        let ghost m0 = msg@;
        let od = (s.data_bits / 64) as u16;
        let op = s.ptr_count;
        let ostart = (s.data_pos / 64) as usize;
        assert(m0[s.seg as int].len() <= MAX_SEGMENT_WORDS);
        if od >= size.data && op >= size.pointers {
            return Ok(StructBuilder { seg: s.seg, data_word: ostart, data_words: od, ptr_word: s.ptr_word, ptr_count: op });
        }
        if s.seg != self.seg {
            return Err(ErrorKind::MalformedPointer);
        }
        let nd: u16 = if od > size.data { od } else { size.data };
        let np: u16 = if op > size.pointers { op } else { size.pointers };
        let words = nd as usize + np as usize;
        let len = msg.segment_len(self.seg);
        if len > MAX_BUILDER_WORDS - words {
            return Err(ErrorKind::MalformedPointer);
        }
        let start = msg.allocate(self.seg, words);
        let ghost m1 = msg@;
        copy_struct(msg, self.seg, ostart, od as usize, s.ptr_word, op as usize, len, start, start + nd as usize);
        let ghost m2 = msg@;
        let w = encode_struct((start - self.at - 1) as i64, nd, np);
        msg.set_word(self.seg, self.at, w);
        proof {
            let sg = self.seg as int;
            assert forall|j: int| od <= j < nd implies #[trigger] msg@[sg][len + j] == 0 by {
                assert(m2[sg][len + j] == m1[sg][len + j]);
            }
            assert forall|j: int| op <= j < np implies #[trigger] msg@[sg][len + nd + j] == 0 by {
                assert(m2[sg][len + nd + j] == m1[sg][len + nd + j]);
            }
            assert forall|k: int| 0 <= k < len && k != self.at implies #[trigger] msg@[sg][k] == m0[sg][k] by {
                assert(m2[sg][k] == m1[sg][k]);
            }
            assert forall|j: int| 0 <= j < od implies #[trigger] msg@[sg][len + j] == m0[sg][ostart + j] by {
                assert(m2[sg][len + j] == m1[sg][ostart + j]);
            }
            assert forall|j: int| 0 <= j < op implies moved_pointer(m0[sg][s.ptr_word + j], s.ptr_word + j,
                #[trigger] msg@[sg][len + nd + j], len + nd + j) by {
                assert(m2[sg][len + nd + j] == msg@[sg][len + nd + j]);
                assert(m1[sg][s.ptr_word + j] == m0[sg][s.ptr_word + j]);
            }
        }
        Ok(StructBuilder { seg: self.seg, data_word: start, data_words: nd, ptr_word: start + nd as usize, ptr_count: np })
    }
}

/// A composite list being built: `count` structs of `data_words` data words
/// and `ptr_count` pointer words each, from word `start` of segment `seg`.
#[derive(Clone, Copy)]
pub struct ListBuilder {
    pub seg: usize,
    pub start: usize,
    pub count: u32,
    pub data_words: u16,
    pub ptr_count: u16,
}

impl ListBuilder {
    pub open spec fn step(&self) -> int {
        self.data_words + self.ptr_count
    }

    pub open spec fn wf(&self, m: Seq<Seq<u64>>) -> bool {
        &&& self.seg < m.len()
        &&& self.start + self.count * self.step() <= m[self.seg as int].len()
        &&& m[self.seg as int].len() <= MAX_SEGMENT_WORDS
    }

    /// The list of no elements.
    pub fn empty(seg: usize) -> (r: ListBuilder)
        ensures
            r == (ListBuilder { seg, start: 0, count: 0, data_words: 0, ptr_count: 0 }),
    {
        ListBuilder { seg, start: 0, count: 0, data_words: 0, ptr_count: 0 }
    }

    pub fn len(&self) -> (r: u32)
        ensures
            r == self.count,
    {
        self.count
    }

    /// Word at which element `i` starts.
    pub open spec fn element_word(&self, i: int) -> int {
        self.start + i * self.step()
    }

    /// The struct view of element `index`, which lies within the words of the list.
    pub fn get_struct_element(&self, index: u32) -> (r: StructBuilder)
        requires
            index < self.count,
            self.seg < usize::MAX,
            self.start + self.count * self.step() <= MAX_SEGMENT_WORDS,
        ensures
            r == (StructBuilder {
                seg: self.seg,
                data_word: self.element_word(index as int) as usize,
                data_words: self.data_words,
                ptr_word: (self.element_word(index as int) + self.data_words) as usize,
                ptr_count: self.ptr_count,
            }),
            self.start <= self.element_word(index as int),
            self.element_word(index as int) + self.step() <= self.start + self.count * self.step(),
    {
        let ghost i = index as int;
        let ghost st = self.step();
        assert(i * st + st <= self.count * st && 0 <= i * st) by (nonlinear_arith)
            requires
                0 <= i < self.count,
                0 <= st,
        ;
        let at = self.start + index as usize * (self.data_words as usize + self.ptr_count as usize);
        StructBuilder {
            seg: self.seg,
            data_word: at,
            data_words: self.data_words,
            ptr_word: at + self.data_words as usize,
            ptr_count: self.ptr_count,
        }
    }
}

} // verus!
