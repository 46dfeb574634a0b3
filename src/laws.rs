//! Properties that hold across the readers and builders.
use vstd::prelude::*;
use crate::builder::{extends, ListBuilder, PointerBuilder, StructBuilder, StructSize, MAX_BUILDER_WORDS};
use crate::list::{list_words, ElementSize, ListReader};
use crate::message::ErrorKind;
use crate::pointer::{
    data_words_of, elem_tag_of, far_double_of, far_offset_of, far_segment_of, kind_of, lemma_list_word,
    lemma_struct_word, list_word, offset_field, ptr_count_of, struct_word, KIND_FAR,
};
use crate::reader::{addressable, is_width, PointerReader, StructReader, MAX_SEGMENT_WORDS};
use crate::resolve::resolve_spec;
use crate::struct_list::{Builder as BuilderList, Reader};

verus! {

/// A field that lies beyond a struct's data section reads as its default,
/// whatever its width: the stored bits count as zero, and zero combined
/// with the default gives the default.
pub proof fn lemma_beyond_data_section(s: StructReader, m: Seq<Seq<u64>>, slot: int, w: u64, d8: u8, d16: u16, d32: u32, d64: u64, db: bool)
    requires
        !s.field_in(slot, w),
    ensures
        s.field_raw(m, slot, w) == 0,
        (s.field_raw(m, slot, w) as u8) ^ d8 == d8,
        (s.field_raw(m, slot, w) as u16) ^ d16 == d16,
        (s.field_raw(m, slot, w) as u32) ^ d32 == d32,
        s.field_raw(m, slot, w) ^ d64 == d64,
        ((s.field_raw(m, slot, w) == 1) != db) == db,
{
    assert(0u8 ^ d8 == d8) by (bit_vector);
    assert(0u16 ^ d16 == d16) by (bit_vector);
    assert(0u32 ^ d32 == d32) by (bit_vector);
    assert(0u64 ^ d64 == d64) by (bit_vector);
}

/// A 32-bit field written through a builder with a default reads back as the
/// value written, through the builder's reader view, also after the message
/// has grown elsewhere.
pub proof fn lemma_write_then_read_u32(b: StructBuilder, written: Seq<Seq<u64>>, grown: Seq<Seq<u64>>, slot: int, value: u32, default: u32)
    requires
        b.wf(written),
        0 <= slot,
        b.reader_view().field_raw(written, slot, 32) == (value ^ default) as u64,
        extends(written, grown),
    ensures
        (b.reader_view().field_raw(grown, slot, 32) as u32) ^ default == value,
{
    lemma_field_survives_growth(b, written, grown, slot, 32);
    let v = value ^ default;
    assert((((v as u64) as u32) ^ default) == value) by (bit_vector)
        requires
            v == value ^ default,
    ;
}

/// A 64-bit field written through a builder with a default reads back as the
/// value written, also after the message has grown elsewhere.
pub proof fn lemma_write_then_read_u64(b: StructBuilder, written: Seq<Seq<u64>>, grown: Seq<Seq<u64>>, slot: int, value: u64, default: u64)
    requires
        b.wf(written),
        0 <= slot,
        b.reader_view().field_raw(written, slot, 64) == value ^ default,
        extends(written, grown),
    ensures
        b.reader_view().field_raw(grown, slot, 64) ^ default == value,
{
    lemma_field_survives_growth(b, written, grown, slot, 64);
    assert((value ^ default) ^ default == value) by (bit_vector);
}

/// Growing a message leaves every field of a struct already in it as it was.
pub proof fn lemma_field_survives_growth(b: StructBuilder, old: Seq<Seq<u64>>, new: Seq<Seq<u64>>, slot: int, w: u64)
    requires
        b.wf(old),
        is_width(w),
        0 <= slot,
        extends(old, new),
    ensures
        b.reader_view().field_raw(new, slot, w) == b.reader_view().field_raw(old, slot, w),
{
    let s = b.reader_view();
    if s.field_in(slot, w) {
        let pos = s.data_pos + slot * w;
        assert(slot * w >= 0 && (slot + 1) * w == slot * w + w) by (nonlinear_arith)
            requires
                slot >= 0,
        ;
        assert(pos < s.data_pos + s.data_bits);
        assert(pos / 64 < old[b.seg as int].len());
        assert(new[b.seg as int][pos / 64] == old[b.seg as int][pos / 64]);
    }
}

/// Viewing a list of structs as a list of another, compatible struct type
/// and back gives the list it started from: each element, and each field of
/// it, reads as before.
pub proof fn lemma_cast_round_trip<T, U>(a: Reader<T>, b: Reader<U>, c: Reader<T>, m: Seq<Seq<u64>>)
    requires
        b.list() == a.list(),
        c.list() == b.list(),
    ensures
        c.list() == a.list(),
        forall|i: int, slot: int, w: u64| #[trigger] c.list().element_spec(i).field_raw(m, slot, w)
            == a.list().element_spec(i).field_raw(m, slot, w),
{
}

/// A struct that is read successfully lies wholly inside its segment: a
/// target beyond it is refused, never read.
pub proof fn lemma_struct_in_bounds(p: PointerReader, m: Seq<Seq<u64>>, budget: u64)
    requires
        p.wf(m),
    ensures
        p.struct_spec(m, budget) matches Ok(t) ==> p.word(m) == 0 || (0 <= t.0 < m.len()
            && 0 <= t.1 && t.1 + t.2 + t.3 <= m[t.0].len() && t.2 + t.3 <= budget),
{
    if p.word(m) != 0 && p.nesting_limit > 0 {
        lemma_resolve_in_segment(m, p.seg as int, p.at as int);
    }
}

/// A list that is read successfully lies wholly inside its segment.
pub proof fn lemma_list_in_bounds(p: PointerReader, m: Seq<Seq<u64>>, expected: ElementSize, budget: u64)
    requires
        p.wf(m),
        addressable(m),
        m.len() <= usize::MAX,
    ensures
        p.list_spec(m, expected, budget) matches Ok(l) ==> l.0.count == 0 || (0 <= l.0.seg < m.len()
            && l.0.start + list_words(l.0.count as int, l.0.step as int) <= m[l.0.seg as int].len()
            && l.1 <= budget),
{
    if p.word(m) != 0 && p.nesting_limit > 0 {
        lemma_resolve_in_segment(m, p.seg as int, p.at as int);
        match resolve_spec(m, p.seg as int, p.at as int) {
            Ok(t) => {
                let w = t.2;
                assert(w >> 35 <= 0x1FFF_FFFF) by (bit_vector);
                if elem_tag_of(t.2) == 7 {
                    let tag = m[t.0][t.1];
                    assert((tag & 0xFFFF_FFFF) >> 2 < 0x4000_0000 && (tag >> 32) & 0xFFFF <= 0xFFFF
                        && tag >> 48 <= 0xFFFF) by (bit_vector);
                    let n = offset_field(tag) as int;
                    let per = (data_words_of(tag) + ptr_count_of(tag)) as int;
                    assert((n * (per * 64) + 63) / 64 == n * per) by (nonlinear_arith)
                        requires
                            n >= 0,
                            per >= 0,
                    ;
                }
            },
            Err(_) => {},
        }
    }
}

proof fn lemma_resolve_in_segment(m: Seq<Seq<u64>>, seg: int, at: int)
    requires
        0 <= seg < m.len(),
        0 <= at < m[seg].len(),
    ensures
        resolve_spec(m, seg, at) matches Ok(t) ==> (0 <= t.1 <= m[t.0].len() && 0 <= t.0 < m.len()),
{
}

/// A composite list built with `count` elements reads back as a list of
/// `count` elements, starting just after its tag word, each of the size it was
/// built with, given a budget that covers it.
pub proof fn lemma_built_list_has_its_length(m: Seq<Seq<u64>>, pb: PointerBuilder, p: PointerReader, count: u32, size: StructSize, budget: u64)
    requires
        pb.wf(m),
        p.seg == pb.seg && p.at == pb.at && p.present && p.nesting_limit > 0,
        count < 0x2000_0000,
        count * size.words() <= 0x1FFF_FFFF,
        m[pb.seg as int].len() + 1 + count * size.words() <= MAX_BUILDER_WORDS,
        budget >= count + count * size.words() + 1,
    ensures
        ({
            let len = m[pb.seg as int].len();
            let total = count * size.words();
            let grown = m[pb.seg as int] + Seq::new((1 + total) as nat, |i: int| 0u64);
            let built = m.update(pb.seg as int, grown
                .update(len as int, struct_word(count as int, size.data, size.pointers))
                .update(pb.at as int, list_word(len - pb.at - 1, 7, total as u64)));
            p.list_spec(built, ElementSize::InlineComposite, budget) matches Ok(l)
                && l.0.count == count && l.0.step == size.words() * 64 && l.0.start == len + 1 && l.0.seg == pb.seg
                && l.0.data_bits == size.data * 64 && l.0.ptr_count == size.pointers
        }),
{
    let len = m[pb.seg as int].len();
    let total = count * size.words();
    let grown = m[pb.seg as int] + Seq::new((1 + total) as nat, |i: int| 0u64);
    let built = m.update(pb.seg as int, grown
        .update(len as int, struct_word(count as int, size.data, size.pointers))
        .update(pb.at as int, list_word(len - pb.at - 1, 7, total as u64)));
    lemma_list_word(len - pb.at - 1, 7, total as u64);
    lemma_struct_word(count as int, size.data, size.pointers);
    let w = list_word(len - pb.at - 1, 7, total as u64);
    assert(built[pb.seg as int][pb.at as int] == w);
    assert(built[pb.seg as int][len as int] == struct_word(count as int, size.data, size.pointers));
    assert(p.word(built) == w);
    assert(resolve_spec(built, pb.seg as int, pb.at as int) == Ok::<(int, int, u64), ErrorKind>((pb.seg as int, len as int, w)));
}

/// A struct built at a pointer reads back, through that pointer, as the very
/// struct the builder writes to, given a budget that covers it.
pub proof fn lemma_built_struct_reads_back(m: Seq<Seq<u64>>, pb: PointerBuilder, p: PointerReader, size: StructSize, budget: u64)
    requires
        pb.wf(m),
        p.seg == pb.seg && p.at == pb.at && p.present && p.nesting_limit > 0,
        m[pb.seg as int].len() + size.words() <= MAX_BUILDER_WORDS,
        budget >= size.words(),
        size.words() > 0,
    ensures
        ({
            let len = m[pb.seg as int].len();
            let grown = m[pb.seg as int] + Seq::new(size.words() as nat, |i: int| 0u64);
            let built = m.update(pb.seg as int, grown.update(pb.at as int, struct_word(len - pb.at - 1, size.data, size.pointers)));
            p.struct_spec(built, budget) == Ok::<(int, int, u64, u64), ErrorKind>(
                (pb.seg as int, len as int, size.data as u64, size.pointers as u64))
        }),
{
    let len = m[pb.seg as int].len();
    let grown = m[pb.seg as int] + Seq::new(size.words() as nat, |i: int| 0u64);
    let built = m.update(pb.seg as int, grown.update(pb.at as int, struct_word(len - pb.at - 1, size.data, size.pointers)));
    lemma_struct_word(len - pb.at - 1, size.data, size.pointers);
    let w = struct_word(len - pb.at - 1, size.data, size.pointers);
    assert(built[pb.seg as int][pb.at as int] == w);
    assert(w != 0) by {
        if w == 0 {
            assert(data_words_of(0) == 0 && ptr_count_of(0) == 0) by (bit_vector);
        }
    }
    assert(resolve_spec(built, pb.seg as int, pb.at as int) == Ok::<(int, int, u64), ErrorKind>((pb.seg as int, len as int, w)));
}

/// A field written through element `i` of a list being built reads the same
/// through element `i` of a reader of that list: both views lie over the same
/// words.
pub proof fn lemma_list_element_views_agree(lb: ListBuilder, l: ListReader, i: int, m: Seq<Seq<u64>>, slot: int, w: u64)
    requires
        0 <= i < lb.count,
        l.seg == lb.seg,
        l.start == lb.start,
        l.step == lb.step() * 64,
        l.data_bits == lb.data_words * 64,
        lb.start + lb.count * lb.step() <= MAX_SEGMENT_WORDS,
    ensures
        l.element_spec(i).field_raw(m, slot, w) == (StructBuilder {
            seg: lb.seg,
            data_word: lb.element_word(i) as usize,
            data_words: lb.data_words,
            ptr_word: (lb.element_word(i) + lb.data_words) as usize,
            ptr_count: lb.ptr_count,
        }).reader_view().field_raw(m, slot, w),
{
    assert(i * (lb.step() * 64) == (i * lb.step()) * 64) by (nonlinear_arith);
    assert(i * lb.step() >= 0 && i * lb.step() <= lb.count * lb.step()) by (nonlinear_arith)
        requires
            0 <= i < lb.count,
            lb.step() >= 0,
    ;
}

/// A far pointer whose landing pad holds another far pointer where a struct
/// or list pointer belongs (the one word of a one-word pad; the far pointer
/// or the tag of a two-word pad that is itself two-word or far) is never
/// followed: resolving it is refused as malformed, and reading a struct or a
/// list through it never succeeds, failing as malformed when nesting is left
/// and on the nesting limit otherwise.
pub proof fn lemma_far_chain_refused(p: PointerReader, m: Seq<Seq<u64>>, expected: ElementSize, budget: u64)
    requires
        p.wf(m),
        p.present,
        kind_of(p.word(m)) == KIND_FAR,
        far_segment_of(p.word(m)) < m.len(),
        ({
            let w = p.word(m);
            let ps = far_segment_of(w) as int;
            let pad = far_offset_of(w) as int;
            if !far_double_of(w) {
                pad < m[ps].len() && kind_of(m[ps][pad]) == KIND_FAR
            } else {
                pad + 1 < m[ps].len() && (far_double_of(m[ps][pad]) || kind_of(m[ps][pad + 1]) == KIND_FAR)
            }
        }),
    ensures
        resolve_spec(m, p.seg as int, p.at as int) == Err::<(int, int, u64), ErrorKind>(ErrorKind::MalformedPointer),
        p.nesting_limit > 0 ==> p.struct_spec(m, budget) == Err::<(int, int, u64, u64), ErrorKind>(ErrorKind::MalformedPointer)
            && p.list_spec(m, expected, budget) == Err::<(ListReader, u64), ErrorKind>(ErrorKind::MalformedPointer),
        p.nesting_limit <= 0 ==> p.struct_spec(m, budget) == Err::<(int, int, u64, u64), ErrorKind>(ErrorKind::RecursionLimitExceeded)
            && p.list_spec(m, expected, budget) == Err::<(ListReader, u64), ErrorKind>(ErrorKind::RecursionLimitExceeded),
        p.struct_spec(m, budget) is Err,
        p.list_spec(m, expected, budget) is Err,
{
    let w = p.word(m);
    assert(w & 3 != 0 ==> w != 0) by (bit_vector);
}

/// Each pointer followed lowers the nesting limit by one, so along any chain
/// of non-null pointers, each reached from the one before, the pointer at the
/// depth the first one allowed is refused on the nesting limit: a chain of
/// nested structures, or a cycle, is cut there whatever its length.
pub proof fn lemma_nesting_chain_cut(ps: Seq<PointerReader>, m: Seq<Seq<u64>>, expected: ElementSize, budget: u64)
    requires
        0 <= ps[0].nesting_limit,
        ps.len() > ps[0].nesting_limit,
        forall|k: int| 0 <= k < ps.len() ==> #[trigger] ps[k].word(m) != 0,
        forall|k: int| 0 <= k < ps.len() - 1 ==> #[trigger] ps[k + 1].nesting_limit == ps[k].nesting_limit - 1,
    ensures
        ps[ps[0].nesting_limit as int].struct_spec(m, budget) == Err::<(int, int, u64, u64), ErrorKind>(ErrorKind::RecursionLimitExceeded),
        ps[ps[0].nesting_limit as int].list_spec(m, expected, budget) == Err::<(ListReader, u64), ErrorKind>(ErrorKind::RecursionLimitExceeded),
{
    let d = ps[0].nesting_limit as int;
    lemma_chain_limit(ps, d);
    lemma_nesting_exhausted(ps[d], m, expected, budget);
}

proof fn lemma_chain_limit(ps: Seq<PointerReader>, k: int)
    requires
        0 <= k < ps.len(),
        forall|j: int| 0 <= j < ps.len() - 1 ==> #[trigger] ps[j + 1].nesting_limit == ps[j].nesting_limit - 1,
    ensures
        ps[k].nesting_limit == ps[0].nesting_limit - k,
    decreases k,
{
    if k > 0 {
        lemma_chain_limit(ps, k - 1);
        assert(ps[(k - 1) + 1].nesting_limit == ps[k - 1].nesting_limit - 1);
    }
}

/// Viewing a list being built as a list of another, compatible struct type
/// and back gives the list it started from, with the same elements in the
/// same storage.
pub proof fn lemma_builder_cast_round_trip<T, U>(a: BuilderList<T>, b: BuilderList<U>, c: BuilderList<T>)
    requires
        b.list() == a.list(),
        c.list() == b.list(),
    ensures
        c.list() == a.list(),
        c.list().count == a.list().count,
        forall|i: int| #[trigger] c.list().element_word(i) == a.list().element_word(i),
{
}

/// Once the nesting budget is spent, a pointer that is not null is refused
/// rather than followed.
pub proof fn lemma_nesting_exhausted(p: PointerReader, m: Seq<Seq<u64>>, expected: ElementSize, budget: u64)
    requires
        p.word(m) != 0,
        p.nesting_limit <= 0,
    ensures
        p.struct_spec(m, budget) == Err::<(int, int, u64, u64), ErrorKind>(ErrorKind::RecursionLimitExceeded),
        p.list_spec(m, expected, budget) == Err::<(ListReader, u64), ErrorKind>(ErrorKind::RecursionLimitExceeded),
{
}

} // verus!
