//! Encoding and decoding of the one-word pointers that link the parts of a message.
use vstd::prelude::*;

verus! {

/// Pointer kind tag of a struct pointer.
pub const KIND_STRUCT: u64 = 0;
/// Pointer kind tag of a list pointer.
pub const KIND_LIST: u64 = 1;
/// Pointer kind tag of a far pointer.
pub const KIND_FAR: u64 = 2;
/// Pointer kind tag reserved for capabilities.
pub const KIND_OTHER: u64 = 3;

/// Two to the 29th: the bound of a signed 30-bit word offset.
pub const OFFSET_LIMIT: i64 = 0x2000_0000;

/// Largest element count (or word count) a list pointer can hold.
pub const MAX_LIST_COUNT: u64 = 0x1FFF_FFFF;

/// Bits 0..2: the kind of a pointer.
pub open spec fn kind_of(w: u64) -> u64 {
    w & 3
}

/// Bits 2..32 taken as an unsigned number.
pub open spec fn offset_field(w: u64) -> u64 {
    (w & 0xFFFF_FFFF) >> 2
}

/// Bits 2..32 taken as a signed 30-bit word offset.
pub open spec fn signed_offset(w: u64) -> int {
    if offset_field(w) >= 0x2000_0000 {
        offset_field(w) - 0x4000_0000
    } else {
        offset_field(w) as int
    }
}

/// Bits 32..48 of a struct pointer: the data section size in words.
pub open spec fn data_words_of(w: u64) -> u64 {
    (w >> 32) & 0xFFFF
}

/// Bits 48..64 of a struct pointer: the pointer section size in words.
pub open spec fn ptr_count_of(w: u64) -> u64 {
    w >> 48
}

/// Bits 32..35 of a list pointer: the element size tag.
pub open spec fn elem_tag_of(w: u64) -> u64 {
    (w >> 32) & 7
}

/// Bits 35..64 of a list pointer: element count, or word count for composite lists.
pub open spec fn list_count_of(w: u64) -> u64 {
    w >> 35
}

/// Bit 2 of a far pointer: the landing pad is two words.
pub open spec fn far_double_of(w: u64) -> bool {
    (w >> 2) & 1 == 1
}

/// Bits 3..32 of a far pointer: the word offset of the landing pad in its segment.
pub open spec fn far_offset_of(w: u64) -> u64 {
    (w & 0xFFFF_FFFF) >> 3
}

/// Bits 32..64 of a far pointer: the segment that holds the landing pad.
pub open spec fn far_segment_of(w: u64) -> u64 {
    w >> 32
}

/// The 30 bits that stand for a signed offset in `-2^29 .. 2^29`.
pub open spec fn offset_bits(off: int) -> u64 {
    if off < 0 {
        (off + 0x4000_0000) as u64
    } else {
        off as u64
    }
}

/// The word of a struct pointer with these fields.
pub open spec fn struct_word(off: int, data: u16, ptrs: u16) -> u64 {
    (offset_bits(off) << 2) | ((data as u64) << 32) | ((ptrs as u64) << 48)
}

/// The word of a list pointer with these fields.
pub open spec fn list_word(off: int, tag: u64, count: u64) -> u64 {
    (offset_bits(off) << 2) | 1 | (tag << 32) | (count << 35)
}

/// The word of a far pointer with these fields.
pub open spec fn far_word(double: bool, pad: u64, seg: u32) -> u64 {
    (pad << 3) | ((if double { 1u64 } else { 0u64 }) << 2) | 2 | ((seg as u64) << 32)
}

pub fn kind(w: u64) -> (r: u64)
    ensures
        r == kind_of(w),
        r < 4,
{
    assert(w & 3 < 4) by (bit_vector);
    w & 3
}

/// The signed word offset of a struct or list pointer.
pub fn offset(w: u64) -> (r: i64)
    ensures
        r == signed_offset(w),
        -0x2000_0000 <= r < 0x2000_0000,
{
    let raw = (w & 0xFFFF_FFFF) >> 2;
    assert((w & 0xFFFF_FFFF) >> 2 < 0x4000_0000) by (bit_vector);
    if raw >= 0x2000_0000 {
        raw as i64 - 0x4000_0000
    } else {
        raw as i64
    }
}

pub fn data_words(w: u64) -> (r: u16)
    ensures
        r as u64 == data_words_of(w),
{
    assert((w >> 32) & 0xFFFF <= 0xFFFF) by (bit_vector);
    ((w >> 32) & 0xFFFF) as u16
}

pub fn ptr_count(w: u64) -> (r: u16)
    ensures
        r as u64 == ptr_count_of(w),
{
    assert(w >> 48 <= 0xFFFF) by (bit_vector);
    (w >> 48) as u16
}

pub fn elem_tag(w: u64) -> (r: u64)
    ensures
        r == elem_tag_of(w),
        r < 8,
{
    assert((w >> 32) & 7 < 8) by (bit_vector);
    (w >> 32) & 7
}

pub fn list_count(w: u64) -> (r: u64)
    ensures
        r == list_count_of(w),
        r <= MAX_LIST_COUNT,
{
    assert(w >> 35 <= 0x1FFF_FFFF) by (bit_vector);
    w >> 35
}

pub fn far_double(w: u64) -> (r: bool)
    ensures
        r == far_double_of(w),
{
    (w >> 2) & 1 == 1
}

pub fn far_offset(w: u64) -> (r: u64)
    ensures
        r == far_offset_of(w),
        r < 0x2000_0000,
{
    assert((w & 0xFFFF_FFFF) >> 3 < 0x2000_0000) by (bit_vector);
    (w & 0xFFFF_FFFF) >> 3
}

pub fn far_segment(w: u64) -> (r: u32)
    ensures
        r as u64 == far_segment_of(w),
{
    assert(w >> 32 <= 0xFFFF_FFFF) by (bit_vector);
    (w >> 32) as u32
}

fn encode_offset(off: i64) -> (r: u64)
    requires
        -OFFSET_LIMIT <= off < OFFSET_LIMIT,
    ensures
        r == offset_bits(off as int),
        r < 0x4000_0000,
{
    if off < 0 {
        (off + 0x4000_0000) as u64
    } else {
        off as u64
    }
}

proof fn lemma_offset_bits(off: int)
    requires
        -0x2000_0000 <= off < 0x2000_0000,
    ensures
        offset_bits(off) < 0x4000_0000,
        (offset_bits(off) >= 0x2000_0000 ==> offset_bits(off) - 0x4000_0000 == off),
        (offset_bits(off) < 0x2000_0000 ==> offset_bits(off) == off),
{
}

/// Decoding the word of a struct pointer gives back its fields.
pub proof fn lemma_struct_word(off: int, data: u16, ptrs: u16)
    requires
        -0x2000_0000 <= off < 0x2000_0000,
    ensures
        kind_of(struct_word(off, data, ptrs)) == KIND_STRUCT,
        signed_offset(struct_word(off, data, ptrs)) == off,
        offset_field(struct_word(off, data, ptrs)) == offset_bits(off),
        data_words_of(struct_word(off, data, ptrs)) == data as u64,
        ptr_count_of(struct_word(off, data, ptrs)) == ptrs as u64,
{
    lemma_offset_bits(off);
    let ob = offset_bits(off);
    let d = data as u64;
    let p = ptrs as u64;
    assert(((ob << 2) | (d << 32) | (p << 48)) & 3 == 0
        && (((ob << 2) | (d << 32) | (p << 48)) & 0xFFFF_FFFF) >> 2 == ob
        && (((ob << 2) | (d << 32) | (p << 48)) >> 32) & 0xFFFF == d
        && ((ob << 2) | (d << 32) | (p << 48)) >> 48 == p) by (bit_vector)
        requires
            ob < 0x4000_0000,
            d <= 0xFFFF,
            p <= 0xFFFF,
    ;
}

/// Decoding the word of a list pointer gives back its fields; the word is not null.
pub proof fn lemma_list_word(off: int, tag: u64, count: u64)
    requires
        -0x2000_0000 <= off < 0x2000_0000,
        tag < 8,
        count <= MAX_LIST_COUNT,
    ensures
        kind_of(list_word(off, tag, count)) == KIND_LIST,
        signed_offset(list_word(off, tag, count)) == off,
        elem_tag_of(list_word(off, tag, count)) == tag,
        list_count_of(list_word(off, tag, count)) == count,
        list_word(off, tag, count) != 0,
{
    lemma_offset_bits(off);
    let ob = offset_bits(off);
    assert(((ob << 2) | 1 | (tag << 32) | (count << 35)) & 3 == 1
        && (((ob << 2) | 1 | (tag << 32) | (count << 35)) & 0xFFFF_FFFF) >> 2 == ob
        && (((ob << 2) | 1 | (tag << 32) | (count << 35)) >> 32) & 7 == tag
        && ((ob << 2) | 1 | (tag << 32) | (count << 35)) >> 35 == count
        && ((ob << 2) | 1 | (tag << 32) | (count << 35)) != 0) by (bit_vector)
        requires
            ob < 0x4000_0000,
            tag < 8,
            count <= 0x1FFF_FFFF,
    ;
}

/// `w` with its offset replaced by `off`: the same kind and sizes, another target.
pub open spec fn with_offset(w: u64, off: int) -> u64 {
    (w & 0xFFFF_FFFF_0000_0003) | (offset_bits(off) << 2)
}

/// Replacing the offset of a pointer keeps its kind and its upper half.
pub proof fn lemma_with_offset(w: u64, off: int)
    requires
        -0x2000_0000 <= off < 0x2000_0000,
    ensures
        kind_of(with_offset(w, off)) == kind_of(w),
        signed_offset(with_offset(w, off)) == off,
        with_offset(w, off) >> 32 == w >> 32,
{
    lemma_offset_bits(off);
    let ob = offset_bits(off);
    assert((((w & 0xFFFF_FFFF_0000_0003) | (ob << 2)) & 3) == w & 3
        && (((w & 0xFFFF_FFFF_0000_0003) | (ob << 2)) & 0xFFFF_FFFF) >> 2 == ob
        && ((w & 0xFFFF_FFFF_0000_0003) | (ob << 2)) >> 32 == w >> 32) by (bit_vector)
        requires
            ob < 0x4000_0000,
    ;
}

/// Points the struct or list pointer `w` at another target, keeping the rest.
pub fn set_offset(w: u64, off: i64) -> (r: u64)
    requires
        -OFFSET_LIMIT <= off < OFFSET_LIMIT,
    ensures
        r == with_offset(w, off as int),
        kind_of(r) == kind_of(w),
        signed_offset(r) == off,
        r >> 32 == w >> 32,
{
    let ob = encode_offset(off);
    proof {
        lemma_with_offset(w, off as int);
    }
    (w & 0xFFFF_FFFF_0000_0003) | (ob << 2)
}

/// Encodes a struct pointer; decoding it gives back the same fields.
pub fn encode_struct(off: i64, data: u16, ptrs: u16) -> (r: u64)
    requires
        -OFFSET_LIMIT <= off < OFFSET_LIMIT,
    ensures
        r == struct_word(off as int, data, ptrs),
        kind_of(r) == KIND_STRUCT,
        signed_offset(r) == off,
        data_words_of(r) == data as u64,
        ptr_count_of(r) == ptrs as u64,
{
    let ob = encode_offset(off);
    proof {
        lemma_struct_word(off as int, data, ptrs);
    }
    (ob << 2) | ((data as u64) << 32) | ((ptrs as u64) << 48)
}

/// Encodes a list pointer; decoding it gives back the same fields.
pub fn encode_list(off: i64, tag: u64, count: u64) -> (r: u64)
    requires
        -OFFSET_LIMIT <= off < OFFSET_LIMIT,
        tag < 8,
        count <= MAX_LIST_COUNT,
    ensures
        r == list_word(off as int, tag, count),
        kind_of(r) == KIND_LIST,
        signed_offset(r) == off,
        elem_tag_of(r) == tag,
        list_count_of(r) == count,
{
    let ob = encode_offset(off);
    proof {
        lemma_list_word(off as int, tag, count);
    }
    (ob << 2) | 1 | (tag << 32) | (count << 35)
}

/// Encodes a far pointer; decoding it gives back the same fields.
pub fn encode_far(double: bool, pad: u64, seg: u32) -> (r: u64)
    requires
        pad < 0x2000_0000,
    ensures
        r == far_word(double, pad, seg),
        kind_of(r) == KIND_FAR,
        far_double_of(r) == double,
        far_offset_of(r) == pad,
        far_segment_of(r) == seg as u64,
{
    let d: u64 = if double { 1 } else { 0 };
    let s = seg as u64;
    proof {
        assert(((pad << 3) | (d << 2) | 2 | (s << 32)) & 3 == 2
            && (((pad << 3) | (d << 2) | 2 | (s << 32)) >> 2) & 1 == d
            && (((pad << 3) | (d << 2) | 2 | (s << 32)) & 0xFFFF_FFFF) >> 3 == pad
            && ((pad << 3) | (d << 2) | 2 | (s << 32)) >> 32 == s) by (bit_vector)
            requires
                pad < 0x2000_0000,
                d <= 1,
                s <= 0xFFFF_FFFF,
        ;
    }
    (pad << 3) | (d << 2) | 2 | (s << 32)
}

} // verus!
