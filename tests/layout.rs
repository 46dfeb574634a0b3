use message_layout::builder::{PointerBuilder, StructSize};
use message_layout::list::ElementSize;
use message_layout::message::{ErrorKind, Message};
use message_layout::pointer::{encode_far, encode_list, encode_struct};
use message_layout::reader::{PointerReader, StructReader};

fn root_struct(msg: &Message) -> Result<StructReader, ErrorKind> {
    let mut budget: u64 = 1 << 20;
    msg.root_pointer(64)?.get_struct(msg, &mut budget)
}

#[test]
fn uint32_field_round_trip() {
    let mut msg = Message::new();
    let b = msg.init_root(StructSize { data: 1, pointers: 1 }).unwrap();
    b.set_data_field_u32(&mut msg, 0, 42, 0);
    let s = root_struct(&msg).unwrap();
    assert_eq!(s.get_data_field_u32(&msg, 0, 0), 42);
}

#[test]
fn never_written_field_reads_zero() {
    let mut msg = Message::new();
    msg.init_root(StructSize { data: 1, pointers: 1 }).unwrap();
    let s = root_struct(&msg).unwrap();
    assert_eq!(s.data_bits, 64);
    assert_eq!(s.ptr_count, 1);
    assert_eq!(s.get_data_field_u32(&msg, 0, 0), 0);
}

#[test]
fn default_is_combined_by_xor() {
    let mut msg = Message::new();
    let b = msg.init_root(StructSize { data: 2, pointers: 0 }).unwrap();
    b.set_data_field_u32(&mut msg, 0, 5, 12);
    assert_eq!(msg.word(0, 1), 5 ^ 12);
    let s = root_struct(&msg).unwrap();
    assert_eq!(s.get_data_field_u32(&msg, 0, 12), 5);
    assert_eq!(s.get_data_field_u32(&msg, 1, 12), 12);
    b.set_data_field_u64(&mut msg, 1, (-3i64) as u64, 0);
    let s = root_struct(&msg).unwrap();
    assert_eq!(s.get_data_field_i64(&msg, 1, 0), -3);
    assert_eq!(s.get_data_field_i32(&msg, 2, 0), -3);
}

#[test]
fn field_beyond_data_section_reads_default() {
    let mut msg = Message::new();
    let b = msg.init_root(StructSize { data: 1, pointers: 0 }).unwrap();
    b.set_data_field_u64(&mut msg, 0, 0xFFFF_FFFF_FFFF_FFFF, 0);
    let s = root_struct(&msg).unwrap();
    assert_eq!(s.get_data_field_u64(&msg, 3, 77), 77);
    assert_eq!(s.get_data_field_u32(&msg, 2, 5), 5);
    assert_eq!(s.get_data_field_u16(&msg, 4, 9), 9);
    assert_eq!(s.get_data_field_u8(&msg, 8, 1), 1);
    assert!(s.get_bool_field(&msg, 64, true));
    assert!(!s.get_bool_field(&msg, 64, false));
    assert!(s.get_pointer_field(0).is_null(&msg));
}

#[test]
fn sub_word_fields_pack_little_endian() {
    let mut msg = Message::new();
    let b = msg.init_root(StructSize { data: 1, pointers: 0 }).unwrap();
    b.set_data_field_u8(&mut msg, 1, 0xAB, 0);
    b.set_data_field_u16(&mut msg, 1, 0x1234, 0);
    b.set_bool_field(&mut msg, 63, true, false);
    assert_eq!(msg.word(0, 1), 0x8000_0000_1234_AB00);
    let s = root_struct(&msg).unwrap();
    assert_eq!(s.get_data_field_u8(&msg, 1, 0), 0xAB);
    assert_eq!(s.get_data_field_u16(&msg, 1, 0), 0x1234);
    assert!(s.get_bool_field(&msg, 63, false));
    assert!(!s.get_bool_field(&msg, 62, false));
}

#[test]
fn write_survives_growth() {
    let mut msg = Message::new();
    let b = msg.init_root(StructSize { data: 1, pointers: 1 }).unwrap();
    b.set_data_field_u32(&mut msg, 1, 99, 7);
    let child = b.get_pointer_field(0).init_struct(&mut msg, StructSize { data: 4, pointers: 0 }).unwrap();
    child.set_data_field_u64(&mut msg, 3, 1234, 0);
    msg.allocate(0, 1000);
    let s = root_struct(&msg).unwrap();
    assert_eq!(s.get_data_field_u32(&msg, 1, 7), 99);
    let mut budget: u64 = 100;
    let c = s.get_pointer_field(0).get_struct(&msg, &mut budget).unwrap();
    assert_eq!(c.get_data_field_u64(&msg, 3, 0), 1234);
    assert_eq!(budget, 96);
    assert_eq!(b.as_reader().get_data_field_u32(&msg, 1, 7), 99);
}

#[test]
fn composite_list_element_offset() {
    let words = vec![
        encode_list(0, 7, 3),
        encode_struct(3, 1, 0),
        10,
        20,
        30,
    ];
    let msg = Message::from_words(words);
    let mut budget: u64 = 100;
    let l = PointerReader::new(0, 0, 64).get_list(&msg, ElementSize::InlineComposite, &mut budget).unwrap();
    assert_eq!(l.len(), 3);
    assert_eq!(l.start, 2);
    assert_eq!(l.step, 64);
    let e = l.get_struct_element(&msg, 1);
    assert_eq!(e.data_pos, (2 + 1) * 64);
    assert_eq!(e.get_data_field_u64(&msg, 0, 0), 20);
    assert_eq!(l.get_struct_element(&msg, 2).get_data_field_u64(&msg, 0, 0), 30);
    assert_eq!(budget, 96);
}

#[test]
fn built_list_has_its_length() {
    let mut msg = Message::new();
    let b = msg.init_root(StructSize { data: 0, pointers: 1 }).unwrap();
    let lb = b.get_pointer_field(0).init_struct_list(&mut msg, 4, StructSize { data: 1, pointers: 1 }).unwrap();
    assert_eq!(lb.len(), 4);
    for i in 0..4u32 {
        lb.get_struct_element(i).set_data_field_u32(&mut msg, 0, i * 10, 0);
    }
    let s = root_struct(&msg).unwrap();
    let mut budget: u64 = 100;
    let l = s.get_pointer_field(0).get_list(&msg, ElementSize::InlineComposite, &mut budget).unwrap();
    assert_eq!(l.len(), 4);
    let lo = l.start as u64 * 64;
    let hi = lo + l.count as u64 * l.step;
    for i in 0..4u32 {
        let e = l.get_struct_element(&msg, i);
        assert_eq!(e.get_data_field_u32(&msg, 0, 0), i * 10);
        assert!(e.data_pos >= lo && e.data_pos + e.data_bits <= hi);
        assert!((e.ptr_word as u64 + e.ptr_count as u64) * 64 <= hi);
    }
}

#[test]
fn struct_target_outside_segment_is_refused() {
    let msg = Message::from_words(vec![encode_struct(100, 1, 0), 0]);
    assert_eq!(root_struct(&msg).err(), Some(ErrorKind::OutOfBounds));
    let msg = Message::from_words(vec![encode_struct(0, 2, 0), 0]);
    assert_eq!(root_struct(&msg).err(), Some(ErrorKind::OutOfBounds));
    let msg = Message::from_words(vec![encode_struct(-5, 0, 0)]);
    assert_eq!(root_struct(&msg).err(), Some(ErrorKind::OutOfBounds));
}

#[test]
fn list_target_outside_segment_is_refused() {
    let msg = Message::from_words(vec![encode_list(0, 5, 50), 0, 0]);
    let mut budget: u64 = 1000;
    let r = PointerReader::new(0, 0, 64).get_list(&msg, ElementSize::EightBytes, &mut budget);
    assert_eq!(r.err(), Some(ErrorKind::OutOfBounds));
    assert_eq!(budget, 1000);
    let msg = Message::from_words(vec![encode_list(0, 7, 4), encode_struct(3, 1, 0), 0]);
    let r = PointerReader::new(0, 0, 64).get_list(&msg, ElementSize::InlineComposite, &mut budget);
    assert_eq!(r.err(), Some(ErrorKind::OutOfBounds));
}

#[test]
fn composite_elements_overrunning_word_count_are_refused() {
    let msg = Message::from_words(vec![encode_list(0, 7, 2), encode_struct(3, 1, 0), 0, 0, 0]);
    let mut budget: u64 = 1000;
    let r = PointerReader::new(0, 0, 64).get_list(&msg, ElementSize::InlineComposite, &mut budget);
    assert_eq!(r.err(), Some(ErrorKind::MalformedPointer));
}

#[test]
fn far_pointer_to_far_pointer_is_refused() {
    let segs = vec![vec![encode_far(false, 0, 1)], vec![encode_far(false, 0, 0)]];
    let msg = Message::from_segments(segs);
    assert_eq!(root_struct(&msg).err(), Some(ErrorKind::MalformedPointer));
    let mut budget: u64 = 1000;
    let r = PointerReader::new(0, 0, 64).get_list(&msg, ElementSize::InlineComposite, &mut budget);
    assert_eq!(r.err(), Some(ErrorKind::MalformedPointer));
}

#[test]
fn far_pointer_is_followed_once() {
    let segs = vec![vec![encode_far(false, 0, 1)], vec![encode_struct(0, 1, 0), 42]];
    let msg = Message::from_segments(segs);
    let s = root_struct(&msg).unwrap();
    assert_eq!(s.seg, 1);
    assert_eq!(s.get_data_field_u64(&msg, 0, 0), 42);
}

#[test]
fn double_far_landing_pad() {
    let segs = vec![
        vec![encode_far(true, 0, 1)],
        vec![encode_far(false, 0, 2), encode_struct(0, 1, 0)],
        vec![7],
    ];
    let msg = Message::from_segments(segs);
    let s = root_struct(&msg).unwrap();
    assert_eq!(s.seg, 2);
    assert_eq!(s.get_data_field_u64(&msg, 0, 0), 7);
    let segs = vec![vec![encode_far(true, 0, 1)], vec![encode_far(true, 0, 2), encode_struct(0, 1, 0)], vec![7]];
    let msg = Message::from_segments(segs);
    assert_eq!(root_struct(&msg).err(), Some(ErrorKind::MalformedPointer));
}

#[test]
fn far_pointer_to_missing_segment_is_refused() {
    let msg = Message::from_segments(vec![vec![encode_far(false, 0, 3)]]);
    assert_eq!(root_struct(&msg).err(), Some(ErrorKind::OutOfBounds));
    let msg = Message::from_segments(vec![vec![encode_far(false, 4, 1)], vec![0]]);
    assert_eq!(root_struct(&msg).err(), Some(ErrorKind::OutOfBounds));
}

#[test]
fn nested_lists_hit_the_nesting_limit() {
    let mut msg = Message::new();
    let size = StructSize { data: 0, pointers: 1 };
    let mut cur = msg.init_root(size).unwrap();
    for _ in 0..8 {
        let lb = cur.get_pointer_field(0).init_struct_list(&mut msg, 1, size).unwrap();
        cur = lb.get_struct_element(0);
    }
    let mut budget: u64 = 1 << 20;
    let mut s = msg.root_pointer(4).unwrap().get_struct(&msg, &mut budget).unwrap();
    let mut depth = 0;
    let err = loop {
        match s.get_pointer_field(0).get_list(&msg, ElementSize::InlineComposite, &mut budget) {
            Ok(l) => {
                assert_eq!(l.len(), 1);
                s = l.get_struct_element(&msg, 0);
                depth += 1;
            }
            Err(e) => break e,
        }
    };
    assert_eq!(err, ErrorKind::RecursionLimitExceeded);
    assert_eq!(depth, 3);
}

#[test]
fn pointer_cycle_is_stopped() {
    let msg = Message::from_words(vec![encode_struct(0, 0, 1), encode_struct(-1, 0, 1)]);
    let mut budget: u64 = 1 << 20;
    let mut s = msg.root_pointer(100).unwrap().get_struct(&msg, &mut budget).unwrap();
    let mut steps = 0;
    let err = loop {
        match s.get_pointer_field(0).get_struct(&msg, &mut budget) {
            Ok(next) => {
                s = next;
                steps += 1;
            }
            Err(e) => break e,
        }
    };
    assert_eq!(err, ErrorKind::RecursionLimitExceeded);
    assert_eq!(steps, 99);
}

#[test]
fn word_budget_is_charged_and_enforced() {
    let msg = Message::from_words(vec![encode_struct(0, 1, 1), 5, 0]);
    let mut budget: u64 = 1;
    let r = msg.root_pointer(64).unwrap().get_struct(&msg, &mut budget);
    assert_eq!(r.err(), Some(ErrorKind::MessageTooLarge));
    assert_eq!(budget, 1);
    let mut budget: u64 = 10;
    let s = msg.root_pointer(64).unwrap().get_struct(&msg, &mut budget).unwrap();
    assert_eq!(budget, 8);
    assert_eq!(s.get_data_field_u64(&msg, 0, 0), 5);
}

#[test]
fn empty_elements_are_charged_per_element() {
    let msg = Message::from_words(vec![encode_list(0, 0, 1000)]);
    let mut budget: u64 = 999;
    let r = PointerReader::new(0, 0, 64).get_list(&msg, ElementSize::Void, &mut budget);
    assert_eq!(r.err(), Some(ErrorKind::MessageTooLarge));
    let mut budget: u64 = 1000;
    let l = PointerReader::new(0, 0, 64).get_list(&msg, ElementSize::Void, &mut budget).unwrap();
    assert_eq!(l.len(), 1000);
    assert_eq!(budget, 0);
}

#[test]
fn byte_list_read_as_struct_list() {
    let msg = Message::from_words(vec![encode_list(0, 2, 3), 0x0003_0201]);
    let mut budget: u64 = 100;
    let l = PointerReader::new(0, 0, 64).get_list(&msg, ElementSize::InlineComposite, &mut budget).unwrap();
    assert_eq!(l.len(), 3);
    let e = l.get_struct_element(&msg, 1);
    assert_eq!(e.get_data_field_u8(&msg, 0, 0), 2);
    assert_eq!(e.get_data_field_u8(&msg, 1, 0), 0);
    assert_eq!(e.ptr_count, 0);
    assert_eq!(l.get_struct_element(&msg, 2).get_data_field_u8(&msg, 0, 0), 3);
}

#[test]
fn word_list_read_as_struct_list() {
    let msg = Message::from_words(vec![encode_list(0, 5, 2), 11, 22]);
    let mut budget: u64 = 100;
    let l = PointerReader::new(0, 0, 64).get_list(&msg, ElementSize::InlineComposite, &mut budget).unwrap();
    let e = l.get_struct_element(&msg, 1);
    assert_eq!(e.get_data_field_u64(&msg, 0, 0), 22);
    assert_eq!(e.get_data_field_u64(&msg, 1, 4), 4);
}

#[test]
fn struct_list_read_as_word_list() {
    let msg = Message::from_words(vec![encode_list(0, 7, 4), encode_struct(2, 2, 0), 1, 2, 3, 4]);
    let mut budget: u64 = 100;
    let l = PointerReader::new(0, 0, 64).get_list(&msg, ElementSize::EightBytes, &mut budget).unwrap();
    assert_eq!(l.len(), 2);
    assert_eq!(l.get_struct_element(&msg, 1).get_data_field_u64(&msg, 0, 0), 3);
}

#[test]
fn incompatible_list_encodings_are_refused() {
    let msg = Message::from_words(vec![encode_list(0, 1, 5), 0]);
    let mut budget: u64 = 100;
    let r = PointerReader::new(0, 0, 64).get_list(&msg, ElementSize::InlineComposite, &mut budget);
    assert_eq!(r.err(), Some(ErrorKind::MalformedPointer));
    let msg = Message::from_words(vec![encode_list(0, 7, 1), encode_struct(1, 0, 1), 0]);
    let r = PointerReader::new(0, 0, 64).get_list(&msg, ElementSize::Byte, &mut budget);
    assert_eq!(r.err(), Some(ErrorKind::MalformedPointer));
    let msg = Message::from_words(vec![encode_list(0, 2, 8), 0]);
    let r = PointerReader::new(0, 0, 64).get_list(&msg, ElementSize::FourBytes, &mut budget);
    assert_eq!(r.err(), Some(ErrorKind::MalformedPointer));
}

#[test]
fn wrong_pointer_kind_is_refused() {
    let msg = Message::from_words(vec![encode_list(0, 5, 1), 0]);
    assert_eq!(root_struct(&msg).err(), Some(ErrorKind::MalformedPointer));
    let msg = Message::from_words(vec![encode_struct(0, 1, 0), 0]);
    let mut budget: u64 = 100;
    let r = PointerReader::new(0, 0, 64).get_list(&msg, ElementSize::InlineComposite, &mut budget);
    assert_eq!(r.err(), Some(ErrorKind::MalformedPointer));
}

#[test]
fn null_pointer_reads_as_empty() {
    let msg = Message::from_words(vec![0]);
    let s = root_struct(&msg).unwrap();
    assert_eq!(s.data_bits, 0);
    assert_eq!(s.get_data_field_u32(&msg, 0, 31), 31);
    let mut budget: u64 = 0;
    let l = PointerReader::new(0, 0, 64).get_list(&msg, ElementSize::Byte, &mut budget).unwrap();
    assert_eq!(l.len(), 0);
}

#[test]
fn message_without_root_word_is_refused() {
    let msg = Message::from_segments(vec![]);
    assert_eq!(msg.root_pointer(64).err(), Some(ErrorKind::OutOfBounds));
    let msg = Message::from_words(vec![]);
    assert_eq!(msg.root_pointer(64).err(), Some(ErrorKind::OutOfBounds));
}

#[test]
fn oversized_list_is_refused_on_build() {
    let mut msg = Message::new();
    let b = msg.init_root(StructSize { data: 0, pointers: 1 }).unwrap();
    let r = b.get_pointer_field(0).init_struct_list(&mut msg, 0x2000_0000, StructSize { data: 0, pointers: 0 });
    assert_eq!(r.err(), Some(ErrorKind::MalformedPointer));
    let r = b.get_pointer_field(0).init_struct_list(&mut msg, 0x1000_0000, StructSize { data: 2, pointers: 0 });
    assert_eq!(r.err(), Some(ErrorKind::MalformedPointer));
}

#[test]
fn existing_list_is_found_for_building() {
    let mut msg = Message::new();
    let b = msg.init_root(StructSize { data: 0, pointers: 1 }).unwrap();
    let p: PointerBuilder = b.get_pointer_field(0);
    p.init_struct_list(&mut msg, 3, StructSize { data: 2, pointers: 0 }).unwrap();
    let lb = p.get_struct_list(&mut msg, StructSize { data: 1, pointers: 0 }).unwrap();
    assert_eq!(lb.len(), 3);
    assert_eq!(lb.data_words, 2);
    let wide = p.get_struct_list(&mut msg, StructSize { data: 3, pointers: 0 }).unwrap();
    assert_eq!(wide.len(), 3);
    assert_eq!(wide.data_words, 3);
}

#[test]
fn smaller_list_is_copied_forward_on_upgrade() {
    let mut msg = Message::new();
    let b = msg.init_root(StructSize { data: 0, pointers: 1 }).unwrap();
    let p: PointerBuilder = b.get_pointer_field(0);
    let old = p.init_struct_list(&mut msg, 2, StructSize { data: 1, pointers: 1 }).unwrap();
    for i in 0..2u32 {
        let e = old.get_struct_element(i);
        e.set_data_field_u64(&mut msg, 0, 10 + i as u64, 0);
        let c = e.get_pointer_field(0).init_struct(&mut msg, StructSize { data: 1, pointers: 0 }).unwrap();
        c.set_data_field_u64(&mut msg, 0, 20 + i as u64, 0);
    }
    let wide = p.get_struct_list(&mut msg, StructSize { data: 2, pointers: 2 }).unwrap();
    assert_eq!(wide.len(), 2);
    assert_eq!(wide.data_words, 2);
    assert_eq!(wide.ptr_count, 2);
    assert!(wide.start != old.start);
    wide.get_struct_element(1).set_data_field_u64(&mut msg, 1, 99, 0);
    let s = root_struct(&msg).unwrap();
    let mut budget: u64 = 1000;
    let l = s.get_pointer_field(0).get_list(&msg, ElementSize::InlineComposite, &mut budget).unwrap();
    assert_eq!(l.len(), 2);
    assert_eq!(l.step, 4 * 64);
    for i in 0..2u32 {
        let e = l.get_struct_element(&msg, i);
        assert_eq!(e.get_data_field_u64(&msg, 0, 0), 10 + i as u64);
        let c = e.get_pointer_field(0).get_struct(&msg, &mut budget).unwrap();
        assert_eq!(c.get_data_field_u64(&msg, 0, 0), 20 + i as u64);
        assert!(e.get_pointer_field(1).is_null(&msg));
    }
    assert_eq!(l.get_struct_element(&msg, 0).get_data_field_u64(&msg, 1, 0), 0);
    assert_eq!(l.get_struct_element(&msg, 1).get_data_field_u64(&msg, 1, 0), 99);
}

#[test]
fn total_size_counts_what_is_reached() {
    let mut msg = Message::new();
    let b = msg.init_root(StructSize { data: 1, pointers: 2 }).unwrap();
    b.get_pointer_field(0).init_struct(&mut msg, StructSize { data: 4, pointers: 0 }).unwrap();
    let lb = b.get_pointer_field(1).init_struct_list(&mut msg, 2, StructSize { data: 1, pointers: 1 }).unwrap();
    lb.get_struct_element(1).get_pointer_field(0).init_struct(&mut msg, StructSize { data: 3, pointers: 0 }).unwrap();
    let s = root_struct(&msg).unwrap();
    let mut budget: u64 = 1000;
    let n = s.total_size(&msg, &mut budget).unwrap();
    assert_eq!(n, 3 + 4 + (1 + 4) + 3);
    assert_eq!(budget, 1000 - (4 + 5 + 3));
    let mut small: u64 = 5;
    assert_eq!(s.total_size(&msg, &mut small).err(), Some(ErrorKind::MessageTooLarge));
}

#[test]
fn total_size_of_empty_struct_is_zero() {
    let msg = Message::from_words(vec![0]);
    let s = root_struct(&msg).unwrap();
    let mut budget: u64 = 0;
    assert_eq!(s.total_size(&msg, &mut budget), Ok(0));
}

#[test]
fn smaller_struct_is_copied_forward_on_upgrade() {
    let mut msg = Message::new();
    let root = msg.init_root(StructSize { data: 0, pointers: 1 }).unwrap();
    let slot = root.get_pointer_field(0);
    let old = slot.init_struct(&mut msg, StructSize { data: 1, pointers: 1 }).unwrap();
    old.set_data_field_u64(&mut msg, 0, 77, 0);
    let grand = old.get_pointer_field(0).init_struct(&mut msg, StructSize { data: 1, pointers: 0 }).unwrap();
    grand.set_data_field_u64(&mut msg, 0, 5, 0);
    let wide = slot.get_struct(&mut msg, StructSize { data: 2, pointers: 2 }).unwrap();
    assert_eq!(wide.data_words, 2);
    assert_eq!(wide.ptr_count, 2);
    assert!(wide.data_word != old.data_word);
    wide.set_data_field_u64(&mut msg, 1, 88, 0);
    let s = root_struct(&msg).unwrap();
    let mut budget: u64 = 100;
    let c = s.get_pointer_field(0).get_struct(&msg, &mut budget).unwrap();
    assert_eq!(c.data_bits, 128);
    assert_eq!(c.get_data_field_u64(&msg, 0, 0), 77);
    assert_eq!(c.get_data_field_u64(&msg, 1, 0), 88);
    let g = c.get_pointer_field(0).get_struct(&msg, &mut budget).unwrap();
    assert_eq!(g.get_data_field_u64(&msg, 0, 0), 5);
    assert!(c.get_pointer_field(1).is_null(&msg));
}

#[test]
fn large_enough_struct_is_changed_in_place() {
    let mut msg = Message::new();
    let root = msg.init_root(StructSize { data: 0, pointers: 1 }).unwrap();
    let slot = root.get_pointer_field(0);
    let old = slot.init_struct(&mut msg, StructSize { data: 2, pointers: 1 }).unwrap();
    let same = slot.get_struct(&mut msg, StructSize { data: 1, pointers: 0 }).unwrap();
    assert_eq!(same.data_word, old.data_word);
    assert_eq!(same.data_words, 2);
    let fresh = root.get_pointer_field(0);
    let mut msg2 = Message::new();
    let root2 = msg2.init_root(StructSize { data: 0, pointers: 1 }).unwrap();
    let made = root2.get_pointer_field(0).get_struct(&mut msg2, StructSize { data: 3, pointers: 0 }).unwrap();
    assert_eq!(made.data_words, 3);
    assert_eq!(fresh.at, 1);
}

#[test]
fn self_referencing_list_is_cut_by_nesting() {
    let msg = Message::from_words(vec![0x0000_000F_0000_0001, 0x0001_0000_0000_0004, 0x0000_000F_FFFF_FFF9]);
    let mut budget: u64 = 1 << 20;
    let mut l = PointerReader::new(0, 0, 10).get_list(&msg, ElementSize::InlineComposite, &mut budget).unwrap();
    let mut steps = 0;
    let err = loop {
        assert_eq!(l.len(), 1);
        let e = l.get_struct_element(&msg, 0);
        match e.get_pointer_field(0).get_list(&msg, ElementSize::InlineComposite, &mut budget) {
            Ok(next) => {
                l = next;
                steps += 1;
            }
            Err(e) => break e,
        }
    };
    assert_eq!(err, ErrorKind::RecursionLimitExceeded);
    assert_eq!(steps, 9);
    assert_eq!(budget, (1 << 20) - 2 * 10);
}

#[test]
fn struct_behind_far_pointer_is_not_copied_forward() {
    let segs = vec![vec![encode_far(false, 0, 1)], vec![encode_struct(0, 1, 0), 42]];
    let mut msg = Message::from_segments(segs);
    let r = PointerBuilder { seg: 0, at: 0 }.get_struct(&mut msg, StructSize { data: 2, pointers: 0 });
    assert_eq!(r.err(), Some(ErrorKind::MalformedPointer));
    let same = PointerBuilder { seg: 0, at: 0 }.get_struct(&mut msg, StructSize { data: 1, pointers: 0 }).unwrap();
    assert_eq!(same.seg, 1);
    assert_eq!(same.as_reader().get_data_field_u64(&msg, 0, 0), 42);
}
