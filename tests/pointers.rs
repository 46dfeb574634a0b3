use message_layout::pointer::{
    data_words, elem_tag, encode_far, encode_list, encode_struct, far_double, far_offset,
    far_segment, kind, list_count, offset, ptr_count,
};

#[test]
fn struct_pointer_word_layout() {
    let w = encode_struct(0, 1, 1);
    assert_eq!(w, 0x0001_0001_0000_0000);
    assert_eq!(kind(w), 0);
    assert_eq!(offset(w), 0);
    assert_eq!(data_words(w), 1);
    assert_eq!(ptr_count(w), 1);
}

#[test]
fn negative_offset_round_trip() {
    let w = encode_struct(-1, 0, 0);
    assert_eq!(w, 0xFFFF_FFFC);
    assert_eq!(offset(w), -1);
    let w = encode_struct(-(1 << 29), 2, 3);
    assert_eq!(offset(w), -(1 << 29));
    let w = encode_struct((1 << 29) - 1, 2, 3);
    assert_eq!(offset(w), (1 << 29) - 1);
    assert_eq!(data_words(w), 2);
    assert_eq!(ptr_count(w), 3);
}

#[test]
fn list_pointer_word_layout() {
    let w = encode_list(0, 7, 3);
    assert_eq!(w, 0x1F_0000_0001);
    assert_eq!(kind(w), 1);
    assert_eq!(elem_tag(w), 7);
    assert_eq!(list_count(w), 3);
    let w = encode_list(5, 2, 0x1FFF_FFFF);
    assert_eq!(offset(w), 5);
    assert_eq!(elem_tag(w), 2);
    assert_eq!(list_count(w), 0x1FFF_FFFF);
}

#[test]
fn far_pointer_word_layout() {
    let w = encode_far(false, 5, 2);
    assert_eq!(w, 0x2_0000_002A);
    assert_eq!(kind(w), 2);
    assert!(!far_double(w));
    assert_eq!(far_offset(w), 5);
    assert_eq!(far_segment(w), 2);
    let w = encode_far(true, 0, 7);
    assert_eq!(w, 0x7_0000_0006);
    assert!(far_double(w));
}
