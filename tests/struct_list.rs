use message_layout::builder::StructSize;
use message_layout::code_generator_request;
use message_layout::list::ElementSize;
use message_layout::message::{ErrorKind, Message};
use message_layout::node;
use message_layout::pointer::{encode_list, encode_struct};
use message_layout::reader::{PointerReader, StructReader};
use message_layout::struct_list;

fn request_with_nodes(n: u32) -> Message {
    let mut msg = Message::new();
    let root = msg.init_root(StructSize { data: 0, pointers: 2 }).unwrap();
    let req = code_generator_request::Builder { builder: root };
    let nodes = req.init_nodes(&mut msg, n).unwrap();
    assert_eq!(nodes.len(), n);
    for i in 0..n {
        let nb = nodes.clone().get(i);
        nb.set_id(&mut msg, 100 + i as u64);
        nb.set_scope_id(&mut msg, 7);
        if i % 2 == 0 {
            nb.set_file(&mut msg);
        } else {
            let sn = nb.init_struct(&mut msg);
            sn.set_data_word_count(&mut msg, i as u16);
            sn.set_pointer_count(&mut msg, 2);
        }
    }
    msg
}

fn nodes_of(msg: &Message) -> struct_list::Reader<node::Reader> {
    let mut budget: u64 = 1 << 20;
    let s = msg.root_pointer(64).unwrap().get_struct(msg, &mut budget).unwrap();
    let req = code_generator_request::Reader { reader: s };
    req.get_nodes(msg, &mut budget).unwrap()
}

#[test]
fn list_of_nodes_round_trip() {
    let msg = request_with_nodes(3);
    let nodes = nodes_of(&msg);
    assert_eq!(nodes.len(), 3);
    for i in 0..3u32 {
        let n = nodes.clone().get(&msg, i);
        assert_eq!(n.get_id(&msg), 100 + i as u64);
        assert_eq!(n.get_scope_id(&msg), 7);
    }
    let all = nodes.clone().iter(&msg);
    assert_eq!(all.len(), 3);
    assert_eq!(all[2].get_id(&msg), 102);
    assert_eq!(nodes.index_move(&msg, 1).get_id(&msg), 101);
}

#[test]
fn which_selects_the_variant() {
    let msg = request_with_nodes(2);
    let nodes = nodes_of(&msg);
    assert!(matches!(nodes.clone().get(&msg, 0).which(&msg), Some(node::Which::File)));
    match nodes.clone().get(&msg, 1).which(&msg) {
        Some(node::Which::Struct(sn)) => {
            assert_eq!(sn.get_data_word_count(&msg), 1);
            assert_eq!(sn.get_pointer_count(&msg), 2);
            assert!(!sn.get_is_group(&msg));
            assert_eq!(sn.get_discriminant_count(&msg), 0);
            assert_eq!(sn.get_discriminant_offset(&msg), 0);
        }
        _ => panic!("expected the struct variant"),
    }
}

#[test]
fn unknown_discriminant_selects_nothing() {
    let mut msg = Message::new();
    let root = msg.init_root(StructSize { data: 5, pointers: 5 }).unwrap();
    root.set_data_field_u16(&mut msg, 6, 9, 0);
    let mut budget: u64 = 100;
    let s = msg.root_pointer(64).unwrap().get_struct(&msg, &mut budget).unwrap();
    let n = node::Reader { reader: s };
    assert!(n.which(&msg).is_none());
    root.set_data_field_u16(&mut msg, 6, 4, 0);
    assert!(matches!(n.which(&msg), Some(node::Which::Const(_))));
}

#[test]
fn old_node_without_fields_reads_defaults() {
    let msg = Message::from_words(vec![encode_struct(0, 0, 0)]);
    let mut budget: u64 = 100;
    let s = msg.root_pointer(64).unwrap().get_struct(&msg, &mut budget).unwrap();
    let n = node::Reader { reader: s };
    assert_eq!(n.get_id(&msg), 0);
    assert_eq!(n.get_display_name_prefix_length(&msg), 0);
    assert!(matches!(n.which(&msg), Some(node::Which::File)));
}

#[test]
fn cast_and_back_keeps_fields() {
    let msg = request_with_nodes(2);
    let nodes = nodes_of(&msg);
    let plain: struct_list::Reader<StructReader> = nodes.borrow::<StructReader>();
    assert_eq!(plain.len(), 2);
    assert_eq!(plain.clone().get(&msg, 1).get_data_field_u64(&msg, 0, 0), 101);
    let back: struct_list::Reader<node::Reader> = plain.borrow::<node::Reader>();
    assert_eq!(back.len(), 2);
    assert_eq!(back.clone().get(&msg, 1).get_id(&msg), 101);
    assert_eq!(back.get(&msg, 0).get_id(&msg), nodes.get(&msg, 0).get_id(&msg));
}

#[test]
fn builder_list_found_again_from_pointer() {
    let mut msg = request_with_nodes(4);
    let mut budget: u64 = 100;
    let s = msg.root_pointer(64).unwrap().get_struct(&msg, &mut budget).unwrap();
    let p = message_layout::builder::PointerBuilder { seg: 0, at: s.ptr_word };
    let b = struct_list::Builder::<node::Builder>::get_from_pointer(p, &mut msg).unwrap();
    assert_eq!(b.len(), 4);
    let nb = b.get(3);
    assert_eq!(nb.builder.as_reader().get_data_field_u64(&msg, 0, 0), 103);
}

#[test]
fn struct_list_from_wrong_pointer_is_refused() {
    let msg = Message::from_words(vec![encode_list(0, 1, 3), 0]);
    let mut budget: u64 = 100;
    let p = PointerReader::new(0, 0, 64);
    let r = struct_list::Reader::<node::Reader>::get_from_pointer(&p, &msg, &mut budget);
    assert_eq!(r.err(), Some(ErrorKind::MalformedPointer));
    let l = p.get_list(&msg, ElementSize::Bit, &mut budget).unwrap();
    assert_eq!(l.len(), 3);
}

#[test]
fn requested_files_and_imports() {
    let mut msg = Message::new();
    let root = msg.init_root(StructSize { data: 0, pointers: 2 }).unwrap();
    let files = root.get_pointer_field(1).init_struct_list(&mut msg, 2, StructSize { data: 1, pointers: 2 }).unwrap();
    let f1 = files.get_struct_element(1);
    f1.set_data_field_u64(&mut msg, 0, 0xF00D, 0);
    let imports = f1.get_pointer_field(1).init_struct_list(&mut msg, 3, StructSize { data: 1, pointers: 1 }).unwrap();
    imports.get_struct_element(2).set_data_field_u64(&mut msg, 0, 55, 0);
    let mut budget: u64 = 1000;
    let s = msg.root_pointer(64).unwrap().get_struct(&msg, &mut budget).unwrap();
    let req = code_generator_request::Reader { reader: s };
    let rf = req.get_requested_files(&msg, &mut budget).unwrap();
    assert_eq!(rf.len(), 2);
    let f = rf.clone().get(&msg, 1);
    assert_eq!(f.get_id(&msg), 0xF00D);
    assert_eq!(rf.get(&msg, 0).get_id(&msg), 0);
    let im = f.get_imports(&msg, &mut budget).unwrap();
    assert_eq!(im.len(), 3);
    assert_eq!(im.get(&msg, 2).get_id(&msg), 55);
    assert_eq!(req.get_nodes(&msg, &mut budget).unwrap().len(), 0);
}

#[test]
fn text_fields_read_without_their_nul() {
    let words = vec![
        encode_struct(0, 5, 5),
        0, 0, 0, 0, 0,
        encode_list(4, 2, 6),
        0, 0, 0, 0,
        0x0000_6f6c_6c65_68,
    ];
    let msg = Message::from_words(words);
    let mut budget: u64 = 100;
    let s = msg.root_pointer(64).unwrap().get_struct(&msg, &mut budget).unwrap();
    let n = node::Reader { reader: s };
    assert_eq!(n.get_display_name(&msg, &mut budget).unwrap(), b"hello".to_vec());
    let f = message_layout::requested_file::Reader { reader: s };
    assert_eq!(f.get_filename(&msg, &mut budget).unwrap(), b"hello".to_vec());
}

#[test]
fn text_without_nul_is_refused() {
    let msg = Message::from_words(vec![encode_struct(0, 0, 1), encode_list(0, 2, 2), 0x6968]);
    let mut budget: u64 = 100;
    let s = msg.root_pointer(64).unwrap().get_struct(&msg, &mut budget).unwrap();
    let imp = message_layout::requested_file::Import { reader: s };
    assert_eq!(imp.get_name(&msg, &mut budget).err(), Some(ErrorKind::MalformedPointer));
    let msg = Message::from_words(vec![encode_struct(0, 0, 1), encode_list(0, 3, 2), 0x0069]);
    let s = msg.root_pointer(64).unwrap().get_struct(&msg, &mut budget).unwrap();
    let imp = message_layout::requested_file::Import { reader: s };
    assert_eq!(imp.get_name(&msg, &mut budget).err(), Some(ErrorKind::MalformedPointer));
    let msg = Message::from_words(vec![encode_struct(0, 0, 0)]);
    let s = msg.root_pointer(64).unwrap().get_struct(&msg, &mut budget).unwrap();
    let imp = message_layout::requested_file::Import { reader: s };
    assert_eq!(imp.get_name(&msg, &mut budget).unwrap(), Vec::<u8>::new());
}

#[test]
fn struct_node_fields_and_enum_enumerants() {
    let mut msg = Message::new();
    let root = msg.init_root(StructSize { data: 5, pointers: 5 }).unwrap();
    let nb = node::Builder { builder: root };
    nb.init_struct(&mut msg);
    let fields = root.get_pointer_field(3).init_struct_list(&mut msg, 2, StructSize { data: 3, pointers: 4 }).unwrap();
    let f1 = fields.get_struct_element(1);
    f1.set_data_field_u16(&mut msg, 0, 9, 0);
    f1.set_data_field_u16(&mut msg, 1, 2, 0xFFFF);
    let mut budget: u64 = 1000;
    let s = msg.root_pointer(64).unwrap().get_struct(&msg, &mut budget).unwrap();
    let n = node::Reader { reader: s };
    let sn = match n.which(&msg) {
        Some(node::Which::Struct(sn)) => sn,
        _ => panic!("expected the struct variant"),
    };
    let fs = sn.get_fields(&msg, &mut budget).unwrap();
    assert_eq!(fs.len(), 2);
    let f0 = fs.clone().get(&msg, 0);
    assert_eq!(f0.get_code_order(&msg), 0);
    assert_eq!(f0.get_discriminant_value(&msg), 0xFFFF);
    let f1r = fs.get(&msg, 1);
    assert_eq!(f1r.get_code_order(&msg), 9);
    assert_eq!(f1r.get_discriminant_value(&msg), 2);
    assert_eq!(f1r.get_name(&msg, &mut budget).unwrap(), Vec::<u8>::new());

    root.set_data_field_u16(&mut msg, 6, 2, 0);
    let es = root.get_pointer_field(3).init_struct_list(&mut msg, 3, StructSize { data: 1, pointers: 2 }).unwrap();
    es.get_struct_element(2).set_data_field_u16(&mut msg, 0, 4, 0);
    let s = msg.root_pointer(64).unwrap().get_struct(&msg, &mut budget).unwrap();
    let n = node::Reader { reader: s };
    match n.which(&msg) {
        Some(node::Which::Enum(en)) => {
            let list = en.get_enumerants(&msg, &mut budget).unwrap();
            assert_eq!(list.len(), 3);
            assert_eq!(list.get(&msg, 2).get_code_order(&msg), 4);
        }
        _ => panic!("expected the enum variant"),
    }
}

#[test]
fn annotation_node_targets_and_enumerant_annotations() {
    let mut msg = Message::new();
    let root = msg.init_root(StructSize { data: 5, pointers: 5 }).unwrap();
    root.set_data_field_u16(&mut msg, 6, 5, 0);
    root.set_bool_field(&mut msg, 114, true, false);
    root.set_bool_field(&mut msg, 123, true, false);
    let mut budget: u64 = 1000;
    let s = msg.root_pointer(64).unwrap().get_struct(&msg, &mut budget).unwrap();
    match (node::Reader { reader: s }).which(&msg) {
        Some(node::Which::Annotation(a)) => {
            assert!(a.get_targets_enum(&msg));
            assert!(a.get_targets_annotation(&msg));
            assert!(!a.get_targets_file(&msg));
            assert!(!a.get_targets_const(&msg));
            assert!(!a.get_targets_enumerant(&msg));
            assert!(!a.get_targets_struct(&msg));
            assert!(!a.get_targets_field(&msg));
            assert!(!a.get_targets_union(&msg));
            assert!(!a.get_targets_group(&msg));
            assert!(!a.get_targets_interface(&msg));
            assert!(!a.get_targets_method(&msg));
            assert!(!a.get_targets_param(&msg));
        }
        _ => panic!("expected the annotation variant"),
    }

    let mut msg = Message::new();
    let root = msg.init_root(StructSize { data: 1, pointers: 2 }).unwrap();
    let anns = root.get_pointer_field(1).init_struct_list(&mut msg, 2, StructSize { data: 1, pointers: 1 }).unwrap();
    anns.get_struct_element(0).set_data_field_u64(&mut msg, 0, 0xABCD, 0);
    let s = msg.root_pointer(64).unwrap().get_struct(&msg, &mut budget).unwrap();
    let e = message_layout::enumerant::Reader { reader: s };
    let list = e.get_annotations(&msg, &mut budget).unwrap();
    assert_eq!(list.len(), 2);
    assert_eq!(list.clone().get(&msg, 0).get_id(&msg), 0xABCD);
    assert_eq!(list.get(&msg, 1).get_id(&msg), 0);
}

#[test]
fn small_list_read_for_writing_as_nodes_is_widened() {
    let mut msg = Message::new();
    let root = msg.init_root(StructSize { data: 0, pointers: 1 }).unwrap();
    let p = root.get_pointer_field(0);
    let l = p.init_struct_list(&mut msg, 1, StructSize { data: 1, pointers: 0 }).unwrap();
    l.get_struct_element(0).set_data_field_u64(&mut msg, 0, 4242, 0);
    let nodes = struct_list::Builder::<node::Builder>::get_from_pointer(p, &mut msg).unwrap();
    assert_eq!(nodes.len(), 1);
    let n = nodes.clone().get(0);
    assert_eq!(n.builder.data_words, 5);
    assert_eq!(n.builder.ptr_count, 5);
    assert_eq!(n.builder.as_reader().get_data_field_u64(&msg, 0, 0), 4242);
    assert_eq!(n.builder.as_reader().get_data_field_u64(&msg, 2, 0), 0);
    let plain: struct_list::Builder<message_layout::builder::StructBuilder> =
        nodes.cast::<message_layout::builder::StructBuilder>();
    assert_eq!(plain.len(), 1);
    let back: struct_list::Builder<node::Builder> = plain.cast::<node::Builder>();
    assert_eq!(back.len(), 1);
    assert_eq!(back.get(0).builder.as_reader().get_data_field_u64(&msg, 0, 0), 4242);
}

#[test]
fn initialised_nodes_read_as_defaults() {
    let mut msg = Message::new();
    let root = msg.init_root(StructSize { data: 0, pointers: 2 }).unwrap();
    let req = code_generator_request::Builder { builder: root };
    req.init_nodes(&mut msg, 3).unwrap();
    let nodes = nodes_of(&msg);
    assert_eq!(nodes.len(), 3);
    for n in nodes.iter(&msg) {
        assert_eq!(n.get_id(&msg), 0);
        assert_eq!(n.get_scope_id(&msg), 0);
        assert!(matches!(n.which(&msg), Some(node::Which::File)));
    }
}
