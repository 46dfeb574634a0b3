//! A node of a schema: a struct whose data section carries a discriminant that
//! selects which of several views of the same storage is meaningful.
use vstd::prelude::*;
use crate::builder::{StructBuilder, StructSize};
use crate::enumerant;
use crate::field;
use crate::list::ElementSize;
use crate::message::{ErrorKind, Message};
use crate::size::walk_pointers;
use crate::reader::{addressable, lemma_xor_zero, StructReader};
use crate::struct_list;
use crate::struct_list::{CastableTo, FromStructBuilder, FromStructReader, HasStructSize};

verus! {

/// Data words of a node.
pub const DATA_WORDS: u16 = 5;
/// Pointer words of a node.
pub const POINTER_WORDS: u16 = 5;

/// A node, read-only.
#[derive(Clone, Copy)]
pub struct Reader {
    pub reader: StructReader,
}

/// The variant a node's discriminant selects, each a view of the node's own
/// storage.
pub enum Which {
    File,
    Struct(StructNode),
    Enum(EnumNode),
    Interface(StructReader),
    Const(StructReader),
    Annotation(AnnotationNode),
}

/// What a discriminant of `d` selects over `s`; values beyond the known
/// variants, as a newer schema may write, select nothing.
pub open spec fn which_spec(d: u16, s: StructReader) -> Option<Which> {
    if d == 0 {
        Some(Which::File)
    } else if d == 1 {
        Some(Which::Struct(StructNode { reader: s }))
    } else if d == 2 {
        Some(Which::Enum(EnumNode { reader: s }))
    } else if d == 3 {
        Some(Which::Interface(s))
    } else if d == 4 {
        Some(Which::Const(s))
    } else if d == 5 {
        Some(Which::Annotation(AnnotationNode { reader: s }))
    } else {
        None
    }
}

impl FromStructReader for Reader {
    open spec fn struct_reader(&self) -> StructReader {
        self.reader
    }

    fn new(reader: StructReader) -> (r: Reader) {
        Reader { reader }
    }
}

impl CastableTo<StructReader> for Reader {
    fn cast(self) -> StructReader {
        self.reader
    }
}

impl CastableTo<Reader> for StructReader {
    fn cast(self) -> Reader {
        Reader { reader: self }
    }
}

impl Reader {
    /// Words of the node and of everything it reaches; see `StructReader::total_size`.
    pub fn total_size_in_words(&self, msg: &Message, budget: &mut u64) -> (r: Result<u64, ErrorKind>)
        requires
            self.reader.wf(msg@),
            addressable(msg@),
        ensures
            match (r, walk_pointers(msg@, self.reader, 0, *old(budget))) {
                (Ok(n), Ok(left)) => n == self.reader.own_words() + (*old(budget) - left) && *final(budget) == left,
                (Err(e), Ok(left)) => e == ErrorKind::MessageTooLarge
                    && self.reader.own_words() + (*old(budget) - left) > u64::MAX,
                (Err(e), Err(f)) => e == f,
                _ => false,
            },
    {
        self.reader.total_size(msg, budget)
    }

    pub fn get_id(&self, msg: &Message) -> (r: u64)
        requires
            self.reader.wf(msg@),
            addressable(msg@),
        ensures
            r == self.reader.field_raw(msg@, 0, 64),
    {
        proof {
            lemma_xor_zero();
        }
        self.reader.get_data_field_u64(msg, 0, 0)
    }

    /// The display name: the text of pointer 0.
    pub fn get_display_name(&self, msg: &Message, budget: &mut u64) -> (r: Result<Vec<u8>, ErrorKind>)
        requires
            self.reader.wf(msg@),
            addressable(msg@),
        ensures
            *final(budget) <= *old(budget),
            match (r, self.reader.pointer_spec(0).text_spec(msg@, *old(budget))) {
                (Ok(v), Ok(s)) => v@ == s.0 && *final(budget) == *old(budget) - s.1,
                (Err(e), Err(f)) => e == f,
                _ => false,
            },
    {
        self.reader.get_pointer_field(0).get_text(msg, budget)
    }

    pub fn get_display_name_prefix_length(&self, msg: &Message) -> (r: u32)
        requires
            self.reader.wf(msg@),
            addressable(msg@),
        ensures
            r == self.reader.field_raw(msg@, 2, 32) as u32,
    {
        let r = self.reader.get_data_field_u32(msg, 2, 0);
        proof {
            lemma_xor_zero();
        }
        r
    }

    pub fn get_scope_id(&self, msg: &Message) -> (r: u64)
        requires
            self.reader.wf(msg@),
            addressable(msg@),
        ensures
            r == self.reader.field_raw(msg@, 2, 64),
    {
        proof {
            lemma_xor_zero();
        }
        self.reader.get_data_field_u64(msg, 2, 0)
    }

    /// The discriminant, a 16-bit field at slot 6.
    pub open spec fn discriminant(&self, m: Seq<Seq<u64>>) -> u16 {
        self.reader.field_raw(m, 6, 16) as u16
    }

    /// The variant the discriminant selects, over the node's own storage.
    pub fn which(&self, msg: &Message) -> (r: Option<Which>)
        requires
            self.reader.wf(msg@),
            addressable(msg@),
        ensures
            r == which_spec(self.discriminant(msg@), self.reader),
    {
        let d = self.reader.get_data_field_u16(msg, 6, 0);
        proof {
            lemma_xor_zero();
        }
        match d {
            0 => Some(Which::File),
            1 => Some(Which::Struct(StructNode { reader: self.reader })),
            2 => Some(Which::Enum(EnumNode { reader: self.reader })),
            3 => Some(Which::Interface(self.reader)),
            4 => Some(Which::Const(self.reader)),
            5 => Some(Which::Annotation(AnnotationNode { reader: self.reader })),
            _ => None,
        }
    }
}

/// The struct variant of a node.
#[derive(Clone, Copy)]
pub struct StructNode {
    pub reader: StructReader,
}

impl StructNode {
    /// The fields: the composite list of pointer 3.
    pub fn get_fields(&self, msg: &Message, budget: &mut u64) -> (r: Result<struct_list::Reader<field::Reader>, ErrorKind>)
        requires
            self.reader.wf(msg@),
            addressable(msg@),
        ensures
            match (r, self.reader.pointer_spec(3).list_spec(msg@, ElementSize::InlineComposite, *old(budget))) {
                (Ok(l), Ok(s)) => l.list() == s.0 && l.list().wf(msg@) && *final(budget) == *old(budget) - s.1,
                (Err(e), Err(f)) => e == f && *final(budget) == *old(budget),
                _ => false,
            },
    {
        let p = self.reader.get_pointer_field(3);
        struct_list::Reader::<field::Reader>::get_from_pointer(&p, msg, budget)
    }

    pub fn get_data_word_count(&self, msg: &Message) -> (r: u16)
        requires
            self.reader.wf(msg@),
            addressable(msg@),
        ensures
            r == self.reader.field_raw(msg@, 7, 16) as u16,
    {
        let r = self.reader.get_data_field_u16(msg, 7, 0);
        proof {
            lemma_xor_zero();
        }
        r
    }

    pub fn get_pointer_count(&self, msg: &Message) -> (r: u16)
        requires
            self.reader.wf(msg@),
            addressable(msg@),
        ensures
            r == self.reader.field_raw(msg@, 12, 16) as u16,
    {
        let r = self.reader.get_data_field_u16(msg, 12, 0);
        proof {
            lemma_xor_zero();
        }
        r
    }

    pub fn get_is_group(&self, msg: &Message) -> (r: bool)
        requires
            self.reader.wf(msg@),
            addressable(msg@),
        ensures
            r == (self.reader.field_raw(msg@, 224, 1) == 1),
    {
        self.reader.get_bool_field(msg, 224, false)
    }

    pub fn get_discriminant_count(&self, msg: &Message) -> (r: u16)
        requires
            self.reader.wf(msg@),
            addressable(msg@),
        ensures
            r == self.reader.field_raw(msg@, 15, 16) as u16,
    {
        let r = self.reader.get_data_field_u16(msg, 15, 0);
        proof {
            lemma_xor_zero();
        }
        r
    }

    pub fn get_discriminant_offset(&self, msg: &Message) -> (r: u32)
        requires
            self.reader.wf(msg@),
            addressable(msg@),
        ensures
            r == self.reader.field_raw(msg@, 8, 32) as u32,
    {
        let r = self.reader.get_data_field_u32(msg, 8, 0);
        proof {
            lemma_xor_zero();
        }
        r
    }
}

/// The enum variant of a node.
#[derive(Clone, Copy)]
pub struct EnumNode {
    pub reader: StructReader,
}

impl EnumNode {
    /// The enumerants: the composite list of pointer 3.
    pub fn get_enumerants(&self, msg: &Message, budget: &mut u64) -> (r: Result<struct_list::Reader<enumerant::Reader>, ErrorKind>)
        requires
            self.reader.wf(msg@),
            addressable(msg@),
        ensures
            match (r, self.reader.pointer_spec(3).list_spec(msg@, ElementSize::InlineComposite, *old(budget))) {
                (Ok(l), Ok(s)) => l.list() == s.0 && l.list().wf(msg@) && *final(budget) == *old(budget) - s.1,
                (Err(e), Err(f)) => e == f && *final(budget) == *old(budget),
                _ => false,
            },
    {
        let p = self.reader.get_pointer_field(3);
        struct_list::Reader::<enumerant::Reader>::get_from_pointer(&p, msg, budget)
    }
}

/// The annotation variant of a node: where annotations of this type may stand.
#[derive(Clone, Copy)]
pub struct AnnotationNode {
    pub reader: StructReader,
}

impl AnnotationNode {
    /// Whether the annotation may be applied to a file declaration.
    pub fn get_targets_file(&self, msg: &Message) -> (r: bool)
        requires
            self.reader.wf(msg@),
            addressable(msg@),
        ensures
            r == (self.reader.field_raw(msg@, 112, 1) == 1),
    {
        self.reader.get_bool_field(msg, 112, false)
    }

    /// Whether the annotation may be applied to a const declaration.
    pub fn get_targets_const(&self, msg: &Message) -> (r: bool)
        requires
            self.reader.wf(msg@),
            addressable(msg@),
        ensures
            r == (self.reader.field_raw(msg@, 113, 1) == 1),
    {
        self.reader.get_bool_field(msg, 113, false)
    }

    /// Whether the annotation may be applied to a enum declaration.
    pub fn get_targets_enum(&self, msg: &Message) -> (r: bool)
        requires
            self.reader.wf(msg@),
            addressable(msg@),
        ensures
            r == (self.reader.field_raw(msg@, 114, 1) == 1),
    {
        self.reader.get_bool_field(msg, 114, false)
    }

    /// Whether the annotation may be applied to a enumerant declaration.
    pub fn get_targets_enumerant(&self, msg: &Message) -> (r: bool)
        requires
            self.reader.wf(msg@),
            addressable(msg@),
        ensures
            r == (self.reader.field_raw(msg@, 115, 1) == 1),
    {
        self.reader.get_bool_field(msg, 115, false)
    }

    /// Whether the annotation may be applied to a struct declaration.
    pub fn get_targets_struct(&self, msg: &Message) -> (r: bool)
        requires
            self.reader.wf(msg@),
            addressable(msg@),
        ensures
            r == (self.reader.field_raw(msg@, 116, 1) == 1),
    {
        self.reader.get_bool_field(msg, 116, false)
    }

    /// Whether the annotation may be applied to a field declaration.
    pub fn get_targets_field(&self, msg: &Message) -> (r: bool)
        requires
            self.reader.wf(msg@),
            addressable(msg@),
        ensures
            r == (self.reader.field_raw(msg@, 117, 1) == 1),
    {
        self.reader.get_bool_field(msg, 117, false)
    }

    /// Whether the annotation may be applied to a union declaration.
    pub fn get_targets_union(&self, msg: &Message) -> (r: bool)
        requires
            self.reader.wf(msg@),
            addressable(msg@),
        ensures
            r == (self.reader.field_raw(msg@, 118, 1) == 1),
    {
        self.reader.get_bool_field(msg, 118, false)
    }

    /// Whether the annotation may be applied to a group declaration.
    pub fn get_targets_group(&self, msg: &Message) -> (r: bool)
        requires
            self.reader.wf(msg@),
            addressable(msg@),
        ensures
            r == (self.reader.field_raw(msg@, 119, 1) == 1),
    {
        self.reader.get_bool_field(msg, 119, false)
    }

    /// Whether the annotation may be applied to a interface declaration.
    pub fn get_targets_interface(&self, msg: &Message) -> (r: bool)
        requires
            self.reader.wf(msg@),
            addressable(msg@),
        ensures
            r == (self.reader.field_raw(msg@, 120, 1) == 1),
    {
        self.reader.get_bool_field(msg, 120, false)
    }

    /// Whether the annotation may be applied to a method declaration.
    pub fn get_targets_method(&self, msg: &Message) -> (r: bool)
        requires
            self.reader.wf(msg@),
            addressable(msg@),
        ensures
            r == (self.reader.field_raw(msg@, 121, 1) == 1),
    {
        self.reader.get_bool_field(msg, 121, false)
    }

    /// Whether the annotation may be applied to a param declaration.
    pub fn get_targets_param(&self, msg: &Message) -> (r: bool)
        requires
            self.reader.wf(msg@),
            addressable(msg@),
        ensures
            r == (self.reader.field_raw(msg@, 122, 1) == 1),
    {
        self.reader.get_bool_field(msg, 122, false)
    }

    /// Whether the annotation may be applied to a annotation declaration.
    pub fn get_targets_annotation(&self, msg: &Message) -> (r: bool)
        requires
            self.reader.wf(msg@),
            addressable(msg@),
        ensures
            r == (self.reader.field_raw(msg@, 123, 1) == 1),
    {
        self.reader.get_bool_field(msg, 123, false)
    }
}

/// A node being built.
#[derive(Clone, Copy)]
pub struct Builder {
    pub builder: StructBuilder,
}

impl FromStructBuilder for Builder {
    open spec fn struct_builder(&self) -> StructBuilder {
        self.builder
    }

    fn new(builder: StructBuilder) -> (r: Builder) {
        Builder { builder }
    }
}

impl CastableTo<StructBuilder> for Builder {
    fn cast(self) -> StructBuilder {
        self.builder
    }
}

impl CastableTo<Builder> for StructBuilder {
    fn cast(self) -> Builder {
        Builder { builder: self }
    }
}

impl HasStructSize for Builder {
    open spec fn struct_size_spec() -> StructSize {
        StructSize { data: DATA_WORDS, pointers: POINTER_WORDS }
    }

    fn struct_size() -> (r: StructSize) {
        StructSize { data: DATA_WORDS, pointers: POINTER_WORDS }
    }
}

impl Builder {
    pub fn set_id(&self, msg: &mut Message, value: u64)
        requires
            self.builder.wf(old(msg)@),
            self.builder.data_words >= DATA_WORDS,
        ensures
            self.builder.reader_view().field_raw(final(msg)@, 0, 64) == value,
            final(msg)@ == self.builder.with_field(old(msg)@, 0, 64, value),
    {
        self.builder.set_data_field_u64(msg, 0, value, 0);
        proof {
            lemma_xor_zero();
        }
    }

    pub fn set_scope_id(&self, msg: &mut Message, value: u64)
        requires
            self.builder.wf(old(msg)@),
            self.builder.data_words >= DATA_WORDS,
        ensures
            self.builder.reader_view().field_raw(final(msg)@, 2, 64) == value,
            final(msg)@ == self.builder.with_field(old(msg)@, 2, 64, value),
    {
        self.builder.set_data_field_u64(msg, 2, value, 0);
        proof {
            lemma_xor_zero();
        }
    }

    /// Selects the file variant.
    pub fn set_file(&self, msg: &mut Message)
        requires
            self.builder.wf(old(msg)@),
            self.builder.data_words >= DATA_WORDS,
        ensures
            self.builder.reader_view().field_raw(final(msg)@, 6, 16) == 0,
            final(msg)@ == self.builder.with_field(old(msg)@, 6, 16, 0u64),
    {
        self.builder.set_data_field_u16(msg, 6, 0, 0);
        proof {
            lemma_xor_zero();
        }
    }

    /// Selects the struct variant and returns its view of the same storage.
    pub fn init_struct(&self, msg: &mut Message) -> (r: StructNodeBuilder)
        requires
            self.builder.wf(old(msg)@),
            self.builder.data_words >= DATA_WORDS,
        ensures
            self.builder.reader_view().field_raw(final(msg)@, 6, 16) == 1,
            r.builder == self.builder,
            final(msg)@ == self.builder.with_field(old(msg)@, 6, 16, 1u64),
    {
        self.builder.set_data_field_u16(msg, 6, 1, 0);
        proof {
            lemma_xor_zero();
        }
        StructNodeBuilder { builder: self.builder }
    }
}

/// The struct variant of a node being built.
#[derive(Clone, Copy)]
pub struct StructNodeBuilder {
    pub builder: StructBuilder,
}

impl StructNodeBuilder {
    pub fn set_data_word_count(&self, msg: &mut Message, value: u16)
        requires
            self.builder.wf(old(msg)@),
            self.builder.data_words >= DATA_WORDS,
        ensures
            self.builder.reader_view().field_raw(final(msg)@, 7, 16) == value as u64,
            final(msg)@ == self.builder.with_field(old(msg)@, 7, 16, value as u64),
    {
        self.builder.set_data_field_u16(msg, 7, value, 0);
        proof {
            lemma_xor_zero();
        }
    }

    pub fn set_pointer_count(&self, msg: &mut Message, value: u16)
        requires
            self.builder.wf(old(msg)@),
            self.builder.data_words >= DATA_WORDS,
        ensures
            self.builder.reader_view().field_raw(final(msg)@, 12, 16) == value as u64,
            final(msg)@ == self.builder.with_field(old(msg)@, 12, 16, value as u64),
    {
        self.builder.set_data_field_u16(msg, 12, value, 0);
        proof {
            lemma_xor_zero();
        }
    }
}

} // verus!
