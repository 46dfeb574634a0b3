//! A request that carries a list of schema nodes in its first pointer.
use vstd::prelude::*;
use crate::builder::{StructBuilder, StructSize};
use crate::list::ElementSize;
use crate::message::{ErrorKind, Message};
use crate::node;
use crate::reader::{addressable, StructReader};
use crate::requested_file;
use crate::struct_list;
use crate::struct_list::{FromStructBuilder, FromStructReader, HasStructSize};

verus! {

/// A request, read-only.
#[derive(Clone, Copy)]
pub struct Reader {
    pub reader: StructReader,
}

impl FromStructReader for Reader {
    open spec fn struct_reader(&self) -> StructReader {
        self.reader
    }

    fn new(reader: StructReader) -> (r: Reader) {
        Reader { reader }
    }
}

impl Reader {
    /// The nodes: the composite list of pointer 0, or an empty list where the
    /// pointer is absent or null.
    pub fn get_nodes(&self, msg: &Message, budget: &mut u64) -> (r: Result<struct_list::Reader<node::Reader>, ErrorKind>)
        requires
            self.reader.wf(msg@),
            addressable(msg@),
        ensures
            match (r, self.reader.pointer_spec(0).list_spec(msg@, ElementSize::InlineComposite, *old(budget))) {
                (Ok(l), Ok(s)) => l.list() == s.0 && l.list().wf(msg@) && *final(budget) == *old(budget) - s.1,
                (Err(e), Err(f)) => e == f && *final(budget) == *old(budget),
                _ => false,
            },
    {
        let p = self.reader.get_pointer_field(0);
        struct_list::Reader::<node::Reader>::get_from_pointer(&p, msg, budget)
    }
}

impl Reader {
    /// The requested files: the composite list of pointer 1.
    pub fn get_requested_files(&self, msg: &Message, budget: &mut u64) -> (r: Result<struct_list::Reader<requested_file::Reader>, ErrorKind>)
        requires
            self.reader.wf(msg@),
            addressable(msg@),
        ensures
            match (r, self.reader.pointer_spec(1).list_spec(msg@, ElementSize::InlineComposite, *old(budget))) {
                (Ok(l), Ok(s)) => l.list() == s.0 && l.list().wf(msg@) && *final(budget) == *old(budget) - s.1,
                (Err(e), Err(f)) => e == f && *final(budget) == *old(budget),
                _ => false,
            },
    {
        let p = self.reader.get_pointer_field(1);
        struct_list::Reader::<requested_file::Reader>::get_from_pointer(&p, msg, budget)
    }
}

/// A request being built.
#[derive(Clone, Copy)]
pub struct Builder {
    pub builder: StructBuilder,
}

impl FromStructBuilder for Builder {
    open spec fn struct_builder(&self) -> StructBuilder {
        self.builder
    }

    fn new(builder: StructBuilder) -> (r: Builder) {
        Builder { builder }
    }
}

impl HasStructSize for Builder {
    open spec fn struct_size_spec() -> StructSize {
        StructSize { data: 0, pointers: 2 }
    }

    fn struct_size() -> (r: StructSize) {
        StructSize { data: 0, pointers: 2 }
    }
}

impl Builder {
    /// Points pointer 0 at a new list of `size` zeroed nodes.
    pub fn init_nodes(&self, msg: &mut Message, size: u32) -> (r: Result<struct_list::Builder<node::Builder>, ErrorKind>)
        requires
            self.builder.wf(old(msg)@),
            self.builder.ptr_count >= 1,
        ensures
            ({
                let m = old(msg)@;
                let len = m[self.builder.seg as int].len();
                let total = size * (node::DATA_WORDS + node::POINTER_WORDS);
                if size >= 0x2000_0000 || total > 0x1FFF_FFFF || len + 1 + total > crate::builder::MAX_BUILDER_WORDS {
                    r matches Err(e) && e == ErrorKind::MalformedPointer && final(msg)@ == m
                } else {
                    let grown = m[self.builder.seg as int] + Seq::new((1 + total) as nat, |i: int| 0u64);
                    r is Ok && r->Ok_0.list().count == size && r->Ok_0.list().start == len + 1
                        && r->Ok_0.list().seg == self.builder.seg
                        && r->Ok_0.list().data_words == node::DATA_WORDS
                        && r->Ok_0.list().ptr_count == node::POINTER_WORDS
                        && final(msg)@ == m.update(self.builder.seg as int, grown
                            .update(len as int, crate::pointer::struct_word(size as int, node::DATA_WORDS, node::POINTER_WORDS))
                            .update(self.builder.ptr_word as int,
                                crate::pointer::list_word(len - self.builder.ptr_word - 1, 7, total as u64)))
                }
            }),
    {
        let p = self.builder.get_pointer_field(0);
        struct_list::Builder::<node::Builder>::init_pointer(p, msg, size)
    }
}

} // verus!
