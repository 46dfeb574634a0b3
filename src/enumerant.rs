//! A named value of an enum type.
use vstd::prelude::*;
use crate::annotation;
use crate::list::ElementSize;
use crate::message::{ErrorKind, Message};
use crate::reader::{addressable, lemma_xor_zero, StructReader};
use crate::struct_list;
use crate::struct_list::FromStructReader;

verus! {

/// An enumerant, read-only.
#[derive(Clone, Copy)]
pub struct Reader {
    pub reader: StructReader,
}

impl FromStructReader for Reader {
    open spec fn struct_reader(&self) -> StructReader {
        self.reader
    }

    fn new(reader: StructReader) -> (r: Reader) {
        Reader { reader }
    }
}

impl Reader {
    /// The name: the text of pointer 0.
    pub fn get_name(&self, msg: &Message, budget: &mut u64) -> (r: Result<Vec<u8>, ErrorKind>)
        requires
            self.reader.wf(msg@),
            addressable(msg@),
        ensures
            *final(budget) <= *old(budget),
            match (r, self.reader.pointer_spec(0).text_spec(msg@, *old(budget))) {
                (Ok(v), Ok(s)) => v@ == s.0 && *final(budget) == *old(budget) - s.1,
                (Err(e), Err(f)) => e == f,
                _ => false,
            },
    {
        self.reader.get_pointer_field(0).get_text(msg, budget)
    }

    /// The position in the order of declaration.
    pub fn get_code_order(&self, msg: &Message) -> (r: u16)
        requires
            self.reader.wf(msg@),
            addressable(msg@),
        ensures
            r == self.reader.field_raw(msg@, 0, 16) as u16,
    {
        proof {
            lemma_xor_zero();
        }
        self.reader.get_data_field_u16(msg, 0, 0)
    }

    /// The annotations applied to the enumerant: the composite list of pointer 1.
    pub fn get_annotations(&self, msg: &Message, budget: &mut u64) -> (r: Result<struct_list::Reader<annotation::Reader>, ErrorKind>)
        requires
            self.reader.wf(msg@),
            addressable(msg@),
        ensures
            match (r, self.reader.pointer_spec(1).list_spec(msg@, ElementSize::InlineComposite, *old(budget))) {
                (Ok(l), Ok(s)) => l.list() == s.0 && l.list().wf(msg@) && *final(budget) == *old(budget) - s.1,
                (Err(e), Err(f)) => e == f && *final(budget) == *old(budget),
                _ => false,
            },
    {
        let p = self.reader.get_pointer_field(1);
        struct_list::Reader::<annotation::Reader>::get_from_pointer(&p, msg, budget)
    }
}

} // verus!
