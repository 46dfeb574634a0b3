//! An annotation applied to a declaration: the id of the annotation type.
use vstd::prelude::*;
use crate::message::Message;
use crate::reader::{addressable, lemma_xor_zero, StructReader};
use crate::struct_list::FromStructReader;

verus! {

/// An applied annotation, read-only.
#[derive(Clone, Copy)]
pub struct Reader {
    pub reader: StructReader,
}

impl FromStructReader for Reader {
    open spec fn struct_reader(&self) -> StructReader {
        self.reader
    }

    fn new(reader: StructReader) -> (r: Reader) {
        Reader { reader }
    }
}

impl Reader {
    /// The id of the annotation's declaration.
    pub fn get_id(&self, msg: &Message) -> (r: u64)
        requires
            self.reader.wf(msg@),
            addressable(msg@),
        ensures
            r == self.reader.field_raw(msg@, 0, 64),
    {
        proof {
            lemma_xor_zero();
        }
        self.reader.get_data_field_u64(msg, 0, 0)
    }
}

} // verus!
