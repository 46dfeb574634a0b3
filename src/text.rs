//! Text: a list of bytes that ends in a NUL byte, which is not part of the text.
use vstd::prelude::*;
use crate::list::{list_words, ElementSize, ListReader};
use crate::message::{ErrorKind, Message};
use crate::reader::{addressable, PointerReader, MAX_SEGMENT_WORDS};

verus! {

/// Byte `i` of a byte list: bytes are packed eight to a word, lowest first.
pub open spec fn byte_at(m: Seq<Seq<u64>>, l: ListReader, i: int) -> u8 {
    ((m[l.seg as int][l.start + i / 8] >> ((i % 8) * 8) as u64) & 0xFF) as u8
}

impl PointerReader {
    /// What `get_text` gives: the bytes before the final NUL, and the words
    /// charged. A null pointer is the empty text.
    pub open spec fn text_spec(&self, m: Seq<Seq<u64>>, budget: u64) -> Result<(Seq<u8>, u64), ErrorKind> {
        if self.word(m) == 0 {
            Ok((Seq::empty(), 0))
        } else {
            match self.list_spec(m, ElementSize::Byte, budget) {
                Err(e) => Err(e),
                Ok(lc) => {
                    let l = lc.0;
                    if l.element_size != ElementSize::Byte || l.count == 0 || byte_at(m, l, l.count - 1) != 0 {
                        Err(ErrorKind::MalformedPointer)
                    } else {
                        Ok((Seq::new((l.count - 1) as nat, |i: int| byte_at(m, l, i)), lc.1))
                    }
                },
            }
        }
    }

    /// Reads the text this pointer designates. The list must be of bytes and
    /// end in NUL.
    pub fn get_text(&self, msg: &Message, budget: &mut u64) -> (r: Result<Vec<u8>, ErrorKind>)
        requires
            self.wf(msg@),
            addressable(msg@),
        ensures
            *final(budget) <= *old(budget),
            match (r, self.text_spec(msg@, *old(budget))) {
                (Ok(v), Ok(s)) => v@ == s.0 && *final(budget) == *old(budget) - s.1,
                (Err(e), Err(f)) => e == f,
                _ => false,
            },
    {
        if self.is_null(msg) {
            let v: Vec<u8> = Vec::new();
            assert(v@ =~= Seq::<u8>::empty());
            return Ok(v);
        }
        let l = match self.get_list(msg, ElementSize::Byte, budget) {
            Ok(l) => l,
            Err(e) => return Err(e),
        };
        if l.element_size != ElementSize::Byte || l.count == 0 {
            return Err(ErrorKind::MalformedPointer);
        }
        let ghost m = msg@;
        assert(m[l.seg as int].len() <= MAX_SEGMENT_WORDS);
        let n = l.count - 1;
        if read_byte(msg, &l, n) != 0 {
            return Err(ErrorKind::MalformedPointer);
        }
        let mut out: Vec<u8> = Vec::new();
        let mut i: u32 = 0;
        while i < n
            invariant
                i <= n,
                n == l.count - 1,
                l.element_size == ElementSize::Byte,
                l.wf(msg@),
                addressable(msg@),
                out@ =~= Seq::new(i as nat, |k: int| byte_at(msg@, l, k)),
            decreases n - i,
        {
            out.push(read_byte(msg, &l, i));
            i = i + 1;
        }
        Ok(out)
    }
}

fn read_byte(msg: &Message, l: &ListReader, i: u32) -> (r: u8)
    requires
        l.element_size == ElementSize::Byte,
        l.wf(msg@),
        addressable(msg@),
        i < l.count,
    ensures
        r == byte_at(msg@, *l, i as int),
{
    assert(l.step == 8);
    assert(i as int / 8 < list_words(l.count as int, 8)) by (nonlinear_arith)
        requires
            0 <= i < l.count,
    ;
    assert(msg@[l.seg as int].len() <= MAX_SEGMENT_WORDS);
    let w = msg.word(l.seg, l.start + (i / 8) as usize);
    let sh = ((i % 8) * 8) as u64;
    assert((w >> sh) & 0xFF <= 0xFF) by (bit_vector);
    ((w >> sh) & 0xFF) as u8
}

} // verus!
