//! List of structs: a list view that hands out each element as a value of a
//! struct type of the caller's choosing.
use vstd::prelude::*;
use core::marker::PhantomData;
use crate::builder::{ListBuilder, PointerBuilder, StructBuilder, StructSize};
use crate::list::{ElementSize, ListReader};
use crate::message::{ErrorKind, Message};
use crate::reader::{addressable, PointerReader, StructReader, MAX_SEGMENT_WORDS};

verus! {

/// A struct type whose values are read-only views of a struct.
pub trait FromStructReader: Sized {
    /// The struct a value views.
    spec fn struct_reader(&self) -> StructReader;

    fn new(reader: StructReader) -> (r: Self)
        ensures
            r.struct_reader() == reader,
    ;
}

/// A struct type whose values are views of a struct being built.
pub trait FromStructBuilder: Sized {
    /// The struct a value views.
    spec fn struct_builder(&self) -> StructBuilder;

    fn new(builder: StructBuilder) -> (r: Self)
        ensures
            r.struct_builder() == builder,
    ;
}

/// A struct type of a fixed size.
pub trait HasStructSize {
    spec fn struct_size_spec() -> StructSize;

    fn struct_size() -> (r: StructSize)
        ensures
            r == Self::struct_size_spec(),
    ;
}

/// `Self` may be viewed as a `T`: the layout of `T` is a prefix of that of
/// `Self`, so the same words read correctly either way.
pub trait CastableTo<T> {
    fn cast(self) -> T;
}

impl FromStructReader for StructReader {
    open spec fn struct_reader(&self) -> StructReader {
        *self
    }

    fn new(reader: StructReader) -> (r: StructReader) {
        reader
    }
}

impl FromStructBuilder for StructBuilder {
    open spec fn struct_builder(&self) -> StructBuilder {
        *self
    }

    fn new(builder: StructBuilder) -> (r: StructBuilder) {
        builder
    }
}

/// A read-only list whose elements are viewed as `T`.
pub struct Reader<T> {
    marker: PhantomData<T>,
    reader: ListReader,
}

impl<T> Clone for Reader<T> {
    fn clone(&self) -> (r: Reader<T>)
        ensures
            r.list() == self.list(),
    {
        Reader { marker: PhantomData, reader: self.reader }
    }
}

impl<T> Reader<T> {
    /// The list underneath.
    pub closed spec fn list(&self) -> ListReader {
        self.reader
    }

    /// The same words viewed as a list of `U`.
    pub fn borrow<U>(&self) -> (r: Reader<U>)
        where
            T: CastableTo<U>,
        ensures
            r.list() == self.list(),
    {
        Reader { marker: PhantomData, reader: self.reader }
    }
}

impl<T: FromStructReader> Reader<T> {
    pub fn new(reader: ListReader) -> (r: Reader<T>)
        ensures
            r.list() == reader,
    {
        Reader { reader, marker: PhantomData }
    }

    pub fn len(&self) -> (r: u32)
        ensures
            r == self.list().count,
    {
        self.reader.len()
    }

    /// Element `index`, viewed as a `T`.
    pub fn get(self, msg: &Message, index: u32) -> (r: T)
        requires
            index < self.list().count,
            self.list().wf(msg@),
            addressable(msg@),
        ensures
            r.struct_reader() == self.list().element_spec(index as int),
            r.struct_reader().wf(msg@),
            self.list().start * 64 <= self.list().element_pos(index as int),
            self.list().element_pos(index as int) + self.list().step <= self.list().start * 64 + self.list().count * self.list().step,
            r.struct_reader().data_pos + r.struct_reader().data_bits <= self.list().element_pos(index as int) + self.list().step,
            r.struct_reader().ptr_count > 0 ==> r.struct_reader().ptr_word * 64 >= self.list().element_pos(index as int)
                && (r.struct_reader().ptr_word + r.struct_reader().ptr_count) * 64
                <= self.list().element_pos(index as int) + self.list().step,
    {
        T::new(self.reader.get_struct_element(msg, index))
    }

    /// Element `index`, viewed as a `T`, without giving up the list.
    pub fn index_move(&self, msg: &Message, index: u32) -> (r: T)
        requires
            index < self.list().count,
            self.list().wf(msg@),
            addressable(msg@),
        ensures
            r.struct_reader() == self.list().element_spec(index as int),
    {
        T::new(self.reader.get_struct_element(msg, index))
    }

    /// Every element in order, each viewed as a `T`.
    pub fn iter(self, msg: &Message) -> (r: Vec<T>)
        requires
            self.list().wf(msg@),
            addressable(msg@),
        ensures
            r@.len() == self.list().count,
            forall|i: int| 0 <= i < r@.len() ==> #[trigger] r@[i].struct_reader() == self.list().element_spec(i),
    {
        let mut out: Vec<T> = Vec::new();
        let n = self.reader.len();
        let mut i: u32 = 0;
        while i < n
            invariant
                i <= n,
                n == self.list().count,
                self.list().wf(msg@),
                addressable(msg@),
                out@.len() == i,
                forall|k: int| 0 <= k < i ==> #[trigger] out@[k].struct_reader() == self.list().element_spec(k),
            decreases n - i,
        {
            out.push(T::new(self.reader.get_struct_element(msg, i)));
            i = i + 1;
        }
        out
    }

    /// Reads the composite list a pointer designates; see `PointerReader::get_list`.
    pub fn get_from_pointer(reader: &PointerReader, msg: &Message, budget: &mut u64) -> (r: Result<Reader<T>, ErrorKind>)
        requires
            reader.wf(msg@),
            addressable(msg@),
        ensures
            match (r, reader.list_spec(msg@, ElementSize::InlineComposite, *old(budget))) {
                (Ok(l), Ok(s)) => l.list() == s.0 && l.list().wf(msg@) && *final(budget) == *old(budget) - s.1,
                (Err(e), Err(f)) => e == f && *final(budget) == *old(budget),
                _ => false,
            },
    {
        match reader.get_list(msg, ElementSize::InlineComposite, budget) {
            Ok(l) => Ok(Reader { reader: l, marker: PhantomData }),
            Err(e) => Err(e),
        }
    }
}

/// A list being built whose elements are viewed as `T`.
pub struct Builder<T> {
    marker: PhantomData<T>,
    builder: ListBuilder,
}

impl<T> Clone for Builder<T> {
    fn clone(&self) -> (r: Builder<T>)
        ensures
            r.list() == self.list(),
    {
        Builder { marker: PhantomData, builder: self.builder }
    }
}

impl<T> Builder<T> {
    /// The list underneath.
    pub closed spec fn list(&self) -> ListBuilder {
        self.builder
    }

    /// The same words viewed as a list of `U`.
    pub fn borrow<U>(&mut self) -> (r: Builder<U>)
        where
            T: CastableTo<U>,
        ensures
            r.list() == old(self).list(),
            final(self).list() == old(self).list(),
    {
        Builder { marker: PhantomData, builder: self.builder }
    }
}

impl<T> Builder<T> {
    /// The same list viewed as a list of `U`, with no copy.
    pub fn cast<U>(self) -> (r: Builder<U>)
        where
            T: CastableTo<U>,
        ensures
            r.list() == self.list(),
    {
        Builder { marker: PhantomData, builder: self.builder }
    }
}

impl<T, U: CastableTo<T>> CastableTo<Builder<T>> for Builder<U> {
    fn cast(self) -> Builder<T> {
        Builder { marker: PhantomData, builder: self.builder }
    }
}

impl<T: FromStructBuilder> Builder<T> {
    pub fn new(builder: ListBuilder) -> (r: Builder<T>)
        ensures
            r.list() == builder,
    {
        Builder { builder, marker: PhantomData }
    }

    pub fn len(&self) -> (r: u32)
        ensures
            r == self.list().count,
    {
        self.builder.len()
    }

    /// Element `index`, viewed as a `T`.
    pub fn get(self, index: u32) -> (r: T)
        requires
            index < self.list().count,
            self.list().seg < usize::MAX,
            self.list().start + self.list().count * self.list().step() <= MAX_SEGMENT_WORDS,
        ensures
            r.struct_builder() == (StructBuilder {
                seg: self.list().seg,
                data_word: self.list().element_word(index as int) as usize,
                data_words: self.list().data_words,
                ptr_word: (self.list().element_word(index as int) + self.list().data_words) as usize,
                ptr_count: self.list().ptr_count,
            }),
    {
        T::new(self.builder.get_struct_element(index))
    }
}

impl<T: FromStructBuilder + HasStructSize> Builder<T> {
    /// Points `builder` at a new composite list of `size` zeroed elements of `T`.
    pub fn init_pointer(builder: PointerBuilder, msg: &mut Message, size: u32) -> (r: Result<Builder<T>, ErrorKind>)
        requires
            builder.wf(old(msg)@),
        ensures
            ({
                let m = old(msg)@;
                let len = m[builder.seg as int].len();
                let ss = T::struct_size_spec();
                let total = size * ss.words();
                let grown = m[builder.seg as int] + Seq::new((1 + total) as nat, |i: int| 0u64);
                if size >= 0x2000_0000 || total > 0x1FFF_FFFF || len + 1 + total > crate::builder::MAX_BUILDER_WORDS {
                    r matches Err(e) && e == ErrorKind::MalformedPointer && final(msg)@ == m
                } else {
                    r is Ok && r->Ok_0.list() == (ListBuilder {
                        seg: builder.seg,
                        start: (len + 1) as usize,
                        count: size,
                        data_words: ss.data,
                        ptr_count: ss.pointers,
                    })
                    && final(msg)@ == m.update(builder.seg as int, grown
                        .update(len as int, crate::pointer::struct_word(size as int, ss.data, ss.pointers))
                        .update(builder.at as int, crate::pointer::list_word(len - builder.at - 1, 7, total as u64)))
                }
            }),
    {
        match builder.init_struct_list(msg, size, T::struct_size()) {
            Ok(l) => Ok(Builder { marker: PhantomData, builder: l }),
            Err(e) => Err(e),
        }
    }

    /// The composite list `builder` already points to; see `PointerBuilder::get_struct_list`.
    pub fn get_from_pointer(builder: PointerBuilder, msg: &mut Message) -> (r: Result<Builder<T>, ErrorKind>)
        requires
            builder.wf(old(msg)@),
            addressable(old(msg)@),
        ensures
            match (r, builder.struct_list_spec(old(msg)@, T::struct_size_spec())) {
                (Ok(b), Ok(l)) => b.list() == l && l.wf(final(msg)@),
                (Err(e), Err(f)) => e == f,
                _ => false,
            },
            builder.struct_list_moved(old(msg)@, final(msg)@, T::struct_size_spec()),
    {
        match builder.get_struct_list(msg, T::struct_size()) {
            Ok(l) => Ok(Builder { marker: PhantomData, builder: l }),
            Err(e) => Err(e),
        }
    }
}

} // verus!
