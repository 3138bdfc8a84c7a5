//! Record handles and the forward walk over a symbol stream.
use vstd::prelude::*;
use crate::bytes::{le16, read_u16};
use crate::common::{Error, SymbolIndex};
use crate::data::{record_error, record_of, record_ok, SymbolData};
use crate::kinds::{
    is_padding, is_scope_end, is_scope_start, kind_ends_scope, kind_is_padding, kind_starts_scope,
};

verus! {

/// The kind of a record whose bytes are `d` (kind field first), or zero if `d` is too short.
pub open spec fn kind_of(d: Seq<u8>) -> u16 {
    if d.len() >= 2 {
        le16(d, 0) as u16
    } else {
        0
    }
}

/// One record of a symbol stream: its index and its bytes, kind field first, without the
/// length prefix.
#[derive(Clone, Copy, Debug, PartialEq)]
pub struct Symbol<'t> {
    index: SymbolIndex,
    data: &'t [u8],
}

impl<'t> Symbol<'t> {
    /// Offset in the stream at which the record, its length prefix first, starts.
    pub closed spec fn spec_index(&self) -> u32 {
        self.index.0
    }

    /// The record's bytes, kind field first.
    pub closed spec fn spec_bytes(&self) -> Seq<u8> {
        self.data@
    }

    /// A handle on the record bytes `data` found at `index`.
    pub fn new(index: SymbolIndex, data: &'t [u8]) -> (r: Self)
        ensures
            r.spec_index() == index.0,
            r.spec_bytes() == data@,
    {
        Symbol { index, data }
    }

    /// The index of this symbol in the containing symbol stream.
    pub fn index(&self) -> (r: SymbolIndex)
        ensures
            r.0 == self.spec_index(),
    {
        self.index
    }

    /// The kind of this record, read little-endian from its first two bytes; zero when
    /// fewer than two bytes are held.
    pub fn raw_kind(&self) -> (r: u16)
        ensures
            r == kind_of(self.spec_bytes()),
    {
        if self.data.len() >= 2 {
            read_u16(self.data, 0)
        } else {
            0
        }
    }

    /// The record's bytes: the kind and the payload, without the length prefix.
    pub fn raw_bytes(&self) -> (r: &'t [u8])
        ensures
            r@ == self.spec_bytes(),
    {
        self.data
    }

    /// Decodes the record into the `SymbolData` of its kind.
    pub fn parse(&self) -> (r: Result<SymbolData, Error>)
        ensures
            (r is Ok) <==> record_ok(self.spec_bytes()),
            r matches Ok(s) ==> record_of(self.spec_bytes(), s),
            r matches Err(e) ==> e == record_error(self.spec_bytes()),
    {
        match SymbolData::decode(self.data) {
            Ok((s, _)) => Ok(s),
            Err(e) => Err(e),
        }
    }

    /// Whether this record opens a scope, and so carries `parent` and `end` fields.
    pub fn starts_scope(&self) -> (r: bool)
        ensures
            r == is_scope_start(kind_of(self.spec_bytes())),
    {
        kind_starts_scope(self.raw_kind())
    }

    /// Whether this record closes a scope.
    pub fn ends_scope(&self) -> (r: bool)
        ensures
            r == is_scope_end(kind_of(self.spec_bytes())),
    {
        kind_ends_scope(self.raw_kind())
    }
}

/// Whether a whole padding record starts at `p`.
pub open spec fn padding_at(d: Seq<u8>, p: int) -> bool {
    0 <= p && p + 4 <= d.len() && le16(d, p) >= 2 && p + 2 + le16(d, p) <= d.len() && is_padding(
        le16(d, p + 2) as u16,
    )
}

/// The first position at or after `p` that does not start a whole padding record.
pub open spec fn skip_padding(d: Seq<u8>, p: int) -> int
    decreases d.len() - p,
{
    if padding_at(d, p) {
        skip_padding(d, p + 2 + le16(d, p))
    } else {
        p
    }
}

/// The walk never moves backwards over padding.
proof fn lemma_skip_padding_forward(d: Seq<u8>, p: int)
    ensures
        skip_padding(d, p) >= p,
    decreases d.len() - p,
{
    if padding_at(d, p) {
        lemma_skip_padding_forward(d, p + 2 + le16(d, p));
    }
}

/// A record found by the walk spans exactly the length its prefix declares: its bytes are
/// that many, and the cursor moves past its prefix and those bytes and no further.
pub proof fn lemma_record_spans_declared_length(d: Seq<u8>, p: int)
    requires
        walk_finds(d, p),
    ensures
        ({
            let q = skip_padding(d, p);
            &&& walk_next_pos(d, p) == q + 2 + le16(d, q)
            &&& d.subrange(q + 2, q + 2 + le16(d, q)).len() == le16(d, q)
            &&& walk_next_pos(d, p) <= d.len()
        }),
{
}

/// The walk never yields a padding record: where it finds a record, that record's kind is
/// not a padding kind.
pub proof fn lemma_walk_skips_padding(d: Seq<u8>, p: int)
    requires
        walk_finds(d, p),
    ensures
        ({
            let q = skip_padding(d, p);
            !is_padding(kind_of(d.subrange(q + 2, q + 2 + le16(d, q))))
        }),
    decreases d.len() - p,
{
    if padding_at(d, p) {
        lemma_walk_skips_padding(d, p + 2 + le16(d, p));
    } else {
        let q = p;
        let body = d.subrange(q + 2, q + 2 + le16(d, q));
        assert(body.subrange(0, 2) =~= d.subrange(q + 2, q + 4));
        assert(le16(body, 0) == le16(d, q + 2));
    }
}

/// The records that repeated steps of the walk find from `p`, in order, up to the end
/// of the stream or the first error: each as the offset of its length prefix and its length.
pub open spec fn walk_records(d: Seq<u8>, p: int) -> Seq<(int, int)>
    decreases d.len() - p,
{
    if walk_finds(d, p) && p < walk_next_pos(d, p) {
        let q = skip_padding(d, p);
        seq![(q, le16(d, q))] + walk_records(d, walk_next_pos(d, p))
    } else {
        Seq::empty()
    }
}

/// The error that ends the walk from `p`, or none when it reaches the end of the stream.
pub open spec fn walk_failure(d: Seq<u8>, p: int) -> Option<Error>
    decreases d.len() - p,
{
    if walk_finds(d, p) && p < walk_next_pos(d, p) {
        walk_failure(d, walk_next_pos(d, p))
    } else if walk_ends(d, p) {
        None
    } else {
        Some(walk_error(d, p))
    }
}

/// Whether the walk from `p` ends cleanly: nothing but padding is left.
pub open spec fn walk_ends(d: Seq<u8>, p: int) -> bool {
    skip_padding(d, p) >= d.len()
}

/// Whether the walk from `p` finds a whole record, at `skip_padding(d, p)`.
pub open spec fn walk_finds(d: Seq<u8>, p: int) -> bool {
    let q = skip_padding(d, p);
    0 <= q && q + 2 <= d.len() && le16(d, q) >= 2 && q + 2 + le16(d, q) <= d.len()
}

/// The error that the walk from `p` meets, when it neither ends nor finds a record.
pub open spec fn walk_error(d: Seq<u8>, p: int) -> Error {
    let q = skip_padding(d, p);
    if q + 2 <= d.len() && le16(d, q) < 2 {
        Error::SymbolTooShort
    } else {
        Error::UnexpectedEof
    }
}

/// Where the walk from `p` leaves the cursor.
pub open spec fn walk_next_pos(d: Seq<u8>, p: int) -> int {
    let q = skip_padding(d, p);
    if q >= d.len() || q + 2 > d.len() {
        q
    } else if walk_finds(d, p) {
        q + 2 + le16(d, q)
    } else {
        q + 2
    }
}

/// Iterates over the records of a symbol stream, producing `Symbol`s.
#[derive(Debug)]
pub struct SymbolIter<'t> {
    data: &'t [u8],
    pos: usize,
}

impl<'t> SymbolIter<'t> {
    /// The stream being walked.
    pub closed spec fn spec_data(&self) -> Seq<u8> {
        self.data@
    }

    /// The cursor: the offset of the next record's length prefix.
    pub closed spec fn spec_pos(&self) -> int {
        self.pos as int
    }

    /// An iterator over `data` from its start.
    pub fn new(data: &'t [u8]) -> (r: Self)
        ensures
            r.spec_data() == data@,
            r.spec_pos() == 0,
    {
        SymbolIter { data, pos: 0 }
    }

    /// Moves the cursor to `index`, unchecked; the caller makes sure that a record starts there.
    pub fn seek(&mut self, index: SymbolIndex)
        ensures
            final(self).spec_data() == old(self).spec_data(),
            final(self).spec_pos() == index.0,
    {
        self.pos = index.0 as usize;
    }

    /// The next record that is not padding: `Ok(None)` at the end of the stream, an error
    /// when a length prefix is cut off, is below two, or runs past the end.
    pub fn next(&mut self) -> (r: Result<Option<Symbol<'t>>, Error>)
        ensures
            final(self).spec_data() == old(self).spec_data(),
            ({
                let d = old(self).spec_data();
                let p = old(self).spec_pos();
                let q = skip_padding(d, p);
                &&& final(self).spec_pos() == walk_next_pos(d, p)
                &&& (r matches Ok(None)) <==> walk_ends(d, p)
                &&& (r matches Ok(Some(_))) <==> walk_finds(d, p)
                &&& r matches Ok(Some(s)) ==> s.spec_index() == q as u32 && s.spec_bytes()
                    == d.subrange(q + 2, q + 2 + le16(d, q))
                &&& r matches Err(e) ==> e == walk_error(d, p)
            }),
            r matches Ok(Some(s)) ==> !is_padding(kind_of(s.spec_bytes())),
    {
        let ghost p0 = self.pos as int;
        let n = self.data.len();
        while self.pos < n
            invariant
                n == self.data@.len(),
                self.data == old(self).data,
                skip_padding(self.data@, p0) == skip_padding(self.data@, self.pos as int),
                p0 == old(self).pos,
            decreases n - self.pos,
        {
            let index = SymbolIndex(self.pos as u32);
            if n - self.pos < 2 {
                return Err(Error::UnexpectedEof);
            }
            let len = read_u16(self.data, self.pos) as usize;
            let start = self.pos + 2;
            if len < 2 {
                self.pos = start;
                return Err(Error::SymbolTooShort);
            }
            if len > n - start {
                self.pos = start;
                return Err(Error::UnexpectedEof);
            }
            let body = vstd::slice::slice_subrange(self.data, start, start + len);
            let symbol = Symbol { index, data: body };
            self.pos = start + len;
            let kind = symbol.raw_kind();
            assert(body@.subrange(0, 2) =~= self.data@.subrange(start as int, start + 2));
            assert(le16(body@, 0) == le16(self.data@, start as int));
            if !kind_is_padding(kind) {
                return Ok(Some(symbol));
            }
        }
        Ok(None)
    }

    /// All records from the cursor to the end of the stream, in order: the records that
    /// repeated calls of `next` return. The first error met ends the walk and is returned.
    pub fn collect(&mut self) -> (r: Result<Vec<Symbol<'t>>, Error>)
        ensures
            final(self).spec_data() == old(self).spec_data(),
            ({
                let d = old(self).spec_data();
                let p = old(self).spec_pos();
                let recs = walk_records(d, p);
                &&& (r is Ok) <==> walk_failure(d, p) is None
                &&& r matches Ok(v) ==> v@.len() == recs.len() && forall|i: int|
                    0 <= i < v@.len() ==> #[trigger] v@[i].spec_index() == recs[i].0 as u32
                        && v@[i].spec_bytes() == d.subrange(
                            recs[i].0 + 2,
                            recs[i].0 + 2 + recs[i].1,
                        )
                &&& r matches Err(e) ==> walk_failure(d, p) == Some(e)
            }),
            r matches Ok(v) ==> forall|i: int|
                0 <= i < v@.len() ==> !is_padding(#[trigger] kind_of(v@[i].spec_bytes())),
    {
        let ghost d = self.spec_data();
        let ghost p0 = self.spec_pos();
        let ghost mut recs: Seq<(int, int)> = Seq::empty();
        let mut out: Vec<Symbol<'t>> = Vec::new();
        loop
            invariant
                self.spec_data() == d,
                d == old(self).spec_data(),
                p0 == old(self).spec_pos(),
                walk_records(d, p0) == recs + walk_records(d, self.spec_pos()),
                walk_failure(d, p0) == walk_failure(d, self.spec_pos()),
                out@.len() == recs.len(),
                forall|i: int|
                    0 <= i < out@.len() ==> #[trigger] out@[i].spec_index() == recs[i].0 as u32
                        && out@[i].spec_bytes() == d.subrange(
                            recs[i].0 + 2,
                            recs[i].0 + 2 + recs[i].1,
                        ),
                forall|i: int|
                    0 <= i < out@.len() ==> !is_padding(#[trigger] kind_of(out@[i].spec_bytes())),
            decreases self.spec_data().len() - self.spec_pos() + 1,
        {
            let ghost before = self.spec_pos();
            match self.next() {
                Ok(Some(s)) => {
                    let ghost q = skip_padding(d, before);
                    proof {
                        lemma_skip_padding_forward(d, before);
                        let rest = walk_records(d, self.spec_pos());
                        assert(walk_records(d, before) == seq![(q, le16(d, q))] + rest);
                        assert(recs + (seq![(q, le16(d, q))] + rest) =~= recs.push((q, le16(d, q)))
                            + rest);
                        recs = recs.push((q, le16(d, q)));
                    }
                    out.push(s);
                },
                Ok(None) => {
                    assert(recs + walk_records(d, before) =~= recs);
                    return Ok(out);
                },
                Err(e) => {
                    return Err(e);
                },
            }
        }
    }

    /// Moves the cursor to `index` and returns the record found from there.
    pub fn skip_to(&mut self, index: SymbolIndex) -> (r: Result<Option<Symbol<'t>>, Error>)
        ensures
            final(self).spec_data() == old(self).spec_data(),
            ({
                let d = old(self).spec_data();
                let p = index.0 as int;
                let q = skip_padding(d, p);
                &&& final(self).spec_pos() == walk_next_pos(d, p)
                &&& (r matches Ok(None)) <==> walk_ends(d, p)
                &&& (r matches Ok(Some(_))) <==> walk_finds(d, p)
                &&& r matches Ok(Some(s)) ==> s.spec_index() == q as u32 && s.spec_bytes()
                    == d.subrange(q + 2, q + 2 + le16(d, q))
                &&& r matches Err(e) ==> e == walk_error(d, p)
            }),
    {
        self.seek(index);
        self.next()
    }
}

/// A symbol stream: the bytes of one module's or of the global symbol records.
#[derive(Debug)]
pub struct SymbolTable<'s> {
    data: &'s [u8],
}

impl<'s> SymbolTable<'s> {
    /// The stream's bytes.
    pub closed spec fn spec_data(&self) -> Seq<u8> {
        self.data@
    }

    /// A table over the stream bytes `data`.
    pub fn new(data: &'s [u8]) -> (r: Self)
        ensures
            r.spec_data() == data@,
    {
        SymbolTable { data }
    }

    /// An iterator over the table from its first record.
    pub fn iter(&self) -> (r: SymbolIter<'s>)
        ensures
            r.spec_data() == self.spec_data(),
            r.spec_pos() == 0,
    {
        SymbolIter::new(self.data)
    }

    /// An iterator over the table from the record at `index`.
    pub fn iter_at(&self, index: SymbolIndex) -> (r: SymbolIter<'s>)
        ensures
            r.spec_data() == self.spec_data(),
            r.spec_pos() == index.0,
    {
        let mut iter = self.iter();
        iter.seek(index);
        iter
    }
}

} // verus!
