use vstd::prelude::*;

use crate::Stream;
use crate::StreamReader;
use crate::StreamSeek;
use crate::StreamWriter;

verus! {

/// The sequence left by writing `buff` at offset `pos` of `data`: the bytes
/// before `pos` are kept, `buff` is laid down starting at `pos` (overwriting
/// what was allocated there), and whatever of `data` lies past the written
/// range is kept. The result grows past `data` exactly when the write runs
/// past the end.
pub open spec fn write_bytes(data: Seq<u8>, pos: nat, buff: Seq<u8>) -> Seq<u8>
    recommends
        pos <= data.len(),
{
    data.take(pos as int) + buff + data.skip(
        vstd::math::min(pos + buff.len() as int, data.len() as int),
    )
}

/// Law: a write that begins inside already-allocated data and runs past its
/// end overwrites the `data.len() - pos` available bytes in place, appends
/// the rest of `buff` beyond the old end, and leaves the bytes before `pos`
/// untouched. (The writer's `write` contract adds that the cursor lands at
/// `pos + buff.len()`, immediately after the written range.)
pub proof fn lemma_write_straddles_boundary(data: Seq<u8>, pos: nat, buff: Seq<u8>)
    requires
        pos <= data.len(),
        0 < data.len() - pos < buff.len(),
    ensures
        write_bytes(data, pos, buff).len() == pos + buff.len(),
        forall|i: int| 0 <= i < pos ==> write_bytes(data, pos, buff)[i] == data[i],
        forall|i: int|
            pos <= i < pos + buff.len() ==> write_bytes(data, pos, buff)[i] == buff[i - pos],
{
}

/// A growable byte buffer behind a cursor: writes overwrite in place up to
/// the allocated end and append beyond it; the buffer never shrinks.
pub struct MemoryStreamWriter {
    data: Vec<u8>,
    cursor: usize,
}

impl MemoryStreamWriter {
    /// The bytes the stream holds.
    pub closed spec fn spec_data(&self) -> Seq<u8> {
        self.data@
    }

    /// Creates an empty stream with the cursor at the start.
    pub fn new() -> (r: Self)
        ensures
            r.wf(),
            r.spec_data() == Seq::<u8>::empty(),
            r.spec_position() == 0,
    {
        Self { data: Vec::new(), cursor: 0 }
    }

    /// Read access to the underlying buffer.
    pub fn data(&self) -> (r: &Vec<u8>)
        ensures
            r@ == self.spec_data(),
    {
        &self.data
    }

    /// Mutable access to the underlying buffer. The cursor stays where it
    /// was, so the stream is well-formed again only if the caller leaves at
    /// least `spec_position()` bytes in the buffer.
    pub fn data_mut(&mut self) -> (r: &mut Vec<u8>)
        ensures
            r@ == old(self).spec_data(),
            final(self).spec_data() == final(r)@,
            final(self).spec_position() == old(self).spec_position(),
            final(r)@.len() >= old(self).spec_position() ==> final(self).wf(),
    {
        &mut self.data
    }
}

impl Stream for MemoryStreamWriter {
    open spec fn wf(&self) -> bool {
        self.spec_position() <= self.spec_size()
    }

    closed spec fn spec_position(&self) -> nat {
        self.cursor as nat
    }

    open spec fn spec_size(&self) -> nat {
        self.spec_data().len()
    }

    proof fn lemma_position_in_bounds(&self) {
    }

    fn tell(&self) -> (r: usize) {
        self.cursor
    }

    fn size(&self) -> (r: usize) {
        self.data.len()
    }
}

impl StreamWriter for MemoryStreamWriter {
    /// Overwrites the `size - position` available bytes in place, appends the
    /// rest of `buff`, and lands the cursor right after the written range.
    /// The whole of `buff` is always consumed, and the buffer's length grows
    /// to `max(old size, old position + buff.len())` — it never shrinks.
    fn write(&mut self, buff: &[u8]) -> (r: Result<usize, ()>)
        ensures
            r matches Ok(n) && n == buff@.len(),
            final(self).spec_data() == write_bytes(
                old(self).spec_data(),
                old(self).spec_position(),
                buff@,
            ),
            final(self).spec_position() == old(self).spec_position() + buff@.len(),
            final(self).spec_size() == vstd::math::max(
                old(self).spec_size() as int,
                old(self).spec_position() + buff@.len() as int,
            ),
    {
        let ghost orig: Seq<u8> = self.data@;
        let ghost pos: int = self.cursor as int;

        let available: usize = self.data.len() - self.cursor;
        let remaining: usize = if buff.len() < available {
            0
        } else {
            buff.len() - available
        };
        let first: usize = if available < buff.len() {
            available
        } else {
            buff.len()
        };

        let mut i: usize = 0;
        while i < first
            invariant
                i <= first,
                first <= buff@.len(),
                pos + first <= orig.len(),
                orig.len() <= usize::MAX,
                self.cursor == pos,
                self.data@.len() == orig.len(),
                forall|j: int| 0 <= j < pos ==> self.data@[j] == orig[j],
                forall|j: int| 0 <= j < i ==> self.data@[pos + j] == buff@[j],
                forall|j: int| pos + i <= j < orig.len() ==> self.data@[j] == orig[j],
            decreases first - i,
        {
            let b: u8 = buff[i];
            self.data[self.cursor + i] = b;
            i += 1;
        }

        let ghost overwritten: Seq<u8> = self.data@;
        let mut k: usize = 0;
        while k < remaining
            invariant
                k <= remaining,
                first + remaining <= buff@.len(),
                buff@.len() <= usize::MAX,
                remaining > 0 ==> first + remaining == buff@.len(),
                first <= buff@.len(),
                self.cursor == pos,
                self.data@ == overwritten + buff@.subrange(first as int, first + k),
                overwritten.len() == orig.len(),
            decreases remaining - k,
        {
            let b: u8 = buff[first + k];
            self.data.push(b);
            k += 1;
        }

        let total: usize = self.data.len();
        assert(self.cursor + buff@.len() <= total);
        self.cursor = self.cursor + buff.len();

        proof {
            assert(self.data@ =~= write_bytes(orig, pos as nat, buff@));
        }
        Ok(buff.len())
    }
}

impl StreamSeek for MemoryStreamWriter {
    /// Clamps a target past the end to the end — a seek never grows the
    /// buffer — and otherwise sets the cursor exactly. Never fails.
    fn seek(&mut self, cursor: usize) -> (r: Result<usize, ()>)
        ensures
            final(self).spec_data() == old(self).spec_data(),
            cursor > old(self).spec_size() ==> final(self).spec_position() == old(
                self,
            ).spec_size(),
            cursor <= old(self).spec_size() ==> final(self).spec_position() == cursor,
            r matches Ok(p) && p == final(self).spec_position(),
    {
        if self.data.len() < cursor {
            self.cursor = self.data.len();
        } else {
            self.cursor = cursor;
        }
        Ok(self.cursor)
    }
}

/// An immutable byte buffer behind a cursor: the bytes are copied in at
/// construction and never change afterwards, so reads depend only on the
/// cursor, never on the source the stream was built from.
pub struct MemoryStreamReader {
    data: Vec<u8>,
    cursor: usize,
}

impl MemoryStreamReader {
    /// The bytes the stream holds; fixed at construction.
    pub closed spec fn spec_data(&self) -> Seq<u8> {
        self.data@
    }

    /// Builds a stream over a verbatim copy of `src`, with the cursor at the
    /// start. The copy owes nothing to `src`: later changes to the source
    /// buffer cannot reach the stream.
    pub fn from(src: &[u8]) -> (r: Self)
        ensures
            r.wf(),
            r.spec_data() == src@,
            r.spec_position() == 0,
    {
        let mut v: Vec<u8> = Vec::new();
        v.extend_from_slice(src);
        proof {
            assert(v@ =~= src@);
        }
        Self { data: v, cursor: 0 }
    }
}

impl Stream for MemoryStreamReader {
    open spec fn wf(&self) -> bool {
        self.spec_position() <= self.spec_size()
    }

    closed spec fn spec_position(&self) -> nat {
        self.cursor as nat
    }

    open spec fn spec_size(&self) -> nat {
        self.spec_data().len()
    }

    proof fn lemma_position_in_bounds(&self) {
    }

    fn tell(&self) -> (r: usize) {
        self.cursor
    }

    fn size(&self) -> (r: usize) {
        self.data.len()
    }
}

impl StreamReader for MemoryStreamReader {
    /// Copies exactly `min(buff.len(), size - position)` bytes from the
    /// cursor into the front of `buff`, advances the cursor by that count,
    /// and reports it. Asking for more than remains is not an error: the
    /// call yields fewer bytes and the rest of `buff` keeps its old contents.
    fn read(&mut self, buff: &mut [u8]) -> (r: Result<usize, ()>)
        ensures
            final(self).spec_data() == old(self).spec_data(),
            r matches Ok(n) && n == vstd::math::min(
                old(buff)@.len() as int,
                old(self).spec_size() - old(self).spec_position(),
            ) && final(self).spec_position() == old(self).spec_position() + n && final(buff)@
                == old(self).spec_data().subrange(
                old(self).spec_position() as int,
                old(self).spec_position() + n,
            ) + old(buff)@.skip(n as int),
    {
        let ghost orig_buff: Seq<u8> = buff@;
        let ghost pos: int = self.cursor as int;

        let remaining: usize = self.data.len() - self.cursor;
        let read_len: usize = if buff.len() > remaining {
            remaining
        } else {
            buff.len()
        };

        let mut c: usize = 0;
        while c < read_len
            invariant
                c <= read_len,
                read_len <= orig_buff.len(),
                pos + read_len <= self.data@.len(),
                self.data@.len() <= usize::MAX,
                self.cursor == pos,
                buff@.len() == orig_buff.len(),
                forall|j: int| 0 <= j < c ==> buff@[j] == self.data@[pos + j],
                forall|j: int| c <= j < orig_buff.len() ==> buff@[j] == orig_buff[j],
            decreases read_len - c,
        {
            let b: u8 = self.data[self.cursor + c];
            buff[c] = b;
            c += 1;
        }

        self.cursor = self.cursor + read_len;
        proof {
            assert(buff@ =~= self.data@.subrange(pos, pos + read_len) + orig_buff.skip(
                read_len as int,
            ));
        }
        Ok(read_len)
    }

    /// True exactly when the cursor has reached the end of the buffer.
    fn is_eof(&self) -> (r: bool) {
        self.cursor == self.data.len()
    }
}

impl StreamSeek for MemoryStreamReader {
    /// Clamps a target past the end to the end and otherwise sets the cursor
    /// exactly, under the same policy as the writer. Never fails.
    fn seek(&mut self, cursor: usize) -> (r: Result<usize, ()>)
        ensures
            final(self).spec_data() == old(self).spec_data(),
            cursor > old(self).spec_size() ==> final(self).spec_position() == old(
                self,
            ).spec_size(),
            cursor <= old(self).spec_size() ==> final(self).spec_position() == cursor,
            r matches Ok(p) && p == final(self).spec_position(),
    {
        if self.data.len() < cursor {
            self.cursor = self.data.len();
        } else {
            self.cursor = cursor;
        }
        Ok(self.cursor)
    }
}

} // verus!
