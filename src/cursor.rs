use vstd::prelude::*;

verus! {

pub const NEWLINE: u8 = 10;

/// Where a token begins: byte offset, and 1-based line and column.
#[derive(Debug, Clone, Copy, PartialEq, Eq, Structural)]
pub struct SourcePos {
    pub offset: usize,
    pub line: usize,
    pub column: usize,
}

/// The line on which the byte at offset `n` of `buf` stands.
pub open spec fn line_at(buf: Seq<u8>, n: nat) -> nat
    decreases n,
{
    if n == 0 {
        1
    } else if buf[n - 1] == NEWLINE {
        line_at(buf, (n - 1) as nat) + 1
    } else {
        line_at(buf, (n - 1) as nat)
    }
}

/// The column at which the byte at offset `n` of `buf` stands.
pub open spec fn column_at(buf: Seq<u8>, n: nat) -> nat
    decreases n,
{
    if n == 0 {
        1
    } else if buf[n - 1] == NEWLINE {
        1
    } else {
        column_at(buf, (n - 1) as nat) + 1
    }
}

/// The position of offset `n` in `buf`.
pub open spec fn pos_at(buf: Seq<u8>, n: nat) -> SourcePos {
    SourcePos {
        offset: n as usize,
        line: line_at(buf, n) as usize,
        column: column_at(buf, n) as usize,
    }
}

proof fn lemma_pos_bounded(buf: Seq<u8>, n: nat)
    ensures
        1 <= line_at(buf, n) <= n + 1,
        1 <= column_at(buf, n) <= n + 1,
    decreases n,
{
    if n > 0 {
        lemma_pos_bounded(buf, (n - 1) as nat);
    }
}

/// A forward-only view over a source buffer.
pub struct Cursor<'a> {
    buffer: &'a [u8],
    offset: usize,
    pos: SourcePos,
}

impl<'a> Cursor<'a> {
    /// The whole buffer the cursor walks.
    pub closed spec fn data(&self) -> Seq<u8> {
        self.buffer@
    }

    /// The offset of the next byte to read.
    pub closed spec fn at(&self) -> nat {
        self.offset as nat
    }

    pub closed spec fn wf(&self) -> bool {
        &&& self.offset <= self.buffer@.len() < usize::MAX
        &&& self.pos == pos_at(self.buffer@, self.offset as nat)
    }

    /// A cursor at the start of `buffer`.
    pub fn new(buffer: &'a [u8]) -> (r: Cursor<'a>)
        requires
            buffer@.len() < usize::MAX,
        ensures
            r.wf(),
            r.data() == buffer@,
            r.at() == 0,
    {
        let r = Cursor { buffer, offset: 0, pos: SourcePos { offset: 0, line: 1, column: 1 } };
        assert(r.pos == pos_at(buffer@, 0));
        r
    }

    /// The offset of the next byte to read.
    pub fn offset(&self) -> (r: usize)
        ensures
            r == self.at(),
            self.wf() ==> r <= self.data().len(),
    {
        self.offset
    }

    /// The position of the next byte to read.
    pub fn pos(&self) -> (r: SourcePos)
        requires
            self.wf(),
        ensures
            r == pos_at(self.data(), self.at()),
    {
        self.pos
    }

    /// The next byte, or `None` at the end of the input; does not advance.
    pub fn peek(&self) -> (r: Option<u8>)
        requires
            self.wf(),
        ensures
            r == (if self.at() < self.data().len() {
                Some(self.data()[self.at() as int])
            } else {
                None::<u8>
            }),
    {
        if self.offset < self.buffer.len() {
            Some(self.buffer[self.offset])
        } else {
            None
        }
    }

    /// The whole underlying buffer.
    pub fn slice(&self) -> (r: &'a [u8])
        ensures
            r@ == self.data(),
    {
        self.buffer
    }

    /// Consumes the next byte.
    pub fn advance(&mut self)
        requires
            old(self).wf(),
            old(self).at() < old(self).data().len(),
        ensures
            final(self).wf(),
            final(self).data() == old(self).data(),
            final(self).at() == old(self).at() + 1,
    {
        let ghost buf = self.buffer@;
        let ghost n = self.offset as nat;
        proof {
            lemma_pos_bounded(buf, n);
        }
        let b = self.buffer[self.offset];
        let next = self.offset + 1;
        if b == NEWLINE {
            self.pos = SourcePos { offset: next, line: self.pos.line + 1, column: 1 };
        } else {
            self.pos = SourcePos { offset: next, line: self.pos.line, column: self.pos.column + 1 };
        }
        self.offset = next;
        assert(self.pos == pos_at(buf, n + 1));
    }
}

} // verus!
