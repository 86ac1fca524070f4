use vstd::prelude::*;
use crate::chars::{is_word_byte, is_word_start_byte, IsWord};
use crate::cursor::{pos_at, Cursor, SourcePos};
use crate::interner::{interned, symbol_of, SymbolInterner};
use crate::table::{reserved, reserved_kind};
use crate::token::{Token, TokenKind};

verus! {

/// The end of the word run that starts at `i`: the first offset from `i` on
/// whose byte is not a word byte, or the end of `buf`.
pub open spec fn run_end(buf: Seq<u8>, i: int) -> int
    decreases buf.len() - i,
{
    if 0 <= i < buf.len() && is_word_byte(buf[i]) {
        run_end(buf, i + 1)
    } else {
        i
    }
}

/// The kind of the word `w`, where `syms` is the interner's table once
/// `w` has been classified.
pub open spec fn classify(syms: Seq<Seq<u8>>, w: Seq<u8>) -> TokenKind {
    match reserved_kind(w) {
        Some(k) => k,
        None => TokenKind::Identifier(symbol_of(syms, w)),
    }
}

/// The interner's table after classifying `w`: reserved words leave it as
/// it is, other words are interned.
pub open spec fn interned_after(syms: Seq<Seq<u8>>, w: Seq<u8>) -> Seq<Seq<u8>> {
    match reserved_kind(w) {
        Some(_) => syms,
        None => interned(syms, w),
    }
}

/// The state of the automaton between tokens.
#[derive(Debug, Clone, Copy, PartialEq, Eq, Structural)]
pub struct Root;

/// The state for lexing identifiers, keywords and word operators.
#[derive(Debug, Clone, Copy, PartialEq, Eq, Structural)]
pub struct Word {
    start_offset: usize,
    pos: SourcePos,
}

/// The automaton's state.
#[derive(Debug, Clone, Copy, PartialEq, Eq, Structural)]
pub enum State {
    Root(Root),
    Word(Word),
}

/// What a state's visit asks of the driver.
#[derive(Debug, Clone, Copy, PartialEq, Eq, Structural)]
pub enum Transition {
    /// Consume the current byte and continue in the given state.
    Step(State),
    /// Leave the current byte, go back to the given state and emit the token.
    Resume(State, Token),
}

impl Word {
    /// The offset of the word's first byte.
    pub closed spec fn start(&self) -> nat {
        self.start_offset as nat
    }

    /// The position of the word's first byte.
    pub closed spec fn origin(&self) -> SourcePos {
        self.pos
    }

    /// Enters the word state at the cursor's current byte.
    pub fn at(cursor: &Cursor) -> (r: Word)
        requires
            cursor.wf(),
        ensures
            r.start() == cursor.at(),
            r.origin() == pos_at(cursor.data(), cursor.at()),
    {
        Word { start_offset: cursor.offset(), pos: cursor.pos() }
    }

    /// One step of the word state: keep accumulating while the current byte
    /// is a word byte; otherwise classify the bytes from the start up to the
    /// cursor and emit the token, leaving the current byte unconsumed.
    pub fn visit(self, cursor: &Cursor, interner: &mut SymbolInterner) -> (r: Transition)
        requires
            cursor.wf(),
            old(interner).wf(),
            self.start() <= cursor.at(),
        ensures
            final(interner).wf(),
            ({
                let buf = cursor.data();
                let at = cursor.at();
                let w = buf.subrange(self.start() as int, at as int);
                if at < buf.len() && is_word_byte(buf[at as int]) {
                    &&& r == Transition::Step(State::Word(self))
                    &&& final(interner)@ == old(interner)@
                } else {
                    &&& final(interner)@ == interned_after(old(interner)@, w)
                    &&& r == Transition::Resume(
                        State::Root(Root),
                        Token { kind: classify(final(interner)@, w), pos: self.origin() },
                    )
                }
            }),
    {
        match cursor.peek() {
            Some(c) if c.is_word() => Transition::Step(State::Word(self)),
            _ => {
                let word = vstd::slice::slice_subrange(
                    cursor.slice(),
                    self.start_offset,
                    cursor.offset(),
                );
                let kind = Word::to_token(word, interner);
                Transition::Resume(State::Root(Root), Token { kind, pos: self.pos })
            },
        }
    }

    /// Classifies a finished word: a reserved word gives its kind, any other
    /// word is interned and gives an identifier.
    pub fn to_token(word: &[u8], interner: &mut SymbolInterner) -> (r: TokenKind)
        requires
            old(interner).wf(),
        ensures
            final(interner).wf(),
            final(interner)@ == interned_after(old(interner)@, word@),
            r == classify(final(interner)@, word@),
    {
        match reserved(word) {
            Some(kind) => kind,
            None => TokenKind::Identifier(interner.get_or_intern(word)),
        }
    }
}

impl From<Word> for State {
    fn from(state: Word) -> (r: State)
        ensures
            r == State::Word(state),
    {
        State::Word(state)
    }
}

impl vstd::std_specs::convert::FromSpecImpl<Word> for State {
    open spec fn obeys_from_spec() -> bool {
        true
    }

    open spec fn from_spec(state: Word) -> State {
        State::Word(state)
    }
}

/// Lexes the word run that starts at the cursor: drives the word state,
/// consuming bytes while it steps, until it emits its token. The cursor is
/// left on the first byte after the run.
pub fn lex_word(cursor: &mut Cursor, interner: &mut SymbolInterner) -> (r: Token)
    requires
        old(cursor).wf(),
        old(interner).wf(),
        old(cursor).at() < old(cursor).data().len(),
        is_word_start_byte(old(cursor).data()[old(cursor).at() as int]),
    ensures
        ({
            let buf = old(cursor).data();
            let s = old(cursor).at() as int;
            let e = run_end(buf, s);
            let w = buf.subrange(s, e);
            &&& final(cursor).wf()
            &&& final(cursor).data() == buf
            &&& final(cursor).at() == e
            &&& s < e <= buf.len()
            &&& (e == buf.len() || !is_word_byte(buf[e]))
            &&& final(interner).wf()
            &&& final(interner)@ == interned_after(old(interner)@, w)
            &&& r == Token { kind: classify(final(interner)@, w), pos: pos_at(buf, s as nat) }
        }),
{
    let ghost buf = cursor.data();
    let ghost s = cursor.at() as int;
    let ghost syms = interner@;
    let word = Word::at(cursor);
    loop
        invariant
            cursor.wf(),
            cursor.data() == buf,
            buf == old(cursor).data(),
            s == old(cursor).at(),
            syms == old(interner)@,
            0 <= s <= cursor.at() <= buf.len(),
            s < cursor.at() || cursor.at() < buf.len(),
            s < buf.len() && is_word_start_byte(buf[s]),
            run_end(buf, s) == run_end(buf, cursor.at() as int),
            interner.wf(),
            interner@ == syms,
            word.start() == s,
            word.origin() == pos_at(buf, s as nat),
        decreases buf.len() - cursor.at(),
    {
        match word.visit(cursor, interner) {
            Transition::Step(_) => {
                cursor.advance();
            },
            Transition::Resume(_, token) => {
                assert(run_end(buf, cursor.at() as int) == cursor.at() as int);
                return token;
            },
        }
    }
}

} // verus!
