use vstd::prelude::*;
use crate::chars::{is_word_byte, is_word_start_byte};
use crate::interner::{distinct, lemma_interned_distinct, lemma_symbol_stable, symbol_of};
use crate::table::{keyword_spelling, literal_spelling, operator_spelling, reserved_kind};
use crate::token::{Keyword, Literal, Operator, TokenKind};
use crate::word::{classify, interned_after, run_end};

verus! {

/// A word run reaches the end of input when every byte from `i` on is a word byte.
pub proof fn lemma_run_to_end(buf: Seq<u8>, i: int)
    requires
        0 <= i <= buf.len(),
        forall|j: int| i <= j < buf.len() ==> is_word_byte(buf[j]),
    ensures
        run_end(buf, i) == buf.len(),
    decreases buf.len() - i,
{
    if i < buf.len() {
        lemma_run_to_end(buf, i + 1);
    }
}

/// An input that is a single non-reserved word lexes as one identifier
/// spanning all of it, and lexing it again in the same session gives the
/// same handle and leaves the interner as it was.
pub proof fn lemma_identifier_word(s: Seq<u8>, syms: Seq<Seq<u8>>)
    requires
        distinct(syms),
        s.len() > 0,
        is_word_start_byte(s[0]),
        forall|j: int| 0 <= j < s.len() ==> is_word_byte(s[j]),
        reserved_kind(s).is_none(),
    ensures
        run_end(s, 0) == s.len(),
        s.subrange(0, s.len() as int) == s,
        classify(interned_after(syms, s), s) == TokenKind::Identifier(
            symbol_of(interned_after(syms, s), s),
        ),
        interned_after(interned_after(syms, s), s) == interned_after(syms, s),
        classify(interned_after(interned_after(syms, s), s), s) == classify(
            interned_after(syms, s),
            s,
        ),
{
    lemma_run_to_end(s, 0);
    assert(s.subrange(0, s.len() as int) =~= s);
    lemma_interned_distinct(syms, s);
}

/// Every keyword spelling is one word run that lexes as that keyword,
/// interning nothing.
pub proof fn lemma_keyword_word(k: Keyword, syms: Seq<Seq<u8>>)
    ensures
        run_end(keyword_spelling(k), 0) == keyword_spelling(k).len() > 0,
        is_word_start_byte(keyword_spelling(k)[0]),
        reserved_kind(keyword_spelling(k)) == Some(TokenKind::Keyword(k)),
        classify(syms, keyword_spelling(k)) == TokenKind::Keyword(k),
        interned_after(syms, keyword_spelling(k)) == syms,
{
    let w = keyword_spelling(k);
    lemma_run_to_end(w, 0);
    match k {
        Keyword::Let => {},
        Keyword::If => {},
        Keyword::Then => {},
        Keyword::Else => {},
        Keyword::End => {},
        Keyword::For => {},
        Keyword::In => {},
        Keyword::Do => {},
        Keyword::While => {},
        Keyword::Function => {},
        Keyword::Return => {},
        Keyword::Break => {},
        Keyword::Self_ => {},
    }
}

/// Every word-literal spelling is one word run that lexes as that literal,
/// interning nothing.
pub proof fn lemma_literal_word(l: Literal, syms: Seq<Seq<u8>>)
    ensures
        run_end(literal_spelling(l), 0) == literal_spelling(l).len() > 0,
        is_word_start_byte(literal_spelling(l)[0]),
        reserved_kind(literal_spelling(l)) == Some(TokenKind::Literal(l)),
        classify(syms, literal_spelling(l)) == TokenKind::Literal(l),
        interned_after(syms, literal_spelling(l)) == syms,
{
    lemma_run_to_end(literal_spelling(l), 0);
    match l {
        Literal::Nil => {},
        Literal::True => {},
        Literal::False => {},
    }
}

/// Every word-operator spelling is one word run that lexes as that
/// operator, interning nothing.
pub proof fn lemma_operator_word(o: Operator, syms: Seq<Seq<u8>>)
    ensures
        run_end(operator_spelling(o), 0) == operator_spelling(o).len() > 0,
        is_word_start_byte(operator_spelling(o)[0]),
        reserved_kind(operator_spelling(o)) == Some(TokenKind::Operator(o)),
        classify(syms, operator_spelling(o)) == TokenKind::Operator(o),
        interned_after(syms, operator_spelling(o)) == syms,
{
    lemma_run_to_end(operator_spelling(o), 0);
    match o {
        Operator::Not => {},
        Operator::And => {},
        Operator::Or => {},
    }
}

/// Classifying the same word twice gives the same kind (for an identifier,
/// the same handle), and the second time interns nothing.
pub proof fn lemma_classify_twice(syms: Seq<Seq<u8>>, w: Seq<u8>)
    requires
        distinct(syms),
    ensures
        interned_after(interned_after(syms, w), w) == interned_after(syms, w),
        classify(interned_after(interned_after(syms, w), w), w) == classify(
            interned_after(syms, w),
            w,
        ),
{
    lemma_interned_distinct(syms, w);
}

/// A handle once issued stays the handle of its word while other words are
/// classified.
pub proof fn lemma_handle_stable(syms: Seq<Seq<u8>>, w: Seq<u8>, v: Seq<u8>)
    requires
        distinct(syms),
        syms.contains(w),
    ensures
        symbol_of(interned_after(syms, v), w) == symbol_of(syms, w),
{
    if reserved_kind(v).is_none() {
        lemma_symbol_stable(syms, w, v);
    }
}

} // verus!
