use vstd::prelude::*;
use crate::interner::bytes_eq;
use crate::token::{Keyword, Literal, Operator, TokenKind};

verus! {

/// The bytes that spell a keyword.
pub open spec fn keyword_spelling(k: Keyword) -> Seq<u8> {
    match k {
        Keyword::Let => seq![108u8, 101, 116],  // let
        Keyword::If => seq![105u8, 102],  // if
        Keyword::Then => seq![116u8, 104, 101, 110],  // then
        Keyword::Else => seq![101u8, 108, 115, 101],  // else
        Keyword::End => seq![101u8, 110, 100],  // end
        Keyword::For => seq![102u8, 111, 114],  // for
        Keyword::In => seq![105u8, 110],  // in
        Keyword::Do => seq![100u8, 111],  // do
        Keyword::While => seq![119u8, 104, 105, 108, 101],  // while
        Keyword::Function => seq![102u8, 117, 110, 99, 116, 105, 111, 110],  // function
        Keyword::Return => seq![114u8, 101, 116, 117, 114, 110],  // return
        Keyword::Break => seq![98u8, 114, 101, 97, 107],  // break
        Keyword::Self_ => seq![115u8, 101, 108, 102],  // self
    }
}

/// The bytes that spell a word literal.
pub open spec fn literal_spelling(k: Literal) -> Seq<u8> {
    match k {
        Literal::Nil => seq![110u8, 105, 108],  // nil
        Literal::True => seq![116u8, 114, 117, 101],  // true
        Literal::False => seq![102u8, 97, 108, 115, 101],  // false
    }
}

/// The bytes that spell a word operator.
pub open spec fn operator_spelling(k: Operator) -> Seq<u8> {
    match k {
        Operator::Not => seq![110u8, 111, 116],  // not
        Operator::And => seq![97u8, 110, 100],  // and
        Operator::Or => seq![111u8, 114],  // or
    }
}

/// The reserved kind that `w` spells, if any: keywords first, then
/// literals, then word operators; `None` for every other word.
pub open spec fn reserved_kind(w: Seq<u8>) -> Option<TokenKind> {
    if w == keyword_spelling(Keyword::Let) {
        Some(TokenKind::Keyword(Keyword::Let))
    } else if w == keyword_spelling(Keyword::If) {
        Some(TokenKind::Keyword(Keyword::If))
    } else if w == keyword_spelling(Keyword::Then) {
        Some(TokenKind::Keyword(Keyword::Then))
    } else if w == keyword_spelling(Keyword::Else) {
        Some(TokenKind::Keyword(Keyword::Else))
    } else if w == keyword_spelling(Keyword::End) {
        Some(TokenKind::Keyword(Keyword::End))
    } else if w == keyword_spelling(Keyword::For) {
        Some(TokenKind::Keyword(Keyword::For))
    } else if w == keyword_spelling(Keyword::In) {
        Some(TokenKind::Keyword(Keyword::In))
    } else if w == keyword_spelling(Keyword::Do) {
        Some(TokenKind::Keyword(Keyword::Do))
    } else if w == keyword_spelling(Keyword::While) {
        Some(TokenKind::Keyword(Keyword::While))
    } else if w == keyword_spelling(Keyword::Function) {
        Some(TokenKind::Keyword(Keyword::Function))
    } else if w == keyword_spelling(Keyword::Return) {
        Some(TokenKind::Keyword(Keyword::Return))
    } else if w == keyword_spelling(Keyword::Break) {
        Some(TokenKind::Keyword(Keyword::Break))
    } else if w == keyword_spelling(Keyword::Self_) {
        Some(TokenKind::Keyword(Keyword::Self_))
    } else if w == literal_spelling(Literal::Nil) {
        Some(TokenKind::Literal(Literal::Nil))
    } else if w == literal_spelling(Literal::True) {
        Some(TokenKind::Literal(Literal::True))
    } else if w == literal_spelling(Literal::False) {
        Some(TokenKind::Literal(Literal::False))
    } else if w == operator_spelling(Operator::Not) {
        Some(TokenKind::Operator(Operator::Not))
    } else if w == operator_spelling(Operator::And) {
        Some(TokenKind::Operator(Operator::And))
    } else if w == operator_spelling(Operator::Or) {
        Some(TokenKind::Operator(Operator::Or))
    } else {
        None
    }
}

/// Looks `word` up in the reserved-word tables.
pub fn reserved(word: &[u8]) -> (r: Option<TokenKind>)
    ensures
        r == reserved_kind(word@),
{
    let spelling = [108u8, 101, 116];  // let
    assert(spelling@ =~= keyword_spelling(Keyword::Let));
    if bytes_eq(word, spelling.as_slice()) {
        return Some(TokenKind::Keyword(Keyword::Let));
    }
    let spelling = [105u8, 102];  // if
    assert(spelling@ =~= keyword_spelling(Keyword::If));
    if bytes_eq(word, spelling.as_slice()) {
        return Some(TokenKind::Keyword(Keyword::If));
    }
    let spelling = [116u8, 104, 101, 110];  // then
    assert(spelling@ =~= keyword_spelling(Keyword::Then));
    if bytes_eq(word, spelling.as_slice()) {
        return Some(TokenKind::Keyword(Keyword::Then));
    }
    let spelling = [101u8, 108, 115, 101];  // else
    assert(spelling@ =~= keyword_spelling(Keyword::Else));
    if bytes_eq(word, spelling.as_slice()) {
        return Some(TokenKind::Keyword(Keyword::Else));
    }
    let spelling = [101u8, 110, 100];  // end
    assert(spelling@ =~= keyword_spelling(Keyword::End));
    if bytes_eq(word, spelling.as_slice()) {
        return Some(TokenKind::Keyword(Keyword::End));
    }
    let spelling = [102u8, 111, 114];  // for
    assert(spelling@ =~= keyword_spelling(Keyword::For));
    if bytes_eq(word, spelling.as_slice()) {
        return Some(TokenKind::Keyword(Keyword::For));
    }
    let spelling = [105u8, 110];  // in
    assert(spelling@ =~= keyword_spelling(Keyword::In));
    if bytes_eq(word, spelling.as_slice()) {
        return Some(TokenKind::Keyword(Keyword::In));
    }
    let spelling = [100u8, 111];  // do
    assert(spelling@ =~= keyword_spelling(Keyword::Do));
    if bytes_eq(word, spelling.as_slice()) {
        return Some(TokenKind::Keyword(Keyword::Do));
    }
    let spelling = [119u8, 104, 105, 108, 101];  // while
    assert(spelling@ =~= keyword_spelling(Keyword::While));
    if bytes_eq(word, spelling.as_slice()) {
        return Some(TokenKind::Keyword(Keyword::While));
    }
    let spelling = [102u8, 117, 110, 99, 116, 105, 111, 110];  // function
    assert(spelling@ =~= keyword_spelling(Keyword::Function));
    if bytes_eq(word, spelling.as_slice()) {
        return Some(TokenKind::Keyword(Keyword::Function));
    }
    let spelling = [114u8, 101, 116, 117, 114, 110];  // return
    assert(spelling@ =~= keyword_spelling(Keyword::Return));
    if bytes_eq(word, spelling.as_slice()) {
        return Some(TokenKind::Keyword(Keyword::Return));
    }
    let spelling = [98u8, 114, 101, 97, 107];  // break
    assert(spelling@ =~= keyword_spelling(Keyword::Break));
    if bytes_eq(word, spelling.as_slice()) {
        return Some(TokenKind::Keyword(Keyword::Break));
    }
    let spelling = [115u8, 101, 108, 102];  // self
    assert(spelling@ =~= keyword_spelling(Keyword::Self_));
    if bytes_eq(word, spelling.as_slice()) {
        return Some(TokenKind::Keyword(Keyword::Self_));
    }
    let spelling = [110u8, 105, 108];  // nil
    assert(spelling@ =~= literal_spelling(Literal::Nil));
    if bytes_eq(word, spelling.as_slice()) {
        return Some(TokenKind::Literal(Literal::Nil));
    }
    let spelling = [116u8, 114, 117, 101];  // true
    assert(spelling@ =~= literal_spelling(Literal::True));
    if bytes_eq(word, spelling.as_slice()) {
        return Some(TokenKind::Literal(Literal::True));
    }
    let spelling = [102u8, 97, 108, 115, 101];  // false
    assert(spelling@ =~= literal_spelling(Literal::False));
    if bytes_eq(word, spelling.as_slice()) {
        return Some(TokenKind::Literal(Literal::False));
    }
    let spelling = [110u8, 111, 116];  // not
    assert(spelling@ =~= operator_spelling(Operator::Not));
    if bytes_eq(word, spelling.as_slice()) {
        return Some(TokenKind::Operator(Operator::Not));
    }
    let spelling = [97u8, 110, 100];  // and
    assert(spelling@ =~= operator_spelling(Operator::And));
    if bytes_eq(word, spelling.as_slice()) {
        return Some(TokenKind::Operator(Operator::And));
    }
    let spelling = [111u8, 114];  // or
    assert(spelling@ =~= operator_spelling(Operator::Or));
    if bytes_eq(word, spelling.as_slice()) {
        return Some(TokenKind::Operator(Operator::Or));
    }
    None
}

} // verus!
