use word_lexer::chars::IsWord;
use word_lexer::cursor::{Cursor, SourcePos};
use word_lexer::interner::SymbolInterner;
use word_lexer::table::reserved;
use word_lexer::token::{Keyword, Literal, Operator, Token, TokenKind};
use word_lexer::word::{lex_word, Root, State, Transition, Word};

fn lex_alone(src: &[u8], interner: &mut SymbolInterner) -> Token {
    let mut cursor = Cursor::new(src);
    let token = lex_word(&mut cursor, interner);
    assert_eq!(cursor.offset(), src.len());
    assert_eq!(cursor.peek(), None);
    token
}

fn kind_alone(src: &[u8]) -> TokenKind {
    let mut interner = SymbolInterner::new();
    lex_alone(src, &mut interner).kind
}

fn is_identifier(kind: TokenKind) -> bool {
    matches!(kind, TokenKind::Identifier(_))
}

#[test]
fn let_is_keyword_at_offset_zero() {
    let mut interner = SymbolInterner::new();
    let token = lex_alone(b"let", &mut interner);
    assert_eq!(token.kind, TokenKind::Keyword(Keyword::Let));
    assert_eq!(token.pos, SourcePos { offset: 0, line: 1, column: 1 });
    assert_eq!(interner.len(), 0);
}

#[test]
fn self_is_keyword() {
    assert_eq!(kind_alone(b"self"), TokenKind::Keyword(Keyword::Self_));
}

#[test]
fn not_is_operator() {
    assert_eq!(kind_alone(b"not"), TokenKind::Operator(Operator::Not));
}

#[test]
fn nil_is_literal() {
    assert_eq!(kind_alone(b"nil"), TokenKind::Literal(Literal::Nil));
}

#[test]
fn identifier_lexed_twice_has_same_handle() {
    let mut interner = SymbolInterner::new();
    let first = lex_alone(b"foo_bar2", &mut interner);
    let second = lex_alone(b"foo_bar2", &mut interner);
    assert!(is_identifier(first.kind));
    assert_eq!(first.kind, second.kind);
    assert_eq!(interner.len(), 1);
}

#[test]
fn digit_suffix_makes_one_identifier() {
    let mut interner = SymbolInterner::new();
    let src: &[u8] = b"and1";
    let mut cursor = Cursor::new(src);
    let token = lex_word(&mut cursor, &mut interner);
    assert!(is_identifier(token.kind));
    assert_eq!(cursor.offset(), 4);
    assert_eq!(interner.len(), 1);
}

#[test]
fn reserved_words_are_case_sensitive() {
    for word in [&b"End"[..], &b"IF"[..], &b"Self"[..], &b"NIL"[..], &b"Not"[..]] {
        assert!(is_identifier(kind_alone(word)));
    }
}

#[test]
fn boundary_byte_is_left_unconsumed() {
    let mut interner = SymbolInterner::new();
    let src: &[u8] = b"end)";
    let mut cursor = Cursor::new(src);
    let token = lex_word(&mut cursor, &mut interner);
    assert_eq!(token.kind, TokenKind::Keyword(Keyword::End));
    assert_eq!(cursor.offset(), 3);
    assert_eq!(cursor.peek(), Some(b')'));
}

#[test]
fn run_stops_at_space() {
    let mut interner = SymbolInterner::new();
    let src: &[u8] = b"while x";
    let mut cursor = Cursor::new(src);
    let token = lex_word(&mut cursor, &mut interner);
    assert_eq!(token.kind, TokenKind::Keyword(Keyword::While));
    assert_eq!(cursor.offset(), 5);
    assert_eq!(cursor.peek(), Some(b' '));
}

#[test]
fn every_reserved_word_has_its_tag() {
    let keywords: [(&[u8], Keyword); 13] = [
        (b"let", Keyword::Let),
        (b"if", Keyword::If),
        (b"then", Keyword::Then),
        (b"else", Keyword::Else),
        (b"end", Keyword::End),
        (b"for", Keyword::For),
        (b"in", Keyword::In),
        (b"do", Keyword::Do),
        (b"while", Keyword::While),
        (b"function", Keyword::Function),
        (b"return", Keyword::Return),
        (b"break", Keyword::Break),
        (b"self", Keyword::Self_),
    ];
    for (word, keyword) in keywords {
        assert_eq!(kind_alone(word), TokenKind::Keyword(keyword));
    }
    let literals: [(&[u8], Literal); 3] =
        [(b"nil", Literal::Nil), (b"true", Literal::True), (b"false", Literal::False)];
    for (word, literal) in literals {
        assert_eq!(kind_alone(word), TokenKind::Literal(literal));
    }
    let operators: [(&[u8], Operator); 3] =
        [(b"not", Operator::Not), (b"and", Operator::And), (b"or", Operator::Or)];
    for (word, operator) in operators {
        assert_eq!(kind_alone(word), TokenKind::Operator(operator));
    }
}

#[test]
fn identifiers_span_whole_input() {
    for word in [&b"x"[..], &b"_"[..], &b"_tmp9"[..], &b"lets"[..], &b"iff"[..], &b"ender"[..]] {
        let mut interner = SymbolInterner::new();
        let token = lex_alone(word, &mut interner);
        assert!(is_identifier(token.kind));
        assert_eq!(interner.len(), 1);
    }
}

#[test]
fn repeated_word_in_one_source_keeps_handle() {
    let mut interner = SymbolInterner::new();
    let src: &[u8] = b"foo+bar+foo";
    let mut cursor = Cursor::new(src);
    let first = lex_word(&mut cursor, &mut interner);
    cursor.advance();
    let middle = lex_word(&mut cursor, &mut interner);
    cursor.advance();
    let last = lex_word(&mut cursor, &mut interner);
    assert_eq!(first.kind, last.kind);
    assert_ne!(first.kind, middle.kind);
    assert_eq!(last.pos, SourcePos { offset: 8, line: 1, column: 9 });
    assert_eq!(interner.len(), 2);
}

#[test]
fn positions_follow_lines() {
    let mut interner = SymbolInterner::new();
    let src: &[u8] = b"if\n  then";
    let mut cursor = Cursor::new(src);
    let first = lex_word(&mut cursor, &mut interner);
    assert_eq!(first.pos, SourcePos { offset: 0, line: 1, column: 1 });
    cursor.advance();
    cursor.advance();
    cursor.advance();
    let second = lex_word(&mut cursor, &mut interner);
    assert_eq!(second.kind, TokenKind::Keyword(Keyword::Then));
    assert_eq!(second.pos, SourcePos { offset: 5, line: 2, column: 3 });
}

#[test]
fn visit_steps_on_word_byte_and_resumes_on_boundary() {
    let mut interner = SymbolInterner::new();
    let src: &[u8] = b"or;";
    let mut cursor = Cursor::new(src);
    let word = Word::at(&cursor);
    assert_eq!(word.visit(&cursor, &mut interner), Transition::Step(State::Word(word)));
    cursor.advance();
    assert_eq!(word.visit(&cursor, &mut interner), Transition::Step(State::Word(word)));
    cursor.advance();
    let expected = Token {
        kind: TokenKind::Operator(Operator::Or),
        pos: SourcePos { offset: 0, line: 1, column: 1 },
    };
    assert_eq!(word.visit(&cursor, &mut interner), Transition::Resume(State::Root(Root), expected));
    assert_eq!(cursor.offset(), 2);
}

#[test]
fn visit_at_end_of_input_produces() {
    let mut interner = SymbolInterner::new();
    let src: &[u8] = b"ab";
    let mut cursor = Cursor::new(src);
    let word = Word::at(&cursor);
    cursor.advance();
    cursor.advance();
    match word.visit(&cursor, &mut interner) {
        Transition::Resume(State::Root(Root), token) => assert!(is_identifier(token.kind)),
        other => panic!("unexpected transition {:?}", other),
    }
    assert_eq!(interner.len(), 1);
}

#[test]
fn to_token_classifies_slices() {
    let mut interner = SymbolInterner::new();
    assert_eq!(Word::to_token(b"true", &mut interner), TokenKind::Literal(Literal::True));
    assert_eq!(Word::to_token(b"function", &mut interner), TokenKind::Keyword(Keyword::Function));
    let a = Word::to_token(b"total", &mut interner);
    let b = Word::to_token(b"total", &mut interner);
    let c = Word::to_token(b"totals", &mut interner);
    assert_eq!(a, b);
    assert_ne!(a, c);
    assert_eq!(interner.len(), 2);
}

#[test]
fn reserved_lookup() {
    assert_eq!(reserved(b"break"), Some(TokenKind::Keyword(Keyword::Break)));
    assert_eq!(reserved(b"false"), Some(TokenKind::Literal(Literal::False)));
    assert_eq!(reserved(b"and"), Some(TokenKind::Operator(Operator::And)));
    assert_eq!(reserved(b"breaks"), None);
    assert_eq!(reserved(b""), None);
}

#[test]
fn word_predicates() {
    assert!(b'a'.is_word_start());
    assert!(b'Z'.is_word_start());
    assert!(b'_'.is_word_start());
    assert!(!b'7'.is_word_start());
    assert!(b'7'.is_word());
    assert!(b'_'.is_word());
    assert!(!b'-'.is_word());
    assert!(!b' '.is_word());
    assert!(!0xC3u8.is_word());
}

#[test]
fn interner_deduplicates() {
    let mut interner = SymbolInterner::new();
    let a = interner.get_or_intern(b"alpha");
    let b = interner.get_or_intern(b"beta");
    let again = interner.get_or_intern(b"alpha");
    assert_eq!(a, again);
    assert_ne!(a, b);
    assert_eq!(interner.len(), 2);
}

#[test]
fn word_converts_into_state() {
    let src: &[u8] = b"q";
    let cursor = Cursor::new(src);
    let word = Word::at(&cursor);
    assert_eq!(State::from(word), State::Word(word));
}
