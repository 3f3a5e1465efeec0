use lua_tokens::{Source, Token, TokenType, TokenValue};

fn at(col: u32) -> Source {
    Source { line: 1, col }
}

fn token(t: TokenType, value: TokenValue) -> Token {
    Token { t, value, source: at(1) }
}

/// What a scanner does with an identifier-shaped lexeme.
fn word_token(word: &str, col: u32) -> Token {
    match TokenType::from_keyword(word) {
        Some(t) => Token { t, value: TokenValue::Empty, source: at(col) },
        None => Token { t: TokenType::Name, value: TokenValue::Str(word.to_string()), source: at(col) },
    }
}

#[test]
fn int_accessor_reads_the_payload() {
    let tok = token(TokenType::Int, TokenValue::Int(42));
    assert_eq!(tok.get_int(), 42);
    let neg = token(TokenType::Int, TokenValue::Int(i64::MIN));
    assert_eq!(neg.get_int(), i64::MIN);
}

#[test]
fn float_accessor_reads_the_payload() {
    let tok = token(TokenType::Flt, TokenValue::Float(3.5f64.to_bits()));
    assert_eq!(f64::from_bits(tok.get_float()), 3.5);
}

#[test]
fn string_accessor_copies_the_text() {
    let tok = token(TokenType::String, TokenValue::Str("hello".to_string()));
    assert_eq!(tok.get_string(), "hello");
    let empty = token(TokenType::Name, TokenValue::Str(String::new()));
    assert_eq!(empty.get_string(), "");
}

#[test]
fn comments_are_recognised() {
    assert!(token(TokenType::SComment, TokenValue::Empty).is_comment());
    assert!(token(TokenType::MComment, TokenValue::Empty).is_comment());
    let mut count = 0;
    for n in 0..=62u8 {
        if n != 55 && token(TokenType::decode(n), TokenValue::Empty).is_comment() {
            count += 1;
        }
    }
    assert_eq!(count, 2);
    assert!(!token(TokenType::Minus, TokenValue::Empty).is_comment());
    assert!(!token(TokenType::String, TokenValue::Str("--x".to_string())).is_comment());
}

#[test]
fn local_assignment_scenario() {
    let toks = vec![
        word_token("local", 1),
        word_token("x", 7),
        Token { t: TokenType::Assign, value: TokenValue::Empty, source: at(9) },
        Token { t: TokenType::Int, value: TokenValue::Int(1), source: at(11) },
        Token { t: TokenType::Eos, value: TokenValue::Empty, source: at(12) },
    ];
    let kinds: Vec<TokenType> = toks.iter().map(|t| t.t).collect();
    assert_eq!(
        kinds,
        vec![TokenType::Local, TokenType::Name, TokenType::Assign, TokenType::Int, TokenType::Eos]
    );
    assert_eq!(toks[0].value, TokenValue::Empty);
    assert_eq!(toks[1].value, TokenValue::Str("x".to_string()));
    assert_eq!(toks[1].get_string(), "x");
    assert_eq!(toks[2].value, TokenValue::Empty);
    assert_eq!(toks[3].get_int(), 1);
    assert_eq!(toks[4].value, TokenValue::Empty);
    assert!(toks.iter().all(|t| !t.is_comment()));
}

#[test]
fn goto_label_scenario() {
    let toks = vec![word_token("goto", 1), word_token("done", 6)];
    assert_eq!(toks[0].t, TokenType::Goto);
    assert_eq!(toks[0].value, TokenValue::Empty);
    assert_eq!(toks[1].t, TokenType::Name);
    assert_eq!(toks[1].value, TokenValue::Str("done".to_string()));
    assert_eq!(toks[1].source, Source { line: 1, col: 6 });
}
