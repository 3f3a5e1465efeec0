use lua_tokens::TokenType;

const WORDS: [(&str, TokenType); 22] = [
    ("and", TokenType::And),
    ("break", TokenType::Break),
    ("do", TokenType::Do),
    ("else", TokenType::Else),
    ("elseif", TokenType::ElseIf),
    ("end", TokenType::End),
    ("false", TokenType::False),
    ("for", TokenType::For),
    ("function", TokenType::Function),
    ("goto", TokenType::Goto),
    ("if", TokenType::If),
    ("in", TokenType::In),
    ("local", TokenType::Local),
    ("nil", TokenType::Nil),
    ("not", TokenType::Not),
    ("or", TokenType::Or),
    ("repeat", TokenType::Repeat),
    ("return", TokenType::Return),
    ("then", TokenType::Then),
    ("true", TokenType::True),
    ("until", TokenType::Until),
    ("while", TokenType::While),
];

#[test]
fn every_reserved_word_maps_to_its_category_and_back() {
    for (word, t) in WORDS.iter() {
        let found = TokenType::from_keyword(word);
        assert_eq!(found, Some(*t), "lookup of {}", word);
        assert_eq!(TokenType::to_keyword(*t), Some(word.to_string()));
    }
}

#[test]
fn near_misses_are_not_keywords() {
    for word in ["foo", "End", "End_", "forx", "", "AND", "els", "elseif ", " if", "whilee"] {
        assert_eq!(TokenType::from_keyword(word), None, "lookup of {:?}", word);
    }
}

#[test]
fn idiv_is_not_a_keyword_category() {
    assert_eq!(TokenType::to_keyword(TokenType::IDiv), None);
    assert_eq!(TokenType::from_keyword("//"), None);
}

#[test]
fn non_keyword_categories_have_no_spelling() {
    for t in [
        TokenType::Add,
        TokenType::Eq,
        TokenType::Name,
        TokenType::Eos,
        TokenType::String,
        TokenType::SComment,
        TokenType::MComment,
    ] {
        assert_eq!(TokenType::to_keyword(t), None);
    }
}

#[test]
fn exactly_twenty_two_categories_have_a_spelling() {
    let mut count = 0;
    for n in 0..=62u8 {
        if n == 55 {
            continue;
        }
        let t = TokenType::decode(n);
        if let Some(w) = TokenType::to_keyword(t) {
            count += 1;
            assert_eq!(TokenType::from_keyword(&w), Some(t));
        }
    }
    assert_eq!(count, 22);
}
