//! The reserved-word table: the two directions between reserved words and
//! their categories.
use vstd::prelude::*;

use crate::category::{lemma_ordinal_injective, ordinal, TokenType};

verus! {

/// The canonical spelling of a category, for the reserved-word categories.
pub open spec fn keyword(t: TokenType) -> Option<Seq<char>> {
    match t {
        TokenType::And => Some("and"@),
        TokenType::Break => Some("break"@),
        TokenType::Do => Some("do"@),
        TokenType::Else => Some("else"@),
        TokenType::ElseIf => Some("elseif"@),
        TokenType::End => Some("end"@),
        TokenType::False => Some("false"@),
        TokenType::For => Some("for"@),
        TokenType::Function => Some("function"@),
        TokenType::Goto => Some("goto"@),
        TokenType::If => Some("if"@),
        TokenType::In => Some("in"@),
        TokenType::Local => Some("local"@),
        TokenType::Nil => Some("nil"@),
        TokenType::Not => Some("not"@),
        TokenType::Or => Some("or"@),
        TokenType::Repeat => Some("repeat"@),
        TokenType::Return => Some("return"@),
        TokenType::Then => Some("then"@),
        TokenType::True => Some("true"@),
        TokenType::Until => Some("until"@),
        TokenType::While => Some("while"@),
        _ => None,
    }
}

/// The fixed set of reserved words of the language.
pub open spec fn is_reserved(w: Seq<char>) -> bool {
    w == "and"@
        || w == "break"@
        || w == "do"@
        || w == "else"@
        || w == "elseif"@
        || w == "end"@
        || w == "false"@
        || w == "for"@
        || w == "function"@
        || w == "goto"@
        || w == "if"@
        || w == "in"@
        || w == "local"@
        || w == "nil"@
        || w == "not"@
        || w == "or"@
        || w == "repeat"@
        || w == "return"@
        || w == "then"@
        || w == "true"@
        || w == "until"@
        || w == "while"@
}

/// Ordinal of the last reserved-word category in declaration order.
pub const LAST_KEYWORD_ORDINAL: u8 = 22;

/// The reserved-word categories: the first categories in declaration order,
/// all but the integer-division operator that stands among them.
pub open spec fn is_keyword(t: TokenType) -> bool {
    ordinal(t) <= LAST_KEYWORD_ORDINAL && t != TokenType::IDiv
}

/// Every reserved word is the spelling of some category, and of only one.
pub proof fn lemma_keyword_bijection(w: Seq<char>)
    requires
        is_reserved(w),
    ensures
        exists|c: TokenType| keyword(c) == Some(w),
        forall|a: TokenType, b: TokenType|
            keyword(a) == Some(w) && keyword(b) == Some(w) ==> a == b,
{
    if w == "and"@ {
        assert(keyword(TokenType::And) == Some(w));
    } else if w == "break"@ {
        assert(keyword(TokenType::Break) == Some(w));
    } else if w == "do"@ {
        assert(keyword(TokenType::Do) == Some(w));
    } else if w == "else"@ {
        assert(keyword(TokenType::Else) == Some(w));
    } else if w == "elseif"@ {
        assert(keyword(TokenType::ElseIf) == Some(w));
    } else if w == "end"@ {
        assert(keyword(TokenType::End) == Some(w));
    } else if w == "false"@ {
        assert(keyword(TokenType::False) == Some(w));
    } else if w == "for"@ {
        assert(keyword(TokenType::For) == Some(w));
    } else if w == "function"@ {
        assert(keyword(TokenType::Function) == Some(w));
    } else if w == "goto"@ {
        assert(keyword(TokenType::Goto) == Some(w));
    } else if w == "if"@ {
        assert(keyword(TokenType::If) == Some(w));
    } else if w == "in"@ {
        assert(keyword(TokenType::In) == Some(w));
    } else if w == "local"@ {
        assert(keyword(TokenType::Local) == Some(w));
    } else if w == "nil"@ {
        assert(keyword(TokenType::Nil) == Some(w));
    } else if w == "not"@ {
        assert(keyword(TokenType::Not) == Some(w));
    } else if w == "or"@ {
        assert(keyword(TokenType::Or) == Some(w));
    } else if w == "repeat"@ {
        assert(keyword(TokenType::Repeat) == Some(w));
    } else if w == "return"@ {
        assert(keyword(TokenType::Return) == Some(w));
    } else if w == "then"@ {
        assert(keyword(TokenType::Then) == Some(w));
    } else if w == "true"@ {
        assert(keyword(TokenType::True) == Some(w));
    } else if w == "until"@ {
        assert(keyword(TokenType::Until) == Some(w));
    } else if w == "while"@ {
        assert(keyword(TokenType::While) == Some(w));
    }
    assert forall|a: TokenType, b: TokenType|
        keyword(a) == Some(w) && keyword(b) == Some(w) implies a == b by {
        lemma_keyword_injective(a, b);
    }
}

/// No two categories share a spelling.
pub proof fn lemma_keyword_injective(a: TokenType, b: TokenType)
    requires
        keyword(a) is Some,
        keyword(a) == keyword(b),
    ensures
        a == b,
{
    reveal_strlit("and");
    reveal_strlit("break");
    reveal_strlit("do");
    reveal_strlit("else");
    reveal_strlit("elseif");
    reveal_strlit("end");
    reveal_strlit("false");
    reveal_strlit("for");
    reveal_strlit("function");
    reveal_strlit("goto");
    reveal_strlit("if");
    reveal_strlit("in");
    reveal_strlit("local");
    reveal_strlit("nil");
    reveal_strlit("not");
    reveal_strlit("or");
    reveal_strlit("repeat");
    reveal_strlit("return");
    reveal_strlit("then");
    reveal_strlit("true");
    reveal_strlit("until");
    reveal_strlit("while");
    // The reserved words differ in length, first or last character.
    let wa = keyword(a)->Some_0;
    let wb = keyword(b)->Some_0;
    assert(wa.len() == wb.len());
    assert(wa[0] == wb[0]);
    assert(wa[wa.len() - 1] == wb[wb.len() - 1]);
}

/// Text outside the reserved set is the spelling of no category.
pub proof fn lemma_unreserved_has_no_category(w: Seq<char>)
    requires
        !is_reserved(w),
    ensures
        forall|c: TokenType| keyword(c) != Some(w),
{
}

/// Exactly the reserved-word categories have a spelling, and each spelling
/// is a reserved word.
pub proof fn lemma_keyword_categories(c: TokenType)
    ensures
        keyword(c) is Some <==> is_keyword(c),
        keyword(c) matches Some(w) ==> is_reserved(w),
{
}

impl TokenType {
    /// The category of a reserved word; `None` for any other text. The
    /// lookup is exact and case-sensitive.
    pub fn from_keyword(word: &str) -> (r: Option<TokenType>)
        ensures
            r matches Some(t) ==> keyword(t) == Some(word@),
            r is None <==> forall|t: TokenType| keyword(t) != Some(word@),
    {
        let w = word.to_owned();
        let mut n: u8 = 0;
        // Each reserved-word category is looked up through its own spelling, so
        // the two directions of the table cannot drift apart.
        while n <= LAST_KEYWORD_ORDINAL
            invariant
                w@ == word@,
                forall|t: TokenType| ordinal(t) < n ==> keyword(t) != Some(word@),
            decreases LAST_KEYWORD_ORDINAL + 1 - n,
        {
            let t = TokenType::decode(n);
            let found = TokenType::to_keyword(t);
            if let Some(s) = found {
                if s == w {
                    return Some(t);
                }
            }
            proof {
                assert forall|c: TokenType| ordinal(c) < n + 1 implies keyword(c) != Some(word@) by {
                    if ordinal(c) == n {
                        lemma_ordinal_injective(c, t);
                    }
                }
            }
            n = n + 1;
        }
        proof {
            assert forall|t: TokenType| keyword(t) != Some(word@) by {
                if keyword(t) is Some {
                    assert(ordinal(t) <= LAST_KEYWORD_ORDINAL);
                }
            }
        }
        None
    }

    /// The canonical spelling of a reserved-word category; `None` for every
    /// other category.
    pub fn to_keyword(t: TokenType) -> (r: Option<String>)
        ensures
            r matches Some(s) ==> keyword(t) == Some(s@),
            r is None <==> keyword(t) is None,
    {
        match t {
            TokenType::And => Some(String::from_str("and")),
            TokenType::Break => Some(String::from_str("break")),
            TokenType::Do => Some(String::from_str("do")),
            TokenType::Else => Some(String::from_str("else")),
            TokenType::ElseIf => Some(String::from_str("elseif")),
            TokenType::End => Some(String::from_str("end")),
            TokenType::False => Some(String::from_str("false")),
            TokenType::For => Some(String::from_str("for")),
            TokenType::Function => Some(String::from_str("function")),
            TokenType::Goto => Some(String::from_str("goto")),
            TokenType::If => Some(String::from_str("if")),
            TokenType::In => Some(String::from_str("in")),
            TokenType::Local => Some(String::from_str("local")),
            TokenType::Nil => Some(String::from_str("nil")),
            TokenType::Not => Some(String::from_str("not")),
            TokenType::Or => Some(String::from_str("or")),
            TokenType::Repeat => Some(String::from_str("repeat")),
            TokenType::Return => Some(String::from_str("return")),
            TokenType::Then => Some(String::from_str("then")),
            TokenType::True => Some(String::from_str("true")),
            TokenType::Until => Some(String::from_str("until")),
            TokenType::While => Some(String::from_str("while")),
            _ => None,
        }
    }
}

} // verus!
