//! Token categories and their ordinal encoding.
use vstd::prelude::*;

verus! {

/// Every lexical kind the scanner can produce, in declaration order.
///
/// The declaration order fixes the ordinal of each category (see
/// [`ordinal`]): reserved words first, then operators and punctuation, then
/// literal and structural categories.
#[derive(Debug, Clone, Copy, PartialEq, Eq, PartialOrd, Structural)]
pub enum TokenType {
    And,
    Break,
    Do,
    Else,
    ElseIf,
    End,
    False,
    For,
    Function,
    Goto,
    /// `//`
    IDiv,
    If,
    In,
    Local,
    Nil,
    Not,
    Or,
    Repeat,
    Return,
    Then,
    True,
    Until,
    While,
    /// `..`
    Concat,
    /// `...`
    Dots,
    /// `==`
    Eq,
    /// `>=`
    Ge,
    /// `<=`
    Le,
    /// `~=`
    Ne,
    /// `<<`
    Shl,
    /// `>>`
    Shr,
    /// `::`
    DbColon,
    /// End of the token stream.
    Eos,
    /// Floating-point literal.
    Flt,
    /// Integer literal.
    Int,
    /// Identifier.
    Name,
    /// String literal.
    String,
    /// `(`
    Lp,
    /// `)`
    Rp,
    /// `[`
    Ls,
    /// `]`
    Rs,
    /// `{`
    Lb,
    /// `}`
    Rb,
    /// `+`
    Add,
    /// `-`
    Minus,
    /// `*`
    Mul,
    /// `/`
    Div,
    /// `%`
    Mod,
    /// `^`
    Pow,
    /// `#`
    Len,
    /// `=`
    Assign,
    /// `<`
    Lt,
    /// `>`
    Gt,
    /// `&`
    BAnd,
    /// `|`
    BOr,
    /// `~`
    BXor,
    /// `:`
    Colon,
    /// `,`
    Comma,
    /// `;`
    Semi,
    /// `.`
    Attr,
    /// Single-line comment.
    SComment,
    /// Multi-line comment.
    MComment,
}

/// Largest ordinal in use.
pub const MAX_ORDINAL: u8 = 62;

/// The one ordinal below [`MAX_ORDINAL`] that no category carries.
pub const RESERVED_ORDINAL: u8 = 55;

/// The stable small-integer code of a category.
pub open spec fn ordinal(t: TokenType) -> nat {
    match t {
        TokenType::And => 0,
        TokenType::Break => 1,
        TokenType::Do => 2,
        TokenType::Else => 3,
        TokenType::ElseIf => 4,
        TokenType::End => 5,
        TokenType::False => 6,
        TokenType::For => 7,
        TokenType::Function => 8,
        TokenType::Goto => 9,
        TokenType::IDiv => 10,
        TokenType::If => 11,
        TokenType::In => 12,
        TokenType::Local => 13,
        TokenType::Nil => 14,
        TokenType::Not => 15,
        TokenType::Or => 16,
        TokenType::Repeat => 17,
        TokenType::Return => 18,
        TokenType::Then => 19,
        TokenType::True => 20,
        TokenType::Until => 21,
        TokenType::While => 22,
        TokenType::Concat => 23,
        TokenType::Dots => 24,
        TokenType::Eq => 25,
        TokenType::Ge => 26,
        TokenType::Le => 27,
        TokenType::Ne => 28,
        TokenType::Shl => 29,
        TokenType::Shr => 30,
        TokenType::DbColon => 31,
        TokenType::Eos => 32,
        TokenType::Flt => 33,
        TokenType::Int => 34,
        TokenType::Name => 35,
        TokenType::String => 36,
        TokenType::Lp => 37,
        TokenType::Rp => 38,
        TokenType::Ls => 39,
        TokenType::Rs => 40,
        TokenType::Lb => 41,
        TokenType::Rb => 42,
        TokenType::Add => 43,
        TokenType::Minus => 44,
        TokenType::Mul => 45,
        TokenType::Div => 46,
        TokenType::Mod => 47,
        TokenType::Pow => 48,
        TokenType::Len => 49,
        TokenType::Assign => 50,
        TokenType::Lt => 51,
        TokenType::Gt => 52,
        TokenType::BAnd => 53,
        TokenType::BOr => 54,
        TokenType::BXor => 56,
        TokenType::Colon => 57,
        TokenType::Comma => 58,
        TokenType::Semi => 59,
        TokenType::Attr => 60,
        TokenType::SComment => 61,
        TokenType::MComment => 62,
    }
}

/// Whether some category carries the ordinal `n`.
pub open spec fn is_assigned(n: int) -> bool {
    0 <= n <= MAX_ORDINAL && n != RESERVED_ORDINAL
}

/// The category that `decode` yields for `n`: the one whose ordinal is `n`,
/// or `Add` where no category has that ordinal.
pub open spec fn decoded(n: u8) -> TokenType {
    if is_assigned(n as int) {
        choose|t: TokenType| ordinal(t) == n
    } else {
        TokenType::Add
    }
}

/// No two categories share an ordinal.
pub proof fn lemma_ordinal_injective(a: TokenType, b: TokenType)
    ensures
        ordinal(a) == ordinal(b) ==> a == b,
{
}

/// Decoding the ordinal of a category gives that category back.
pub proof fn lemma_ordinal_round_trip(c: TokenType)
    ensures
        is_assigned(ordinal(c) as int),
        decoded(ordinal(c) as u8) == c,
{
    let t = choose|t: TokenType| ordinal(t) == ordinal(c) as u8;
    lemma_ordinal_injective(t, c);
}

/// Every assigned ordinal is the ordinal of the category it decodes to.
pub proof fn lemma_assigned_round_trip(n: u8)
    requires
        is_assigned(n as int),
    ensures
        ordinal(decoded(n)) == n,
{
    if n == 0 {
        assert(ordinal(TokenType::And) == n);
    } else if n == 1 {
        assert(ordinal(TokenType::Break) == n);
    } else if n == 2 {
        assert(ordinal(TokenType::Do) == n);
    } else if n == 3 {
        assert(ordinal(TokenType::Else) == n);
    } else if n == 4 {
        assert(ordinal(TokenType::ElseIf) == n);
    } else if n == 5 {
        assert(ordinal(TokenType::End) == n);
    } else if n == 6 {
        assert(ordinal(TokenType::False) == n);
    } else if n == 7 {
        assert(ordinal(TokenType::For) == n);
    } else if n == 8 {
        assert(ordinal(TokenType::Function) == n);
    } else if n == 9 {
        assert(ordinal(TokenType::Goto) == n);
    } else if n == 10 {
        assert(ordinal(TokenType::IDiv) == n);
    } else if n == 11 {
        assert(ordinal(TokenType::If) == n);
    } else if n == 12 {
        assert(ordinal(TokenType::In) == n);
    } else if n == 13 {
        assert(ordinal(TokenType::Local) == n);
    } else if n == 14 {
        assert(ordinal(TokenType::Nil) == n);
    } else if n == 15 {
        assert(ordinal(TokenType::Not) == n);
    } else if n == 16 {
        assert(ordinal(TokenType::Or) == n);
    } else if n == 17 {
        assert(ordinal(TokenType::Repeat) == n);
    } else if n == 18 {
        assert(ordinal(TokenType::Return) == n);
    } else if n == 19 {
        assert(ordinal(TokenType::Then) == n);
    } else if n == 20 {
        assert(ordinal(TokenType::True) == n);
    } else if n == 21 {
        assert(ordinal(TokenType::Until) == n);
    } else if n == 22 {
        assert(ordinal(TokenType::While) == n);
    } else if n == 23 {
        assert(ordinal(TokenType::Concat) == n);
    } else if n == 24 {
        assert(ordinal(TokenType::Dots) == n);
    } else if n == 25 {
        assert(ordinal(TokenType::Eq) == n);
    } else if n == 26 {
        assert(ordinal(TokenType::Ge) == n);
    } else if n == 27 {
        assert(ordinal(TokenType::Le) == n);
    } else if n == 28 {
        assert(ordinal(TokenType::Ne) == n);
    } else if n == 29 {
        assert(ordinal(TokenType::Shl) == n);
    } else if n == 30 {
        assert(ordinal(TokenType::Shr) == n);
    } else if n == 31 {
        assert(ordinal(TokenType::DbColon) == n);
    } else if n == 32 {
        assert(ordinal(TokenType::Eos) == n);
    } else if n == 33 {
        assert(ordinal(TokenType::Flt) == n);
    } else if n == 34 {
        assert(ordinal(TokenType::Int) == n);
    } else if n == 35 {
        assert(ordinal(TokenType::Name) == n);
    } else if n == 36 {
        assert(ordinal(TokenType::String) == n);
    } else if n == 37 {
        assert(ordinal(TokenType::Lp) == n);
    } else if n == 38 {
        assert(ordinal(TokenType::Rp) == n);
    } else if n == 39 {
        assert(ordinal(TokenType::Ls) == n);
    } else if n == 40 {
        assert(ordinal(TokenType::Rs) == n);
    } else if n == 41 {
        assert(ordinal(TokenType::Lb) == n);
    } else if n == 42 {
        assert(ordinal(TokenType::Rb) == n);
    } else if n == 43 {
        assert(ordinal(TokenType::Add) == n);
    } else if n == 44 {
        assert(ordinal(TokenType::Minus) == n);
    } else if n == 45 {
        assert(ordinal(TokenType::Mul) == n);
    } else if n == 46 {
        assert(ordinal(TokenType::Div) == n);
    } else if n == 47 {
        assert(ordinal(TokenType::Mod) == n);
    } else if n == 48 {
        assert(ordinal(TokenType::Pow) == n);
    } else if n == 49 {
        assert(ordinal(TokenType::Len) == n);
    } else if n == 50 {
        assert(ordinal(TokenType::Assign) == n);
    } else if n == 51 {
        assert(ordinal(TokenType::Lt) == n);
    } else if n == 52 {
        assert(ordinal(TokenType::Gt) == n);
    } else if n == 53 {
        assert(ordinal(TokenType::BAnd) == n);
    } else if n == 54 {
        assert(ordinal(TokenType::BOr) == n);
    } else if n == 56 {
        assert(ordinal(TokenType::BXor) == n);
    } else if n == 57 {
        assert(ordinal(TokenType::Colon) == n);
    } else if n == 58 {
        assert(ordinal(TokenType::Comma) == n);
    } else if n == 59 {
        assert(ordinal(TokenType::Semi) == n);
    } else if n == 60 {
        assert(ordinal(TokenType::Attr) == n);
    } else if n == 61 {
        assert(ordinal(TokenType::SComment) == n);
    } else if n == 62 {
        assert(ordinal(TokenType::MComment) == n);
    }
}

impl TokenType {
    /// The ordinal of this category.
    pub fn encode(self) -> (r: u8)
        ensures
            r == ordinal(self),
    {
        match self {
            TokenType::And => 0,
            TokenType::Break => 1,
            TokenType::Do => 2,
            TokenType::Else => 3,
            TokenType::ElseIf => 4,
            TokenType::End => 5,
            TokenType::False => 6,
            TokenType::For => 7,
            TokenType::Function => 8,
            TokenType::Goto => 9,
            TokenType::IDiv => 10,
            TokenType::If => 11,
            TokenType::In => 12,
            TokenType::Local => 13,
            TokenType::Nil => 14,
            TokenType::Not => 15,
            TokenType::Or => 16,
            TokenType::Repeat => 17,
            TokenType::Return => 18,
            TokenType::Then => 19,
            TokenType::True => 20,
            TokenType::Until => 21,
            TokenType::While => 22,
            TokenType::Concat => 23,
            TokenType::Dots => 24,
            TokenType::Eq => 25,
            TokenType::Ge => 26,
            TokenType::Le => 27,
            TokenType::Ne => 28,
            TokenType::Shl => 29,
            TokenType::Shr => 30,
            TokenType::DbColon => 31,
            TokenType::Eos => 32,
            TokenType::Flt => 33,
            TokenType::Int => 34,
            TokenType::Name => 35,
            TokenType::String => 36,
            TokenType::Lp => 37,
            TokenType::Rp => 38,
            TokenType::Ls => 39,
            TokenType::Rs => 40,
            TokenType::Lb => 41,
            TokenType::Rb => 42,
            TokenType::Add => 43,
            TokenType::Minus => 44,
            TokenType::Mul => 45,
            TokenType::Div => 46,
            TokenType::Mod => 47,
            TokenType::Pow => 48,
            TokenType::Len => 49,
            TokenType::Assign => 50,
            TokenType::Lt => 51,
            TokenType::Gt => 52,
            TokenType::BAnd => 53,
            TokenType::BOr => 54,
            TokenType::BXor => 56,
            TokenType::Colon => 57,
            TokenType::Comma => 58,
            TokenType::Semi => 59,
            TokenType::Attr => 60,
            TokenType::SComment => 61,
            TokenType::MComment => 62,
        }
    }

    /// The category with ordinal `n`; `Add` for an ordinal that no category
    /// carries (the reserved slot or anything above [`MAX_ORDINAL`]).
    pub fn decode(n: u8) -> (r: TokenType)
        ensures
            r == decoded(n),
            is_assigned(n as int) ==> ordinal(r) == n,
    {
        let r = match n {
            0 => TokenType::And,
            1 => TokenType::Break,
            2 => TokenType::Do,
            3 => TokenType::Else,
            4 => TokenType::ElseIf,
            5 => TokenType::End,
            6 => TokenType::False,
            7 => TokenType::For,
            8 => TokenType::Function,
            9 => TokenType::Goto,
            10 => TokenType::IDiv,
            11 => TokenType::If,
            12 => TokenType::In,
            13 => TokenType::Local,
            14 => TokenType::Nil,
            15 => TokenType::Not,
            16 => TokenType::Or,
            17 => TokenType::Repeat,
            18 => TokenType::Return,
            19 => TokenType::Then,
            20 => TokenType::True,
            21 => TokenType::Until,
            22 => TokenType::While,
            23 => TokenType::Concat,
            24 => TokenType::Dots,
            25 => TokenType::Eq,
            26 => TokenType::Ge,
            27 => TokenType::Le,
            28 => TokenType::Ne,
            29 => TokenType::Shl,
            30 => TokenType::Shr,
            31 => TokenType::DbColon,
            32 => TokenType::Eos,
            33 => TokenType::Flt,
            34 => TokenType::Int,
            35 => TokenType::Name,
            36 => TokenType::String,
            37 => TokenType::Lp,
            38 => TokenType::Rp,
            39 => TokenType::Ls,
            40 => TokenType::Rs,
            41 => TokenType::Lb,
            42 => TokenType::Rb,
            43 => TokenType::Add,
            44 => TokenType::Minus,
            45 => TokenType::Mul,
            46 => TokenType::Div,
            47 => TokenType::Mod,
            48 => TokenType::Pow,
            49 => TokenType::Len,
            50 => TokenType::Assign,
            51 => TokenType::Lt,
            52 => TokenType::Gt,
            53 => TokenType::BAnd,
            54 => TokenType::BOr,
            56 => TokenType::BXor,
            57 => TokenType::Colon,
            58 => TokenType::Comma,
            59 => TokenType::Semi,
            60 => TokenType::Attr,
            61 => TokenType::SComment,
            62 => TokenType::MComment,
            _ => TokenType::Add,
        };
        proof {
            if is_assigned(n as int) {
                assert(ordinal(r) == n);
                let t = choose|t: TokenType| ordinal(t) == n;
                lemma_ordinal_injective(r, t);
            }
        }
        r
    }
}

impl From<u8> for TokenType {
    fn from(n: u8) -> (r: TokenType) {
        TokenType::decode(n)
    }
}

impl vstd::std_specs::convert::FromSpecImpl<u8> for TokenType {
    open spec fn obeys_from_spec() -> bool {
        true
    }

    open spec fn from_spec(n: u8) -> TokenType {
        decoded(n)
    }
}

} // verus!
