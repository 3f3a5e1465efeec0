//! Tokens: a category, the literal payload it carries, and where it came from.
use vstd::prelude::*;

use crate::category::TokenType;

verus! {

/// Position of a token in the text it was scanned from, kept for diagnostics.
#[derive(Debug, Clone, Copy, PartialEq, Eq, Structural)]
pub struct Source {
    pub line: u32,
    pub col: u32,
}

/// The literal payload of a token.
///
/// A scanner pairs `Int` tokens with `Int`, `Flt` tokens with `Float`,
/// `Name` and `String` tokens with `Str`, and every other category with
/// `Empty`.
#[derive(Debug, PartialEq)]
pub enum TokenValue {
    /// No payload.
    Empty,
    /// A floating-point literal, held as its IEEE 754 binary64 bit pattern.
    Float(u64),
    Int(i64),
    /// The text of a string literal or of an identifier.
    Str(String),
}

/// The unit passed from scanner to parser.
#[derive(Debug, PartialEq)]
pub struct Token {
    pub t: TokenType,
    pub value: TokenValue,
    pub source: Source,
}

impl Token {
    /// The bit pattern of a floating-point literal's value. The caller has
    /// already dispatched on the category: the payload must be `Float`.
    pub fn get_float(&self) -> (r: u64)
        requires
            self.value is Float,
        ensures
            r == self.value->Float_0,
    {
        match self.value {
            TokenValue::Float(f) => f,
            _ => unreached(),
        }
    }

    /// The value of an integer literal; the payload must be `Int`.
    pub fn get_int(&self) -> (r: i64)
        requires
            self.value is Int,
        ensures
            r == self.value->Int_0,
    {
        match self.value {
            TokenValue::Int(i) => i,
            _ => unreached(),
        }
    }

    /// A copy of the text of a name or string literal; the payload must be
    /// `Str`.
    pub fn get_string(&self) -> (r: String)
        requires
            self.value is Str,
        ensures
            r@ == self.value->Str_0@,
    {
        match &self.value {
            TokenValue::Str(s) => s.clone(),
            _ => unreached(),
        }
    }

    /// Whether the token is a comment, which carries no meaning for the
    /// parser.
    pub fn is_comment(&self) -> (r: bool)
        ensures
            r == (self.t == TokenType::SComment || self.t == TokenType::MComment),
    {
        self.t == TokenType::SComment || self.t == TokenType::MComment
    }
}

} // verus!
