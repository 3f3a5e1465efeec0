//! Lexical-token model for a small Lua-like scripting language: the closed set
//! of token categories, the literal payloads a token may carry, the reserved
//! word table and a stable ordinal encoding of categories.
pub mod category;
pub mod keyword;
pub mod token;

pub use category::TokenType;
pub use token::{Source, Token, TokenValue};
