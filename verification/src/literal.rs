//! Evaluation of single C literal tokens (through `cexpr`) and lossy UTF-8 decoding.
use cexpr::expr::EvalResult;
use cexpr::literal::CChar;
use vstd::prelude::*;
use vstd::utf8::{decode_utf8, valid_utf8};

verus! {

/// A character literal's value.
#[derive(Debug, PartialEq, Eq, Structural, Clone, Copy)]
pub enum LiteralChar {
    /// A character that is a Rust `char`.
    Char(char),
    /// Any other value (8-bit characters, surrogates, ...).
    Raw(u64),
}

/// The value of a C literal token.
#[derive(Debug)]
pub enum LiteralValue {
    Int(i64),
    /// A floating-point literal, kept as the decimal text of its `f64` value.
    Float(String),
    Char(LiteralChar),
    Str(Vec<u8>),
    Invalid,
}

/// The mathematical value of a [`LiteralValue`].
pub enum LiteralInfo {
    Int(i64),
    Float(Seq<char>),
    Char(LiteralChar),
    Str(Seq<u8>),
    Invalid,
}

impl View for LiteralValue {
    type V = LiteralInfo;

    open spec fn view(&self) -> LiteralInfo {
        match self {
            LiteralValue::Int(i) => LiteralInfo::Int(*i),
            LiteralValue::Float(f) => LiteralInfo::Float(f@),
            LiteralValue::Char(c) => LiteralInfo::Char(*c),
            LiteralValue::Str(v) => LiteralInfo::Str(v@),
            LiteralValue::Invalid => LiteralInfo::Invalid,
        }
    }
}

/// What `cexpr::literal::parse` makes of a byte string: `None` when it is not exactly
/// one C literal token.
pub uninterp spec fn c_literal(bytes: Seq<u8>) -> Option<LiteralInfo>;

/// Calls `cexpr::literal::parse` on `bytes`. The contract names its outcome
/// [`c_literal`] (`None` for a parse error); a floating-point value is handed back
/// as the `Display` text of the `f64`. The C literal grammar that decides the outcome
/// is not stated.
#[verifier::external_body]
pub(crate) fn parse_c_literal(bytes: &[u8]) -> (r: Option<LiteralValue>)
    ensures
        match r {
            Some(v) => c_literal(bytes@) == Some(v@),
            None => c_literal(bytes@) is None,
        },
{
    match cexpr::literal::parse(bytes) {
        Ok((_, EvalResult::Int(v))) => Some(LiteralValue::Int(v.0)),
        Ok((_, EvalResult::Float(v))) => Some(LiteralValue::Float(v.to_string())),
        Ok((_, EvalResult::Char(CChar::Char(c)))) => Some(LiteralValue::Char(LiteralChar::Char(c))),
        Ok((_, EvalResult::Char(CChar::Raw(c)))) => Some(LiteralValue::Char(LiteralChar::Raw(c))),
        Ok((_, EvalResult::Str(v))) => Some(LiteralValue::Str(v)),
        Ok((_, EvalResult::Invalid)) => Some(LiteralValue::Invalid),
        Err(_) => None,
    }
}

/// What `String::from_utf8_lossy` makes of a byte string.
pub uninterp spec fn utf8_lossy(bytes: Seq<u8>) -> Seq<char>;

/// Calls `String::from_utf8_lossy`. Its outcome is named [`utf8_lossy`]; on valid
/// UTF-8 it is the decoded text. How invalid sequences are replaced is not stated.
#[verifier::external_body]
pub(crate) fn string_from_utf8_lossy(bytes: &[u8]) -> (s: String)
    ensures
        s@ == utf8_lossy(bytes@),
        valid_utf8(bytes@) ==> s@ == decode_utf8(bytes@),
{
    String::from_utf8_lossy(bytes).into_owned()
}

} // verus!
