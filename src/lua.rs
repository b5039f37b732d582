//! The part of a Lua chunk that metadata extraction reads, and how it is obtained.
use vstd::prelude::*;
use full_moon::ast::{Expression, Field, LastStmt};
use full_moon::tokenizer::TokenType;

verus! {

/// An expression of a Lua chunk, as far as extraction reads it.
pub enum LuaExpr {
    /// A table constructor, with its fields in source order.
    Table(Vec<LuaField>),
    /// A string literal, without its quotes.
    Str(String),
    /// A number literal, as written.
    Number(String),
    /// Any other expression.
    Other,
}

/// A field of a table constructor.
pub enum LuaField {
    /// A field with a bracketed key, `[key] = value`.
    Keyed(LuaExpr, LuaExpr),
    /// A field written `name = value`, or a value without a key.
    Other,
}

#[verifier::external_type_specification]
#[verifier::external_body]
pub struct ExExpression(Expression);

#[verifier::external_type_specification]
#[verifier::external_body]
pub struct ExField(Field);

/// Copies one full_moon expression: reads the variant, and for a table its
/// fields (`TableConstructor::fields`), for a string or number literal its token
/// text (`TokenReference::token`, `Token::token_type`).
#[verifier::external_body]
fn lua_expr_of(e: &Expression) -> LuaExpr {
    match e {
        Expression::TableConstructor(t) => LuaExpr::Table(t.fields().iter().map(lua_field_of).collect()),
        Expression::String(tok) => match tok.token().token_type() {
            TokenType::StringLiteral { literal, .. } => LuaExpr::Str(literal.to_string()),
            _ => LuaExpr::Other,
        },
        Expression::Number(tok) => match tok.token().token_type() {
            TokenType::Number { text } => LuaExpr::Number(text.to_string()),
            _ => LuaExpr::Other,
        },
        _ => LuaExpr::Other,
    }
}

/// Copies one full_moon table field: its variant, and for `[key] = value` both expressions.
#[verifier::external_body]
fn lua_field_of(f: &Field) -> LuaField {
    match f {
        Field::ExpressionKey { key, value, .. } => LuaField::Keyed(lua_expr_of(key), lua_expr_of(value)),
        _ => LuaField::Other,
    }
}

/// What full_moon makes of the Lua chunk `s`: the expressions of its final
/// `return` statement (none where the chunk ends in no `return`), or, where it
/// does not parse, the text of full_moon's errors.
pub uninterp spec fn lua_parse_outcome(s: Seq<char>) -> Result<Seq<LuaExpr>, Seq<char>>;

/// Relies on `full_moon::parse`, `Ast::nodes`, `Block::last_stmt` and
/// `Return::returns`: the expressions of the chunk's final `return`, or, where
/// the chunk does not parse, full_moon's errors (`Error`'s `Display`) joined by "; ".
#[verifier::external_body]
pub(crate) fn parse_lua_returns(source: &str) -> (r: Result<Vec<LuaExpr>, String>)
    ensures
        match r {
            Ok(v) => lua_parse_outcome(source@) == Ok::<Seq<LuaExpr>, Seq<char>>(v@),
            Err(e) => lua_parse_outcome(source@) == Err::<Seq<LuaExpr>, Seq<char>>(e@),
        },
{
    match full_moon::parse(source) {
        Ok(ast) => Ok(match ast.nodes().last_stmt() {
            Some(LastStmt::Return(ret)) => ret.returns().iter().map(lua_expr_of).collect(),
            _ => Vec::new(),
        }),
        Err(errors) => Err(errors.iter().map(|e| e.to_string()).collect::<Vec<String>>().join("; ")),
    }
}

} // verus!
