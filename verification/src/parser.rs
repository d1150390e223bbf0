//! The recursive-descent parser: a precedence-ordered cascade of expression
//! rules with a statement grammar on top, and panic-mode error recovery.
//!
//! The first half of this file is the mathematical model: a fuelled
//! recursive-descent parser over token images (`sp_program` and the rules it
//! rests on).  The fuel only bounds the depth of the descent; the executable
//! `Parser` below is proved to produce exactly what the model says, and the
//! budget `parse` passes is far beyond what any realistic input can spend.
//!
//! Precedence, loosest first: assignment, ternary, logical `or`, logical
//! `and`, equality, comparison, term, factor, unary, call, primary.  On a
//! statement-level error the parser synchronizes: it discards tokens up to a
//! probable statement boundary and goes on, so one pass can report several
//! independent errors.

use vstd::prelude::*;

use crate::ast::Assignment;
use crate::ast::Binary;
use crate::ast::BlockStatement;
use crate::ast::Call;
use crate::ast::ExprV;
use crate::ast::Expression;
use crate::ast::ExpressionStatement;
use crate::ast::FunctionStatement;
use crate::ast::Grouping;
use crate::ast::IfStatement;
use crate::ast::Literal;
use crate::ast::Logical;
use crate::ast::ReturnStatement;
use crate::ast::Statement;
use crate::ast::StmtV;
use crate::ast::Ternary;
use crate::ast::Unary;
use crate::ast::Variable;
use crate::ast::VariableStatement;
use crate::ast::WhileStatement;
use crate::ast::view_token_list;
use crate::ast::view_exprs;
use crate::ast::view_stmts;
use crate::ast::lemma_view_exprs;
use crate::ast::lemma_view_stmts;
use crate::token::Token;
use crate::token::TokenType;
use crate::token::TokenV;
use crate::value::Value;
use crate::value::ValueV;

verus! {

// ---------------------------------------------------------------------------
// Errors
// ---------------------------------------------------------------------------
/// A syntax error: the offending token and a cause.
#[derive(Debug)]
pub struct ParserError {
    pub source: Token,
    pub cause: String,
}

/// The mathematical image of a syntax error.
#[verifier::ext_equal]
pub struct PErrV {
    pub source: TokenV,
    pub cause: Seq<char>,
}

impl ParserError {
    pub open spec fn view(&self) -> PErrV {
        PErrV { source: self.source@, cause: self.cause@ }
    }
}

/// The images of a vector of syntax errors.
pub open spec fn perrs_view(s: Seq<ParserError>) -> Seq<PErrV> {
    Seq::new(s.len(), |i: int| s[i]@)
}

/// A runtime error's source token.
#[derive(Debug)]
pub struct RuntimeError {
    pub source: Token,
}

/// Any of the language's error classes.
#[derive(Debug)]
pub enum LuxErrors {
    ParserError(ParserError),
    RuntimeError(RuntimeError),
}

// ---------------------------------------------------------------------------
// Token access
// ---------------------------------------------------------------------------
/// The token at `i`, or a bare end-of-input token past either end.
pub open spec fn tok_at(toks: Seq<TokenV>, i: int) -> TokenV {
    if 0 <= i < toks.len() {
        toks[i]
    } else {
        TokenV {
            token_type: TokenType::Eof,
            lexeme: Seq::empty(),
            literal: Option::None,
            line: 0,
        }
    }
}

/// Whether the cursor rests on the end-of-input token.
pub open spec fn sp_is_at_end(toks: Seq<TokenV>, i: int) -> bool {
    tok_at(toks, i).token_type == TokenType::Eof
}

/// Whether the next token has kind `tt` (never true at the end).
pub open spec fn sp_check(toks: Seq<TokenV>, i: int, tt: TokenType) -> bool {
    !sp_is_at_end(toks, i) && tok_at(toks, i).token_type == tt
}

/// The outcome of one parsing rule: a parsed piece and the next cursor
/// position; a syntax error and the position it was noticed at; or the
/// descent budget ran out.
pub enum PResV<T> {
    Done { v: T, next: int },
    Fail { e: PErrV, next: int },
    Halt,
}

/// Demand the next token to be of kind `tt`: yields it and moves past it,
/// or fails with `msg` at the offending token.
pub open spec fn sp_consume(toks: Seq<TokenV>, i: int, tt: TokenType, msg: Seq<char>) -> PResV<
    TokenV,
> {
    if sp_check(toks, i, tt) {
        PResV::Done { v: tok_at(toks, i), next: i + 1 }
    } else {
        PResV::Fail { e: PErrV { source: tok_at(toks, i), cause: msg }, next: i }
    }
}

// ---------------------------------------------------------------------------
// Expression grammar
// ---------------------------------------------------------------------------
/// An expression: the loosest rule, assignment.
#[verifier::opaque]
pub open spec fn sp_expression(toks: Seq<TokenV>, i: int, fuel: nat) -> PResV<ExprV>
    decreases fuel,
{
    if fuel == 0 {
        PResV::Halt
    } else {
        sp_assignment(toks, i, (fuel - 1) as nat)
    }
}

/// Assignment, right-associative; only a bare variable is a legal target.
#[verifier::opaque]
pub open spec fn sp_assignment(toks: Seq<TokenV>, i: int, fuel: nat) -> PResV<ExprV>
    decreases fuel,
{
    if fuel == 0 {
        PResV::Halt
    } else {
        match sp_ternary(toks, i, (fuel - 1) as nat) {
            PResV::Done { v, next } => {
                if sp_check(toks, next, TokenType::Equal) {
                    let equals = tok_at(toks, next);
                    match sp_assignment(toks, next + 1, (fuel - 1) as nat) {
                        PResV::Done { v: rhs, next: n2 } => match v {
                            ExprV::Variable { name } => PResV::Done {
                                v: ExprV::Assignment { name, value: Box::new(rhs) },
                                next: n2,
                            },
                            _ => PResV::Fail {
                                e: PErrV {
                                    source: equals,
                                    cause: "Invalid Assignment Target"@,
                                },
                                next: n2,
                            },
                        },
                        other => other,
                    }
                } else {
                    PResV::Done { v, next }
                }
            },
            other => other,
        }
    }
}

/// The conditional `cond ? a : b`, right-associative at each `?`.
#[verifier::opaque]
pub open spec fn sp_ternary(toks: Seq<TokenV>, i: int, fuel: nat) -> PResV<ExprV>
    decreases fuel,
{
    if fuel == 0 {
        PResV::Halt
    } else {
        match sp_or(toks, i, (fuel - 1) as nat) {
            PResV::Done { v: cond, next } => {
                if sp_check(toks, next, TokenType::Question) {
                    match sp_expression(toks, next + 1, (fuel - 1) as nat) {
                        PResV::Done { v: mid, next: n2 } => match sp_consume(
                            toks,
                            n2,
                            TokenType::Colon,
                            "Expected ':' in ternary"@,
                        ) {
                            PResV::Done { v: _, next: n3 } => match sp_ternary(
                                toks,
                                n3,
                                (fuel - 1) as nat,
                            ) {
                                PResV::Done { v: rhs, next: n4 } => PResV::Done {
                                    v: ExprV::Ternary {
                                        evaluator: Box::new(cond),
                                        left: Box::new(mid),
                                        right: Box::new(rhs),
                                    },
                                    next: n4,
                                },
                                other => other,
                            },
                            PResV::Fail { e, next } => PResV::Fail { e, next },
                            PResV::Halt => PResV::Halt,
                        },
                        other => other,
                    }
                } else {
                    PResV::Done { v: cond, next }
                }
            },
            other => other,
        }
    }
}

/// Logical `or`, left-folding.
#[verifier::opaque]
pub open spec fn sp_or(toks: Seq<TokenV>, i: int, fuel: nat) -> PResV<ExprV>
    decreases fuel,
{
    if fuel == 0 {
        PResV::Halt
    } else {
        match sp_and(toks, i, (fuel - 1) as nat) {
            PResV::Done { v, next } => sp_or_tail(toks, v, next, (fuel - 1) as nat),
            other => other,
        }
    }
}

#[verifier::opaque]
pub open spec fn sp_or_tail(toks: Seq<TokenV>, lhs: ExprV, i: int, fuel: nat) -> PResV<ExprV>
    decreases fuel,
{
    if fuel == 0 {
        PResV::Halt
    } else if sp_check(toks, i, TokenType::Or) {
        let op = tok_at(toks, i);
        match sp_and(toks, i + 1, (fuel - 1) as nat) {
            PResV::Done { v: rhs, next } => sp_or_tail(
                toks,
                ExprV::Logical { operator: op, left: Box::new(lhs), right: Box::new(rhs) },
                next,
                (fuel - 1) as nat,
            ),
            other => other,
        }
    } else {
        PResV::Done { v: lhs, next: i }
    }
}

/// Logical `and`, left-folding.
#[verifier::opaque]
pub open spec fn sp_and(toks: Seq<TokenV>, i: int, fuel: nat) -> PResV<ExprV>
    decreases fuel,
{
    if fuel == 0 {
        PResV::Halt
    } else {
        match sp_equality(toks, i, (fuel - 1) as nat) {
            PResV::Done { v, next } => sp_and_tail(toks, v, next, (fuel - 1) as nat),
            other => other,
        }
    }
}

#[verifier::opaque]
pub open spec fn sp_and_tail(toks: Seq<TokenV>, lhs: ExprV, i: int, fuel: nat) -> PResV<ExprV>
    decreases fuel,
{
    if fuel == 0 {
        PResV::Halt
    } else if sp_check(toks, i, TokenType::And) {
        let op = tok_at(toks, i);
        match sp_equality(toks, i + 1, (fuel - 1) as nat) {
            PResV::Done { v: rhs, next } => sp_and_tail(
                toks,
                ExprV::Logical { operator: op, left: Box::new(lhs), right: Box::new(rhs) },
                next,
                (fuel - 1) as nat,
            ),
            other => other,
        }
    } else {
        PResV::Done { v: lhs, next: i }
    }
}

/// Equality `==` and `!=`, left-folding.
#[verifier::opaque]
pub open spec fn sp_equality(toks: Seq<TokenV>, i: int, fuel: nat) -> PResV<ExprV>
    decreases fuel,
{
    if fuel == 0 {
        PResV::Halt
    } else {
        match sp_comparison(toks, i, (fuel - 1) as nat) {
            PResV::Done { v, next } => sp_equality_tail(toks, v, next, (fuel - 1) as nat),
            other => other,
        }
    }
}

#[verifier::opaque]
pub open spec fn sp_equality_tail(toks: Seq<TokenV>, lhs: ExprV, i: int, fuel: nat) -> PResV<
    ExprV,
>
    decreases fuel,
{
    if fuel == 0 {
        PResV::Halt
    } else if sp_check(toks, i, TokenType::BangEqual) || sp_check(
        toks,
        i,
        TokenType::EqualEqual,
    ) {
        let op = tok_at(toks, i);
        match sp_comparison(toks, i + 1, (fuel - 1) as nat) {
            PResV::Done { v: rhs, next } => sp_equality_tail(
                toks,
                ExprV::Binary { operator: op, left: Box::new(lhs), right: Box::new(rhs) },
                next,
                (fuel - 1) as nat,
            ),
            other => other,
        }
    } else {
        PResV::Done { v: lhs, next: i }
    }
}

/// Ordering comparisons, left-folding.
#[verifier::opaque]
pub open spec fn sp_comparison(toks: Seq<TokenV>, i: int, fuel: nat) -> PResV<ExprV>
    decreases fuel,
{
    if fuel == 0 {
        PResV::Halt
    } else {
        match sp_term(toks, i, (fuel - 1) as nat) {
            PResV::Done { v, next } => sp_comparison_tail(toks, v, next, (fuel - 1) as nat),
            other => other,
        }
    }
}

#[verifier::opaque]
pub open spec fn sp_comparison_tail(toks: Seq<TokenV>, lhs: ExprV, i: int, fuel: nat) -> PResV<
    ExprV,
>
    decreases fuel,
{
    if fuel == 0 {
        PResV::Halt
    } else if sp_check(toks, i, TokenType::Greater) || sp_check(toks, i, TokenType::GreaterEqual)
        || sp_check(toks, i, TokenType::Less) || sp_check(toks, i, TokenType::LessEqual) {
        let op = tok_at(toks, i);
        match sp_term(toks, i + 1, (fuel - 1) as nat) {
            PResV::Done { v: rhs, next } => sp_comparison_tail(
                toks,
                ExprV::Binary { operator: op, left: Box::new(lhs), right: Box::new(rhs) },
                next,
                (fuel - 1) as nat,
            ),
            other => other,
        }
    } else {
        PResV::Done { v: lhs, next: i }
    }
}

/// `+` and `-`, left-folding.
#[verifier::opaque]
pub open spec fn sp_term(toks: Seq<TokenV>, i: int, fuel: nat) -> PResV<ExprV>
    decreases fuel,
{
    if fuel == 0 {
        PResV::Halt
    } else {
        match sp_factor(toks, i, (fuel - 1) as nat) {
            PResV::Done { v, next } => sp_term_tail(toks, v, next, (fuel - 1) as nat),
            other => other,
        }
    }
}

#[verifier::opaque]
pub open spec fn sp_term_tail(toks: Seq<TokenV>, lhs: ExprV, i: int, fuel: nat) -> PResV<ExprV>
    decreases fuel,
{
    if fuel == 0 {
        PResV::Halt
    } else if sp_check(toks, i, TokenType::Minus) || sp_check(toks, i, TokenType::Plus) {
        let op = tok_at(toks, i);
        match sp_factor(toks, i + 1, (fuel - 1) as nat) {
            PResV::Done { v: rhs, next } => sp_term_tail(
                toks,
                ExprV::Binary { operator: op, left: Box::new(lhs), right: Box::new(rhs) },
                next,
                (fuel - 1) as nat,
            ),
            other => other,
        }
    } else {
        PResV::Done { v: lhs, next: i }
    }
}

/// `*` and `/`, left-folding.
#[verifier::opaque]
pub open spec fn sp_factor(toks: Seq<TokenV>, i: int, fuel: nat) -> PResV<ExprV>
    decreases fuel,
{
    if fuel == 0 {
        PResV::Halt
    } else {
        match sp_unary(toks, i, (fuel - 1) as nat) {
            PResV::Done { v, next } => sp_factor_tail(toks, v, next, (fuel - 1) as nat),
            other => other,
        }
    }
}

#[verifier::opaque]
pub open spec fn sp_factor_tail(toks: Seq<TokenV>, lhs: ExprV, i: int, fuel: nat) -> PResV<ExprV>
    decreases fuel,
{
    if fuel == 0 {
        PResV::Halt
    } else if sp_check(toks, i, TokenType::Slash) || sp_check(toks, i, TokenType::Star) {
        let op = tok_at(toks, i);
        match sp_unary(toks, i + 1, (fuel - 1) as nat) {
            PResV::Done { v: rhs, next } => sp_factor_tail(
                toks,
                ExprV::Binary { operator: op, left: Box::new(lhs), right: Box::new(rhs) },
                next,
                (fuel - 1) as nat,
            ),
            other => other,
        }
    } else {
        PResV::Done { v: lhs, next: i }
    }
}

/// Prefix `!` and `-`, right-associative.
#[verifier::opaque]
pub open spec fn sp_unary(toks: Seq<TokenV>, i: int, fuel: nat) -> PResV<ExprV>
    decreases fuel,
{
    if fuel == 0 {
        PResV::Halt
    } else if sp_check(toks, i, TokenType::Bang) || sp_check(toks, i, TokenType::Minus) {
        let op = tok_at(toks, i);
        match sp_unary(toks, i + 1, (fuel - 1) as nat) {
            PResV::Done { v, next } => PResV::Done {
                v: ExprV::Unary { operator: op, operand: Box::new(v) },
                next,
            },
            other => other,
        }
    } else {
        sp_call(toks, i, (fuel - 1) as nat)
    }
}

/// A call chain: a primary expression followed by any number of argument
/// lists.
#[verifier::opaque]
pub open spec fn sp_call(toks: Seq<TokenV>, i: int, fuel: nat) -> PResV<ExprV>
    decreases fuel,
{
    if fuel == 0 {
        PResV::Halt
    } else {
        match sp_primary(toks, i, (fuel - 1) as nat) {
            PResV::Done { v, next } => sp_call_tail(toks, v, next, (fuel - 1) as nat),
            other => other,
        }
    }
}

#[verifier::opaque]
pub open spec fn sp_call_tail(toks: Seq<TokenV>, callee: ExprV, i: int, fuel: nat) -> PResV<ExprV>
    decreases fuel,
{
    if fuel == 0 {
        PResV::Halt
    } else if sp_check(toks, i, TokenType::LeftParen) {
        match sp_finish_call(toks, callee, i + 1, (fuel - 1) as nat) {
            PResV::Done { v, next } => sp_call_tail(toks, v, next, (fuel - 1) as nat),
            other => other,
        }
    } else {
        PResV::Done { v: callee, next: i }
    }
}

/// The argument list of a call, after the opening parenthesis.
#[verifier::opaque]
pub open spec fn sp_finish_call(toks: Seq<TokenV>, callee: ExprV, i: int, fuel: nat) -> PResV<
    ExprV,
>
    decreases fuel,
{
    if fuel == 0 {
        PResV::Halt
    } else if sp_check(toks, i, TokenType::RightParen) {
        PResV::Done {
            v: ExprV::Call {
                callee: Box::new(callee),
                paren: tok_at(toks, i),
                arguments: Seq::empty(),
            },
            next: i + 1,
        }
    } else {
        match sp_args(toks, i, (fuel - 1) as nat) {
            PResV::Done { v: args, next } => match sp_consume(
                toks,
                next,
                TokenType::RightParen,
                "Expect ')' after arguments "@,
            ) {
                PResV::Done { v: paren, next: n2 } => PResV::Done {
                    v: ExprV::Call { callee: Box::new(callee), paren, arguments: args },
                    next: n2,
                },
                PResV::Fail { e, next } => PResV::Fail { e, next },
                PResV::Halt => PResV::Halt,
            },
            PResV::Fail { e, next } => PResV::Fail { e, next },
            PResV::Halt => PResV::Halt,
        }
    }
}

/// One or more comma-separated arguments.
#[verifier::opaque]
pub open spec fn sp_args(toks: Seq<TokenV>, i: int, fuel: nat) -> PResV<Seq<ExprV>>
    decreases fuel,
{
    if fuel == 0 {
        PResV::Halt
    } else {
        match sp_expression(toks, i, (fuel - 1) as nat) {
            PResV::Done { v, next } => {
                if sp_check(toks, next, TokenType::Comma) {
                    match sp_args(toks, next + 1, (fuel - 1) as nat) {
                        PResV::Done { v: rest, next: n2 } => PResV::Done {
                            v: seq![v] + rest,
                            next: n2,
                        },
                        PResV::Fail { e, next } => PResV::Fail { e, next },
                        PResV::Halt => PResV::Halt,
                    }
                } else {
                    PResV::Done { v: seq![v], next }
                }
            },
            PResV::Fail { e, next } => PResV::Fail { e, next },
            PResV::Halt => PResV::Halt,
        }
    }
}

/// A primary expression: a literal, a grouping, or a variable use.
#[verifier::opaque]
pub open spec fn sp_primary(toks: Seq<TokenV>, i: int, fuel: nat) -> PResV<ExprV>
    decreases fuel,
{
    if fuel == 0 {
        PResV::Halt
    } else {
        let t = tok_at(toks, i);
        if sp_check(toks, i, TokenType::False) || sp_check(toks, i, TokenType::True) || sp_check(
            toks,
            i,
            TokenType::Nil,
        ) || sp_check(toks, i, TokenType::Number) || sp_check(toks, i, TokenType::String) {
            let lit = match t.literal {
                Option::Some(v) => v,
                Option::None => ValueV::Nil,
            };
            PResV::Done { v: ExprV::Literal { value: lit }, next: i + 1 }
        } else if sp_check(toks, i, TokenType::LeftParen) {
            match sp_expression(toks, i + 1, (fuel - 1) as nat) {
                PResV::Done { v, next } => match sp_consume(
                    toks,
                    next,
                    TokenType::RightParen,
                    "Expect ')' after grouping expression."@,
                ) {
                    PResV::Done { v: _, next: n2 } => PResV::Done {
                        v: ExprV::Grouping { expression: Box::new(v) },
                        next: n2,
                    },
                    PResV::Fail { e, next } => PResV::Fail { e, next },
                    PResV::Halt => PResV::Halt,
                },
                other => other,
            }
        } else if sp_check(toks, i, TokenType::Identifier) {
            PResV::Done { v: ExprV::Variable { name: t }, next: i + 1 }
        } else {
            PResV::Fail {
                e: PErrV { source: t, cause: "Not in Parser AST: '"@ + t.lexeme + "'"@ },
                next: i,
            }
        }
    }
}

// ---------------------------------------------------------------------------
// Statement grammar
// ---------------------------------------------------------------------------
/// A statement, dispatched on its leading keyword.
#[verifier::opaque]
pub open spec fn sp_statement(toks: Seq<TokenV>, i: int, fuel: nat) -> PResV<StmtV>
    decreases fuel,
{
    if fuel == 0 {
        PResV::Halt
    } else if sp_check(toks, i, TokenType::If) {
        sp_if_statement(toks, i + 1, (fuel - 1) as nat)
    } else if sp_check(toks, i, TokenType::Return) {
        sp_return_statement(toks, i + 1, (fuel - 1) as nat)
    } else if sp_check(toks, i, TokenType::While) {
        sp_while_statement(toks, i + 1, (fuel - 1) as nat)
    } else if sp_check(toks, i, TokenType::For) {
        sp_for_statement(toks, i + 1, (fuel - 1) as nat)
    } else if sp_check(toks, i, TokenType::LeftBrace) {
        match sp_block_items(toks, i + 1, (fuel - 1) as nat) {
            PResV::Done { v, next } => PResV::Done {
                v: StmtV::Block { statements: v },
                next,
            },
            PResV::Fail { e, next } => PResV::Fail { e, next },
            PResV::Halt => PResV::Halt,
        }
    } else {
        sp_expression_statement(toks, i, (fuel - 1) as nat)
    }
}

/// An expression statement: an expression and its semicolon.
#[verifier::opaque]
pub open spec fn sp_expression_statement(toks: Seq<TokenV>, i: int, fuel: nat) -> PResV<StmtV>
    decreases fuel,
{
    if fuel == 0 {
        PResV::Halt
    } else {
        match sp_expression(toks, i, (fuel - 1) as nat) {
            PResV::Done { v, next } => match sp_consume(
                toks,
                next,
                TokenType::Semicolon,
                "Expected ';' after expression"@,
            ) {
                PResV::Done { v: _, next: n2 } => PResV::Done {
                    v: StmtV::Expression { expression: v },
                    next: n2,
                },
                PResV::Fail { e, next } => PResV::Fail { e, next },
                PResV::Halt => PResV::Halt,
            },
            PResV::Fail { e, next } => PResV::Fail { e, next },
            PResV::Halt => PResV::Halt,
        }
    }
}

/// The declarations of a block, up to the closing brace (which is consumed)
/// or the end of the input.
#[verifier::opaque]
pub open spec fn sp_block_items(toks: Seq<TokenV>, i: int, fuel: nat) -> PResV<Seq<StmtV>>
    decreases fuel,
{
    if fuel == 0 {
        PResV::Halt
    } else if sp_check(toks, i, TokenType::RightBrace) {
        PResV::Done { v: Seq::empty(), next: i + 1 }
    } else if sp_is_at_end(toks, i) {
        PResV::Done { v: Seq::empty(), next: i }
    } else {
        match sp_declaration(toks, i, (fuel - 1) as nat) {
            PResV::Done { v, next } => match sp_block_items(toks, next, (fuel - 1) as nat) {
                PResV::Done { v: rest, next: n2 } => PResV::Done { v: seq![v] + rest, next: n2 },
                PResV::Fail { e, next } => PResV::Fail { e, next },
                PResV::Halt => PResV::Halt,
            },
            PResV::Fail { e, next } => PResV::Fail { e, next },
            PResV::Halt => PResV::Halt,
        }
    }
}

/// An `if` statement, after its keyword.
#[verifier::opaque]
pub open spec fn sp_if_statement(toks: Seq<TokenV>, i: int, fuel: nat) -> PResV<StmtV>
    decreases fuel,
{
    if fuel == 0 {
        PResV::Halt
    } else {
        match sp_consume(toks, i, TokenType::LeftParen, "Expected \"(\" after if statement"@) {
            PResV::Done { v: _, next: n0 } => match sp_expression(toks, n0, (fuel - 1) as nat) {
                PResV::Done { v: cond, next: n1 } => match sp_consume(
                    toks,
                    n1,
                    TokenType::RightParen,
                    "Expected \")\" after if statement"@,
                ) {
                    PResV::Done { v: _, next: n2 } => match sp_statement(
                        toks,
                        n2,
                        (fuel - 1) as nat,
                    ) {
                        PResV::Done { v: then_b, next: n3 } => {
                            if sp_check(toks, n3, TokenType::Else) {
                                match sp_statement(toks, n3 + 1, (fuel - 1) as nat) {
                                    PResV::Done { v: else_b, next: n4 } => PResV::Done {
                                        v: StmtV::If {
                                            condition: cond,
                                            then_branch: Box::new(then_b),
                                            else_branch: Option::Some(Box::new(else_b)),
                                        },
                                        next: n4,
                                    },
                                    PResV::Fail { e, next } => PResV::Fail { e, next },
                                    PResV::Halt => PResV::Halt,
                                }
                            } else {
                                PResV::Done {
                                    v: StmtV::If {
                                        condition: cond,
                                        then_branch: Box::new(then_b),
                                        else_branch: Option::None,
                                    },
                                    next: n3,
                                }
                            }
                        },
                        PResV::Fail { e, next } => PResV::Fail { e, next },
                        PResV::Halt => PResV::Halt,
                    },
                    PResV::Fail { e, next } => PResV::Fail { e, next },
                    PResV::Halt => PResV::Halt,
                },
                PResV::Fail { e, next } => PResV::Fail { e, next },
                PResV::Halt => PResV::Halt,
            },
            PResV::Fail { e, next } => PResV::Fail { e, next },
            PResV::Halt => PResV::Halt,
        }
    }
}

/// A `while` statement, after its keyword.
#[verifier::opaque]
pub open spec fn sp_while_statement(toks: Seq<TokenV>, i: int, fuel: nat) -> PResV<StmtV>
    decreases fuel,
{
    if fuel == 0 {
        PResV::Halt
    } else {
        match sp_consume(toks, i, TokenType::LeftParen, "Expect '(' after while."@) {
            PResV::Done { v: _, next: n0 } => match sp_expression(toks, n0, (fuel - 1) as nat) {
                PResV::Done { v: cond, next: n1 } => match sp_consume(
                    toks,
                    n1,
                    TokenType::RightParen,
                    "Expect ')' after while condition."@,
                ) {
                    PResV::Done { v: _, next: n2 } => match sp_statement(
                        toks,
                        n2,
                        (fuel - 1) as nat,
                    ) {
                        PResV::Done { v: body, next: n3 } => PResV::Done {
                            v: StmtV::While { condition: cond, body: Box::new(body) },
                            next: n3,
                        },
                        PResV::Fail { e, next } => PResV::Fail { e, next },
                        PResV::Halt => PResV::Halt,
                    },
                    PResV::Fail { e, next } => PResV::Fail { e, next },
                    PResV::Halt => PResV::Halt,
                },
                PResV::Fail { e, next } => PResV::Fail { e, next },
                PResV::Halt => PResV::Halt,
            },
            PResV::Fail { e, next } => PResV::Fail { e, next },
            PResV::Halt => PResV::Halt,
        }
    }
}

/// A `return` statement, after its keyword (which is at `i - 1`).
#[verifier::opaque]
pub open spec fn sp_return_statement(toks: Seq<TokenV>, i: int, fuel: nat) -> PResV<StmtV>
    decreases fuel,
{
    if fuel == 0 {
        PResV::Halt
    } else {
        let keyword = tok_at(toks, i - 1);
        if sp_check(toks, i, TokenType::Semicolon) {
            PResV::Done { v: StmtV::Return { keyword, value: Option::None }, next: i + 1 }
        } else {
            match sp_expression(toks, i, (fuel - 1) as nat) {
                PResV::Done { v, next } => match sp_consume(
                    toks,
                    next,
                    TokenType::Semicolon,
                    "Expected ';' after return"@,
                ) {
                    PResV::Done { v: _, next: n2 } => PResV::Done {
                        v: StmtV::Return { keyword, value: Option::Some(v) },
                        next: n2,
                    },
                    PResV::Fail { e, next } => PResV::Fail { e, next },
                    PResV::Halt => PResV::Halt,
                },
                PResV::Fail { e, next } => PResV::Fail { e, next },
                PResV::Halt => PResV::Halt,
            }
        }
    }
}

/// The desugared form of a `for` loop: a block holding the initializer and a
/// `while` whose body appends the increment.
pub open spec fn sp_for_desugar(
    initializer: Option<StmtV>,
    condition: Option<ExprV>,
    increment: Option<ExprV>,
    body: StmtV,
) -> StmtV {
    let body1 = match increment {
        Option::Some(inc) => StmtV::Block {
            statements: seq![body, StmtV::Expression { expression: inc }],
        },
        Option::None => body,
    };
    let cond = match condition {
        Option::Some(c) => c,
        Option::None => ExprV::Literal { value: ValueV::Boolean(true) },
    };
    let whole = StmtV::While { condition: cond, body: Box::new(body1) };
    match initializer {
        Option::Some(init) => StmtV::Block { statements: seq![init, whole] },
        Option::None => whole,
    }
}

/// A `for` statement, after its keyword: parsed and desugared at once.
#[verifier::opaque]
pub open spec fn sp_for_statement(toks: Seq<TokenV>, i: int, fuel: nat) -> PResV<StmtV>
    decreases fuel,
{
    if fuel == 0 {
        PResV::Halt
    } else {
        match sp_consume(toks, i, TokenType::LeftParen, "Expect '(' after for."@) {
            PResV::Done { v: _, next: n0 } => {
                // Initializer: empty, a declaration, or an expression statement.
                let init_res: PResV<Option<StmtV>> = if sp_check(toks, n0, TokenType::Semicolon) {
                    PResV::Done { v: Option::None, next: n0 + 1 }
                } else if sp_check(toks, n0, TokenType::Var) {
                    match sp_variable_declaration(toks, n0 + 1, (fuel - 1) as nat) {
                        PResV::Done { v, next } => PResV::Done { v: Option::Some(v), next },
                        PResV::Fail { e, next } => PResV::Fail { e, next },
                        PResV::Halt => PResV::Halt,
                    }
                } else {
                    match sp_expression_statement(toks, n0, (fuel - 1) as nat) {
                        PResV::Done { v, next } => PResV::Done { v: Option::Some(v), next },
                        PResV::Fail { e, next } => PResV::Fail { e, next },
                        PResV::Halt => PResV::Halt,
                    }
                };
                match init_res {
                    PResV::Done { v: initializer, next: n1 } => {
                        let cond_res: PResV<Option<ExprV>> = if sp_check(
                            toks,
                            n1,
                            TokenType::Semicolon,
                        ) {
                            PResV::Done { v: Option::None, next: n1 }
                        } else {
                            match sp_expression(toks, n1, (fuel - 1) as nat) {
                                PResV::Done { v, next } => PResV::Done {
                                    v: Option::Some(v),
                                    next,
                                },
                                PResV::Fail { e, next } => PResV::Fail { e, next },
                                PResV::Halt => PResV::Halt,
                            }
                        };
                        match cond_res {
                            PResV::Done { v: condition, next: n2 } => match sp_consume(
                                toks,
                                n2,
                                TokenType::Semicolon,
                                "Expect ';' after increment part."@,
                            ) {
                                PResV::Done { v: _, next: n3 } => {
                                    let inc_res: PResV<Option<ExprV>> = if sp_check(
                                        toks,
                                        n3,
                                        TokenType::RightParen,
                                    ) {
                                        PResV::Done { v: Option::None, next: n3 }
                                    } else {
                                        match sp_expression(toks, n3, (fuel - 1) as nat) {
                                            PResV::Done { v, next } => PResV::Done {
                                                v: Option::Some(v),
                                                next,
                                            },
                                            PResV::Fail { e, next } => PResV::Fail { e, next },
                                            PResV::Halt => PResV::Halt,
                                        }
                                    };
                                    match inc_res {
                                        PResV::Done { v: increment, next: n4 } => match sp_consume(
                                            toks,
                                            n4,
                                            TokenType::RightParen,
                                            "Expect ')' after condition block."@,
                                        ) {
                                            PResV::Done { v: _, next: n5 } => match sp_statement(
                                                toks,
                                                n5,
                                                (fuel - 1) as nat,
                                            ) {
                                                PResV::Done { v: body, next: n6 } => PResV::Done {
                                                    v: sp_for_desugar(
                                                        initializer,
                                                        condition,
                                                        increment,
                                                        body,
                                                    ),
                                                    next: n6,
                                                },
                                                PResV::Fail { e, next } => PResV::Fail { e, next },
                                                PResV::Halt => PResV::Halt,
                                            },
                                            PResV::Fail { e, next } => PResV::Fail { e, next },
                                            PResV::Halt => PResV::Halt,
                                        },
                                        PResV::Fail { e, next } => PResV::Fail { e, next },
                                        PResV::Halt => PResV::Halt,
                                    }
                                },
                                PResV::Fail { e, next } => PResV::Fail { e, next },
                                PResV::Halt => PResV::Halt,
                            },
                            PResV::Fail { e, next } => PResV::Fail { e, next },
                            PResV::Halt => PResV::Halt,
                        }
                    },
                    PResV::Fail { e, next } => PResV::Fail { e, next },
                    PResV::Halt => PResV::Halt,
                }
            },
            PResV::Fail { e, next } => PResV::Fail { e, next },
            PResV::Halt => PResV::Halt,
        }
    }
}

/// A `var` declaration, after its keyword.
#[verifier::opaque]
pub open spec fn sp_variable_declaration(toks: Seq<TokenV>, i: int, fuel: nat) -> PResV<StmtV>
    decreases fuel,
{
    if fuel == 0 {
        PResV::Halt
    } else {
        match sp_consume(toks, i, TokenType::Identifier, "Expected Identifier for Variable"@) {
            PResV::Done { v: name, next: n0 } => {
                let init_res: PResV<Option<ExprV>> = if sp_check(toks, n0, TokenType::Equal) {
                    match sp_expression(toks, n0 + 1, (fuel - 1) as nat) {
                        PResV::Done { v, next } => PResV::Done { v: Option::Some(v), next },
                        PResV::Fail { e, next } => PResV::Fail { e, next },
                        PResV::Halt => PResV::Halt,
                    }
                } else {
                    PResV::Done { v: Option::None, next: n0 }
                };
                match init_res {
                    PResV::Done { v: initalizer, next: n1 } => match sp_consume(
                        toks,
                        n1,
                        TokenType::Semicolon,
                        "Expected \";\" following statement"@,
                    ) {
                        PResV::Done { v: _, next: n2 } => PResV::Done {
                            v: StmtV::Variable { name, initalizer },
                            next: n2,
                        },
                        PResV::Fail { e, next } => PResV::Fail { e, next },
                        PResV::Halt => PResV::Halt,
                    },
                    PResV::Fail { e, next } => PResV::Fail { e, next },
                    PResV::Halt => PResV::Halt,
                }
            },
            PResV::Fail { e, next } => PResV::Fail { e, next },
            PResV::Halt => PResV::Halt,
        }
    }
}

/// One or more comma-separated parameter names.
#[verifier::opaque]
pub open spec fn sp_params(toks: Seq<TokenV>, i: int, fuel: nat) -> PResV<Seq<TokenV>>
    decreases fuel,
{
    if fuel == 0 {
        PResV::Halt
    } else {
        match sp_consume(toks, i, TokenType::Identifier, "Expected Parameter name"@) {
            PResV::Done { v: p, next } => {
                if sp_check(toks, next, TokenType::Comma) {
                    match sp_params(toks, next + 1, (fuel - 1) as nat) {
                        PResV::Done { v: rest, next: n2 } => PResV::Done {
                            v: seq![p] + rest,
                            next: n2,
                        },
                        PResV::Fail { e, next } => PResV::Fail { e, next },
                        PResV::Halt => PResV::Halt,
                    }
                } else {
                    PResV::Done { v: seq![p], next }
                }
            },
            PResV::Fail { e, next } => PResV::Fail { e, next },
            PResV::Halt => PResV::Halt,
        }
    }
}

/// A `fun` declaration, after its keyword: name, parameter list, brace-
/// delimited body.
#[verifier::opaque]
pub open spec fn sp_function_declaration(toks: Seq<TokenV>, i: int, fuel: nat) -> PResV<StmtV>
    decreases fuel,
{
    if fuel == 0 {
        PResV::Halt
    } else {
        match sp_consume(toks, i, TokenType::Identifier, "Expect function name"@) {
            PResV::Done { v: name, next: n0 } => match sp_consume(
                toks,
                n0,
                TokenType::LeftParen,
                "Expect ( after function"@,
            ) {
                PResV::Done { v: _, next: n1 } => {
                    let params_res: PResV<Seq<TokenV>> = if sp_check(
                        toks,
                        n1,
                        TokenType::RightParen,
                    ) {
                        PResV::Done { v: Seq::empty(), next: n1 + 1 }
                    } else {
                        match sp_params(toks, n1, (fuel - 1) as nat) {
                            PResV::Done { v, next } => match sp_consume(
                                toks,
                                next,
                                TokenType::RightParen,
                                "Expected ) after parameters for function"@,
                            ) {
                                PResV::Done { v: _, next: n2 } => PResV::Done { v, next: n2 },
                                PResV::Fail { e, next } => PResV::Fail { e, next },
                                PResV::Halt => PResV::Halt,
                            },
                            PResV::Fail { e, next } => PResV::Fail { e, next },
                            PResV::Halt => PResV::Halt,
                        }
                    };
                    match params_res {
                        PResV::Done { v: parameters, next: n3 } => match sp_consume(
                            toks,
                            n3,
                            TokenType::LeftBrace,
                            "Expected '{' after function statement"@,
                        ) {
                            PResV::Done { v: _, next: n4 } => match sp_block_items(
                                toks,
                                n4,
                                (fuel - 1) as nat,
                            ) {
                                PResV::Done { v: body, next: n5 } => PResV::Done {
                                    v: StmtV::Function { name, parameters, body },
                                    next: n5,
                                },
                                PResV::Fail { e, next } => PResV::Fail { e, next },
                                PResV::Halt => PResV::Halt,
                            },
                            PResV::Fail { e, next } => PResV::Fail { e, next },
                            PResV::Halt => PResV::Halt,
                        },
                        PResV::Fail { e, next } => PResV::Fail { e, next },
                        PResV::Halt => PResV::Halt,
                    }
                },
                PResV::Fail { e, next } => PResV::Fail { e, next },
                PResV::Halt => PResV::Halt,
            },
            PResV::Fail { e, next } => PResV::Fail { e, next },
            PResV::Halt => PResV::Halt,
        }
    }
}

/// Whether a token kind begins a new declaration or statement: a
/// synchronization boundary.
pub open spec fn sync_boundary(tt: TokenType) -> bool {
    tt == TokenType::Class || tt == TokenType::Fun || tt == TokenType::Var || tt == TokenType::For
        || tt == TokenType::If || tt == TokenType::While || tt == TokenType::Return
}

/// Panic-mode recovery: discard tokens until just past a semicolon or just
/// before a statement boundary.
pub open spec fn sp_sync_loop(toks: Seq<TokenV>, i: int) -> int
    decreases toks.len() - i,
{
    if sp_is_at_end(toks, i) {
        i
    } else if tok_at(toks, i - 1).token_type == TokenType::Semicolon {
        i
    } else if sync_boundary(tok_at(toks, i).token_type) {
        i
    } else {
        sp_sync_loop(toks, i + 1)
    }
}

pub open spec fn sp_synchronize(toks: Seq<TokenV>, i: int) -> int {
    if sp_is_at_end(toks, i) {
        sp_sync_loop(toks, i)
    } else {
        sp_sync_loop(toks, i + 1)
    }
}

/// A declaration: `fun`, `var`, or any statement; on a syntax error the
/// parser synchronizes, so the cursor of a failure is already at a
/// statement boundary.
#[verifier::opaque]
pub open spec fn sp_declaration(toks: Seq<TokenV>, i: int, fuel: nat) -> PResV<StmtV>
    decreases fuel,
{
    if fuel == 0 {
        PResV::Halt
    } else {
        let r = if sp_check(toks, i, TokenType::Fun) {
            sp_function_declaration(toks, i + 1, (fuel - 1) as nat)
        } else if sp_check(toks, i, TokenType::Var) {
            sp_variable_declaration(toks, i + 1, (fuel - 1) as nat)
        } else {
            sp_statement(toks, i, (fuel - 1) as nat)
        };
        match r {
            PResV::Fail { e, next } => PResV::Fail { e, next: sp_synchronize(toks, next) },
            other => other,
        }
    }
}

/// What a whole parse yields: the statements that parsed, and every syntax
/// error found on the way.
pub struct ProgV {
    pub stmts: Seq<StmtV>,
    pub errs: Seq<PErrV>,
}

/// The budget-exhaustion diagnostic (out of reach for any realistic input).
pub open spec fn halt_error(toks: Seq<TokenV>, i: int) -> PErrV {
    PErrV { source: tok_at(toks, i), cause: "Parser descent budget exhausted"@ }
}

/// The whole token stream, parsed: as many top-level declarations as can be
/// collected, each syntax error reported and recovered from.
#[verifier::opaque]
pub open spec fn sp_program(toks: Seq<TokenV>, i: int, fuel: nat) -> ProgV
    decreases fuel,
{
    if fuel == 0 {
        ProgV { stmts: Seq::empty(), errs: seq![halt_error(toks, i)] }
    } else if sp_is_at_end(toks, i) {
        ProgV { stmts: Seq::empty(), errs: Seq::empty() }
    } else {
        match sp_declaration(toks, i, (fuel - 1) as nat) {
            PResV::Done { v, next } => {
                let rest = sp_program(toks, next, (fuel - 1) as nat);
                ProgV { stmts: seq![v] + rest.stmts, errs: rest.errs }
            },
            PResV::Fail { e, next } => {
                let rest = sp_program(toks, next, (fuel - 1) as nat);
                ProgV { stmts: rest.stmts, errs: seq![e] + rest.errs }
            },
            PResV::Halt => ProgV { stmts: Seq::empty(), errs: seq![halt_error(toks, i)] },
        }
    }
}

/// The descent budget `parse` grants for a token stream of length `n`.
pub open spec fn parse_fuel(n: nat) -> nat {
    if n < 0x0010_0000_0000_0000 {
        (n * 256 + 256) as nat
    } else {
        0xffff_ffff_ffff_ffff as nat
    }
}

/// The parse of a whole token stream.
pub open spec fn parse_spec(toks: Seq<TokenV>) -> ProgV {
    sp_program(toks, 0, parse_fuel(toks.len()))
}


// ---------------------------------------------------------------------------
// The executable parser
// ---------------------------------------------------------------------------
/// Why a parsing rule stopped: a syntax error, or the descent budget ran
/// out.
#[derive(Debug)]
pub enum PFail {
    Failed(ParserError),
    Exhausted,
}

/// How an executable rule's outcome must line up with the model's: same
/// parse, same error, and the cursor at the same place.
pub open spec fn expr_result_matches(r: Result<Expression, PFail>, s: PResV<ExprV>, cur: int) -> bool {
    match (r, s) {
        (Result::Ok(e), PResV::Done { v, next }) => e@ == v && cur == next,
        (Result::Err(PFail::Failed(pe)), PResV::Fail { e, next }) => pe@ == e && cur == next,
        (Result::Err(PFail::Exhausted), PResV::Halt) => true,
        _ => false,
    }
}

pub open spec fn stmt_result_matches(r: Result<Statement, PFail>, s: PResV<StmtV>, cur: int) -> bool {
    match (r, s) {
        (Result::Ok(st), PResV::Done { v, next }) => st@ == v && cur == next,
        (Result::Err(PFail::Failed(pe)), PResV::Fail { e, next }) => pe@ == e && cur == next,
        (Result::Err(PFail::Exhausted), PResV::Halt) => true,
        _ => false,
    }
}

pub open spec fn token_result_matches(r: Result<Token, ParserError>, s: PResV<TokenV>, cur: int) -> bool {
    match (r, s) {
        (Result::Ok(t), PResV::Done { v, next }) => t@ == v && cur == next,
        (Result::Err(pe), PResV::Fail { e, next }) => pe@ == e && cur == next,
        _ => false,
    }
}

pub open spec fn exprs_result_matches(r: Result<Vec<Expression>, PFail>, s: PResV<Seq<ExprV>>, cur: int) -> bool {
    match (r, s) {
        (Result::Ok(es), PResV::Done { v, next }) => view_exprs(es@) == v && cur == next,
        (Result::Err(PFail::Failed(pe)), PResV::Fail { e, next }) => pe@ == e && cur == next,
        (Result::Err(PFail::Exhausted), PResV::Halt) => true,
        _ => false,
    }
}

pub open spec fn stmts_result_matches(r: Result<Vec<Statement>, PFail>, s: PResV<Seq<StmtV>>, cur: int) -> bool {
    match (r, s) {
        (Result::Ok(ss), PResV::Done { v, next }) => view_stmts(ss@) == v && cur == next,
        (Result::Err(PFail::Failed(pe)), PResV::Fail { e, next }) => pe@ == e && cur == next,
        (Result::Err(PFail::Exhausted), PResV::Halt) => true,
        _ => false,
    }
}

/// A block statement's outcome against the model's item list.
pub open spec fn block_result_matches(r: Result<Statement, PFail>, s: PResV<Seq<StmtV>>, cur: int) -> bool {
    match (r, s) {
        (Result::Ok(st), PResV::Done { v, next }) => st@ == (StmtV::Block { statements: v })
            && cur == next,
        (Result::Err(PFail::Failed(pe)), PResV::Fail { e, next }) => pe@ == e && cur == next,
        (Result::Err(PFail::Exhausted), PResV::Halt) => true,
        _ => false,
    }
}

pub open spec fn params_result_matches(r: Result<Vec<Token>, PFail>, s: PResV<Seq<TokenV>>, cur: int) -> bool {
    match (r, s) {
        (Result::Ok(ps), PResV::Done { v, next }) => view_token_list(ps@) == v && cur == next,
        (Result::Err(PFail::Failed(pe)), PResV::Fail { e, next }) => pe@ == e && cur == next,
        (Result::Err(PFail::Exhausted), PResV::Halt) => true,
        _ => false,
    }
}

/// The recursive-descent parser over a token stream.
pub struct Parser {
    pub tokens: Vec<Token>,
    pub current: usize,
    pub errors: Vec<ParserError>,
}

impl Parser {
    /// The images of the parser's tokens.
    pub open spec fn toks(&self) -> Seq<TokenV> {
        view_token_list(self.tokens@)
    }

    /// A parser over `tokens`, with its cursor at `current`.
    pub fn new(tokens: Vec<Token>, current: usize) -> (p: Parser)
        ensures
            p.toks() == view_token_list(tokens@),
            p.current == current,
            p.errors@ == Seq::<ParserError>::empty(),
    {
        Parser { tokens, current, errors: Vec::new() }
    }

    /// A syntax error for `token` with the cause `message`.
    fn error(token: Token, message: &str) -> (pe: ParserError)
        ensures
            pe@ == (PErrV { source: token@, cause: message@ }),
    {
        ParserError { source: token, cause: String::from_str(message) }
    }

    /// Whether the cursor rests on the end-of-input token.
    fn is_at_end(&self) -> (r: bool)
        ensures
            r == sp_is_at_end(self.toks(), self.current as int),
    {
        if self.current < self.tokens.len() {
            self.tokens[self.current].token_type == TokenType::Eof
        } else {
            true
        }
    }

    /// The token under the cursor, without moving.
    fn peek(&self) -> (t: Token)
        ensures
            t@ == tok_at(self.toks(), self.current as int),
    {
        if self.current < self.tokens.len() {
            self.tokens[self.current].duplicate()
        } else {
            proof {
                reveal_strlit("");
                assert(""@ =~= Seq::<char>::empty());
            }
            Token::new(TokenType::Eof, String::from_str(""), Option::None, 0)
        }
    }

    /// The token just behind the cursor.
    fn previous(&self) -> (t: Token)
        ensures
            t@ == tok_at(self.toks(), self.current as int - 1),
    {
        if 1 <= self.current && self.current <= self.tokens.len() {
            self.tokens[self.current - 1].duplicate()
        } else {
            proof {
                reveal_strlit("");
                assert(""@ =~= Seq::<char>::empty());
            }
            Token::new(TokenType::Eof, String::from_str(""), Option::None, 0)
        }
    }

    /// Whether the next token has kind `token_type`.
    fn check(&self, token_type: TokenType) -> (r: bool)
        ensures
            r == sp_check(self.toks(), self.current as int, token_type),
    {
        if self.is_at_end() {
            false
        } else {
            self.tokens[self.current].token_type == token_type
        }
    }

    /// Yields the token under the cursor and moves past it; at the end the
    /// cursor stays put.
    fn advance(&mut self) -> (t: Token)
        ensures
            final(self).tokens@ == old(self).tokens@,
            final(self).errors@ == old(self).errors@,
            !sp_is_at_end(old(self).toks(), old(self).current as int) ==> {
                &&& final(self).current == old(self).current + 1
                &&& t@ == tok_at(old(self).toks(), old(self).current as int)
            },
            sp_is_at_end(old(self).toks(), old(self).current as int) ==> final(self).current == old(
                self,
            ).current,
    {
        let n = self.tokens.len();
        if !self.is_at_end() {
            proof {
                if self.current >= n {
                    assert(sp_is_at_end(self.toks(), self.current as int));
                }
            }
            self.current = self.current + 1;
        }
        self.previous()
    }

    /// If any of `types` is next, move past it.
    fn match_token_type(&mut self, types: Vec<TokenType>) -> (r: bool)
        ensures
            final(self).tokens@ == old(self).tokens@,
            final(self).errors@ == old(self).errors@,
            r == exists|k: int|
                0 <= k < types@.len() && sp_check(
                    old(self).toks(),
                    old(self).current as int,
                    types@[k],
                ),
            r ==> final(self).current == old(self).current + 1,
            !r ==> final(self).current == old(self).current,
    {
        let mut i: usize = 0;
        while i < types.len()
            invariant
                i <= types@.len(),
                self == old(self),
                forall|k: int|
                    0 <= k < i ==> !sp_check(
                        old(self).toks(),
                        old(self).current as int,
                        types@[k],
                    ),
            decreases types@.len() - i,
        {
            if self.check(types[i]) {
                let _ = self.advance();
                return true;
            }
            i = i + 1;
        }
        false
    }

    /// Demand the next token to be of kind `token_type`, or fail with
    /// `message`.
    fn consume(&mut self, token_type: TokenType, message: &str) -> (r: Result<Token, ParserError>)
        ensures
            final(self).tokens@ == old(self).tokens@,
            final(self).errors@ == old(self).errors@,
            token_result_matches(
                r,
                sp_consume(old(self).toks(), old(self).current as int, token_type, message@),
                final(self).current as int,
            ),
    {
        if self.check(token_type) {
            Result::Ok(self.advance())
        } else {
            let token = self.peek();
            Result::Err(Self::error(token, message))
        }
    }

    /// Panic-mode recovery: discard tokens to the next statement boundary.
    #[verifier::loop_isolation(false)]
    fn synchronize(&mut self)
        ensures
            final(self).tokens@ == old(self).tokens@,
            final(self).errors@ == old(self).errors@,
            final(self).current as int == sp_synchronize(old(self).toks(), old(self).current as int),
    {
        let _ = self.advance();
        let ghost start = self.current as int;
        while !self.is_at_end()
            invariant
                self.tokens@ == old(self).tokens@,
                self.errors@ == old(self).errors@,
                sp_sync_loop(self.toks(), start) == sp_sync_loop(self.toks(), self.current as int),
            decreases self.tokens@.len() - self.current,
        {
            proof {
                if self.current >= self.tokens@.len() {
                    assert(sp_is_at_end(self.toks(), self.current as int));
                }
            }
            let prev = self.previous();
            if prev.token_type == TokenType::Semicolon {
                return ;
            }
            let next_kind = self.tokens[self.current].token_type;
            match next_kind {
                TokenType::Class => { return ; },
                TokenType::Fun => { return ; },
                TokenType::Var => { return ; },
                TokenType::For => { return ; },
                TokenType::If => { return ; },
                TokenType::While => { return ; },
                TokenType::Return => { return ; },
                _ => {},
            }
            let _ = self.advance();
        }
    }

    // -----------------------------------------------------------------------
    // Expression rules
    // -----------------------------------------------------------------------
    fn expression(&mut self, fuel: u64) -> (r: Result<Expression, PFail>)
        ensures
            final(self).tokens@ == old(self).tokens@,
            final(self).errors@ == old(self).errors@,
            expr_result_matches(
                r,
                sp_expression(old(self).toks(), old(self).current as int, fuel as nat),
                final(self).current as int,
            ),
        decreases fuel,
    {
        proof {
            reveal_with_fuel(sp_expression, 1);
            reveal_with_fuel(sp_assignment, 1);
        }
        if fuel == 0 {
            return Result::Err(PFail::Exhausted);
        }
        self.assignment(fuel - 1)
    }

    fn assignment(&mut self, fuel: u64) -> (r: Result<Expression, PFail>)
        ensures
            final(self).tokens@ == old(self).tokens@,
            final(self).errors@ == old(self).errors@,
            expr_result_matches(
                r,
                sp_assignment(old(self).toks(), old(self).current as int, fuel as nat),
                final(self).current as int,
            ),
        decreases fuel,
    {
        proof {
            reveal_with_fuel(sp_assignment, 1);
            reveal_with_fuel(sp_ternary, 1);
        }
        if fuel == 0 {
            return Result::Err(PFail::Exhausted);
        }
        match self.ternary(fuel - 1) {
            Result::Ok(v) => {
                if self.check(TokenType::Equal) {
                    let equals = self.advance();
                    match self.assignment(fuel - 1) {
                        Result::Ok(rhs) => match v {
                            Expression::Variable(var) => Result::Ok(
                                Expression::Assignment(
                                    Box::new(Assignment { name: var.name, value: rhs }),
                                ),
                            ),
                            _ => Result::Err(
                                PFail::Failed(Self::error(equals, "Invalid Assignment Target")),
                            ),
                        },
                        Result::Err(f) => Result::Err(f),
                    }
                } else {
                    Result::Ok(v)
                }
            },
            Result::Err(f) => Result::Err(f),
        }
    }

    #[verifier::rlimit(100)]
    #[verifier::spinoff_prover]
    fn ternary(&mut self, fuel: u64) -> (r: Result<Expression, PFail>)
        ensures
            final(self).tokens@ == old(self).tokens@,
            final(self).errors@ == old(self).errors@,
            expr_result_matches(
                r,
                sp_ternary(old(self).toks(), old(self).current as int, fuel as nat),
                final(self).current as int,
            ),
        decreases fuel,
    {
        proof {
            reveal_with_fuel(sp_ternary, 1);
            reveal_with_fuel(sp_or, 1);
            reveal_with_fuel(sp_expression, 1);
        }
        if fuel == 0 {
            return Result::Err(PFail::Exhausted);
        }
        match self.or(fuel - 1) {
            Result::Ok(cond) => {
                if self.check(TokenType::Question) {
                    let _ = self.advance();
                    match self.expression(fuel - 1) {
                        Result::Ok(mid) => match self.consume(
                            TokenType::Colon,
                            "Expected ':' in ternary",
                        ) {
                            Result::Ok(_) => match self.ternary(fuel - 1) {
                                Result::Ok(rhs) => Result::Ok(
                                    Expression::Ternary(
                                        Box::new(
                                            Ternary { evaluator: cond, left: mid, right: rhs },
                                        ),
                                    ),
                                ),
                                Result::Err(f) => Result::Err(f),
                            },
                            Result::Err(pe) => Result::Err(PFail::Failed(pe)),
                        },
                        Result::Err(f) => Result::Err(f),
                    }
                } else {
                    Result::Ok(cond)
                }
            },
            Result::Err(f) => Result::Err(f),
        }
    }

    fn or(&mut self, fuel: u64) -> (r: Result<Expression, PFail>)
        ensures
            final(self).tokens@ == old(self).tokens@,
            final(self).errors@ == old(self).errors@,
            expr_result_matches(
                r,
                sp_or(old(self).toks(), old(self).current as int, fuel as nat),
                final(self).current as int,
            ),
        decreases fuel,
    {
        proof {
            reveal_with_fuel(sp_or, 1);
            reveal_with_fuel(sp_and, 1);
            reveal_with_fuel(sp_or_tail, 1);
        }
        if fuel == 0 {
            return Result::Err(PFail::Exhausted);
        }
        match self.and(fuel - 1) {
            Result::Ok(l) => self.or_tail(l, fuel - 1),
            Result::Err(f) => Result::Err(f),
        }
    }

    fn or_tail(&mut self, lhs: Expression, fuel: u64) -> (r: Result<Expression, PFail>)
        ensures
            final(self).tokens@ == old(self).tokens@,
            final(self).errors@ == old(self).errors@,
            expr_result_matches(
                r,
                sp_or_tail(old(self).toks(), lhs@, old(self).current as int, fuel as nat),
                final(self).current as int,
            ),
        decreases fuel,
    {
        proof {
            reveal_with_fuel(sp_or_tail, 1);
            reveal_with_fuel(sp_and, 1);
        }
        if fuel == 0 {
            return Result::Err(PFail::Exhausted);
        }
        if self.check(TokenType::Or) {
            let operator = self.advance();
            match self.and(fuel - 1) {
                Result::Ok(rhs) => self.or_tail(
                    Expression::Logical(Box::new(Logical { left: lhs, right: rhs, operator })),
                    fuel - 1,
                ),
                Result::Err(f) => Result::Err(f),
            }
        } else {
            Result::Ok(lhs)
        }
    }

    fn and(&mut self, fuel: u64) -> (r: Result<Expression, PFail>)
        ensures
            final(self).tokens@ == old(self).tokens@,
            final(self).errors@ == old(self).errors@,
            expr_result_matches(
                r,
                sp_and(old(self).toks(), old(self).current as int, fuel as nat),
                final(self).current as int,
            ),
        decreases fuel,
    {
        proof {
            reveal_with_fuel(sp_and, 1);
            reveal_with_fuel(sp_equality, 1);
            reveal_with_fuel(sp_and_tail, 1);
        }
        if fuel == 0 {
            return Result::Err(PFail::Exhausted);
        }
        match self.equality(fuel - 1) {
            Result::Ok(l) => self.and_tail(l, fuel - 1),
            Result::Err(f) => Result::Err(f),
        }
    }

    fn and_tail(&mut self, lhs: Expression, fuel: u64) -> (r: Result<Expression, PFail>)
        ensures
            final(self).tokens@ == old(self).tokens@,
            final(self).errors@ == old(self).errors@,
            expr_result_matches(
                r,
                sp_and_tail(old(self).toks(), lhs@, old(self).current as int, fuel as nat),
                final(self).current as int,
            ),
        decreases fuel,
    {
        proof {
            reveal_with_fuel(sp_and_tail, 1);
            reveal_with_fuel(sp_equality, 1);
        }
        if fuel == 0 {
            return Result::Err(PFail::Exhausted);
        }
        if self.check(TokenType::And) {
            let operator = self.advance();
            match self.equality(fuel - 1) {
                Result::Ok(rhs) => self.and_tail(
                    Expression::Logical(Box::new(Logical { left: lhs, right: rhs, operator })),
                    fuel - 1,
                ),
                Result::Err(f) => Result::Err(f),
            }
        } else {
            Result::Ok(lhs)
        }
    }

    fn equality(&mut self, fuel: u64) -> (r: Result<Expression, PFail>)
        ensures
            final(self).tokens@ == old(self).tokens@,
            final(self).errors@ == old(self).errors@,
            expr_result_matches(
                r,
                sp_equality(old(self).toks(), old(self).current as int, fuel as nat),
                final(self).current as int,
            ),
        decreases fuel,
    {
        proof {
            reveal_with_fuel(sp_equality, 1);
            reveal_with_fuel(sp_comparison, 1);
            reveal_with_fuel(sp_equality_tail, 1);
        }
        if fuel == 0 {
            return Result::Err(PFail::Exhausted);
        }
        match self.comparison(fuel - 1) {
            Result::Ok(l) => self.equality_tail(l, fuel - 1),
            Result::Err(f) => Result::Err(f),
        }
    }

    fn equality_tail(&mut self, lhs: Expression, fuel: u64) -> (r: Result<Expression, PFail>)
        ensures
            final(self).tokens@ == old(self).tokens@,
            final(self).errors@ == old(self).errors@,
            expr_result_matches(
                r,
                sp_equality_tail(old(self).toks(), lhs@, old(self).current as int, fuel as nat),
                final(self).current as int,
            ),
        decreases fuel,
    {
        proof {
            reveal_with_fuel(sp_equality_tail, 1);
            reveal_with_fuel(sp_comparison, 1);
        }
        if fuel == 0 {
            return Result::Err(PFail::Exhausted);
        }
        if self.check(TokenType::BangEqual) || self.check(TokenType::EqualEqual) {
            let operator = self.advance();
            match self.comparison(fuel - 1) {
                Result::Ok(rhs) => self.equality_tail(
                    Expression::Binary(Box::new(Binary { operator, left: lhs, right: rhs })),
                    fuel - 1,
                ),
                Result::Err(f) => Result::Err(f),
            }
        } else {
            Result::Ok(lhs)
        }
    }

    fn comparison(&mut self, fuel: u64) -> (r: Result<Expression, PFail>)
        ensures
            final(self).tokens@ == old(self).tokens@,
            final(self).errors@ == old(self).errors@,
            expr_result_matches(
                r,
                sp_comparison(old(self).toks(), old(self).current as int, fuel as nat),
                final(self).current as int,
            ),
        decreases fuel,
    {
        proof {
            reveal_with_fuel(sp_comparison, 1);
            reveal_with_fuel(sp_term, 1);
            reveal_with_fuel(sp_comparison_tail, 1);
        }
        if fuel == 0 {
            return Result::Err(PFail::Exhausted);
        }
        match self.term(fuel - 1) {
            Result::Ok(l) => self.comparison_tail(l, fuel - 1),
            Result::Err(f) => Result::Err(f),
        }
    }

    #[verifier::rlimit(100)]
    fn comparison_tail(&mut self, lhs: Expression, fuel: u64) -> (r: Result<Expression, PFail>)
        ensures
            final(self).tokens@ == old(self).tokens@,
            final(self).errors@ == old(self).errors@,
            expr_result_matches(
                r,
                sp_comparison_tail(old(self).toks(), lhs@, old(self).current as int, fuel as nat),
                final(self).current as int,
            ),
        decreases fuel,
    {
        proof {
            reveal_with_fuel(sp_comparison_tail, 1);
            reveal_with_fuel(sp_term, 1);
        }
        if fuel == 0 {
            return Result::Err(PFail::Exhausted);
        }
        if self.check(TokenType::Greater) || self.check(TokenType::GreaterEqual) || self.check(
            TokenType::Less,
        ) || self.check(TokenType::LessEqual) {
            let operator = self.advance();
            match self.term(fuel - 1) {
                Result::Ok(rhs) => self.comparison_tail(
                    Expression::Binary(Box::new(Binary { operator, left: lhs, right: rhs })),
                    fuel - 1,
                ),
                Result::Err(f) => Result::Err(f),
            }
        } else {
            Result::Ok(lhs)
        }
    }

    fn term(&mut self, fuel: u64) -> (r: Result<Expression, PFail>)
        ensures
            final(self).tokens@ == old(self).tokens@,
            final(self).errors@ == old(self).errors@,
            expr_result_matches(
                r,
                sp_term(old(self).toks(), old(self).current as int, fuel as nat),
                final(self).current as int,
            ),
        decreases fuel,
    {
        proof {
            reveal_with_fuel(sp_term, 1);
            reveal_with_fuel(sp_factor, 1);
            reveal_with_fuel(sp_term_tail, 1);
        }
        if fuel == 0 {
            return Result::Err(PFail::Exhausted);
        }
        match self.factor(fuel - 1) {
            Result::Ok(l) => self.term_tail(l, fuel - 1),
            Result::Err(f) => Result::Err(f),
        }
    }

    #[verifier::rlimit(100)]
    #[verifier::spinoff_prover]
    fn term_tail(&mut self, lhs: Expression, fuel: u64) -> (r: Result<Expression, PFail>)
        ensures
            final(self).tokens@ == old(self).tokens@,
            final(self).errors@ == old(self).errors@,
            expr_result_matches(
                r,
                sp_term_tail(old(self).toks(), lhs@, old(self).current as int, fuel as nat),
                final(self).current as int,
            ),
        decreases fuel,
    {
        proof {
            reveal_with_fuel(sp_term_tail, 1);
            reveal_with_fuel(sp_factor, 1);
        }
        if fuel == 0 {
            return Result::Err(PFail::Exhausted);
        }
        if self.check(TokenType::Minus) || self.check(TokenType::Plus) {
            let operator = self.advance();
            match self.factor(fuel - 1) {
                Result::Ok(rhs) => self.term_tail(
                    Expression::Binary(Box::new(Binary { operator, left: lhs, right: rhs })),
                    fuel - 1,
                ),
                Result::Err(f) => Result::Err(f),
            }
        } else {
            Result::Ok(lhs)
        }
    }

    fn factor(&mut self, fuel: u64) -> (r: Result<Expression, PFail>)
        ensures
            final(self).tokens@ == old(self).tokens@,
            final(self).errors@ == old(self).errors@,
            expr_result_matches(
                r,
                sp_factor(old(self).toks(), old(self).current as int, fuel as nat),
                final(self).current as int,
            ),
        decreases fuel,
    {
        proof {
            reveal_with_fuel(sp_factor, 1);
            reveal_with_fuel(sp_unary, 1);
            reveal_with_fuel(sp_factor_tail, 1);
        }
        if fuel == 0 {
            return Result::Err(PFail::Exhausted);
        }
        match self.unary(fuel - 1) {
            Result::Ok(l) => self.factor_tail(l, fuel - 1),
            Result::Err(f) => Result::Err(f),
        }
    }

    fn factor_tail(&mut self, lhs: Expression, fuel: u64) -> (r: Result<Expression, PFail>)
        ensures
            final(self).tokens@ == old(self).tokens@,
            final(self).errors@ == old(self).errors@,
            expr_result_matches(
                r,
                sp_factor_tail(old(self).toks(), lhs@, old(self).current as int, fuel as nat),
                final(self).current as int,
            ),
        decreases fuel,
    {
        proof {
            reveal_with_fuel(sp_factor_tail, 1);
            reveal_with_fuel(sp_unary, 1);
        }
        if fuel == 0 {
            return Result::Err(PFail::Exhausted);
        }
        if self.check(TokenType::Slash) || self.check(TokenType::Star) {
            let operator = self.advance();
            match self.unary(fuel - 1) {
                Result::Ok(rhs) => self.factor_tail(
                    Expression::Binary(Box::new(Binary { operator, left: lhs, right: rhs })),
                    fuel - 1,
                ),
                Result::Err(f) => Result::Err(f),
            }
        } else {
            Result::Ok(lhs)
        }
    }

    fn unary(&mut self, fuel: u64) -> (r: Result<Expression, PFail>)
        ensures
            final(self).tokens@ == old(self).tokens@,
            final(self).errors@ == old(self).errors@,
            expr_result_matches(
                r,
                sp_unary(old(self).toks(), old(self).current as int, fuel as nat),
                final(self).current as int,
            ),
        decreases fuel,
    {
        proof {
            reveal_with_fuel(sp_unary, 1);
            reveal_with_fuel(sp_call, 1);
        }
        if fuel == 0 {
            return Result::Err(PFail::Exhausted);
        }
        if self.check(TokenType::Bang) || self.check(TokenType::Minus) {
            let operator = self.advance();
            match self.unary(fuel - 1) {
                Result::Ok(operand) => Result::Ok(
                    Expression::Unary(Box::new(Unary { operator, operand })),
                ),
                Result::Err(f) => Result::Err(f),
            }
        } else {
            self.call(fuel - 1)
        }
    }

    fn call(&mut self, fuel: u64) -> (r: Result<Expression, PFail>)
        ensures
            final(self).tokens@ == old(self).tokens@,
            final(self).errors@ == old(self).errors@,
            expr_result_matches(
                r,
                sp_call(old(self).toks(), old(self).current as int, fuel as nat),
                final(self).current as int,
            ),
        decreases fuel,
    {
        proof {
            reveal_with_fuel(sp_call, 1);
            reveal_with_fuel(sp_primary, 1);
            reveal_with_fuel(sp_call_tail, 1);
        }
        if fuel == 0 {
            return Result::Err(PFail::Exhausted);
        }
        match self.primary(fuel - 1) {
            Result::Ok(c) => self.call_tail(c, fuel - 1),
            Result::Err(f) => Result::Err(f),
        }
    }

    fn call_tail(&mut self, callee: Expression, fuel: u64) -> (r: Result<Expression, PFail>)
        ensures
            final(self).tokens@ == old(self).tokens@,
            final(self).errors@ == old(self).errors@,
            expr_result_matches(
                r,
                sp_call_tail(old(self).toks(), callee@, old(self).current as int, fuel as nat),
                final(self).current as int,
            ),
        decreases fuel,
    {
        proof {
            reveal_with_fuel(sp_call_tail, 1);
            reveal_with_fuel(sp_finish_call, 1);
        }
        if fuel == 0 {
            return Result::Err(PFail::Exhausted);
        }
        if self.check(TokenType::LeftParen) {
            let _ = self.advance();
            match self.finish_call(callee, fuel - 1) {
                Result::Ok(v) => self.call_tail(v, fuel - 1),
                Result::Err(f) => Result::Err(f),
            }
        } else {
            Result::Ok(callee)
        }
    }

    #[verifier::rlimit(100)]
    #[verifier::spinoff_prover]
    fn finish_call(&mut self, callee: Expression, fuel: u64) -> (r: Result<Expression, PFail>)
        ensures
            final(self).tokens@ == old(self).tokens@,
            final(self).errors@ == old(self).errors@,
            expr_result_matches(
                r,
                sp_finish_call(old(self).toks(), callee@, old(self).current as int, fuel as nat),
                final(self).current as int,
            ),
        decreases fuel,
    {
        proof {
            reveal_with_fuel(sp_finish_call, 1);
            reveal_with_fuel(sp_args, 1);
        }
        if fuel == 0 {
            return Result::Err(PFail::Exhausted);
        }
        if self.check(TokenType::RightParen) {
            let paren = self.advance();
            let arguments: Vec<Expression> = Vec::new();
            proof {
                assert(view_exprs(arguments@) =~= Seq::<ExprV>::empty());
            }
            return Result::Ok(Expression::Call(Box::new(Call { callee, paren, arguments })));
        }
        match self.arguments(fuel - 1) {
            Result::Ok(args) => match self.consume(TokenType::RightParen, "Expect ')' after arguments ") {
                Result::Ok(paren) => Result::Ok(
                    Expression::Call(Box::new(Call { callee, paren, arguments: args })),
                ),
                Result::Err(pe) => Result::Err(PFail::Failed(pe)),
            },
            Result::Err(f) => Result::Err(f),
        }
    }

    fn arguments(&mut self, fuel: u64) -> (r: Result<Vec<Expression>, PFail>)
        ensures
            final(self).tokens@ == old(self).tokens@,
            final(self).errors@ == old(self).errors@,
            exprs_result_matches(
                r,
                sp_args(old(self).toks(), old(self).current as int, fuel as nat),
                final(self).current as int,
            ),
        decreases fuel,
    {
        proof {
            reveal_with_fuel(sp_args, 1);
            reveal_with_fuel(sp_expression, 1);
        }
        if fuel == 0 {
            return Result::Err(PFail::Exhausted);
        }
        match self.expression(fuel - 1) {
            Result::Ok(v) => {
                if self.check(TokenType::Comma) {
                    let _ = self.advance();
                    match self.arguments(fuel - 1) {
                        Result::Ok(mut rest) => {
                            let ghost v0 = v@;
                            let ghost rest0 = rest@;
                            let mut out: Vec<Expression> = Vec::new();
                            out.push(v);
                            out.append(&mut rest);
                            proof {
                                lemma_view_exprs(out@);
                                lemma_view_exprs(rest0);
                                assert(view_exprs(out@) =~= seq![v0] + view_exprs(rest0));
                            }
                            Result::Ok(out)
                        },
                        Result::Err(f) => Result::Err(f),
                    }
                } else {
                    let ghost v0 = v@;
                    let mut out: Vec<Expression> = Vec::new();
                    out.push(v);
                    proof {
                        lemma_view_exprs(out@);
                        assert(view_exprs(out@) =~= seq![v0]);
                    }
                    Result::Ok(out)
                }
            },
            Result::Err(f) => Result::Err(f),
        }
    }

    #[verifier::rlimit(100)]
    fn primary(&mut self, fuel: u64) -> (r: Result<Expression, PFail>)
        ensures
            final(self).tokens@ == old(self).tokens@,
            final(self).errors@ == old(self).errors@,
            expr_result_matches(
                r,
                sp_primary(old(self).toks(), old(self).current as int, fuel as nat),
                final(self).current as int,
            ),
        decreases fuel,
    {
        proof {
            reveal_with_fuel(sp_primary, 1);
            reveal_with_fuel(sp_expression, 1);
        }
        if fuel == 0 {
            return Result::Err(PFail::Exhausted);
        }
        if self.check(TokenType::False) || self.check(TokenType::True) || self.check(
            TokenType::Nil,
        ) || self.check(TokenType::Number) || self.check(TokenType::String) {
            let t = self.advance();
            let value: Value = match t.literal {
                Option::Some(v) => v,
                Option::None => Value::Nil,
            };
            Result::Ok(Expression::Literal(Box::new(Literal { value })))
        } else if self.check(TokenType::LeftParen) {
            let _ = self.advance();
            match self.expression(fuel - 1) {
                Result::Ok(e) => match self.consume(
                    TokenType::RightParen,
                    "Expect ')' after grouping expression.",
                ) {
                    Result::Ok(_) => Result::Ok(
                        Expression::Grouping(Box::new(Grouping { expression: e })),
                    ),
                    Result::Err(pe) => Result::Err(PFail::Failed(pe)),
                },
                Result::Err(f) => Result::Err(f),
            }
        } else if self.check(TokenType::Identifier) {
            let t = self.advance();
            Result::Ok(Expression::Variable(Box::new(Variable { name: t })))
        } else {
            let t = self.peek();
            let cause = String::from_str("Not in Parser AST: '").concat(t.lexeme.as_str()).concat(
                "'",
            );
            Result::Err(PFail::Failed(ParserError { source: t, cause }))
        }
    }

    // -----------------------------------------------------------------------
    // Statement rules
    // -----------------------------------------------------------------------
    fn statement(&mut self, fuel: u64) -> (r: Result<Statement, PFail>)
        ensures
            final(self).tokens@ == old(self).tokens@,
            final(self).errors@ == old(self).errors@,
            stmt_result_matches(
                r,
                sp_statement(old(self).toks(), old(self).current as int, fuel as nat),
                final(self).current as int,
            ),
        decreases fuel,
    {
        proof {
            reveal_with_fuel(sp_statement, 1);
            reveal_with_fuel(sp_if_statement, 1);
            reveal_with_fuel(sp_return_statement, 1);
            reveal_with_fuel(sp_while_statement, 1);
            reveal_with_fuel(sp_for_statement, 1);
            reveal_with_fuel(sp_block_items, 1);
            reveal_with_fuel(sp_expression_statement, 1);
        }
        if fuel == 0 {
            return Result::Err(PFail::Exhausted);
        }
        if self.check(TokenType::If) {
            let _ = self.advance();
            self.if_statement(fuel - 1)
        } else if self.check(TokenType::Return) {
            let _ = self.advance();
            self.return_statement(fuel - 1)
        } else if self.check(TokenType::While) {
            let _ = self.advance();
            self.while_statement(fuel - 1)
        } else if self.check(TokenType::For) {
            let _ = self.advance();
            self.for_statement(fuel - 1)
        } else if self.check(TokenType::LeftBrace) {
            let _ = self.advance();
            self.block_statement(fuel - 1)
        } else {
            self.expression_statement(fuel - 1)
        }
    }

    fn expression_statement(&mut self, fuel: u64) -> (r: Result<Statement, PFail>)
        ensures
            final(self).tokens@ == old(self).tokens@,
            final(self).errors@ == old(self).errors@,
            stmt_result_matches(
                r,
                sp_expression_statement(old(self).toks(), old(self).current as int, fuel as nat),
                final(self).current as int,
            ),
        decreases fuel,
    {
        proof {
            reveal_with_fuel(sp_expression_statement, 1);
            reveal_with_fuel(sp_expression, 1);
        }
        if fuel == 0 {
            return Result::Err(PFail::Exhausted);
        }
        match self.expression(fuel - 1) {
            Result::Ok(expression) => match self.consume(
                TokenType::Semicolon,
                "Expected ';' after expression",
            ) {
                Result::Ok(_) => Result::Ok(
                    Statement::Expression(ExpressionStatement { expression }),
                ),
                Result::Err(pe) => Result::Err(PFail::Failed(pe)),
            },
            Result::Err(f) => Result::Err(f),
        }
    }

    /// The items of a block, up to and including the closing brace.
    fn block_items(&mut self, fuel: u64) -> (r: Result<Vec<Statement>, PFail>)
        ensures
            final(self).tokens@ == old(self).tokens@,
            final(self).errors@ == old(self).errors@,
            stmts_result_matches(
                r,
                sp_block_items(old(self).toks(), old(self).current as int, fuel as nat),
                final(self).current as int,
            ),
        decreases fuel, 0int,
    {
        proof {
            reveal_with_fuel(sp_block_items, 1);
            reveal_with_fuel(sp_declaration, 1);
        }
        if fuel == 0 {
            return Result::Err(PFail::Exhausted);
        }
        if self.check(TokenType::RightBrace) {
            let _ = self.advance();
            let out: Vec<Statement> = Vec::new();
            proof {
                assert(view_stmts(out@) =~= Seq::<StmtV>::empty());
            }
            return Result::Ok(out);
        }
        if self.is_at_end() {
            let out: Vec<Statement> = Vec::new();
            proof {
                assert(view_stmts(out@) =~= Seq::<StmtV>::empty());
            }
            return Result::Ok(out);
        }
        match self.declaration(fuel - 1) {
            Result::Ok(s) => match self.block_items(fuel - 1) {
                Result::Ok(mut rest) => {
                    let ghost s0 = s@;
                    let ghost rest0 = rest@;
                    let mut out: Vec<Statement> = Vec::new();
                    out.push(s);
                    out.append(&mut rest);
                    proof {
                        lemma_view_stmts(out@);
                        lemma_view_stmts(rest0);
                        assert(view_stmts(out@) =~= seq![s0] + view_stmts(rest0));
                    }
                    Result::Ok(out)
                },
                Result::Err(f) => Result::Err(f),
            },
            Result::Err(f) => Result::Err(f),
        }
    }

    /// A braced block, as a statement.
    fn block_statement(&mut self, fuel: u64) -> (r: Result<Statement, PFail>)
        ensures
            final(self).tokens@ == old(self).tokens@,
            final(self).errors@ == old(self).errors@,
            block_result_matches(
                r,
                sp_block_items(old(self).toks(), old(self).current as int, fuel as nat),
                final(self).current as int,
            ),
        decreases fuel, 1int,
    {
        match self.block_items(fuel) {
            Result::Ok(statements) => Result::Ok(Statement::Block(BlockStatement { statements })),
            Result::Err(f) => Result::Err(f),
        }
    }

    fn if_statement(&mut self, fuel: u64) -> (r: Result<Statement, PFail>)
        ensures
            final(self).tokens@ == old(self).tokens@,
            final(self).errors@ == old(self).errors@,
            stmt_result_matches(
                r,
                sp_if_statement(old(self).toks(), old(self).current as int, fuel as nat),
                final(self).current as int,
            ),
        decreases fuel,
    {
        proof {
            reveal_with_fuel(sp_if_statement, 1);
            reveal_with_fuel(sp_expression, 1);
            reveal_with_fuel(sp_statement, 1);
        }
        if fuel == 0 {
            return Result::Err(PFail::Exhausted);
        }
        match self.consume(TokenType::LeftParen, "Expected \"(\" after if statement") {
            Result::Err(pe) => {
                return Result::Err(PFail::Failed(pe));
            },
            Result::Ok(_) => {},
        }
        let condition = match self.expression(fuel - 1) {
            Result::Ok(e) => e,
            Result::Err(f) => {
                return Result::Err(f);
            },
        };
        match self.consume(TokenType::RightParen, "Expected \")\" after if statement") {
            Result::Err(pe) => {
                return Result::Err(PFail::Failed(pe));
            },
            Result::Ok(_) => {},
        }
        let then_branch = match self.statement(fuel - 1) {
            Result::Ok(st) => st,
            Result::Err(f) => {
                return Result::Err(f);
            },
        };
        if self.check(TokenType::Else) {
            let _ = self.advance();
            let else_branch = match self.statement(fuel - 1) {
                Result::Ok(st) => st,
                Result::Err(f) => {
                    return Result::Err(f);
                },
            };
            Result::Ok(
                Statement::If(
                    IfStatement {
                        condition,
                        then_branch: Box::new(then_branch),
                        else_branch: Box::new(Option::Some(else_branch)),
                    },
                ),
            )
        } else {
            Result::Ok(
                Statement::If(
                    IfStatement {
                        condition,
                        then_branch: Box::new(then_branch),
                        else_branch: Box::new(Option::None),
                    },
                ),
            )
        }
    }

    fn while_statement(&mut self, fuel: u64) -> (r: Result<Statement, PFail>)
        ensures
            final(self).tokens@ == old(self).tokens@,
            final(self).errors@ == old(self).errors@,
            stmt_result_matches(
                r,
                sp_while_statement(old(self).toks(), old(self).current as int, fuel as nat),
                final(self).current as int,
            ),
        decreases fuel,
    {
        proof {
            reveal_with_fuel(sp_while_statement, 1);
            reveal_with_fuel(sp_expression, 1);
            reveal_with_fuel(sp_statement, 1);
        }
        if fuel == 0 {
            return Result::Err(PFail::Exhausted);
        }
        match self.consume(TokenType::LeftParen, "Expect '(' after while.") {
            Result::Err(pe) => {
                return Result::Err(PFail::Failed(pe));
            },
            Result::Ok(_) => {},
        }
        let condition = match self.expression(fuel - 1) {
            Result::Ok(e) => e,
            Result::Err(f) => {
                return Result::Err(f);
            },
        };
        match self.consume(TokenType::RightParen, "Expect ')' after while condition.") {
            Result::Err(pe) => {
                return Result::Err(PFail::Failed(pe));
            },
            Result::Ok(_) => {},
        }
        let body = match self.statement(fuel - 1) {
            Result::Ok(st) => st,
            Result::Err(f) => {
                return Result::Err(f);
            },
        };
        Result::Ok(Statement::While(WhileStatement { condition, body: Box::new(body) }))
    }

    fn return_statement(&mut self, fuel: u64) -> (r: Result<Statement, PFail>)
        ensures
            final(self).tokens@ == old(self).tokens@,
            final(self).errors@ == old(self).errors@,
            stmt_result_matches(
                r,
                sp_return_statement(old(self).toks(), old(self).current as int, fuel as nat),
                final(self).current as int,
            ),
        decreases fuel,
    {
        proof {
            reveal_with_fuel(sp_return_statement, 1);
            reveal_with_fuel(sp_expression, 1);
        }
        if fuel == 0 {
            return Result::Err(PFail::Exhausted);
        }
        let keyword = self.previous();
        if self.check(TokenType::Semicolon) {
            let _ = self.advance();
            return Result::Ok(Statement::Return(ReturnStatement { keyword, value: Option::None }));
        }
        let value = match self.expression(fuel - 1) {
            Result::Ok(e) => e,
            Result::Err(f) => {
                return Result::Err(f);
            },
        };
        match self.consume(TokenType::Semicolon, "Expected ';' after return") {
            Result::Ok(_) => Result::Ok(
                Statement::Return(ReturnStatement { keyword, value: Option::Some(value) }),
            ),
            Result::Err(pe) => Result::Err(PFail::Failed(pe)),
        }
    }

    #[verifier::rlimit(100)]
    #[verifier::spinoff_prover]
    fn for_statement(&mut self, fuel: u64) -> (r: Result<Statement, PFail>)
        ensures
            final(self).tokens@ == old(self).tokens@,
            final(self).errors@ == old(self).errors@,
            stmt_result_matches(
                r,
                sp_for_statement(old(self).toks(), old(self).current as int, fuel as nat),
                final(self).current as int,
            ),
        decreases fuel,
    {
        proof {
            reveal_with_fuel(sp_for_statement, 1);
            reveal_with_fuel(sp_variable_declaration, 1);
            reveal_with_fuel(sp_expression_statement, 1);
            reveal_with_fuel(sp_expression, 1);
            reveal_with_fuel(sp_statement, 1);
        }
        if fuel == 0 {
            return Result::Err(PFail::Exhausted);
        }
        match self.consume(TokenType::LeftParen, "Expect '(' after for.") {
            Result::Err(pe) => {
                return Result::Err(PFail::Failed(pe));
            },
            Result::Ok(_) => {},
        }
        // Initializer: empty, a declaration, or an expression statement.
        let initializer: Option<Statement> = if self.check(TokenType::Semicolon) {
            let _ = self.advance();
            Option::None
        } else if self.check(TokenType::Var) {
            let _ = self.advance();
            match self.variable_declaration(fuel - 1) {
                Result::Ok(st) => Option::Some(st),
                Result::Err(f) => {
                    return Result::Err(f);
                },
            }
        } else {
            match self.expression_statement(fuel - 1) {
                Result::Ok(st) => Option::Some(st),
                Result::Err(f) => {
                    return Result::Err(f);
                },
            }
        };
        let condition: Option<Expression> = if self.check(TokenType::Semicolon) {
            Option::None
        } else {
            match self.expression(fuel - 1) {
                Result::Ok(e) => Option::Some(e),
                Result::Err(f) => {
                    return Result::Err(f);
                },
            }
        };
        match self.consume(TokenType::Semicolon, "Expect ';' after increment part.") {
            Result::Err(pe) => {
                return Result::Err(PFail::Failed(pe));
            },
            Result::Ok(_) => {},
        }
        let increment: Option<Expression> = if self.check(TokenType::RightParen) {
            Option::None
        } else {
            match self.expression(fuel - 1) {
                Result::Ok(e) => Option::Some(e),
                Result::Err(f) => {
                    return Result::Err(f);
                },
            }
        };
        match self.consume(TokenType::RightParen, "Expect ')' after condition block.") {
            Result::Err(pe) => {
                return Result::Err(PFail::Failed(pe));
            },
            Result::Ok(_) => {},
        }
        let body = match self.statement(fuel - 1) {
            Result::Ok(st) => st,
            Result::Err(f) => {
                return Result::Err(f);
            },
        };
        // Desugar: wrap the increment behind the body, default the condition
        // to true, and put the initializer in front.
        let ghost init_v: Option<StmtV> = match &initializer {
            Option::Some(st) => Option::Some(st@),
            Option::None => Option::None,
        };
        let ghost cond_v: Option<ExprV> = match &condition {
            Option::Some(e) => Option::Some(e@),
            Option::None => Option::None,
        };
        let ghost inc_v: Option<ExprV> = match &increment {
            Option::Some(e) => Option::Some(e@),
            Option::None => Option::None,
        };
        let ghost body_v = body@;
        let body1: Statement = match increment {
            Option::Some(inc) => {
                let mut statements: Vec<Statement> = Vec::new();
                statements.push(body);
                statements.push(Statement::Expression(ExpressionStatement { expression: inc }));
                proof {
                    lemma_view_stmts(statements@);
                    assert(view_stmts(statements@) =~= seq![
                        body_v,
                        StmtV::Expression { expression: inc_v.unwrap() },
                    ]);
                }
                Statement::Block(BlockStatement { statements })
            },
            Option::None => body,
        };
        let cond1: Expression = match condition {
            Option::Some(c) => c,
            Option::None => Expression::Literal(
                Box::new(Literal { value: Value::Boolean(true) }),
            ),
        };
        let ghost body1_at = body1@;
        let ghost cond1_v = cond1@;
        let whole = Statement::While(WhileStatement { condition: cond1, body: Box::new(body1) });
        let ghost whole_v = whole@;
        let result: Statement = match initializer {
            Option::Some(init) => {
                let mut statements: Vec<Statement> = Vec::new();
                statements.push(init);
                statements.push(whole);
                proof {
                    lemma_view_stmts(statements@);
                    assert(view_stmts(statements@) =~= seq![init_v.unwrap(), whole_v]);
                }
                Statement::Block(BlockStatement { statements })
            },
            Option::None => whole,
        };
        proof {
            let spec_body1 = match inc_v {
                Option::Some(iv) => StmtV::Block {
                    statements: seq![body_v, StmtV::Expression { expression: iv }],
                },
                Option::None => body_v,
            };
            assert(body1_at =~~= spec_body1);
            let spec_cond = match cond_v {
                Option::Some(c) => c,
                Option::None => ExprV::Literal { value: ValueV::Boolean(true) },
            };
            assert(cond1_v =~~= spec_cond);
            assert(whole_v =~~= (StmtV::While { condition: spec_cond, body: Box::new(spec_body1) }));
            assert(result@ =~~= sp_for_desugar(init_v, cond_v, inc_v, body_v));
        }
        Result::Ok(result)
    }

    fn variable_declaration(&mut self, fuel: u64) -> (r: Result<Statement, PFail>)
        ensures
            final(self).tokens@ == old(self).tokens@,
            final(self).errors@ == old(self).errors@,
            stmt_result_matches(
                r,
                sp_variable_declaration(old(self).toks(), old(self).current as int, fuel as nat),
                final(self).current as int,
            ),
        decreases fuel,
    {
        proof {
            reveal_with_fuel(sp_variable_declaration, 1);
            reveal_with_fuel(sp_expression, 1);
        }
        if fuel == 0 {
            return Result::Err(PFail::Exhausted);
        }
        let name = match self.consume(TokenType::Identifier, "Expected Identifier for Variable") {
            Result::Ok(t) => t,
            Result::Err(pe) => {
                return Result::Err(PFail::Failed(pe));
            },
        };
        let initalizer: Option<Expression> = if self.check(TokenType::Equal) {
            let _ = self.advance();
            match self.expression(fuel - 1) {
                Result::Ok(e) => Option::Some(e),
                Result::Err(f) => {
                    return Result::Err(f);
                },
            }
        } else {
            Option::None
        };
        match self.consume(TokenType::Semicolon, "Expected \";\" following statement") {
            Result::Ok(_) => Result::Ok(Statement::Variable(VariableStatement { name, initalizer })),
            Result::Err(pe) => Result::Err(PFail::Failed(pe)),
        }
    }

    /// One or more comma-separated parameter names.
    fn parameters(&mut self, fuel: u64) -> (r: Result<Vec<Token>, PFail>)
        ensures
            final(self).tokens@ == old(self).tokens@,
            final(self).errors@ == old(self).errors@,
            params_result_matches(
                r,
                sp_params(old(self).toks(), old(self).current as int, fuel as nat),
                final(self).current as int,
            ),
        decreases fuel,
    {
        proof {
            reveal_with_fuel(sp_params, 1);
        }
        if fuel == 0 {
            return Result::Err(PFail::Exhausted);
        }
        let p = match self.consume(TokenType::Identifier, "Expected Parameter name") {
            Result::Ok(t) => t,
            Result::Err(pe) => {
                return Result::Err(PFail::Failed(pe));
            },
        };
        if self.check(TokenType::Comma) {
            let _ = self.advance();
            match self.parameters(fuel - 1) {
                Result::Ok(mut rest) => {
                    let ghost p0 = p@;
                    let ghost rest0 = rest@;
                    let mut out: Vec<Token> = Vec::new();
                    out.push(p);
                    out.append(&mut rest);
                    proof {
                        assert(view_token_list(out@) =~= seq![p0] + view_token_list(rest0));
                    }
                    Result::Ok(out)
                },
                Result::Err(f) => Result::Err(f),
            }
        } else {
            let ghost p0 = p@;
            let mut out: Vec<Token> = Vec::new();
            out.push(p);
            proof {
                assert(view_token_list(out@) =~= seq![p0]);
            }
            Result::Ok(out)
        }
    }

    fn function_declaration(&mut self, fuel: u64) -> (r: Result<Statement, PFail>)
        ensures
            final(self).tokens@ == old(self).tokens@,
            final(self).errors@ == old(self).errors@,
            stmt_result_matches(
                r,
                sp_function_declaration(old(self).toks(), old(self).current as int, fuel as nat),
                final(self).current as int,
            ),
        decreases fuel,
    {
        proof {
            reveal_with_fuel(sp_function_declaration, 1);
            reveal_with_fuel(sp_params, 1);
            reveal_with_fuel(sp_block_items, 1);
        }
        if fuel == 0 {
            return Result::Err(PFail::Exhausted);
        }
        let name = match self.consume(TokenType::Identifier, "Expect function name") {
            Result::Ok(t) => t,
            Result::Err(pe) => {
                return Result::Err(PFail::Failed(pe));
            },
        };
        match self.consume(TokenType::LeftParen, "Expect ( after function") {
            Result::Err(pe) => {
                return Result::Err(PFail::Failed(pe));
            },
            Result::Ok(_) => {},
        }
        let parameters: Vec<Token> = if self.check(TokenType::RightParen) {
            let _ = self.advance();
            let out: Vec<Token> = Vec::new();
            proof {
                assert(view_token_list(out@) =~= Seq::<TokenV>::empty());
            }
            out
        } else {
            let ps = match self.parameters(fuel - 1) {
                Result::Ok(ps) => ps,
                Result::Err(f) => {
                    return Result::Err(f);
                },
            };
            match self.consume(TokenType::RightParen, "Expected ) after parameters for function") {
                Result::Err(pe) => {
                    return Result::Err(PFail::Failed(pe));
                },
                Result::Ok(_) => {},
            }
            ps
        };
        match self.consume(TokenType::LeftBrace, "Expected '{' after function statement") {
            Result::Err(pe) => {
                return Result::Err(PFail::Failed(pe));
            },
            Result::Ok(_) => {},
        }
        let body = match self.block_items(fuel - 1) {
            Result::Ok(b) => b,
            Result::Err(f) => {
                return Result::Err(f);
            },
        };
        Result::Ok(Statement::Function(FunctionStatement { name, parameters, body }))
    }

    /// A declaration: `fun`, `var`, or any statement, synchronizing on a
    /// syntax error.
    fn declaration(&mut self, fuel: u64) -> (r: Result<Statement, PFail>)
        ensures
            final(self).tokens@ == old(self).tokens@,
            final(self).errors@ == old(self).errors@,
            stmt_result_matches(
                r,
                sp_declaration(old(self).toks(), old(self).current as int, fuel as nat),
                final(self).current as int,
            ),
        decreases fuel,
    {
        proof {
            reveal_with_fuel(sp_declaration, 1);
            reveal_with_fuel(sp_function_declaration, 1);
            reveal_with_fuel(sp_variable_declaration, 1);
            reveal_with_fuel(sp_statement, 1);
        }
        if fuel == 0 {
            return Result::Err(PFail::Exhausted);
        }
        let r: Result<Statement, PFail> = if self.check(TokenType::Fun) {
            let _ = self.advance();
            self.function_declaration(fuel - 1)
        } else if self.check(TokenType::Var) {
            let _ = self.advance();
            self.variable_declaration(fuel - 1)
        } else {
            self.statement(fuel - 1)
        };
        match r {
            Result::Err(PFail::Failed(pe)) => {
                self.synchronize();
                Result::Err(PFail::Failed(pe))
            },
            other => other,
        }
    }

    /// Parses the remaining declarations, collecting statements and errors.
    fn parse_rest(&mut self, fuel: u64) -> (statements: Vec<Statement>)
        ensures
            final(self).tokens@ == old(self).tokens@,
            ({
                let p = sp_program(old(self).toks(), old(self).current as int, fuel as nat);
                &&& view_stmts(statements@) == p.stmts
                &&& perrs_view(final(self).errors@) == perrs_view(old(self).errors@) + p.errs
            }),
        decreases fuel,
    {
        proof {
            reveal_with_fuel(sp_program, 1);
            reveal_with_fuel(sp_declaration, 1);
        }
        if fuel == 0 {
            let t = self.peek();
            let pe = ParserError {
                source: t,
                cause: String::from_str("Parser descent budget exhausted"),
            };
            self.errors.push(pe);
            let out: Vec<Statement> = Vec::new();
            proof {
                assert(view_stmts(out@) =~= Seq::<StmtV>::empty());
                assert(perrs_view(self.errors@) =~= perrs_view(old(self).errors@) + seq![
                    halt_error(old(self).toks(), old(self).current as int),
                ]);
            }
            return out;
        }
        if self.is_at_end() {
            let out: Vec<Statement> = Vec::new();
            proof {
                assert(view_stmts(out@) =~= Seq::<StmtV>::empty());
                assert(perrs_view(self.errors@) =~= perrs_view(old(self).errors@));
            }
            return out;
        }
        let entry_cur = self.current;
        match self.declaration(fuel - 1) {
            Result::Ok(s) => {
                let ghost s0 = s@;
                let mut rest = self.parse_rest(fuel - 1);
                let ghost rest0 = rest@;
                let mut out: Vec<Statement> = Vec::new();
                out.push(s);
                out.append(&mut rest);
                proof {
                    lemma_view_stmts(out@);
                    lemma_view_stmts(rest0);
                    assert(view_stmts(out@) =~= seq![s0] + view_stmts(rest0));
                }
                out
            },
            Result::Err(PFail::Failed(pe)) => {
                let ghost pev = pe@;
                self.errors.push(pe);
                proof {
                    assert(perrs_view(self.errors@) =~= perrs_view(old(self).errors@) + seq![pev]);
                }
                let ghost mid_errors = self.errors@;
                let ghost mid_cur = self.current as int;
                let out = self.parse_rest(fuel - 1);
                proof {
                    let p = sp_program(old(self).toks(), old(self).current as int, fuel as nat);
                    let rest = sp_program(old(self).toks(), mid_cur, (fuel - 1) as nat);
                    assert(p.errs == seq![pev] + rest.errs);
                    assert(perrs_view(self.errors@) == perrs_view(mid_errors) + rest.errs);
                    assert(perrs_view(self.errors@) =~= perrs_view(old(self).errors@) + p.errs);
                }
                out
            },
            Result::Err(PFail::Exhausted) => {
                self.current = entry_cur;
                let t = self.peek();
                let pe = ParserError {
                    source: t,
                    cause: String::from_str("Parser descent budget exhausted"),
                };
                self.errors.push(pe);
                let out: Vec<Statement> = Vec::new();
                proof {
                    assert(view_stmts(out@) =~= Seq::<StmtV>::empty());
                    assert(perrs_view(self.errors@) =~= perrs_view(old(self).errors@) + seq![
                        halt_error(old(self).toks(), old(self).current as int),
                    ]);
                }
                out
            },
        }
    }

    /// Parses the whole token stream: as many top-level declarations as can
    /// be collected; each statement that fails to parse is discarded after
    /// synchronization and its error recorded in `errors`.
    pub fn parse(&mut self) -> (statements: Vec<Statement>)
        ensures
            final(self).tokens@ == old(self).tokens@,
            ({
                let p = sp_program(
                    old(self).toks(),
                    old(self).current as int,
                    parse_fuel(old(self).toks().len()),
                );
                &&& view_stmts(statements@) == p.stmts
                &&& perrs_view(final(self).errors@) == perrs_view(old(self).errors@) + p.errs
            }),
    {
        let n: u64 = self.tokens.len() as u64;
        let fuel: u64 = if n < 0x0010_0000_0000_0000 {
            n * 256 + 256
        } else {
            0xffff_ffff_ffff_ffff
        };
        proof {
            assert(fuel as nat == parse_fuel(self.toks().len()));
        }
        self.parse_rest(fuel)
    }
}

} // verus!
