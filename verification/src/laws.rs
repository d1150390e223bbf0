//! Laws of the language, proved against the evaluator's model: what the
//! arithmetic operators compute, how string concatenation stringifies, that
//! block scoping cannot leak, that closures read through their defining
//! scope, and that the logical operators short-circuit.

use vstd::prelude::*;

use crate::ast::ExprV;
use crate::enviroment::BindingV;
use crate::enviroment::EnvV;
use crate::enviroment::ScopeV;
use crate::enviroment::env_define;
use crate::enviroment::env_get;
use crate::enviroment::env_push;
use crate::float::f64_add;
use crate::float::f64_div;
use crate::float::f64_mul;
use crate::float::f64_sub;
use crate::interpreter::EvalV;
use crate::interpreter::FlowV;
use crate::interpreter::StateV;
use crate::interpreter::ev_expr;
use crate::interpreter::ex_stmt;
use crate::ast::StmtV;
use crate::token::TokenType;
use crate::token::TokenV;
use crate::value::ValueV;
use crate::value::v_add;
use crate::value::v_display;

verus! {

/// A number literal, as an expression.
pub open spec fn num_lit(bits: u64) -> ExprV {
    ExprV::Literal { value: ValueV::Number(bits) }
}

/// An arithmetic binary expression over two number literals evaluates, with
/// no error and no other effect, to the IEEE-754 binary64 operation applied
/// to the two numbers.
pub proof fn lemma_binary_arithmetic_is_ieee(
    st: StateV,
    op: TokenV,
    a: u64,
    b: u64,
    fuel: nat,
)
    requires
        fuel >= 2,
        op.token_type == TokenType::Plus || op.token_type == TokenType::Minus || op.token_type
            == TokenType::Star || op.token_type == TokenType::Slash,
    ensures
        ev_expr(
            st,
            ExprV::Binary { operator: op, left: Box::new(num_lit(a)), right: Box::new(num_lit(b)) },
            fuel,
        ) == EvalV::Val(
            st,
            ValueV::Number(
                if op.token_type == TokenType::Plus {
                    f64_add(a, b)
                } else if op.token_type == TokenType::Minus {
                    f64_sub(a, b)
                } else if op.token_type == TokenType::Star {
                    f64_mul(a, b)
                } else {
                    f64_div(a, b)
                },
            ),
        ),
{
    reveal_with_fuel(ev_expr, 2);
}

/// String `+` stringifies any right operand: the result is the left string
/// followed by the right operand's display form, and no mismatch is
/// reported.
pub proof fn lemma_string_concat_stringifies(s: Seq<char>, v: ValueV)
    ensures
        v_add(ValueV::Str(s), v).v == ValueV::Str(s + v_display(v)),
        !v_add(ValueV::Str(s), v).err,
{
}

/// String concatenation is associative left-to-right: folding `+` over
/// three strings either way yields the characters of all three in order.
pub proof fn lemma_string_concat_associates(a: Seq<char>, b: Seq<char>, c: Seq<char>)
    ensures
        v_add(v_add(ValueV::Str(a), ValueV::Str(b)).v, ValueV::Str(c)).v == ValueV::Str(
            a + b + c,
        ),
        v_add(ValueV::Str(a), v_add(ValueV::Str(b), ValueV::Str(c)).v).v == ValueV::Str(
            a + b + c,
        ),
{
    assert((a + b) + c =~= a + (b + c));
}

/// Defining a name touches only the current scope: every other scope of the
/// chain is exactly what it was, so an inner declaration cannot leak into or
/// mutate an outer scope.
pub proof fn lemma_define_touches_only_current(env: EnvV, name: Seq<char>, value: ValueV, i: int)
    requires
        0 <= i < env.scopes.len(),
        i != env.cur,
    ensures
        env_define(env, name, value).scopes[i] == env.scopes[i],
        env_define(env, name, value).cur == env.cur,
{
}

/// Executing a block leaves the current-scope index exactly where it was:
/// the scope a block pushes is abandoned on exit, however the block ends.
pub proof fn lemma_block_restores_scope(st: StateV, statements: Seq<StmtV>, fuel: nat)
    requires
        fuel >= 1,
    ensures
        (match ex_stmt(st, StmtV::Block { statements }, fuel) {
            FlowV::Norm(st2) => st2.env.cur == st.env.cur,
            FlowV::Ret(st2, _) => st2.env.cur == st.env.cur,
            FlowV::Stop(st2) => st2.env.cur == st.env.cur,
        }),
{
    reveal_with_fuel(ex_stmt, 1);
}

/// A lookup never reads a scope above its starting index, so pushing a new
/// scope changes no lookup that starts inside the old arena.
pub proof fn lemma_env_get_ignores_pushed(
    scopes: Seq<ScopeV>,
    fresh: ScopeV,
    i: int,
    name: Seq<char>,
)
    requires
        0 <= i < scopes.len(),
    ensures
        env_get(scopes.push(fresh), i, name) == env_get(scopes, i, name),
    decreases i,
{
    let bigger = scopes.push(fresh);
    assert(bigger[i] == scopes[i]);
    match bigger[i].parent {
        Option::Some(p) => {
            if 0 <= p < i {
                lemma_env_get_ignores_pushed(scopes, fresh, p, name);
            }
        },
        Option::None => {},
    }
}

/// Closures capture by reference to the defining scope: a name read from a
/// freshly pushed call scope whose enclosing scope is `p` resolves exactly
/// as it does from scope `p` itself — through the environment as it is NOW,
/// so later mutations of the captured scope are observed.
pub proof fn lemma_fresh_scope_reads_through_parent(env: EnvV, p: int, name: Seq<char>)
    requires
        0 <= p < env.scopes.len(),
    ensures
        env_get(env_push(env, p).scopes, env_push(env, p).cur, name) == env_get(
            env.scopes,
            p,
            name,
        ),
{
    let pushed = env_push(env, p);
    assert(pushed.scopes[pushed.cur].entries =~= Seq::<BindingV>::empty());
    lemma_env_get_ignores_pushed(
        env.scopes,
        ScopeV { parent: Option::Some(p), entries: Seq::empty() },
        p,
        name,
    );
}

/// `false and e` never evaluates `e`: the whole expression is `false`, in
/// exactly the state the left operand left behind.
pub proof fn lemma_and_short_circuits(
    st: StateV,
    op: TokenV,
    left: Box<ExprV>,
    right: Box<ExprV>,
    st1: StateV,
    fuel: nat,
)
    requires
        fuel >= 1,
        op.token_type == TokenType::And,
        ev_expr(st, *left, (fuel - 1) as nat) == EvalV::Val(st1, ValueV::Boolean(false)),
    ensures
        ev_expr(st, ExprV::Logical { operator: op, left, right }, fuel) == EvalV::Val(
            st1,
            ValueV::Boolean(false),
        ),
{
    reveal_with_fuel(ev_expr, 1);
}

/// `true or e` never evaluates `e`: the whole expression is `true`, in
/// exactly the state the left operand left behind.
pub proof fn lemma_or_short_circuits(
    st: StateV,
    op: TokenV,
    left: Box<ExprV>,
    right: Box<ExprV>,
    st1: StateV,
    fuel: nat,
)
    requires
        fuel >= 1,
        op.token_type == TokenType::Or,
        ev_expr(st, *left, (fuel - 1) as nat) == EvalV::Val(st1, ValueV::Boolean(true)),
    ensures
        ev_expr(st, ExprV::Logical { operator: op, left, right }, fuel) == EvalV::Val(
            st1,
            ValueV::Boolean(true),
        ),
{
    reveal_with_fuel(ev_expr, 1);
}

} // verus!
