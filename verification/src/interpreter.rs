//! The tree-walking evaluator: executes statements and evaluates expressions
//! against the scope chain, with an explicit control-flow result (`Normal`
//! or `Returned`) threaded through statement execution rather than any
//! unwinding.
//!
//! The first half is the mathematical model: a fuelled big-step evaluator
//! over expression and statement images.  The fuel bounds the total number
//! of evaluation steps, so that unbounded script recursion or looping ends
//! in a reported halt instead of running forever; the budget granted is far
//! beyond what the intended workloads spend.  Runtime errors are lenient:
//! they are reported and evaluation goes on with a fallback value.  The one
//! uniform policy for a non-boolean condition (`if`, `while`, logical
//! operators, ternary) is: report it, and take the branch falsehood would
//! take.
//!
//! The executable `Interpreter` below is proved to step exactly as the
//! model says.

use vstd::prelude::*;

use crate::ast::ExprV;
use crate::ast::Expression;
use crate::ast::Statement;
use crate::ast::StmtV;
use crate::ast::view_exprs;
use crate::ast::view_stmts;
use crate::ast::view_token_list;
use crate::ast::lemma_view_exprs;
use crate::ast::lemma_view_stmts;
use crate::ast::duplicate_statements;
use crate::diagnostic::DiagV;
use crate::diagnostic::Diagnostic;
use crate::diagnostic::diags_view;
use crate::enviroment::EnvV;
use crate::enviroment::Enviroment;
use crate::enviroment::env_assign;
use crate::enviroment::env_define;
use crate::enviroment::env_get;
use crate::enviroment::env_push;
use crate::enviroment::env_restore;
use crate::float::clock_seconds;
use crate::float::f64_neg;
use crate::float::neg_bits;
use crate::float::u64_bits;
use crate::token::Token;
use crate::token::TokenType;
use crate::token::TokenV;
use crate::value::FunV;
use crate::value::Function;
use crate::value::OpResV;
use crate::value::TokenKindArith;
use crate::value::TokenKindCmp;
use crate::value::Value;
use crate::value::ValueV;
use crate::value::v_add;
use crate::value::v_arith;
use crate::value::v_compare;
use crate::value::v_display;
use crate::value::v_equal;
use crate::value::value_add;
use crate::value::value_arith;
use crate::value::value_compare;
use crate::value::value_equal;

verus! {

/// The number of evaluation steps an execution may spend.
pub const EXEC_FUEL: u64 = 1000000;

pub open spec fn exec_fuel() -> nat {
    EXEC_FUEL as nat
}

/// A user-defined function: its declaration and the scope it captured when
/// it was declared (its closure).
#[derive(Debug)]
pub struct FunctionDef {
    pub name: Token,
    pub parameters: Vec<Token>,
    pub body: Vec<Statement>,
    pub closure: usize,
}

/// The mathematical image of a function definition.
#[verifier::ext_equal]
pub struct FunDefV {
    pub name: TokenV,
    pub parameters: Seq<TokenV>,
    pub body: Seq<StmtV>,
    pub closure: int,
}

impl FunctionDef {
    pub open spec fn view(&self) -> FunDefV {
        FunDefV {
            name: self.name@,
            parameters: view_token_list(self.parameters@),
            body: view_stmts(self.body@),
            closure: self.closure as int,
        }
    }
}

/// The whole interpreter state: the scope chain, the table of user-defined
/// functions, everything printed so far, every runtime diagnostic so far,
/// and the bits of the number the `clock` built-in reports (sampled when
/// the interpreter was created).
#[verifier::ext_equal]
pub struct StateV {
    pub env: EnvV,
    pub funcs: Seq<FunDefV>,
    pub output: Seq<Seq<char>>,
    pub diags: Seq<DiagV>,
    pub clock: u64,
}

/// `st` with one more diagnostic.
pub open spec fn push_diag(st: StateV, line: u32, message: Seq<char>) -> StateV {
    StateV { diags: st.diags.push(DiagV { line, message }), ..st }
}

/// `st` with its current-scope index restored to `cur`.
pub open spec fn restore_state(st: StateV, cur: int) -> StateV {
    StateV { env: env_restore(st.env, cur), ..st }
}

/// What evaluating an expression yields: a value (evaluation is lenient and
/// always produces one), or a halt because the step budget ran out.
pub enum EvalV {
    Val(StateV, ValueV),
    Stop(StateV),
}

/// What evaluating an argument list yields.
pub enum ArgsV {
    Vals(StateV, Seq<ValueV>),
    Stop(StateV),
}

/// What executing a statement yields: normal completion, a non-local
/// `return` carrying a value, or a halt.
pub enum FlowV {
    Norm(StateV),
    Ret(StateV, ValueV),
    Stop(StateV),
}

/// The images of a vector of values.
pub open spec fn values_view(s: Seq<Value>) -> Seq<ValueV> {
    Seq::new(s.len(), |i: int| s[i]@)
}

/// `!=` on values: the negation of `==`, with the same mismatch reporting.
pub open spec fn v_not_equal(a: ValueV, b: ValueV) -> OpResV {
    let e = v_equal(a, b);
    match e.v {
        ValueV::Boolean(t) => OpResV { v: ValueV::Boolean(!t), err: e.err },
        _ => e,
    }
}

/// The value and mismatch flag of a binary operator, or nothing if the
/// token is no binary operator at all.
pub open spec fn binary_op_res(k: TokenType, a: ValueV, b: ValueV) -> Option<OpResV> {
    if k == TokenType::Plus {
        Option::Some(v_add(a, b))
    } else if k == TokenType::Minus {
        Option::Some(v_arith(TokenKindArith::Sub, a, b))
    } else if k == TokenType::Star {
        Option::Some(v_arith(TokenKindArith::Mul, a, b))
    } else if k == TokenType::Slash {
        Option::Some(v_arith(TokenKindArith::Div, a, b))
    } else if k == TokenType::Greater {
        Option::Some(v_compare(TokenKindCmp::Gt, a, b))
    } else if k == TokenType::GreaterEqual {
        Option::Some(v_compare(TokenKindCmp::Ge, a, b))
    } else if k == TokenType::Less {
        Option::Some(v_compare(TokenKindCmp::Lt, a, b))
    } else if k == TokenType::LessEqual {
        Option::Some(v_compare(TokenKindCmp::Le, a, b))
    } else if k == TokenType::EqualEqual {
        Option::Some(v_equal(a, b))
    } else if k == TokenType::BangEqual {
        Option::Some(v_not_equal(a, b))
    } else {
        Option::None
    }
}

/// The arity a callable demands.
pub open spec fn arity_of(st: StateV, f: FunV) -> int {
    match f {
        FunV::Clock => 0,
        FunV::Print => 1,
        FunV::Println => 1,
        FunV::User { id, .. } => if 0 <= id < st.funcs.len() {
            st.funcs[id].parameters.len() as int
        } else {
            0
        },
    }
}

/// The first argument, or nil if none was given.
pub open spec fn first_arg(args: Seq<ValueV>) -> ValueV {
    if args.len() >= 1 {
        args[0]
    } else {
        ValueV::Nil
    }
}

/// `st` after the print natives: the display form of the first argument is
/// appended to the output.
pub open spec fn print_out(st: StateV, args: Seq<ValueV>) -> StateV {
    StateV { output: st.output.push(v_display(first_arg(args))), ..st }
}

/// The call environment: each parameter from `j` on bound to its argument
/// (or nil where arguments ran short), in order.
pub open spec fn bind_params(env: EnvV, params: Seq<TokenV>, args: Seq<ValueV>, j: int) -> EnvV
    decreases params.len() - j,
{
    if j < 0 || j >= params.len() {
        env
    } else {
        let v = if j < args.len() {
            args[j]
        } else {
            ValueV::Nil
        };
        bind_params(env_define(env, params[j].lexeme, v), params, args, j + 1)
    }
}

// ---------------------------------------------------------------------------
// The big-step evaluator
// ---------------------------------------------------------------------------
/// One expression, evaluated.
#[verifier::opaque]
pub open spec fn ev_expr(st: StateV, e: ExprV, fuel: nat) -> EvalV
    decreases fuel,
{
    if fuel == 0 {
        EvalV::Stop(st)
    } else {
        match e {
            ExprV::Literal { value } => EvalV::Val(st, value),
            ExprV::Grouping { expression } => ev_expr(st, *expression, (fuel - 1) as nat),
            ExprV::Unary { operator, operand } => match ev_expr(st, *operand, (fuel - 1) as nat) {
                EvalV::Val(st1, v) => {
                    let k = operator.token_type;
                    if k == TokenType::Minus {
                        match v {
                            ValueV::Number(b) => EvalV::Val(st1, ValueV::Number(f64_neg(b))),
                            _ => EvalV::Val(push_diag(st1, operator.line, "Type Mismatch"@), v),
                        }
                    } else if k == TokenType::Bang {
                        match v {
                            ValueV::Boolean(t) => EvalV::Val(st1, ValueV::Boolean(!t)),
                            _ => EvalV::Val(push_diag(st1, operator.line, "Type Mismatch"@), v),
                        }
                    } else {
                        EvalV::Val(
                            push_diag(
                                st1,
                                operator.line,
                                "Operator not defined for this operation"@,
                            ),
                            ValueV::Nil,
                        )
                    }
                },
                EvalV::Stop(s) => EvalV::Stop(s),
            },
            ExprV::Binary { operator, left, right } => match ev_expr(st, *left, (fuel - 1) as nat) {
                EvalV::Val(st1, lv) => match ev_expr(st1, *right, (fuel - 1) as nat) {
                    EvalV::Val(st2, rv) => match binary_op_res(operator.token_type, lv, rv) {
                        Option::Some(o) => EvalV::Val(
                            if o.err {
                                push_diag(st2, operator.line, "Type Mismatch"@)
                            } else {
                                st2
                            },
                            o.v,
                        ),
                        Option::None => EvalV::Val(
                            push_diag(
                                st2,
                                operator.line,
                                "Operator not defined for this operation"@,
                            ),
                            ValueV::Nil,
                        ),
                    },
                    EvalV::Stop(s) => EvalV::Stop(s),
                },
                EvalV::Stop(s) => EvalV::Stop(s),
            },
            ExprV::Ternary { evaluator, left, right } => match ev_expr(
                st,
                *evaluator,
                (fuel - 1) as nat,
            ) {
                EvalV::Val(st1, v) => match v {
                    ValueV::Boolean(t) => if t {
                        ev_expr(st1, *left, (fuel - 1) as nat)
                    } else {
                        ev_expr(st1, *right, (fuel - 1) as nat)
                    },
                    _ => ev_expr(
                        push_diag(st1, 0, "Condition must be a Boolean"@),
                        *right,
                        (fuel - 1) as nat,
                    ),
                },
                EvalV::Stop(s) => EvalV::Stop(s),
            },
            ExprV::Logical { operator, left, right } => match ev_expr(
                st,
                *left,
                (fuel - 1) as nat,
            ) {
                EvalV::Val(st1, v) => match v {
                    ValueV::Boolean(t) => {
                        if operator.token_type == TokenType::Or {
                            if t {
                                EvalV::Val(st1, ValueV::Boolean(true))
                            } else {
                                ev_expr(st1, *right, (fuel - 1) as nat)
                            }
                        } else {
                            if !t {
                                EvalV::Val(st1, ValueV::Boolean(false))
                            } else {
                                ev_expr(st1, *right, (fuel - 1) as nat)
                            }
                        }
                    },
                    _ => {
                        let st2 = push_diag(st1, operator.line, "Condition must be a Boolean"@);
                        if operator.token_type == TokenType::Or {
                            ev_expr(st2, *right, (fuel - 1) as nat)
                        } else {
                            EvalV::Val(st2, ValueV::Boolean(false))
                        }
                    },
                },
                EvalV::Stop(s) => EvalV::Stop(s),
            },
            ExprV::Variable { name } => match env_get(st.env.scopes, st.env.cur, name.lexeme) {
                Option::Some(v) => EvalV::Val(st, v),
                Option::None => EvalV::Val(
                    push_diag(st, name.line, "Variable not found: "@ + name.lexeme),
                    ValueV::Nil,
                ),
            },
            ExprV::Assignment { name, value } => match ev_expr(st, *value, (fuel - 1) as nat) {
                EvalV::Val(st1, v) => match env_assign(st1.env, name.lexeme, v) {
                    Option::Some(envp) => EvalV::Val(StateV { env: envp, ..st1 }, v),
                    Option::None => EvalV::Val(
                        push_diag(
                            st1,
                            name.line,
                            "Assignement failed on "@ + name.lexeme + "."@,
                        ),
                        v,
                    ),
                },
                EvalV::Stop(s) => EvalV::Stop(s),
            },
            ExprV::Call { callee, paren, arguments } => match ev_expr(
                st,
                *callee,
                (fuel - 1) as nat,
            ) {
                EvalV::Val(st1, c) => match ev_args(st1, arguments, 0, (fuel - 1) as nat) {
                    ArgsV::Vals(st2, vals) => call_value(st2, c, vals, paren.line, (fuel - 1) as nat),
                    ArgsV::Stop(s) => EvalV::Stop(s),
                },
                EvalV::Stop(s) => EvalV::Stop(s),
            },
        }
    }
}

/// The arguments from `i` on, evaluated left to right.
#[verifier::opaque]
pub open spec fn ev_args(st: StateV, es: Seq<ExprV>, i: int, fuel: nat) -> ArgsV
    decreases fuel,
{
    if fuel == 0 {
        ArgsV::Stop(st)
    } else if i < 0 || i >= es.len() {
        ArgsV::Vals(st, Seq::empty())
    } else {
        match ev_expr(st, es[i], (fuel - 1) as nat) {
            EvalV::Val(st1, v) => match ev_args(st1, es, i + 1, (fuel - 1) as nat) {
                ArgsV::Vals(st2, rest) => ArgsV::Vals(st2, seq![v] + rest),
                ArgsV::Stop(s) => ArgsV::Stop(s),
            },
            EvalV::Stop(s) => ArgsV::Stop(s),
        }
    }
}

/// A callable applied to evaluated arguments.  A non-callable callee is
/// reported and yields nil; an arity mismatch is reported and the call still
/// proceeds, parameters beyond the arguments being bound to nil.  A user
/// function runs its body in a fresh scope whose enclosing scope is the
/// function's closure (never the caller's scope), with the function's own
/// name re-bound inside it to allow recursion; a `return` unwinds to here,
/// and a body that completes without one yields nil.
#[verifier::opaque]
pub open spec fn call_value(st: StateV, callee: ValueV, args: Seq<ValueV>, line: u32, fuel: nat) -> EvalV
    decreases fuel,
{
    if fuel == 0 {
        EvalV::Stop(st)
    } else {
        match callee {
            ValueV::Callable(f) => {
                let st1 = if args.len() == arity_of(st, f) {
                    st
                } else {
                    push_diag(st, line, "Arity mismatch: wrong number of arguments"@)
                };
                match f {
                    FunV::Clock => EvalV::Val(st1, ValueV::Number(st1.clock)),
                    FunV::Print => EvalV::Val(print_out(st1, args), ValueV::Nil),
                    FunV::Println => EvalV::Val(print_out(st1, args), ValueV::Nil),
                    FunV::User { id, .. } => if 0 <= id < st1.funcs.len() {
                        let fd = st1.funcs[id];
                        let saved = st1.env.cur;
                        let env1 = env_push(st1.env, fd.closure);
                        let env2 = bind_params(env1, fd.parameters, args, 0);
                        let env3 = env_define(env2, fd.name.lexeme, callee);
                        let st2 = StateV { env: env3, ..st1 };
                        match ex_stmts(st2, fd.body, 0, (fuel - 1) as nat) {
                            FlowV::Ret(st3, v) => EvalV::Val(restore_state(st3, saved), v),
                            FlowV::Norm(st3) => EvalV::Val(
                                restore_state(st3, saved),
                                ValueV::Nil,
                            ),
                            FlowV::Stop(st3) => EvalV::Stop(restore_state(st3, saved)),
                        }
                    } else {
                        EvalV::Val(st1, ValueV::Nil)
                    },
                }
            },
            _ => EvalV::Val(
                push_diag(st, line, "Cannot call a value that is not a function"@),
                ValueV::Nil,
            ),
        }
    }
}

/// One statement, executed.
#[verifier::opaque]
pub open spec fn ex_stmt(st: StateV, s: StmtV, fuel: nat) -> FlowV
    decreases fuel,
{
    if fuel == 0 {
        FlowV::Stop(st)
    } else {
        match s {
            StmtV::Expression { expression } => match ev_expr(st, expression, (fuel - 1) as nat) {
                EvalV::Val(st1, _) => FlowV::Norm(st1),
                EvalV::Stop(s1) => FlowV::Stop(s1),
            },
            StmtV::Variable { name, initalizer } => {
                let after_init: EvalV = match initalizer {
                    Option::Some(e) => ev_expr(st, e, (fuel - 1) as nat),
                    Option::None => EvalV::Val(st, ValueV::Nil),
                };
                match after_init {
                    EvalV::Val(st1, v) => FlowV::Norm(
                        StateV { env: env_define(st1.env, name.lexeme, v), ..st1 },
                    ),
                    EvalV::Stop(s1) => FlowV::Stop(s1),
                }
            },
            StmtV::If { condition, then_branch, else_branch } => match ev_expr(
                st,
                condition,
                (fuel - 1) as nat,
            ) {
                EvalV::Val(st1, v) => match v {
                    ValueV::Boolean(t) => if t {
                        ex_stmt(st1, *then_branch, (fuel - 1) as nat)
                    } else {
                        match else_branch {
                            Option::Some(e) => ex_stmt(st1, *e, (fuel - 1) as nat),
                            Option::None => FlowV::Norm(st1),
                        }
                    },
                    _ => {
                        let st2 = push_diag(st1, 0, "Condition must be a Boolean"@);
                        match else_branch {
                            Option::Some(e) => ex_stmt(st2, *e, (fuel - 1) as nat),
                            Option::None => FlowV::Norm(st2),
                        }
                    },
                },
                EvalV::Stop(s1) => FlowV::Stop(s1),
            },
            StmtV::While { condition, body } => ev_while(st, condition, *body, (fuel - 1) as nat),
            StmtV::Block { statements } => {
                let saved = st.env.cur;
                let st1 = StateV { env: env_push(st.env, saved), ..st };
                match ex_stmts(st1, statements, 0, (fuel - 1) as nat) {
                    FlowV::Norm(st2) => FlowV::Norm(restore_state(st2, saved)),
                    FlowV::Ret(st2, v) => FlowV::Ret(restore_state(st2, saved), v),
                    FlowV::Stop(st2) => FlowV::Stop(restore_state(st2, saved)),
                }
            },
            StmtV::Function { name, parameters, body } => {
                let id = st.funcs.len() as int;
                let fd = FunDefV { name, parameters, body, closure: st.env.cur };
                let fun_value = ValueV::Callable(FunV::User { id, name: name.lexeme });
                FlowV::Norm(
                    StateV {
                        funcs: st.funcs.push(fd),
                        env: env_define(st.env, name.lexeme, fun_value),
                        ..st
                    },
                )
            },
            StmtV::Return { keyword: _, value } => {
                let after: EvalV = match value {
                    Option::Some(e) => ev_expr(st, e, (fuel - 1) as nat),
                    Option::None => EvalV::Val(st, ValueV::Nil),
                };
                match after {
                    EvalV::Val(st1, v) => FlowV::Ret(st1, v),
                    EvalV::Stop(s1) => FlowV::Stop(s1),
                }
            },
        }
    }
}

/// The statements from `i` on, executed in order; a `return` short-circuits
/// past the rest.
#[verifier::opaque]
pub open spec fn ex_stmts(st: StateV, ss: Seq<StmtV>, i: int, fuel: nat) -> FlowV
    decreases fuel,
{
    if fuel == 0 {
        FlowV::Stop(st)
    } else if i < 0 || i >= ss.len() {
        FlowV::Norm(st)
    } else {
        match ex_stmt(st, ss[i], (fuel - 1) as nat) {
            FlowV::Norm(st1) => ex_stmts(st1, ss, i + 1, (fuel - 1) as nat),
            FlowV::Ret(st1, v) => FlowV::Ret(st1, v),
            FlowV::Stop(st1) => FlowV::Stop(st1),
        }
    }
}

/// A `while` loop: the condition must be a boolean; a non-boolean condition
/// is reported and ends the loop, as falsehood would.
#[verifier::opaque]
pub open spec fn ev_while(st: StateV, condition: ExprV, body: StmtV, fuel: nat) -> FlowV
    decreases fuel,
{
    if fuel == 0 {
        FlowV::Stop(st)
    } else {
        match ev_expr(st, condition, (fuel - 1) as nat) {
            EvalV::Val(st1, v) => match v {
                ValueV::Boolean(t) => if t {
                    match ex_stmt(st1, body, (fuel - 1) as nat) {
                        FlowV::Norm(st2) => ev_while(st2, condition, body, (fuel - 1) as nat),
                        FlowV::Ret(st2, rv) => FlowV::Ret(st2, rv),
                        FlowV::Stop(st2) => FlowV::Stop(st2),
                    }
                } else {
                    FlowV::Norm(st1)
                },
                _ => FlowV::Norm(push_diag(st1, 0, "Condition must be a Boolean"@)),
            },
            EvalV::Stop(s1) => FlowV::Stop(s1),
        }
    }
}

/// A whole program: every top-level statement in order, a top-level
/// `return` treated as an ordinary statement result, and a halt reported
/// once and ending execution.
#[verifier::opaque]
pub open spec fn interp_program(st: StateV, ss: Seq<StmtV>, i: int, fuel: nat) -> StateV
    decreases fuel,
{
    if fuel == 0 {
        push_diag(st, 0, "Execution step budget exhausted"@)
    } else if i < 0 || i >= ss.len() {
        st
    } else {
        match ex_stmt(st, ss[i], (fuel - 1) as nat) {
            FlowV::Norm(st1) => interp_program(st1, ss, i + 1, (fuel - 1) as nat),
            FlowV::Ret(st1, _) => interp_program(st1, ss, i + 1, (fuel - 1) as nat),
            FlowV::Stop(st1) => push_diag(st1, 0, "Execution step budget exhausted"@),
        }
    }
}

/// The state a fresh interpreter starts from: one global scope holding the
/// native functions, and a clock reading of `clock`.
pub open spec fn init_state(clock: u64) -> StateV {
    let env0 = EnvV {
        scopes: seq![
            crate::enviroment::ScopeV { parent: Option::None, entries: Seq::empty() },
        ],
        cur: 0,
    };
    let env1 = env_define(env0, "clock"@, ValueV::Callable(FunV::Clock));
    let env2 = env_define(env1, "print"@, ValueV::Callable(FunV::Print));
    let env3 = env_define(env2, "println"@, ValueV::Callable(FunV::Println));
    StateV {
        env: env3,
        funcs: Seq::empty(),
        output: Seq::empty(),
        diags: Seq::empty(),
        clock,
    }
}

// ---------------------------------------------------------------------------
// The executable interpreter
// ---------------------------------------------------------------------------
/// Execution was cut off: the step budget ran out.
#[derive(Debug)]
pub struct Stopped {}

/// The result of one statement: normal completion, or a `return` carrying
/// its value up to the nearest call boundary.
#[derive(Debug)]
pub enum Flow {
    Normal,
    Returned(Value),
}

pub open spec fn eval_matches(r: Result<Value, Stopped>, ev: EvalV, post: StateV) -> bool {
    match (r, ev) {
        (Result::Ok(v), EvalV::Val(st, vv)) => v@ == vv && post == st,
        (Result::Err(_), EvalV::Stop(st)) => post == st,
        _ => false,
    }
}

pub open spec fn args_matches(r: Result<Vec<Value>, Stopped>, av: ArgsV, post: StateV) -> bool {
    match (r, av) {
        (Result::Ok(vs), ArgsV::Vals(st, vv)) => values_view(vs@) == vv && post == st,
        (Result::Err(_), ArgsV::Stop(st)) => post == st,
        _ => false,
    }
}

pub open spec fn flow_matches(r: Result<Flow, Stopped>, fv: FlowV, post: StateV) -> bool {
    match (r, fv) {
        (Result::Ok(Flow::Normal), FlowV::Norm(st)) => post == st,
        (Result::Ok(Flow::Returned(v)), FlowV::Ret(st, vv)) => v@ == vv && post == st,
        (Result::Err(_), FlowV::Stop(st)) => post == st,
        _ => false,
    }
}

/// The tree-walking interpreter: the scope chain, the user-function table,
/// the collected output of the print natives, the runtime diagnostics, and
/// the clock reading the `clock` built-in reports.
#[derive(Debug)]
pub struct Interpreter {
    pub enviroment: Enviroment,
    pub functions: Vec<FunctionDef>,
    pub output: Vec<String>,
    pub errors: Vec<Diagnostic>,
    pub clock_bits: u64,
}

/// An owned copy of a token list, with the same images.
fn duplicate_tokens(v: &Vec<Token>) -> (r: Vec<Token>)
    ensures
        view_token_list(r@) == view_token_list(v@),
{
    let mut r: Vec<Token> = Vec::new();
    let mut i: usize = 0;
    while i < v.len()
        invariant
            i <= v@.len(),
            r@.len() == i,
            forall|k: int| 0 <= k < i ==> r@[k]@ == v@[k]@,
        decreases v@.len() - i,
    {
        let d = v[i].duplicate();
        r.push(d);
        i = i + 1;
    }
    proof {
        assert(view_token_list(r@) =~= view_token_list(v@));
    }
    r
}

impl Interpreter {
    pub open spec fn view(&self) -> StateV {
        StateV {
            env: self.enviroment@,
            funcs: Seq::new(self.functions@.len(), |i: int| self.functions@[i]@),
            output: Seq::new(self.output@.len(), |i: int| self.output@[i]@),
            diags: diags_view(self.errors@),
            clock: self.clock_bits,
        }
    }

    /// A fresh interpreter: one global scope pre-populated with the native
    /// functions `clock`, `print` and `println`, and the wall clock sampled
    /// once for the `clock` built-in.
    pub fn new() -> (it: Interpreter)
        ensures
            it@ == init_state(it@.clock),
    {
        let mut enviroment = Enviroment::new();
        enviroment.define(&String::from_str("clock"), Value::Callable(Function::Clock));
        enviroment.define(&String::from_str("print"), Value::Callable(Function::Print));
        enviroment.define(&String::from_str("println"), Value::Callable(Function::Println));
        let secs = clock_seconds();
        let clock_bits = u64_bits(secs);
        let it = Interpreter {
            enviroment,
            functions: Vec::new(),
            output: Vec::new(),
            errors: Vec::new(),
            clock_bits,
        };
        proof {
            assert(it@.funcs =~= Seq::<FunDefV>::empty());
            assert(it@.output =~= Seq::<Seq<char>>::empty());
            assert(it@.diags =~= Seq::<DiagV>::empty());
            assert(it@ =~~= init_state(it.clock_bits));
        }
        it
    }

    /// Reports a runtime diagnostic; evaluation goes on.
    fn report(&mut self, line: u32, message: String)
        ensures
            final(self)@ == push_diag(old(self)@, line, message@),
    {
        let ghost m = message@;
        self.errors.push(Diagnostic { line, message });
        proof {
            assert(diags_view(self.errors@) =~= diags_view(old(self).errors@).push(
                DiagV { line, message: m },
            ));
            assert(self@ =~~= push_diag(old(self)@, line, m));
        }
    }

    /// Applies a binary operator to two evaluated operands, reporting a type
    /// mismatch leniently.
    fn apply_binary(&mut self, k: TokenType, line: u32, a: &Value, b: &Value) -> (r: Value)
        ensures
            (match binary_op_res(k, a@, b@) {
                Option::Some(o) => r@ == o.v && final(self)@ == (if o.err {
                    push_diag(old(self)@, line, "Type Mismatch"@)
                } else {
                    old(self)@
                }),
                Option::None => r@ == ValueV::Nil && final(self)@ == push_diag(
                    old(self)@,
                    line,
                    "Operator not defined for this operation"@,
                ),
            }),
    {
        let (value, err): (Value, bool) = if k == TokenType::Plus {
            value_add(a, b)
        } else if k == TokenType::Minus {
            value_arith(TokenKindArith::Sub, a, b)
        } else if k == TokenType::Star {
            value_arith(TokenKindArith::Mul, a, b)
        } else if k == TokenType::Slash {
            value_arith(TokenKindArith::Div, a, b)
        } else if k == TokenType::Greater {
            value_compare(TokenKindCmp::Gt, a, b)
        } else if k == TokenType::GreaterEqual {
            value_compare(TokenKindCmp::Ge, a, b)
        } else if k == TokenType::Less {
            value_compare(TokenKindCmp::Lt, a, b)
        } else if k == TokenType::LessEqual {
            value_compare(TokenKindCmp::Le, a, b)
        } else if k == TokenType::EqualEqual {
            value_equal(a, b)
        } else if k == TokenType::BangEqual {
            let (v0, e0) = value_equal(a, b);
            let neg: Value = match v0 {
                Value::Boolean(t) => Value::Boolean(!t),
                other => other,
            };
            (neg, e0)
        } else {
            self.report(line, String::from_str("Operator not defined for this operation"));
            return Value::Nil;
        };
        if err {
            self.report(line, String::from_str("Type Mismatch"));
        }
        value
    }

    /// Evaluates one expression to a value, or halts when the step budget
    /// runs out; exactly as `ev_expr` says.
    #[verifier::rlimit(100)]
    #[verifier::spinoff_prover]
    pub fn evaluate(&mut self, expr: &Expression, fuel: u64) -> (r: Result<Value, Stopped>)
        ensures
            eval_matches(r, ev_expr(old(self)@, expr@, fuel as nat), final(self)@),
        decreases fuel, 1int,
    {
        proof {
            reveal_with_fuel(ev_expr, 1);
            reveal_with_fuel(ev_args, 1);
            reveal_with_fuel(call_value, 1);
        }
        if fuel == 0 {
            return Result::Err(Stopped {});
        }
        match expr {
            Expression::Literal(l) => Result::Ok(l.value.duplicate()),
            Expression::Grouping(g) => self.evaluate(&g.expression, fuel - 1),
            Expression::Unary(u) => {
                let v = match self.evaluate(&u.operand, fuel - 1) {
                    Result::Ok(v) => v,
                    Result::Err(s) => {
                        return Result::Err(s);
                    },
                };
                if u.operator.token_type == TokenType::Minus {
                    match v {
                        Value::Number(b) => Result::Ok(Value::Number(neg_bits(b))),
                        other => {
                            self.report(u.operator.line, String::from_str("Type Mismatch"));
                            Result::Ok(other)
                        },
                    }
                } else if u.operator.token_type == TokenType::Bang {
                    match v {
                        Value::Boolean(t) => Result::Ok(Value::Boolean(!t)),
                        other => {
                            self.report(u.operator.line, String::from_str("Type Mismatch"));
                            Result::Ok(other)
                        },
                    }
                } else {
                    self.report(
                        u.operator.line,
                        String::from_str("Operator not defined for this operation"),
                    );
                    Result::Ok(Value::Nil)
                }
            },
            Expression::Binary(b) => {
                let lv = match self.evaluate(&b.left, fuel - 1) {
                    Result::Ok(v) => v,
                    Result::Err(s) => {
                        return Result::Err(s);
                    },
                };
                let rv = match self.evaluate(&b.right, fuel - 1) {
                    Result::Ok(v) => v,
                    Result::Err(s) => {
                        return Result::Err(s);
                    },
                };
                let v = self.apply_binary(b.operator.token_type, b.operator.line, &lv, &rv);
                Result::Ok(v)
            },
            Expression::Ternary(t) => {
                let v = match self.evaluate(&t.evaluator, fuel - 1) {
                    Result::Ok(v) => v,
                    Result::Err(s) => {
                        return Result::Err(s);
                    },
                };
                match v {
                    Value::Boolean(c) => if c {
                        self.evaluate(&t.left, fuel - 1)
                    } else {
                        self.evaluate(&t.right, fuel - 1)
                    },
                    _ => {
                        self.report(0, String::from_str("Condition must be a Boolean"));
                        self.evaluate(&t.right, fuel - 1)
                    },
                }
            },
            Expression::Logical(l) => {
                let v = match self.evaluate(&l.left, fuel - 1) {
                    Result::Ok(v) => v,
                    Result::Err(s) => {
                        return Result::Err(s);
                    },
                };
                match v {
                    Value::Boolean(t) => {
                        if l.operator.token_type == TokenType::Or {
                            if t {
                                Result::Ok(Value::Boolean(true))
                            } else {
                                self.evaluate(&l.right, fuel - 1)
                            }
                        } else {
                            if !t {
                                Result::Ok(Value::Boolean(false))
                            } else {
                                self.evaluate(&l.right, fuel - 1)
                            }
                        }
                    },
                    _ => {
                        self.report(
                            l.operator.line,
                            String::from_str("Condition must be a Boolean"),
                        );
                        if l.operator.token_type == TokenType::Or {
                            self.evaluate(&l.right, fuel - 1)
                        } else {
                            Result::Ok(Value::Boolean(false))
                        }
                    },
                }
            },
            Expression::Variable(var) => {
                match self.enviroment.get(&var.name.lexeme) {
                    Option::Some(v) => Result::Ok(v),
                    Option::None => {
                        let message = String::from_str("Variable not found: ").concat(
                            var.name.lexeme.as_str(),
                        );
                        self.report(var.name.line, message);
                        Result::Ok(Value::Nil)
                    },
                }
            },
            Expression::Assignment(a) => {
                let v = match self.evaluate(&a.value, fuel - 1) {
                    Result::Ok(v) => v,
                    Result::Err(s) => {
                        return Result::Err(s);
                    },
                };
                let found = self.enviroment.assign(&a.name.lexeme, v.duplicate());
                if !found {
                    let message = String::from_str("Assignement failed on ").concat(
                        a.name.lexeme.as_str(),
                    ).concat(".");
                    self.report(a.name.line, message);
                }
                Result::Ok(v)
            },
            Expression::Call(c) => {
                let callee = match self.evaluate(&c.callee, fuel - 1) {
                    Result::Ok(v) => v,
                    Result::Err(s) => {
                        return Result::Err(s);
                    },
                };
                let args = match self.eval_args(&c.arguments, 0, fuel - 1) {
                    Result::Ok(vs) => vs,
                    Result::Err(s) => {
                        return Result::Err(s);
                    },
                };
                proof {
                    lemma_view_exprs(c.arguments@);
                }
                self.call_function(callee, args, c.paren.line, fuel - 1)
            },
        }
    }

    /// Evaluates the argument expressions from `i` on, left to right.
    fn eval_args(&mut self, args: &Vec<Expression>, i: usize, fuel: u64) -> (r: Result<
        Vec<Value>,
        Stopped,
    >)
        requires
            i <= args@.len(),
        ensures
            args_matches(
                r,
                ev_args(old(self)@, view_exprs(args@), i as int, fuel as nat),
                final(self)@,
            ),
        decreases fuel, 1int,
    {
        proof {
            reveal_with_fuel(ev_args, 1);
            reveal_with_fuel(ev_expr, 1);
            lemma_view_exprs(args@);
        }
        if fuel == 0 {
            return Result::Err(Stopped {});
        }
        if i >= args.len() {
            let out: Vec<Value> = Vec::new();
            proof {
                assert(values_view(out@) =~= Seq::<ValueV>::empty());
            }
            return Result::Ok(out);
        }
        let v = match self.evaluate(&args[i], fuel - 1) {
            Result::Ok(v) => v,
            Result::Err(s) => {
                return Result::Err(s);
            },
        };
        match self.eval_args(args, i + 1, fuel - 1) {
            Result::Ok(mut rest) => {
                let ghost v0 = v@;
                let ghost rest0 = rest@;
                let mut out: Vec<Value> = Vec::new();
                out.push(v);
                out.append(&mut rest);
                proof {
                    assert(values_view(out@) =~= seq![v0] + values_view(rest0));
                }
                Result::Ok(out)
            },
            Result::Err(s) => Result::Err(s),
        }
    }

    /// Appends the display form of the first argument (or of nil) to the
    /// output, as the print natives do.
    fn print_native(&mut self, args: &Vec<Value>)
        ensures
            final(self)@ == print_out(old(self)@, values_view(args@)),
    {
        let shown: String = if args.len() >= 1 {
            args[0].display()
        } else {
            Value::Nil.display()
        };
        let ghost sh = shown@;
        self.output.push(shown);
        proof {
            assert(Seq::new(self.output@.len(), |i: int| self.output@[i]@) =~= old(self)@
                .output.push(sh));
            assert(self@ =~~= print_out(old(self)@, values_view(args@)));
        }
    }

    /// Calls an evaluated callee on evaluated arguments; exactly as
    /// `call_value` says.
    #[verifier::rlimit(100)]
    #[verifier::spinoff_prover]
    fn call_function(&mut self, callee: Value, arguments: Vec<Value>, line: u32, fuel: u64) -> (r:
        Result<Value, Stopped>)
        ensures
            eval_matches(
                r,
                call_value(old(self)@, callee@, values_view(arguments@), line, fuel as nat),
                final(self)@,
            ),
        decreases fuel, 1int,
    {
        proof {
            reveal_with_fuel(call_value, 1);
            reveal_with_fuel(ex_stmts, 1);
        }
        if fuel == 0 {
            return Result::Err(Stopped {});
        }
        let f: &Function = match &callee {
            Value::Callable(f) => f,
            _ => {
                self.report(line, String::from_str("Cannot call a value that is not a function"));
                return Result::Ok(Value::Nil);
            },
        };
        let arity: usize = match f {
            Function::Clock => 0,
            Function::Print => 1,
            Function::Println => 1,
            Function::User { id, .. } => {
                if *id < self.functions.len() {
                    self.functions[*id].parameters.len()
                } else {
                    0
                }
            },
        };
        if arguments.len() != arity {
            self.report(line, String::from_str("Arity mismatch: wrong number of arguments"));
        }
        match f {
            Function::Clock => Result::Ok(Value::Number(self.clock_bits)),
            Function::Print => {
                self.print_native(&arguments);
                Result::Ok(Value::Nil)
            },
            Function::Println => {
                self.print_native(&arguments);
                Result::Ok(Value::Nil)
            },
            Function::User { id, .. } => {
                let id = *id;
                if id >= self.functions.len() {
                    return Result::Ok(Value::Nil);
                }
                let saved = self.enviroment.current;
                let closure = self.functions[id].closure;
                let params = duplicate_tokens(&self.functions[id].parameters);
                let body = duplicate_statements(&self.functions[id].body);
                let fname = self.functions[id].name.lexeme.clone();
                let _ = self.enviroment.push_scope(closure);
                // Bind each parameter to its argument (or nil where the
                // arguments ran short).
                let ghost st_entry = self@;
                let ghost env_before = self.enviroment@;
                let ghost paramsv = view_token_list(params@);
                let ghost argsv = values_view(arguments@);
                let mut j: usize = 0;
                while j < params.len()
                    invariant
                        j <= params@.len(),
                        paramsv == view_token_list(params@),
                        argsv == values_view(arguments@),
                        bind_params(env_before, paramsv, argsv, 0) == bind_params(
                            self.enviroment@,
                            paramsv,
                            argsv,
                            j as int,
                        ),
                        self@.funcs == st_entry.funcs,
                        self@.output == st_entry.output,
                        self@.diags == st_entry.diags,
                        self@.clock == st_entry.clock,
                    decreases params@.len() - j,
                {
                    let v: Value = if j < arguments.len() {
                        arguments[j].duplicate()
                    } else {
                        Value::Nil
                    };
                    proof {
                        assert(params@[j as int]@ == paramsv[j as int]);
                        assert(j < arguments@.len() ==> arguments@[j as int]@ == argsv[j as int]);
                    }
                    self.enviroment.define(&params[j].lexeme, v);
                    j = j + 1;
                }
                // Re-bind the function's own name inside its call scope, so
                // that it can call itself.
                self.enviroment.define(&fname, callee);
                let flow = self.execute_sequence(&body, 0, fuel - 1);
                self.enviroment.restore(saved);
                match flow {
                    Result::Ok(Flow::Returned(v)) => Result::Ok(v),
                    Result::Ok(Flow::Normal) => Result::Ok(Value::Nil),
                    Result::Err(s) => Result::Err(s),
                }
            },
        }
    }

    /// Executes one statement; exactly as `ex_stmt` says.
    #[verifier::rlimit(100)]
    #[verifier::spinoff_prover]
    fn execute_statement(&mut self, statement: &Statement, fuel: u64) -> (r: Result<Flow, Stopped>)
        ensures
            flow_matches(r, ex_stmt(old(self)@, statement@, fuel as nat), final(self)@),
        decreases fuel, 1int,
    {
        proof {
            reveal_with_fuel(ex_stmt, 1);
            reveal_with_fuel(ev_expr, 1);
            reveal_with_fuel(ev_while, 1);
            reveal_with_fuel(ex_stmts, 1);
        }
        if fuel == 0 {
            return Result::Err(Stopped {});
        }
        match statement {
            Statement::Expression(e) => match self.evaluate(&e.expression, fuel - 1) {
                Result::Ok(_) => Result::Ok(Flow::Normal),
                Result::Err(s) => Result::Err(s),
            },
            Statement::Variable(v) => {
                let value: Value = match &v.initalizer {
                    Option::Some(e) => match self.evaluate(e, fuel - 1) {
                        Result::Ok(val) => val,
                        Result::Err(s) => {
                            return Result::Err(s);
                        },
                    },
                    Option::None => Value::Nil,
                };
                self.enviroment.define(&v.name.lexeme, value);
                Result::Ok(Flow::Normal)
            },
            Statement::If(i) => {
                let c = match self.evaluate(&i.condition, fuel - 1) {
                    Result::Ok(val) => val,
                    Result::Err(s) => {
                        return Result::Err(s);
                    },
                };
                match c {
                    Value::Boolean(t) => if t {
                        self.execute_statement(&i.then_branch, fuel - 1)
                    } else {
                        match &*i.else_branch {
                            Option::Some(e) => self.execute_statement(e, fuel - 1),
                            Option::None => Result::Ok(Flow::Normal),
                        }
                    },
                    _ => {
                        self.report(0, String::from_str("Condition must be a Boolean"));
                        match &*i.else_branch {
                            Option::Some(e) => self.execute_statement(e, fuel - 1),
                            Option::None => Result::Ok(Flow::Normal),
                        }
                    },
                }
            },
            Statement::While(w) => self.run_while(&w.condition, &w.body, fuel - 1),
            Statement::Block(b) => {
                let saved = self.enviroment.current;
                let _ = self.enviroment.push_scope(saved);
                let flow = self.execute_sequence(&b.statements, 0, fuel - 1);
                self.enviroment.restore(saved);
                flow
            },
            Statement::Function(f) => {
                let id = self.functions.len();
                let fd = FunctionDef {
                    name: f.name.duplicate(),
                    parameters: duplicate_tokens(&f.parameters),
                    body: duplicate_statements(&f.body),
                    closure: self.enviroment.current,
                };
                self.functions.push(fd);
                let fun_value = Value::Callable(
                    Function::User { id, name: f.name.lexeme.clone() },
                );
                self.enviroment.define(&f.name.lexeme, fun_value);
                proof {
                    let stv = ex_stmt(old(self)@, statement@, fuel as nat);
                    assert(Seq::new(self.functions@.len(), |i: int| self.functions@[i]@)
                        =~= old(self)@.funcs.push(
                        FunDefV {
                            name: f.name@,
                            parameters: view_token_list(f.parameters@),
                            body: view_stmts(f.body@),
                            closure: old(self)@.env.cur,
                        },
                    ));
                }
                Result::Ok(Flow::Normal)
            },
            Statement::Return(ret) => {
                let value: Value = match &ret.value {
                    Option::Some(e) => match self.evaluate(e, fuel - 1) {
                        Result::Ok(val) => val,
                        Result::Err(s) => {
                            return Result::Err(s);
                        },
                    },
                    Option::None => Value::Nil,
                };
                Result::Ok(Flow::Returned(value))
            },
        }
    }

    /// Executes the statements from `i` on, stopping at a `return`.
    fn execute_sequence(&mut self, statements: &Vec<Statement>, i: usize, fuel: u64) -> (r: Result<
        Flow,
        Stopped,
    >)
        requires
            i <= statements@.len(),
        ensures
            flow_matches(
                r,
                ex_stmts(old(self)@, view_stmts(statements@), i as int, fuel as nat),
                final(self)@,
            ),
        decreases fuel, 1int,
    {
        proof {
            reveal_with_fuel(ex_stmts, 1);
            reveal_with_fuel(ex_stmt, 1);
            lemma_view_stmts(statements@);
        }
        if fuel == 0 {
            return Result::Err(Stopped {});
        }
        if i >= statements.len() {
            return Result::Ok(Flow::Normal);
        }
        match self.execute_statement(&statements[i], fuel - 1) {
            Result::Ok(Flow::Normal) => self.execute_sequence(statements, i + 1, fuel - 1),
            Result::Ok(Flow::Returned(v)) => Result::Ok(Flow::Returned(v)),
            Result::Err(s) => Result::Err(s),
        }
    }

    /// Runs statements in a freshly pushed scope, always restoring the prior
    /// scope on the way out, a `return` passing through untouched.
    pub fn execute_block(&mut self, statements: &Vec<Statement>, fuel: u64) -> (r: Result<
        Flow,
        Stopped,
    >)
        ensures
            ({
                let saved = old(self)@.env.cur;
                let st1 = StateV { env: env_push(old(self)@.env, saved), ..old(self)@ };
                match ex_stmts(st1, view_stmts(statements@), 0, fuel as nat) {
                    FlowV::Norm(st2) => flow_matches(r, FlowV::Norm(restore_state(st2, saved)), final(self)@),
                    FlowV::Ret(st2, v) => flow_matches(r, FlowV::Ret(restore_state(st2, saved), v), final(self)@),
                    FlowV::Stop(st2) => flow_matches(r, FlowV::Stop(restore_state(st2, saved)), final(self)@),
                }
            }),
    {
        let saved = self.enviroment.current;
        let _ = self.enviroment.push_scope(saved);
        let flow = self.execute_sequence(statements, 0, fuel);
        self.enviroment.restore(saved);
        flow
    }

    /// Executes a `while` loop; exactly as `ev_while` says.
    fn run_while(&mut self, condition: &Expression, body: &Statement, fuel: u64) -> (r: Result<
        Flow,
        Stopped,
    >)
        ensures
            flow_matches(r, ev_while(old(self)@, condition@, body@, fuel as nat), final(self)@),
        decreases fuel, 1int,
    {
        proof {
            reveal_with_fuel(ev_while, 1);
            reveal_with_fuel(ev_expr, 1);
            reveal_with_fuel(ex_stmt, 1);
        }
        if fuel == 0 {
            return Result::Err(Stopped {});
        }
        let c = match self.evaluate(condition, fuel - 1) {
            Result::Ok(v) => v,
            Result::Err(s) => {
                return Result::Err(s);
            },
        };
        match c {
            Value::Boolean(t) => {
                if t {
                    match self.execute_statement(body, fuel - 1) {
                        Result::Ok(Flow::Normal) => self.run_while(condition, body, fuel - 1),
                        Result::Ok(Flow::Returned(v)) => Result::Ok(Flow::Returned(v)),
                        Result::Err(s) => Result::Err(s),
                    }
                } else {
                    Result::Ok(Flow::Normal)
                }
            },
            _ => {
                self.report(0, String::from_str("Condition must be a Boolean"));
                Result::Ok(Flow::Normal)
            },
        }
    }

    /// Executes one statement under the standard step budget: the value of a
    /// non-local `return` that reached the top, or nothing.  A halt is
    /// reported as a diagnostic.
    pub fn execute(&mut self, statement: &Statement) -> (r: Option<Value>)
        ensures
            (match ex_stmt(old(self)@, statement@, exec_fuel()) {
                FlowV::Norm(st) => r is None && final(self)@ == st,
                FlowV::Ret(st, v) => match r {
                    Option::Some(rv) => rv@ == v && final(self)@ == st,
                    Option::None => false,
                },
                FlowV::Stop(st) => r is None && final(self)@ == push_diag(
                    st,
                    0,
                    "Execution step budget exhausted"@,
                ),
            }),
    {
        proof {
            reveal_with_fuel(ex_stmt, 1);
        }
        match self.execute_statement(statement, EXEC_FUEL) {
            Result::Ok(Flow::Normal) => Option::None,
            Result::Ok(Flow::Returned(v)) => Option::Some(v),
            Result::Err(_) => {
                self.report(0, String::from_str("Execution step budget exhausted"));
                Option::None
            },
        }
    }

    /// Executes the statements from `i` on as a whole program.
    fn interpret_from(&mut self, statements: &Vec<Statement>, i: usize, fuel: u64)
        requires
            i <= statements@.len(),
        ensures
            final(self)@ == interp_program(
                old(self)@,
                view_stmts(statements@),
                i as int,
                fuel as nat,
            ),
        decreases fuel,
    {
        proof {
            reveal_with_fuel(interp_program, 1);
            reveal_with_fuel(ex_stmt, 1);
            lemma_view_stmts(statements@);
        }
        if fuel == 0 {
            self.report(0, String::from_str("Execution step budget exhausted"));
            return ;
        }
        if i >= statements.len() {
            return ;
        }
        match self.execute_statement(&statements[i], fuel - 1) {
            Result::Ok(_) => self.interpret_from(statements, i + 1, fuel - 1),
            Result::Err(_) => {
                self.report(0, String::from_str("Execution step budget exhausted"));
            },
        }
    }

    /// Executes a whole program: every top-level statement in order, under
    /// the standard step budget.
    pub fn interpret(&mut self, statements: &Vec<Statement>)
        ensures
            final(self)@ == interp_program(
                old(self)@,
                view_stmts(statements@),
                0,
                exec_fuel(),
            ),
    {
        self.interpret_from(statements, 0, EXEC_FUEL)
    }
}

} // verus!
