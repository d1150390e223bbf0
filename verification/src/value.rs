//! Runtime values and the operators defined on them.
//!
//! A `Value` is the only runtime representation: every expression evaluates
//! to one.  Numbers are IEEE-754 binary64 values carried as bit patterns
//! (see `float`).  The binary and comparison operators follow a lenient
//! policy: on a type mismatch they report an error and produce a fallback
//! (the left operand, or `false`) instead of aborting.

use vstd::prelude::*;

use crate::float::f64_add;
use crate::float::f64_cmp;
use crate::float::f64_display;
use crate::float::f64_div;
use crate::float::f64_eq;
use crate::float::f64_ge;
use crate::float::f64_gt;
use crate::float::f64_le;
use crate::float::f64_lt;
use crate::float::f64_mul;
use crate::float::f64_sub;
use crate::float::add_bits;
use crate::float::cmp_bits;
use crate::float::display_bits;
use crate::float::div_bits;
use crate::float::mul_bits;
use crate::float::sub_bits;

verus! {

/// An invocable value: one of the native functions, or a user-defined
/// function identified by its index in the interpreter's function table.
/// The identifier's text is kept for rendering.
#[derive(Debug)]
pub enum Function {
    Clock,
    Print,
    Println,
    User { id: usize, name: String },
}

/// The mathematical image of a `Function`.
#[verifier::ext_equal]
pub enum FunV {
    Clock,
    Print,
    Println,
    User { id: int, name: Seq<char> },
}

impl Function {
    pub open spec fn view(&self) -> FunV {
        match self {
            Function::Clock => FunV::Clock,
            Function::Print => FunV::Print,
            Function::Println => FunV::Println,
            Function::User { id, name } => FunV::User { id: *id as int, name: name@ },
        }
    }

    pub fn duplicate(&self) -> (r: Function)
        ensures
            r@ == self@,
    {
        match self {
            Function::Clock => Function::Clock,
            Function::Print => Function::Print,
            Function::Println => Function::Println,
            Function::User { id, name } => Function::User { id: *id, name: name.clone() },
        }
    }
}

/// A runtime value: a number (binary64 bits), a boolean, a string, a
/// callable, or nil.
#[derive(Debug)]
pub enum Value {
    Number(u64),
    Boolean(bool),
    Str(String),
    Callable(Function),
    Nil,
}

/// The mathematical image of a `Value`.
#[verifier::ext_equal]
pub enum ValueV {
    Number(u64),
    Boolean(bool),
    Str(Seq<char>),
    Callable(FunV),
    Nil,
}

/// Whether two callables are the same function: natives by variant,
/// user functions by the identity of their declaration.
pub open spec fn fun_eq(a: FunV, b: FunV) -> bool {
    match (a, b) {
        (FunV::Clock, FunV::Clock) => true,
        (FunV::Print, FunV::Print) => true,
        (FunV::Println, FunV::Println) => true,
        (FunV::User { id: i, .. }, FunV::User { id: j, .. }) => i == j,
        _ => false,
    }
}

/// The display form of a value: how `print` renders it and how string
/// concatenation stringifies it.
pub open spec fn v_display(v: ValueV) -> Seq<char> {
    match v {
        ValueV::Number(b) => f64_display(b),
        ValueV::Boolean(t) => if t {
            "true"@
        } else {
            "false"@
        },
        ValueV::Str(s) => s,
        ValueV::Nil => "NIL"@,
        ValueV::Callable(f) => match f {
            FunV::Clock => "<fn Clock>"@,
            FunV::Print => "<fn Print>"@,
            FunV::Println => "<fn Println>"@,
            FunV::User { name, .. } => "<fn "@ + name + ">"@,
        },
    }
}

/// The result of a binary operator: the value produced, and whether a type
/// mismatch was reported on the way.
pub struct OpResV {
    pub v: ValueV,
    pub err: bool,
}

/// `+`: two numbers add; a string on the left concatenates the right
/// operand's display form; anything else reports a mismatch and yields the
/// left operand unchanged.
pub open spec fn v_add(a: ValueV, b: ValueV) -> OpResV {
    match a {
        ValueV::Number(x) => match b {
            ValueV::Number(y) => OpResV { v: ValueV::Number(f64_add(x, y)), err: false },
            _ => OpResV { v: a, err: true },
        },
        ValueV::Str(s) => OpResV { v: ValueV::Str(s + v_display(b)), err: false },
        _ => OpResV { v: a, err: true },
    }
}

/// `-`, `*`, `/`: both operands must be numbers; otherwise the mismatch is
/// reported and the left operand is yielded unchanged.
pub open spec fn v_arith(op: TokenKindArith, a: ValueV, b: ValueV) -> OpResV {
    match (a, b) {
        (ValueV::Number(x), ValueV::Number(y)) => OpResV {
            v: ValueV::Number(
                match op {
                    TokenKindArith::Sub => f64_sub(x, y),
                    TokenKindArith::Mul => f64_mul(x, y),
                    TokenKindArith::Div => f64_div(x, y),
                },
            ),
            err: false,
        },
        _ => OpResV { v: a, err: true },
    }
}

/// The three arithmetic operators that demand two numbers.
#[derive(Clone, Copy, Debug, PartialEq, Eq, Structural)]
pub enum TokenKindArith {
    Sub,
    Mul,
    Div,
}

/// The four ordering comparisons.
#[derive(Clone, Copy, Debug, PartialEq, Eq, Structural)]
pub enum TokenKindCmp {
    Lt,
    Le,
    Gt,
    Ge,
}

/// `>`, `>=`, `<`, `<=`: both operands must be numbers and are compared by
/// the IEEE-754 predicate; otherwise the mismatch is reported and the result
/// is `false`.
pub open spec fn v_compare(op: TokenKindCmp, a: ValueV, b: ValueV) -> OpResV {
    match (a, b) {
        (ValueV::Number(x), ValueV::Number(y)) => OpResV {
            v: ValueV::Boolean(
                match op {
                    TokenKindCmp::Lt => f64_lt(x, y),
                    TokenKindCmp::Le => f64_le(x, y),
                    TokenKindCmp::Gt => f64_gt(x, y),
                    TokenKindCmp::Ge => f64_ge(x, y),
                },
            ),
            err: false,
        },
        _ => OpResV { v: ValueV::Boolean(false), err: true },
    }
}

/// Structural equality of two same-variant values: numbers by the IEEE-754
/// predicate, booleans and strings by value, nil equals only nil, callables
/// by identity of declaration.  A cross-variant comparison is `false` and is
/// reported as a mismatch.
pub open spec fn v_equal(a: ValueV, b: ValueV) -> OpResV {
    match (a, b) {
        (ValueV::Number(x), ValueV::Number(y)) => OpResV {
            v: ValueV::Boolean(f64_eq(x, y)),
            err: false,
        },
        (ValueV::Boolean(x), ValueV::Boolean(y)) => OpResV {
            v: ValueV::Boolean(x == y),
            err: false,
        },
        (ValueV::Str(x), ValueV::Str(y)) => OpResV { v: ValueV::Boolean(x == y), err: false },
        (ValueV::Nil, ValueV::Nil) => OpResV { v: ValueV::Boolean(true), err: false },
        (ValueV::Callable(f), ValueV::Callable(g)) => OpResV {
            v: ValueV::Boolean(fun_eq(f, g)),
            err: false,
        },
        _ => OpResV { v: ValueV::Boolean(false), err: true },
    }
}

impl Value {
    pub open spec fn view(&self) -> ValueV {
        match self {
            Value::Number(b) => ValueV::Number(*b),
            Value::Boolean(t) => ValueV::Boolean(*t),
            Value::Str(s) => ValueV::Str(s@),
            Value::Callable(f) => ValueV::Callable(f@),
            Value::Nil => ValueV::Nil,
        }
    }

    /// An owned copy of this value, with the same image.
    pub fn duplicate(&self) -> (r: Value)
        ensures
            r@ == self@,
    {
        match self {
            Value::Number(b) => Value::Number(*b),
            Value::Boolean(t) => Value::Boolean(*t),
            Value::Str(s) => Value::Str(s.clone()),
            Value::Callable(f) => Value::Callable(f.duplicate()),
            Value::Nil => Value::Nil,
        }
    }

    /// The display form of this value.
    pub fn display(&self) -> (r: String)
        ensures
            r@ == v_display(self@),
    {
        match self {
            Value::Number(b) => display_bits(*b),
            Value::Boolean(t) => if *t {
                String::from_str("true")
            } else {
                String::from_str("false")
            },
            Value::Str(s) => s.clone(),
            Value::Nil => String::from_str("NIL"),
            Value::Callable(f) => match f {
                Function::Clock => String::from_str("<fn Clock>"),
                Function::Print => String::from_str("<fn Print>"),
                Function::Println => String::from_str("<fn Println>"),
                Function::User { name, .. } => String::from_str("<fn ").concat(
                    name.as_str(),
                ).concat(">"),
            },
        }
    }
}

/// The `+` operator on values.
pub fn value_add(a: &Value, b: &Value) -> (r: (Value, bool))
    ensures
        r.0@ == v_add(a@, b@).v,
        r.1 == v_add(a@, b@).err,
{
    match a {
        Value::Number(x) => match b {
            Value::Number(y) => (Value::Number(add_bits(*x, *y)), false),
            _ => (a.duplicate(), true),
        },
        Value::Str(s) => {
            let shown = b.display();
            (Value::Str(s.clone().concat(shown.as_str())), false)
        },
        _ => (a.duplicate(), true),
    }
}

/// The `-`, `*` and `/` operators on values.
pub fn value_arith(op: TokenKindArith, a: &Value, b: &Value) -> (r: (Value, bool))
    ensures
        r.0@ == v_arith(op, a@, b@).v,
        r.1 == v_arith(op, a@, b@).err,
{
    match (a, b) {
        (Value::Number(x), Value::Number(y)) => {
            let bits: u64 = match op {
                TokenKindArith::Sub => sub_bits(*x, *y),
                TokenKindArith::Mul => mul_bits(*x, *y),
                TokenKindArith::Div => div_bits(*x, *y),
            };
            (Value::Number(bits), false)
        },
        _ => (a.duplicate(), true),
    }
}

/// The `<`, `<=`, `>` and `>=` operators on values.
pub fn value_compare(op: TokenKindCmp, a: &Value, b: &Value) -> (r: (Value, bool))
    ensures
        r.0@ == v_compare(op, a@, b@).v,
        r.1 == v_compare(op, a@, b@).err,
{
    match (a, b) {
        (Value::Number(x), Value::Number(y)) => {
            let c = cmp_bits(*x, *y);
            let t: bool = match op {
                TokenKindCmp::Lt => c == 0,
                TokenKindCmp::Le => c == 0 || c == 1,
                TokenKindCmp::Gt => c == 2,
                TokenKindCmp::Ge => c == 2 || c == 1,
            };
            (Value::Boolean(t), false)
        },
        _ => (Value::Boolean(false), true),
    }
}

/// The `==` operator on values (`!=` negates its value).
pub fn value_equal(a: &Value, b: &Value) -> (r: (Value, bool))
    ensures
        r.0@ == v_equal(a@, b@).v,
        r.1 == v_equal(a@, b@).err,
{
    match (a, b) {
        (Value::Number(x), Value::Number(y)) => (Value::Boolean(cmp_bits(*x, *y) == 1), false),
        (Value::Boolean(x), Value::Boolean(y)) => (Value::Boolean(*x == *y), false),
        (Value::Str(x), Value::Str(y)) => (Value::Boolean(x.eq(y)), false),
        (Value::Nil, Value::Nil) => (Value::Boolean(true), false),
        (Value::Callable(f), Value::Callable(g)) => {
            let same: bool = match (f, g) {
                (Function::Clock, Function::Clock) => true,
                (Function::Print, Function::Print) => true,
                (Function::Println, Function::Println) => true,
                (Function::User { id: i, .. }, Function::User { id: j, .. }) => *i == *j,
                _ => false,
            };
            (Value::Boolean(same), false)
        },
        _ => (Value::Boolean(false), true),
    }
}

} // verus!
