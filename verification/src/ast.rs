//! The abstract syntax tree: one tagged union per node category, with
//! pattern-matching dispatch in the evaluator.  Each variant exclusively
//! owns its sub-expressions and sub-statements: the tree has no sharing and
//! no cycles.  Operator and identifier tokens are retained inside the nodes
//! for later error reporting and lookup.

use vstd::prelude::*;

use crate::token::Token;
use crate::token::TokenV;
use crate::value::Value;
use crate::value::ValueV;

verus! {

// ---------------------------------------------------------------------------
// Expressions
// ---------------------------------------------------------------------------
/// A literal value.
#[derive(Debug)]
pub struct Literal {
    pub value: Value,
}

/// A parenthesized expression.
#[derive(Debug)]
pub struct Grouping {
    pub expression: Expression,
}

/// A prefix operator applied to one operand.
#[derive(Debug)]
pub struct Unary {
    pub operator: Token,
    pub operand: Expression,
}

/// A binary operator applied to two operands.
#[derive(Debug)]
pub struct Binary {
    pub operator: Token,
    pub left: Expression,
    pub right: Expression,
}

/// A conditional expression `evaluator ? left : right`.
#[derive(Debug)]
pub struct Ternary {
    pub evaluator: Expression,
    pub left: Expression,
    pub right: Expression,
}

/// A short-circuiting `and` / `or`.
#[derive(Debug)]
pub struct Logical {
    pub left: Expression,
    pub right: Expression,
    pub operator: Token,
}

/// A variable read, by its identifier token.
#[derive(Debug)]
pub struct Variable {
    pub name: Token,
}

/// An assignment to a variable.
#[derive(Debug)]
pub struct Assignment {
    pub name: Token,
    pub value: Expression,
}

/// A call: callee, the closing parenthesis token (for error lines), and the
/// argument expressions.
#[derive(Debug)]
pub struct Call {
    pub callee: Expression,
    pub paren: Token,
    pub arguments: Vec<Expression>,
}

/// An expression: the tagged union over every expression production.
#[derive(Debug)]
pub enum Expression {
    Grouping(Box<Grouping>),
    Logical(Box<Logical>),
    Unary(Box<Unary>),
    Binary(Box<Binary>),
    Ternary(Box<Ternary>),
    Literal(Box<Literal>),
    Variable(Box<Variable>),
    Assignment(Box<Assignment>),
    Call(Box<Call>),
}

/// The mathematical image of an expression.
#[verifier::ext_equal]
pub enum ExprV {
    Grouping { expression: Box<ExprV> },
    Logical { operator: TokenV, left: Box<ExprV>, right: Box<ExprV> },
    Unary { operator: TokenV, operand: Box<ExprV> },
    Binary { operator: TokenV, left: Box<ExprV>, right: Box<ExprV> },
    Ternary { evaluator: Box<ExprV>, left: Box<ExprV>, right: Box<ExprV> },
    Literal { value: ValueV },
    Variable { name: TokenV },
    Assignment { name: TokenV, value: Box<ExprV> },
    Call { callee: Box<ExprV>, paren: TokenV, arguments: Seq<ExprV> },
}

impl Expression {
    pub open spec fn view(&self) -> ExprV
        decreases self,
    {
        match self {
            Expression::Grouping(g) => ExprV::Grouping { expression: Box::new(g.expression.view()) },
            Expression::Logical(l) => ExprV::Logical {
                operator: l.operator@,
                left: Box::new(l.left.view()),
                right: Box::new(l.right.view()),
            },
            Expression::Unary(u) => ExprV::Unary {
                operator: u.operator@,
                operand: Box::new(u.operand.view()),
            },
            Expression::Binary(b) => ExprV::Binary {
                operator: b.operator@,
                left: Box::new(b.left.view()),
                right: Box::new(b.right.view()),
            },
            Expression::Ternary(t) => ExprV::Ternary {
                evaluator: Box::new(t.evaluator.view()),
                left: Box::new(t.left.view()),
                right: Box::new(t.right.view()),
            },
            Expression::Literal(l) => ExprV::Literal { value: l.value@ },
            Expression::Variable(v) => ExprV::Variable { name: v.name@ },
            Expression::Assignment(a) => ExprV::Assignment {
                name: a.name@,
                value: Box::new(a.value.view()),
            },
            Expression::Call(c) => ExprV::Call {
                callee: Box::new(c.callee.view()),
                paren: c.paren@,
                arguments: view_exprs(c.arguments@),
            },
        }
    }

    /// An owned copy of this expression, with the same image.
    pub fn duplicate(&self) -> (r: Expression)
        ensures
            r@ == self@,
        decreases self,
    {
        match self {
            Expression::Grouping(g) => Expression::Grouping(
                Box::new(Grouping { expression: g.expression.duplicate() }),
            ),
            Expression::Logical(l) => Expression::Logical(
                Box::new(
                    Logical {
                        left: l.left.duplicate(),
                        right: l.right.duplicate(),
                        operator: l.operator.duplicate(),
                    },
                ),
            ),
            Expression::Unary(u) => Expression::Unary(
                Box::new(
                    Unary { operator: u.operator.duplicate(), operand: u.operand.duplicate() },
                ),
            ),
            Expression::Binary(b) => Expression::Binary(
                Box::new(
                    Binary {
                        operator: b.operator.duplicate(),
                        left: b.left.duplicate(),
                        right: b.right.duplicate(),
                    },
                ),
            ),
            Expression::Ternary(t) => Expression::Ternary(
                Box::new(
                    Ternary {
                        evaluator: t.evaluator.duplicate(),
                        left: t.left.duplicate(),
                        right: t.right.duplicate(),
                    },
                ),
            ),
            Expression::Literal(l) => Expression::Literal(
                Box::new(Literal { value: l.value.duplicate() }),
            ),
            Expression::Variable(v) => Expression::Variable(
                Box::new(Variable { name: v.name.duplicate() }),
            ),
            Expression::Assignment(a) => Expression::Assignment(
                Box::new(Assignment { name: a.name.duplicate(), value: a.value.duplicate() }),
            ),
            Expression::Call(c) => {
                let args = duplicate_expressions(&c.arguments);
                Expression::Call(
                    Box::new(
                        Call {
                            callee: c.callee.duplicate(),
                            paren: c.paren.duplicate(),
                            arguments: args,
                        },
                    ),
                )
            },
        }
    }
}

/// The images of a sequence of expressions.
pub open spec fn view_exprs(s: Seq<Expression>) -> Seq<ExprV>
    decreases s,
{
    if s.len() == 0 {
        Seq::empty()
    } else {
        view_exprs(s.drop_last()).push(s.last().view())
    }
}

/// `view_exprs` element by element.
pub proof fn lemma_view_exprs(s: Seq<Expression>)
    ensures
        view_exprs(s).len() == s.len(),
        forall|i: int| 0 <= i < s.len() ==> view_exprs(s)[i] == s[i].view(),
    decreases s,
{
    if s.len() > 0 {
        lemma_view_exprs(s.drop_last());
    }
}

/// An owned copy of an expression list, with the same images.
pub fn duplicate_expressions(v: &Vec<Expression>) -> (r: Vec<Expression>)
    ensures
        view_exprs(r@) == view_exprs(v@),
    decreases v@,
{
    let mut r: Vec<Expression> = Vec::new();
    let mut i: usize = 0;
    while i < v.len()
        invariant
            i <= v@.len(),
            r@.len() == i,
            forall|k: int| 0 <= k < i ==> r@[k]@ == v@[k]@,
        decreases v@.len() - i,
    {
        let d = v[i].duplicate();
        r.push(d);
        i = i + 1;
    }
    proof {
        lemma_view_exprs(r@);
        lemma_view_exprs(v@);
        assert(view_exprs(r@) =~= view_exprs(v@));
    }
    r
}

// ---------------------------------------------------------------------------
// Statements
// ---------------------------------------------------------------------------
/// An expression evaluated for its side effects.
#[derive(Debug)]
pub struct ExpressionStatement {
    pub expression: Expression,
}

/// A `var` declaration with an optional initializer.
#[derive(Debug)]
pub struct VariableStatement {
    pub name: Token,
    pub initalizer: Option<Expression>,
}

/// An `if` with an optional `else`.
#[derive(Debug)]
pub struct IfStatement {
    pub condition: Expression,
    pub then_branch: Box<Statement>,
    pub else_branch: Box<Option<Statement>>,
}

/// A `while` loop.
#[derive(Debug)]
pub struct WhileStatement {
    pub condition: Expression,
    pub body: Box<Statement>,
}

/// A braced block of statements.
#[derive(Debug)]
pub struct BlockStatement {
    pub statements: Vec<Statement>,
}

/// A `fun` declaration: name, parameter tokens, body statements.
#[derive(Debug)]
pub struct FunctionStatement {
    pub name: Token,
    pub parameters: Vec<Token>,
    pub body: Vec<Statement>,
}

/// A `return` with an optional value.
#[derive(Debug)]
pub struct ReturnStatement {
    pub keyword: Token,
    pub value: Option<Expression>,
}

/// A statement: the tagged union over every statement production.  A `for`
/// loop is not here: the parser desugars it into a block and a `while`.
#[derive(Debug)]
pub enum Statement {
    Expression(ExpressionStatement),
    Variable(VariableStatement),
    If(IfStatement),
    While(WhileStatement),
    Block(BlockStatement),
    Function(FunctionStatement),
    Return(ReturnStatement),
}

/// The mathematical image of a statement.
#[verifier::ext_equal]
pub enum StmtV {
    Expression { expression: ExprV },
    Variable { name: TokenV, initalizer: Option<ExprV> },
    If { condition: ExprV, then_branch: Box<StmtV>, else_branch: Option<Box<StmtV>> },
    While { condition: ExprV, body: Box<StmtV> },
    Block { statements: Seq<StmtV> },
    Function { name: TokenV, parameters: Seq<TokenV>, body: Seq<StmtV> },
    Return { keyword: TokenV, value: Option<ExprV> },
}

/// The images of a sequence of tokens.
pub open spec fn view_token_list(s: Seq<Token>) -> Seq<TokenV> {
    Seq::new(s.len(), |i: int| s[i]@)
}

impl Statement {
    pub open spec fn view(&self) -> StmtV
        decreases self,
    {
        match self {
            Statement::Expression(e) => StmtV::Expression { expression: e.expression.view() },
            Statement::Variable(v) => StmtV::Variable {
                name: v.name@,
                initalizer: match &v.initalizer {
                    Option::Some(e) => Option::Some(e.view()),
                    Option::None => Option::None,
                },
            },
            Statement::If(i) => StmtV::If {
                condition: i.condition.view(),
                then_branch: Box::new(i.then_branch.view()),
                else_branch: match &*i.else_branch {
                    Option::Some(s) => Option::Some(Box::new(s.view())),
                    Option::None => Option::None,
                },
            },
            Statement::While(w) => StmtV::While {
                condition: w.condition.view(),
                body: Box::new(w.body.view()),
            },
            Statement::Block(b) => StmtV::Block { statements: view_stmts(b.statements@) },
            Statement::Function(f) => StmtV::Function {
                name: f.name@,
                parameters: view_token_list(f.parameters@),
                body: view_stmts(f.body@),
            },
            Statement::Return(r) => StmtV::Return {
                keyword: r.keyword@,
                value: match &r.value {
                    Option::Some(e) => Option::Some(e.view()),
                    Option::None => Option::None,
                },
            },
        }
    }

    /// An owned copy of this statement, with the same image.
    pub fn duplicate(&self) -> (r: Statement)
        ensures
            r@ == self@,
        decreases self,
    {
        match self {
            Statement::Expression(e) => Statement::Expression(
                ExpressionStatement { expression: e.expression.duplicate() },
            ),
            Statement::Variable(v) => Statement::Variable(
                VariableStatement {
                    name: v.name.duplicate(),
                    initalizer: match &v.initalizer {
                        Option::Some(e) => Option::Some(e.duplicate()),
                        Option::None => Option::None,
                    },
                },
            ),
            Statement::If(i) => Statement::If(
                IfStatement {
                    condition: i.condition.duplicate(),
                    then_branch: Box::new(i.then_branch.duplicate()),
                    else_branch: Box::new(
                        match &*i.else_branch {
                            Option::Some(s) => Option::Some(s.duplicate()),
                            Option::None => Option::None,
                        },
                    ),
                },
            ),
            Statement::While(w) => Statement::While(
                WhileStatement {
                    condition: w.condition.duplicate(),
                    body: Box::new(w.body.duplicate()),
                },
            ),
            Statement::Block(b) => Statement::Block(
                BlockStatement { statements: duplicate_statements(&b.statements) },
            ),
            Statement::Function(f) => {
                let mut params: Vec<Token> = Vec::new();
                let mut i: usize = 0;
                while i < f.parameters.len()
                    invariant
                        i <= f.parameters@.len(),
                        params@.len() == i,
                        forall|k: int| 0 <= k < i ==> params@[k]@ == f.parameters@[k]@,
                    decreases f.parameters@.len() - i,
                {
                    let d = f.parameters[i].duplicate();
                    params.push(d);
                    i = i + 1;
                }
                proof {
                    assert(view_token_list(params@) =~= view_token_list(f.parameters@));
                }
                Statement::Function(
                    FunctionStatement {
                        name: f.name.duplicate(),
                        parameters: params,
                        body: duplicate_statements(&f.body),
                    },
                )
            },
            Statement::Return(r) => Statement::Return(
                ReturnStatement {
                    keyword: r.keyword.duplicate(),
                    value: match &r.value {
                        Option::Some(e) => Option::Some(e.duplicate()),
                        Option::None => Option::None,
                    },
                },
            ),
        }
    }
}

/// The images of a sequence of statements.
pub open spec fn view_stmts(s: Seq<Statement>) -> Seq<StmtV>
    decreases s,
{
    if s.len() == 0 {
        Seq::empty()
    } else {
        view_stmts(s.drop_last()).push(s.last().view())
    }
}

/// `view_stmts` element by element.
pub proof fn lemma_view_stmts(s: Seq<Statement>)
    ensures
        view_stmts(s).len() == s.len(),
        forall|i: int| 0 <= i < s.len() ==> view_stmts(s)[i] == s[i].view(),
    decreases s,
{
    if s.len() > 0 {
        lemma_view_stmts(s.drop_last());
    }
}

/// An owned copy of a statement list, with the same images.
pub fn duplicate_statements(v: &Vec<Statement>) -> (r: Vec<Statement>)
    ensures
        view_stmts(r@) == view_stmts(v@),
    decreases v@,
{
    let mut r: Vec<Statement> = Vec::new();
    let mut i: usize = 0;
    while i < v.len()
        invariant
            i <= v@.len(),
            r@.len() == i,
            forall|k: int| 0 <= k < i ==> r@[k]@ == v@[k]@,
        decreases v@.len() - i,
    {
        let d = v[i].duplicate();
        r.push(d);
        i = i + 1;
    }
    proof {
        lemma_view_stmts(r@);
        lemma_view_stmts(v@);
        assert(view_stmts(r@) =~= view_stmts(v@));
    }
    r
}

} // verus!
