//! A tree-walking interpreter for a small dynamically-typed scripting
//! language: a scanner, a recursive-descent parser with panic-mode recovery,
//! and an evaluator over a lexically scoped environment chain, each proved
//! against a mathematical model of the whole pipeline.

use vstd::prelude::*;

pub mod float;
pub mod token;
pub mod value;
pub mod diagnostic;
pub mod text;
pub mod scanner;
pub mod ast;
pub mod parser;
pub mod enviroment;
pub mod interpreter;
pub mod laws;

use crate::ast::view_stmts;
use crate::ast::view_token_list;
use crate::diagnostic::DiagV;
use crate::diagnostic::Diagnostic;
use crate::diagnostic::diags_view;
use crate::interpreter::Interpreter;
use crate::interpreter::exec_fuel;
use crate::interpreter::init_state;
use crate::interpreter::interp_program;
use crate::parser::PErrV;
use crate::parser::Parser;
use crate::parser::parse_spec;
use crate::parser::perrs_view;
use crate::scanner::Scanner;
use crate::scanner::scan_spec;
use crate::scanner::tokens_view;

verus! {

/// What running a source string yields: everything the program printed, and
/// every diagnostic (lexical, syntactic, runtime) in phase order.
#[derive(Debug)]
pub struct RunOutcome {
    pub output: Vec<String>,
    pub diagnostics: Vec<Diagnostic>,
}

/// The mathematical image of a run.
#[verifier::ext_equal]
pub struct RunV {
    pub output: Seq<Seq<char>>,
    pub diags: Seq<DiagV>,
}

impl RunOutcome {
    pub open spec fn view(&self) -> RunV {
        RunV {
            output: Seq::new(self.output@.len(), |i: int| self.output@[i]@),
            diags: diags_view(self.diagnostics@),
        }
    }
}

/// Syntax errors as diagnostics: the offending token's line and the cause.
pub open spec fn parse_diags(errs: Seq<PErrV>) -> Seq<DiagV> {
    Seq::new(errs.len(), |i: int| DiagV { line: errs[i].source.line, message: errs[i].cause })
}

/// A whole run of a source text: scan, parse past every syntax error, then
/// execute what parsed in one fresh global environment whose `clock`
/// built-in reports `clock`.
pub open spec fn run_spec(src: Seq<char>, clock: u64) -> RunV {
    let sc = scan_spec(src);
    let p = parse_spec(sc.tokens);
    let st = interp_program(init_state(clock), p.stmts, 0, exec_fuel());
    RunV { output: st.output, diags: sc.diags + parse_diags(p.errs) + st.diags }
}

/// Runs a source string: scanning, parsing (collecting every syntax error
/// and continuing past each), and executing the statements that parsed, in
/// one fresh global environment holding the native functions.  The clock
/// reading the run carries is whatever the wall clock gave.
#[verifier::loop_isolation(false)]
pub fn run(source: String) -> (out: RunOutcome)
    ensures
        exists|c: u64| out@ == run_spec(source@, c),
{
    let ghost src = source@;
    let mut scanner = Scanner::new(source, Option::None, Option::Some(1));
    let tokens = scanner.scan_tokens();
    let ghost toksv = tokens_view(tokens@);
    let mut parser = Parser::new(tokens, 0);
    let statements = parser.parse();
    let mut interpreter = Interpreter::new();
    let ghost clock = interpreter.clock_bits;
    interpreter.interpret(&statements);
    let ghost st_final = interpreter@;
    proof {
        assert(view_token_list(parser.tokens@) =~= toksv);
        assert(diags_view(scanner.errors@) =~~= scan_spec(src).diags);
        assert(perrs_view(parser.errors@) =~~= parse_spec(toksv).errs);
        assert(st_final == interp_program(
            init_state(clock),
            parse_spec(toksv).stmts,
            0,
            exec_fuel(),
        ));
    }
    let mut diagnostics: Vec<Diagnostic> = scanner.errors;
    let ghost lex_diags = diags_view(diagnostics@);
    // Syntax errors, as line-tagged diagnostics.
    let mut i: usize = 0;
    while i < parser.errors.len()
        invariant
            i <= parser.errors@.len(),
            diagnostics@.len() == lex_diags.len() + i,
            diags_view(diagnostics@) == lex_diags + parse_diags(
                perrs_view(parser.errors@),
            ).subrange(0, i as int),
        decreases parser.errors@.len() - i,
    {
        proof {
            let pv = perrs_view(parser.errors@);
            assert(pv[i as int] == parser.errors@[i as int]@);
            assert(parse_diags(pv)[i as int] == (DiagV {
                line: pv[i as int].source.line,
                message: pv[i as int].cause,
            }));
        }
        let ghost d0 = diagnostics@;
        let pe = &parser.errors[i];
        let d = Diagnostic { line: pe.source.line, message: pe.cause.clone() };
        let ghost dv = d@;
        diagnostics.push(d);
        i = i + 1;
        proof {
            let pv = perrs_view(parser.errors@);
            let rhs = lex_diags + parse_diags(pv).subrange(0, i as int);
            assert(diagnostics@ == d0.push(d));
            assert(dv =~~= parse_diags(pv)[i - 1]);
            assert forall|k: int| 0 <= k < diagnostics@.len() implies diags_view(
                diagnostics@,
            )[k] == rhs[k] by {
                if k < d0.len() {
                    assert(diags_view(diagnostics@)[k] == diags_view(d0)[k]);
                    assert(diags_view(d0)[k] == (lex_diags + parse_diags(pv).subrange(
                        0,
                        i - 1,
                    ))[k]);
                } else {
                    assert(diags_view(diagnostics@)[k] == dv);
                }
            }
            assert(diags_view(diagnostics@) =~~= rhs);
        }
    }
    proof {
        assert(parse_diags(perrs_view(parser.errors@)).subrange(
            0,
            parser.errors@.len() as int,
        ) =~~= parse_diags(perrs_view(parser.errors@)));
    }
    let ghost before_rt = diags_view(diagnostics@);
    let mut runtime_errors = interpreter.errors;
    interpreter.errors = Vec::new();
    let ghost rt = diags_view(runtime_errors@);
    proof {
        assert(rt =~~= st_final.diags);
    }
    diagnostics.append(&mut runtime_errors);
    proof {
        assert(diags_view(diagnostics@) =~~= before_rt + rt);
    }
    let out = RunOutcome { output: interpreter.output, diagnostics };
    proof {
        assert(out@.output =~~= st_final.output);
        assert(out@.diags =~~= scan_spec(src).diags + parse_diags(parse_spec(toksv).errs)
            + st_final.diags);
        assert(out@ =~~= run_spec(src, clock));
    }
    out
}

} // verus!
