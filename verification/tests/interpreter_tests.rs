use rlux::run;
use rlux::scanner::Scanner;
use rlux::token::TokenType;

fn outputs(source: &str) -> Vec<String> {
    let r = run(String::from(source));
    assert!(r.diagnostics.is_empty(), "unexpected diagnostics: {:?}", r.diagnostics);
    r.output
}

#[test]
fn control_test() {
    let out = outputs(
        "var x = 10;\n\
         if (x > 5) print(\"big\"); else print(\"small\");\n\
         var i = 0;\n\
         while (i < 2) { print(i); i = i + 1; }\n\
         if (false) print(\"no\");\n",
    );
    assert_eq!(out, vec!["big", "0", "1"]);
}

#[test]
fn scope_test() {
    let out = outputs(
        "var x = 1;\n\
         {\n\
           var x = 2;\n\
           print(x);\n\
         }\n\
         print(x);\n",
    );
    assert_eq!(out, vec!["2", "1"]);
}

#[test]
fn math_test() {
    let out = outputs(
        "print(6 * 7);\n\
         print(1 + 2 * 3);\n\
         print(10 - 4);\n\
         print(9 / 2);\n\
         print(-(3));\n",
    );
    assert_eq!(out, vec!["42", "7", "6", "4.5", "-3"]);
}

#[test]
fn for_loop_test() {
    let out = outputs("for (var i = 0; i < 3; i = i + 1) print(i);\n");
    assert_eq!(out, vec!["0", "1", "2"]);
}

#[test]
fn comparison_test() {
    let out = outputs(
        "print(1 < 2);\n\
         print(2 <= 2);\n\
         print(3 > 4);\n\
         print(4 >= 5);\n\
         print(1 == 1);\n\
         print(1 != 1);\n\
         print(\"a\" == \"a\");\n\
         print(nil == nil);\n",
    );
    assert_eq!(out, vec!["true", "true", "false", "false", "true", "false", "true", "true"]);
}

#[test]
fn arithmetic_matches_ieee() {
    // The result of an arithmetic operator on two number literals is the
    // IEEE-754 binary64 operation on the parsed values.
    let out = outputs("print(0.1 + 0.2);");
    let expected = 0.1f64 + 0.2f64;
    let reparsed: f64 = out[0].parse().unwrap();
    assert_eq!(reparsed.to_bits(), expected.to_bits());
}

#[test]
fn string_concatenation_stringifies() {
    let out = outputs(
        "print(\"x\" + 1);\n\
         print(\"x\" + true);\n\
         print(\"x\" + nil);\n\
         print(\"a\" + \"b\" + \"c\");\n",
    );
    assert_eq!(out, vec!["x1", "xtrue", "xNIL", "abc"]);
}

#[test]
fn closures_capture_by_reference() {
    let out = outputs(
        "var counter = 0;\n\
         fun make() {\n\
           fun inner() {\n\
             print(counter);\n\
           }\n\
           return inner;\n\
         }\n\
         var f = make();\n\
         counter = 5;\n\
         f();\n",
    );
    assert_eq!(out, vec!["5"]);
}

#[test]
fn per_iteration_capture() {
    // A function created in a loop body that re-declares its variable each
    // iteration captures that iteration's binding.
    let out = outputs(
        "var first = nil;\n\
         var second = nil;\n\
         for (var i = 0; i < 2; i = i + 1) {\n\
           var here = i;\n\
           fun show() {\n\
             print(here);\n\
           }\n\
           if (i == 0) first = show; else second = show;\n\
         }\n\
         first();\n\
         second();\n",
    );
    assert_eq!(out, vec!["0", "1"]);
}

#[test]
fn recursion_factorial() {
    let out = outputs(
        "fun f(n) {\n\
           if (n <= 1) return 1;\n\
           return n * f(n - 1);\n\
         }\n\
         print(f(5));\n",
    );
    assert_eq!(out, vec!["120"]);
}

#[test]
fn short_circuit_evaluation() {
    let out = outputs(
        "var called = false;\n\
         fun sideEffect() {\n\
           called = true;\n\
           return true;\n\
         }\n\
         var a = false and sideEffect();\n\
         print(called);\n\
         var b = true or sideEffect();\n\
         print(called);\n\
         print(a);\n\
         print(b);\n",
    );
    assert_eq!(out, vec!["false", "false", "false", "true"]);
}

#[test]
fn parser_error_recovery() {
    let r = run(String::from("var ; var y = 1; print(y);"));
    assert_eq!(r.diagnostics.len(), 1);
    assert_eq!(r.output, vec!["1"]);
}

#[test]
fn ternary_expression() {
    let out = outputs("print(1 < 2 ? \"yes\" : \"no\");");
    assert_eq!(out, vec!["yes"]);
}

#[test]
fn undefined_variable_reported() {
    let r = run(String::from("print(missing);"));
    assert_eq!(r.diagnostics.len(), 1);
    assert!(r.diagnostics[0].message.contains("Variable not found"));
    // Evaluation goes on with nil.
    assert_eq!(r.output, vec!["NIL"]);
}

#[test]
fn assignment_to_undeclared_reported() {
    let r = run(String::from("ghostly = 3;"));
    assert_eq!(r.diagnostics.len(), 1);
    assert!(r.diagnostics[0].message.contains("Assignement failed"));
}

#[test]
fn type_mismatch_is_lenient() {
    let r = run(String::from("print(1 + true); print(3 < nil);"));
    // Both mismatches are reported; the left operand and false stand in.
    assert_eq!(r.diagnostics.len(), 2);
    assert_eq!(r.output, vec!["1", "false"]);
}

#[test]
fn unterminated_string_reported() {
    let r = run(String::from("var s = \"oops"));
    assert!(r.diagnostics.iter().any(|d| d.message.contains("Unterminated String")));
}

#[test]
fn unexpected_character_reported_and_skipped() {
    let r = run(String::from("print(1 # + 2);"));
    assert!(r.diagnostics.iter().any(|d| d.message.contains("Unexpected Token")));
}

#[test]
fn comments_and_escapes() {
    let out = outputs(
        "// a line comment\n\
         /* a block\n\
            comment */\n\
         print(\"say \\\"hi\\\"\");\n",
    );
    assert_eq!(out, vec!["say \"hi\""]);
}

#[test]
fn assignment_is_an_expression() {
    let out = outputs("var a = 1; var b = 2; a = b = 7; print(a); print(b);");
    assert_eq!(out, vec!["7", "7"]);
}

#[test]
fn rescanning_lexemes_reproduces_kinds() {
    // Scanning the lexeme text of any produced token in isolation yields a
    // token of the same kind again.
    let source = "var x_1 = 3.5 >= 2; if (x_1 and true) { print(\"a b\"); } WHILE != // end\n";
    let mut scanner = Scanner::new(String::from(source), None, None);
    let tokens = scanner.scan_tokens();
    assert!(tokens.len() > 10);
    for t in &tokens {
        let mut again = Scanner::new(t.lexeme.clone(), None, None);
        let rescanned = again.scan_tokens();
        assert!(!rescanned.is_empty());
        assert_eq!(
            rescanned[0].token_type, t.token_type,
            "lexeme {:?} rescanned to a different kind",
            t.lexeme
        );
    }
    assert!(matches!(tokens[tokens.len() - 1].token_type, TokenType::Eof));
}

#[test]
fn keywords_are_case_insensitive() {
    let out = outputs("VAR x = TRUE; IF (x) print(\"on\");");
    assert_eq!(out, vec!["on"]);
}

#[test]
fn for_loop_variable_does_not_leak() {
    let r = run(String::from("for (var i = 0; i < 1; i = i + 1) print(i); print(i);"));
    // The second print reads an undefined variable: the loop variable
    // stayed inside the desugared block.
    assert_eq!(r.diagnostics.len(), 1);
    assert!(r.diagnostics[0].message.contains("Variable not found"));
    assert_eq!(r.output, vec!["0", "NIL"]);
}
