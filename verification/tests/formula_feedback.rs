use adios::ast::{Expr, Spec, Statement, Targets};
use adios::formula::{error_window_of, EvalErr, FormulaState, ParseProblem};

fn chars(s: &str) -> Vec<char> {
    s.chars().collect()
}

#[test]
fn default_formula_copies_cursor_amplitude() {
    let f = FormulaState::default();
    assert_eq!(f.formula.len(), 1);
    assert!(matches!(
        &f.formula[0],
        Statement::Assign { target: Targets::ArrAcc(0), expr: Expr::Spec(Spec::Mouse) }
    ));
    assert_eq!(f.message1, "");
    assert_eq!(f.message2, "Ok");
    assert_eq!(f.variables, 0);
}

#[test]
fn accept_reports_success_or_undeclared_variable() {
    let mut f = FormulaState::default();
    let good = vec![
        Statement::Assign { target: Targets::Var("a".to_string()), expr: Expr::Float(0) },
        Statement::Assign { target: Targets::ArrAcc(0), expr: Expr::Var("a".to_string()) },
    ];
    assert!(f.accept(good));
    assert_eq!(f.message1, "");
    assert_eq!(f.message2, "Success!");
    assert_eq!(f.variables, 1);
    assert_eq!(f.formula.len(), 2);

    let bad = vec![Statement::Assign { target: Targets::ArrAcc(0), expr: Expr::Var("zz".to_string()) }];
    assert!(!f.accept(bad));
    assert_eq!(f.message1, "zz");
    assert_eq!(f.message2, "Undeclared variable");
    assert!(f.formula.is_empty());
    assert_eq!(f.variables, 1);
}

#[test]
fn error_window_centres_the_error() {
    let text = chars("[0]=&m+sin(x)*\nfoo(1,2,3)+bar");
    let w: String = error_window_of(&text, 14).into_iter().collect();
    assert_eq!(w, "&m+sin(x)* foo(1,2,3)");
    assert_eq!(w.chars().nth(10), Some(' '));
    let early: String = error_window_of(&text, 2).into_iter().collect();
    assert_eq!(early, "        [0]=&m+sin(x)");
    assert_eq!(early.chars().nth(10), Some(']'));
    let end: String = error_window_of(&text, 30).into_iter().collect();
    assert_eq!(end, ",2,3)+bar");
    let beyond: String = error_window_of(&text, 100).into_iter().collect();
    assert_eq!(beyond, "");
    let empty: String = error_window_of(&Vec::new(), 0).into_iter().collect();
    assert_eq!(empty, "          ");
}

#[test]
fn parse_errors_point_at_the_problem() {
    let mut f = FormulaState::default();
    f.generate_err_message(&chars("[0]=&m+"), 7, ParseProblem::UnrecognizedEof);
    assert_eq!(f.message1, "   [0]=&m+");
    assert_eq!(f.message2, "          ^ - early EOF");
    f.generate_err_message(&chars("[0]=$"), 4, ParseProblem::InvalidToken);
    assert_eq!(f.message1, "      [0]=$");
    assert_eq!(f.message2, "          ^ - bad token");
    f.generate_err_message(&chars("[0]=1 2"), 6, ParseProblem::UnrecognizedToken);
    assert_eq!(f.message2, "          ^ - bad syntax");
    f.generate_err_message(&chars("[0]=1 2"), 6, ParseProblem::ExtraToken);
    assert_eq!(f.message2, "          ^ - bad token");
    assert_eq!(f.formula.len(), 1);
}

#[test]
fn eval_errors_are_explained() {
    let mut f = FormulaState::default();
    f.eval_error_message(EvalErr::DivByZero);
    assert_eq!(f.message1, "Sample skipped");
    assert_eq!(f.message2, "Divide by Zero occured");
    f.eval_error_message(EvalErr::NoArgs);
    assert_eq!(f.message1, "");
    assert_eq!(f.message2, "No arguments provided");
}
