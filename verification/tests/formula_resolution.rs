use adios::ast::{BinExpr, CmpOpr, Expr, MaFunc, Opr, SaFunc, Spec, Statement, Targets};
use adios::resolve::{chek_all, summ};

fn var(n: &str) -> Expr {
    Expr::Var(n.to_string())
}

fn assign_var(n: &str, e: Expr) -> Statement {
    Statement::Assign { target: Targets::Var(n.to_string()), expr: e }
}

fn assign_at(off: i64, e: Expr) -> Statement {
    Statement::Assign { target: Targets::ArrAcc(off), expr: e }
}

fn is_resvar(e: &Expr, i: usize) -> bool {
    matches!(e, Expr::ResVar(k) if *k == i)
}

#[test]
fn summ_moves_and_saturates() {
    assert_eq!(summ(10, 5), 15);
    assert_eq!(summ(10, -3), 7);
    assert_eq!(summ(3, -10), 0);
    assert_eq!(summ(usize::MAX - 1, 5), usize::MAX);
    assert_eq!(summ(0, i64::MIN), 0);
    assert_eq!(summ(7, 0), 7);
}

#[test]
fn variables_numbered_in_order_of_first_assignment() {
    let mut f = vec![
        assign_var("a", Expr::Spec(Spec::Mouse)),
        assign_var("b", Expr::Binary { l: Box::new(var("a")), o: Opr::Mul, r: Box::new(Expr::Float(2.0f32.to_bits())) }),
        assign_var("a", Expr::Binary { l: Box::new(var("b")), o: Opr::Add, r: Box::new(var("a")) }),
        assign_at(0, var("a")),
    ];
    assert_eq!(chek_all(&mut f), Ok(2));
    match &f[0] {
        Statement::Assign { target, .. } => assert_eq!(*target, Targets::ResVar(0)),
        _ => panic!(),
    }
    match &f[1] {
        Statement::Assign { target, expr } => {
            assert_eq!(*target, Targets::ResVar(1));
            match expr {
                Expr::Binary { l, o, r } => {
                    assert!(is_resvar(l, 0));
                    assert_eq!(*o, Opr::Mul);
                    assert!(matches!(**r, Expr::Float(b) if b == 2.0f32.to_bits()));
                }
                _ => panic!(),
            }
        }
        _ => panic!(),
    }
    match &f[2] {
        Statement::Assign { target, expr } => {
            assert_eq!(*target, Targets::ResVar(0));
            match expr {
                Expr::Binary { l, r, .. } => {
                    assert!(is_resvar(l, 1));
                    assert!(is_resvar(r, 0));
                }
                _ => panic!(),
            }
        }
        _ => panic!(),
    }
    match &f[3] {
        Statement::Assign { target, expr } => {
            assert_eq!(*target, Targets::ArrAcc(0));
            assert!(is_resvar(expr, 0));
        }
        _ => panic!(),
    }
}

#[test]
fn reading_before_assigning_is_reported_and_stops_there() {
    let mut f = vec![
        assign_var("x", Expr::Float(0)),
        assign_at(1, Expr::MaFunc { f: MaFunc::Max, xs: Box::new(vec![var("x"), var("y"), var("z")]) }),
        assign_var("z", Expr::Float(0)),
    ];
    assert_eq!(chek_all(&mut f), Err("y".to_string()));
    // The statement before the error is resolved; it and the rest are not.
    match &f[0] {
        Statement::Assign { target, .. } => assert_eq!(*target, Targets::ResVar(0)),
        _ => panic!(),
    }
    match &f[1] {
        Statement::Assign { expr: Expr::MaFunc { xs, .. }, .. } => assert!(matches!(&xs[0], Expr::Var(n) if n == "x")),
        _ => panic!(),
    }
    match &f[2] {
        Statement::Assign { target, .. } => assert_eq!(*target, Targets::Var("z".to_string())),
        _ => panic!(),
    }
    let mut g = vec![assign_var("x", var("x"))];
    assert_eq!(chek_all(&mut g), Err("x".to_string()));
}

#[test]
fn blocks_and_conditions_resolve_in_order() {
    let cond = BinExpr::Cmp { l: Box::new(var("v")), o: CmpOpr::Grt, r: Box::new(Expr::Spec(Spec::Time)) };
    let mut f = vec![
        Statement::Block(Box::new(vec![assign_var("v", Expr::SaFunc { f: SaFunc::Sin, x: Box::new(Expr::Spec(Spec::Pi)) })])),
        Statement::Cond { ifs: Box::new(cond), thens: Box::new(assign_var("w", Expr::ArrAcc(Box::new(var("v"))))) },
        assign_at(-1, var("w")),
    ];
    assert_eq!(chek_all(&mut f), Ok(2));
    match &f[1] {
        Statement::Cond { ifs, thens } => {
            match &**ifs {
                BinExpr::Cmp { l, .. } => assert!(is_resvar(l, 0)),
                _ => panic!(),
            }
            match &**thens {
                Statement::Assign { target, expr } => {
                    assert_eq!(*target, Targets::ResVar(1));
                    match expr {
                        Expr::ArrAcc(inner) => assert!(is_resvar(inner, 0)),
                        _ => panic!(),
                    }
                }
                _ => panic!(),
            }
        }
        _ => panic!(),
    }
}

#[test]
fn resolving_twice_changes_nothing() {
    let mut f = vec![assign_var("k", Expr::Float(7)), assign_at(0, var("k"))];
    assert_eq!(chek_all(&mut f), Ok(1));
    assert_eq!(chek_all(&mut f), Ok(0));
    match &f[1] {
        Statement::Assign { target, expr } => {
            assert_eq!(*target, Targets::ArrAcc(0));
            assert!(is_resvar(expr, 0));
        }
        _ => panic!(),
    }
}

#[test]
fn checkonvert_reports_first_unknown_name() {
    let vars = vec!["a".to_string(), "b".to_string()];
    let e = Expr::Binary { l: Box::new(var("b")), o: Opr::Sub, r: Box::new(var("q")) };
    assert_eq!(e.checkonvert(&vars).err(), Some("q".to_string()));
    let ok = Expr::MaFunc { f: MaFunc::Avg, xs: Box::new(vec![var("b"), var("a")]) };
    match ok.checkonvert(&vars) {
        Ok(Expr::MaFunc { f, xs }) => {
            assert_eq!(f, MaFunc::Avg);
            assert!(is_resvar(&xs[0], 1));
            assert!(is_resvar(&xs[1], 0));
        }
        _ => panic!(),
    }
}
