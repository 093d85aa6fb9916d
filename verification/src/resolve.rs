//! Resolution of variable names in a formula.
//!
//! Variables are numbered in the order in which the formula first assigns
//! them; every use of a variable is replaced by its number. A use of a name
//! that no earlier statement has assigned is an error that reports the name.
use vstd::prelude::*;
use crate::ast::{BinExpr, Expr, Statement, Targets};

verus! {

/// Clamps an integer into the range of `usize`.
pub open spec fn clamp_usize(x: int) -> int {
    if x < 0 {
        0
    } else if x > usize::MAX {
        usize::MAX as int
    } else {
        x
    }
}

/// Moves the position `a` by the signed offset `b`, saturating at both ends
/// of the `usize` range.
pub fn summ(a: usize, b: i64) -> (r: usize)
    ensures
        r == clamp_usize(a + b),
{
    let s: i128 = a as i128 + b as i128;
    if s < 0 {
        0
    } else if s > usize::MAX as i128 {
        usize::MAX
    } else {
        s as usize
    }
}

/// The slot of the variable `v` among the declared `names`, which are listed
/// in slot order: the first position that holds `v`.
pub open spec fn spec_lookup(names: Seq<Seq<char>>, v: Seq<char>) -> Option<int>
    decreases names.len(),
{
    if names.len() == 0 {
        None
    } else {
        match spec_lookup(names.drop_last(), v) {
            Some(i) => Some(i),
            None => if names.last() == v {
                Some(names.len() - 1)
            } else {
                None
            },
        }
    }
}

/// The first variable of `e`, from left to right, that `names` does not declare.
pub open spec fn expr_error(e: Expr, names: Seq<Seq<char>>) -> Option<String>
    decreases e, 1nat,
{
    match e {
        Expr::ArrAcc(x) => expr_error(*x, names),
        Expr::Var(v) => if spec_lookup(names, v@) is Some {
            None
        } else {
            Some(v)
        },
        Expr::Binary { l, o, r } => match expr_error(*l, names) {
            Some(n) => Some(n),
            None => expr_error(*r, names),
        },
        Expr::SaFunc { f, x } => expr_error(*x, names),
        Expr::MaFunc { f, xs } => exprs_error((*xs)@, names),
        _ => None,
    }
}

/// The first undeclared variable of a list of expressions.
pub open spec fn exprs_error(xs: Seq<Expr>, names: Seq<Seq<char>>) -> Option<String>
    decreases xs, 0nat,
{
    if xs.len() == 0 {
        None
    } else {
        match exprs_error(xs.drop_last(), names) {
            Some(n) => Some(n),
            None => expr_error(xs.last(), names),
        }
    }
}


/// `r` is `e` with every variable replaced by its slot among `names`.
pub open spec fn expr_resolved(e: Expr, names: Seq<Seq<char>>, r: Expr) -> bool
    decreases e, 1nat,
{
    match e {
        Expr::ArrAcc(x) => r matches Expr::ArrAcc(y) && expr_resolved(*x, names, *y),
        Expr::Var(v) => spec_lookup(names, v@) matches Some(i) && r == Expr::ResVar(i as usize),
        Expr::ResVar(i) => r == Expr::ResVar(i),
        Expr::Spec(s) => r == Expr::Spec(s),
        Expr::Float(b) => r == Expr::Float(b),
        Expr::Binary { l, o, r: rr } => r matches Expr::Binary { l: l2, o: o2, r: r2 } && o2 == o
            && expr_resolved(*l, names, *l2) && expr_resolved(*rr, names, *r2),
        Expr::SaFunc { f, x } => r matches Expr::SaFunc { f: f2, x: x2 } && f2 == f
            && expr_resolved(*x, names, *x2),
        Expr::MaFunc { f, xs } => r matches Expr::MaFunc { f: f2, xs: ys } && f2 == f
            && exprs_resolved((*xs)@, names, (*ys)@),
    }
}

/// `rs` is `xs` with every variable replaced by its slot, element by element.
pub open spec fn exprs_resolved(xs: Seq<Expr>, names: Seq<Seq<char>>, rs: Seq<Expr>) -> bool
    decreases xs, 0nat,
{
    &&& xs.len() == rs.len()
    &&& xs.len() > 0 ==> {
        &&& exprs_resolved(xs.drop_last(), names, rs.drop_last())
        &&& expr_resolved(xs.last(), names, rs.last())
    }
}

/// The names of declared variables, in slot order.
pub open spec fn names_of(vars: Seq<String>) -> Seq<Seq<char>> {
    vars.map_values(|s: String| s@)
}

proof fn lemma_lookup_step(names: Seq<Seq<char>>, v: Seq<char>, i: int)
    requires
        0 <= i < names.len(),
        spec_lookup(names.take(i), v) is None,
    ensures
        spec_lookup(names.take(i + 1), v) == (if names[i] == v { Some(i) } else { None::<int> }),
{
    assert(names.take(i + 1).drop_last() =~= names.take(i));
}

/// The slot of the variable `v` among `vars`.
fn lookup(vars: &Vec<String>, v: &String) -> (r: Option<usize>)
    ensures
        match r {
            Some(i) => spec_lookup(names_of(vars@), v@) == Some(i as int),
            None => spec_lookup(names_of(vars@), v@) is None,
        },
{
    let ghost nm = names_of(vars@);
    let mut i: usize = 0;
    assert(nm.take(0) =~= Seq::<Seq<char>>::empty());
    while i < vars.len()
        invariant
            i <= vars@.len(),
            nm == names_of(vars@),
            spec_lookup(nm.take(i as int), v@) is None,
        decreases vars.len() - i,
    {
        proof {
            lemma_lookup_step(nm, v@, i as int);
        }
        if vars[i] == *v {
            assert(nm.take(vars@.len() as int) =~= nm);
            proof {
                lemma_lookup_prefix(nm, v@, (i + 1) as int);
            }
            return Some(i);
        }
        i = i + 1;
    }
    assert(nm.take(vars@.len() as int) =~= nm);
    None
}

/// A slot found in a prefix of the names is the slot in the whole list.
proof fn lemma_lookup_prefix(names: Seq<Seq<char>>, v: Seq<char>, k: int)
    requires
        0 <= k <= names.len(),
        spec_lookup(names.take(k), v) is Some,
    ensures
        spec_lookup(names, v) == spec_lookup(names.take(k), v),
    decreases names.len() - k,
{
    if k < names.len() {
        assert(names.take(k + 1).drop_last() =~= names.take(k));
        lemma_lookup_prefix(names, v, k + 1);
    } else {
        assert(names.take(k) =~= names);
    }
}

impl Expr {
    /// Replaces every variable name by its slot among `vars`, or reports the
    /// first name that `vars` does not declare.
    pub fn checkonvert(&self, vars: &Vec<String>) -> (res: Result<Expr, String>)
        ensures
            match res {
                Ok(r) => expr_error(*self, names_of(vars@)) is None
                    && expr_resolved(*self, names_of(vars@), r),
                Err(v) => expr_error(*self, names_of(vars@)) == Some(v),
            },
        decreases *self,
    {
        let ghost nm = names_of(vars@);
        match self {
            Expr::Var(v) => match lookup(vars, v) {
                Some(n) => Ok(Expr::ResVar(n)),
                None => Err(v.clone()),
            },
            Expr::Binary { l, r, o } => {
                let ll = match l.checkonvert(vars) {
                    Ok(x) => x,
                    Err(e) => return Err(e),
                };
                let rr = match r.checkonvert(vars) {
                    Ok(x) => x,
                    Err(e) => return Err(e),
                };
                Ok(Expr::Binary { l: Box::new(ll), o: *o, r: Box::new(rr) })
            },
            Expr::SaFunc { x, f } => {
                let xx = match x.checkonvert(vars) {
                    Ok(y) => y,
                    Err(e) => return Err(e),
                };
                Ok(Expr::SaFunc { x: Box::new(xx), f: *f })
            },
            Expr::MaFunc { xs, f } => {
                let mut out: Vec<Expr> = Vec::new();
                let mut i: usize = 0;
                assert(xs@.take(0) =~= Seq::<Expr>::empty());
                #[verifier::loop_isolation(false)]
                while i < xs.len()
                    invariant
                        i <= xs@.len(),
                        nm == names_of(vars@),
                        exprs_error(xs@.take(i as int), nm) is None,
                        exprs_resolved(xs@.take(i as int), nm, out@),
                    decreases xs.len() - i,
                {
                    assert(xs@.take(i + 1).drop_last() =~= xs@.take(i as int));
                    assert(xs@.take(i + 1).last() == xs@[i as int]);
                    match xs[i].checkonvert(vars) {
                        Ok(y) => {
                            let ghost prev = out@;
                            out.push(y);
                            assert(out@.drop_last() =~= prev);
                        },
                        Err(e) => {
                            assert(exprs_error(xs@.take(i + 1), nm) == Some(e));
                            assert(xs@.take(xs@.len() as int) =~= xs@);
                            proof {
                                lemma_exprs_error_prefix(xs@, nm, i + 1);
                            }
                            assert(expr_error(*self, nm) == exprs_error(xs@, nm));
                            return Err(e);
                        },
                    }
                    i = i + 1;
                }
                assert(xs@.take(xs@.len() as int) =~= xs@);
                Ok(Expr::MaFunc { f: *f, xs: Box::new(out) })
            },
            Expr::ArrAcc(e) => {
                let ee = match e.checkonvert(vars) {
                    Ok(y) => y,
                    Err(er) => return Err(er),
                };
                Ok(Expr::ArrAcc(Box::new(ee)))
            },
            Expr::ResVar(n) => Ok(Expr::ResVar(*n)),
            Expr::Spec(s) => Ok(Expr::Spec(*s)),
            Expr::Float(b) => Ok(Expr::Float(*b)),
        }
    }
}

/// An error found in a prefix of a list is the error of the whole list.
proof fn lemma_exprs_error_prefix(xs: Seq<Expr>, names: Seq<Seq<char>>, k: int)
    requires
        0 <= k <= xs.len(),
        exprs_error(xs.take(k), names) is Some,
    ensures
        exprs_error(xs, names) == exprs_error(xs.take(k), names),
    decreases xs.len() - k,
{
    if k < xs.len() {
        assert(xs.take(k + 1).drop_last() =~= xs.take(k));
        lemma_exprs_error_prefix(xs, names, k + 1);
    } else {
        assert(xs.take(k) =~= xs);
    }
}


/// The first undeclared variable of a condition.
pub open spec fn bin_error(b: BinExpr, names: Seq<Seq<char>>) -> Option<String>
    decreases b,
{
    match b {
        BinExpr::Lit(_) => None,
        BinExpr::Cmp { l, o, r } => match expr_error(*l, names) {
            Some(n) => Some(n),
            None => expr_error(*r, names),
        },
        BinExpr::Bin { l, o, r } => match bin_error(*l, names) {
            Some(n) => Some(n),
            None => bin_error(*r, names),
        },
    }
}

/// `r` is the condition `b` with every variable replaced by its slot.
pub open spec fn bin_resolved(b: BinExpr, names: Seq<Seq<char>>, r: BinExpr) -> bool
    decreases b,
{
    match b {
        BinExpr::Lit(x) => r == BinExpr::Lit(x),
        BinExpr::Cmp { l, o, r: rr } => r matches BinExpr::Cmp { l: l2, o: o2, r: r2 } && o2 == o
            && expr_resolved(*l, names, *l2) && expr_resolved(*rr, names, *r2),
        BinExpr::Bin { l, o, r: rr } => r matches BinExpr::Bin { l: l2, o: o2, r: r2 } && o2 == o
            && bin_resolved(*l, names, *l2) && bin_resolved(*rr, names, *r2),
    }
}

impl BinExpr {
    /// Replaces every variable name of the condition by its slot among `vars`,
    /// or reports the first name that `vars` does not declare.
    pub fn checkonvert(&self, vars: &Vec<String>) -> (res: Result<BinExpr, String>)
        ensures
            match res {
                Ok(r) => bin_error(*self, names_of(vars@)) is None
                    && bin_resolved(*self, names_of(vars@), r),
                Err(v) => bin_error(*self, names_of(vars@)) == Some(v),
            },
        decreases *self,
    {
        match self {
            BinExpr::Lit(x) => Ok(BinExpr::Lit(*x)),
            BinExpr::Cmp { l, o, r } => {
                let ll = match l.checkonvert(vars) {
                    Ok(x) => x,
                    Err(e) => return Err(e),
                };
                let rr = match r.checkonvert(vars) {
                    Ok(x) => x,
                    Err(e) => return Err(e),
                };
                Ok(BinExpr::Cmp { l: Box::new(ll), o: *o, r: Box::new(rr) })
            },
            BinExpr::Bin { l, o, r } => {
                let ll = match l.checkonvert(vars) {
                    Ok(x) => x,
                    Err(e) => return Err(e),
                };
                let rr = match r.checkonvert(vars) {
                    Ok(x) => x,
                    Err(e) => return Err(e),
                };
                Ok(BinExpr::Bin { l: Box::new(ll), o: *o, r: Box::new(rr) })
            },
        }
    }
}

/// The declared names after an assignment to `t`: a name assigned for the
/// first time takes the next slot.
pub open spec fn target_names(t: Targets, names: Seq<Seq<char>>) -> Seq<Seq<char>> {
    match t {
        Targets::Var(v) => if spec_lookup(names, v@) is Some {
            names
        } else {
            names.push(v@)
        },
        _ => names,
    }
}

/// `r` is the target `t` with its variable replaced by its slot.
pub open spec fn target_resolved(t: Targets, names: Seq<Seq<char>>, r: Targets) -> bool {
    match t {
        Targets::Var(v) => spec_lookup(target_names(t, names), v@) matches Some(i)
            && r == Targets::ResVar(i as usize),
        Targets::ArrAcc(o) => r == Targets::ArrAcc(o),
        Targets::ResVar(i) => r == Targets::ResVar(i),
    }
}

/// The first undeclared variable read by a statement.
pub open spec fn stmt_error(s: Statement, names: Seq<Seq<char>>) -> Option<String>
    decreases s, 1nat,
{
    match s {
        Statement::Assign { target, expr } => expr_error(expr, names),
        Statement::Block(ss) => stmts_error((*ss)@, names),
        Statement::Cond { ifs, thens } => match bin_error(*ifs, names) {
            Some(n) => Some(n),
            None => stmt_error(*thens, names),
        },
    }
}

/// The first undeclared variable read by a list of statements run in order.
pub open spec fn stmts_error(ss: Seq<Statement>, names: Seq<Seq<char>>) -> Option<String>
    decreases ss, 0nat,
{
    if ss.len() == 0 {
        None
    } else {
        match stmts_error(ss.drop_last(), names) {
            Some(n) => Some(n),
            None => stmt_error(ss.last(), stmts_names(ss.drop_last(), names)),
        }
    }
}

/// The declared names after a statement.
pub open spec fn stmt_names(s: Statement, names: Seq<Seq<char>>) -> Seq<Seq<char>>
    decreases s, 1nat,
{
    match s {
        Statement::Assign { target, expr } => target_names(target, names),
        Statement::Block(ss) => stmts_names((*ss)@, names),
        Statement::Cond { ifs, thens } => stmt_names(*thens, names),
    }
}

/// The declared names after a list of statements.
pub open spec fn stmts_names(ss: Seq<Statement>, names: Seq<Seq<char>>) -> Seq<Seq<char>>
    decreases ss, 0nat,
{
    if ss.len() == 0 {
        names
    } else {
        stmt_names(ss.last(), stmts_names(ss.drop_last(), names))
    }
}

/// `r` is the statement `s` with every variable replaced by its slot.
pub open spec fn stmt_resolved(s: Statement, names: Seq<Seq<char>>, r: Statement) -> bool
    decreases s, 1nat,
{
    match s {
        Statement::Assign { target, expr } => r matches Statement::Assign { target: t2, expr: e2 }
            && expr_resolved(expr, names, e2) && target_resolved(target, names, t2),
        Statement::Block(ss) => r matches Statement::Block(rs) && stmts_resolved((*ss)@, names, (*rs)@),
        Statement::Cond { ifs, thens } => r matches Statement::Cond { ifs: i2, thens: t2 }
            && bin_resolved(*ifs, names, *i2) && stmt_resolved(*thens, names, *t2),
    }
}

/// `rs` is the list `ss` with every variable replaced by its slot.
pub open spec fn stmts_resolved(ss: Seq<Statement>, names: Seq<Seq<char>>, rs: Seq<Statement>) -> bool
    decreases ss, 0nat,
{
    &&& ss.len() == rs.len()
    &&& ss.len() > 0 ==> {
        &&& stmts_resolved(ss.drop_last(), names, rs.drop_last())
        &&& stmt_resolved(ss.last(), stmts_names(ss.drop_last(), names), rs.last())
    }
}

proof fn lemma_lookup_push(names: Seq<Seq<char>>, v: Seq<char>)
    requires
        spec_lookup(names, v) is None,
    ensures
        spec_lookup(names.push(v), v) == Some(names.len() as int),
{
    assert(names.push(v).drop_last() =~= names);
}

/// Assigns the slot of the variable `t` writes to, declaring it in `vars`
/// when it is assigned for the first time.
fn resolve_target(t: &Targets, vars: &mut Vec<String>) -> (r: Targets)
    ensures
        names_of(final(vars)@) == target_names(*t, names_of(old(vars)@)),
        target_resolved(*t, names_of(old(vars)@), r),
{
    match t {
        Targets::Var(n) => {
            let ghost old_names = names_of(vars@);
            let idx: usize = match lookup(vars, n) {
                Some(i) => i,
                None => {
                    let v = vars.len();
                    vars.push(n.clone());
                    assert(names_of(vars@) =~= old_names.push(n@));
                    proof {
                        lemma_lookup_push(old_names, n@);
                    }
                    v
                },
            };
            Targets::ResVar(idx)
        },
        Targets::ArrAcc(o) => Targets::ArrAcc(*o),
        Targets::ResVar(i) => Targets::ResVar(*i),
    }
}

impl Statement {
    /// Resolves the variables of the statement, declaring in `vars` every
    /// variable that it assigns for the first time.
    pub fn resolve(&self, vars: &mut Vec<String>) -> (res: Result<Statement, String>)
        ensures
            match res {
                Ok(r) => {
                    &&& stmt_error(*self, names_of(old(vars)@)) is None
                    &&& stmt_resolved(*self, names_of(old(vars)@), r)
                    &&& names_of(final(vars)@) == stmt_names(*self, names_of(old(vars)@))
                },
                Err(v) => stmt_error(*self, names_of(old(vars)@)) == Some(v),
            },
        decreases *self,
    {
        match self {
            Statement::Assign { target, expr } => {
                let e = match expr.checkonvert(vars) {
                    Ok(x) => x,
                    Err(er) => return Err(er),
                };
                let t = resolve_target(target, vars);
                Ok(Statement::Assign { target: t, expr: e })
            },
            Statement::Block(ss) => {
                match resolve_list(ss.as_slice(), vars) {
                    Ok(rs) => Ok(Statement::Block(Box::new(rs))),
                    Err(er) => Err(er),
                }
            },
            Statement::Cond { ifs, thens } => {
                let c = match ifs.checkonvert(vars) {
                    Ok(x) => x,
                    Err(er) => return Err(er),
                };
                let t = match thens.resolve(vars) {
                    Ok(x) => x,
                    Err(er) => return Err(er),
                };
                Ok(Statement::Cond { ifs: Box::new(c), thens: Box::new(t) })
            },
        }
    }
}

/// An error found in a prefix of a statement list is the error of the whole list.
proof fn lemma_stmts_error_prefix(ss: Seq<Statement>, names: Seq<Seq<char>>, k: int)
    requires
        0 <= k <= ss.len(),
        stmts_error(ss.take(k), names) is Some,
    ensures
        stmts_error(ss, names) == stmts_error(ss.take(k), names),
    decreases ss.len() - k,
{
    if k < ss.len() {
        assert(ss.take(k + 1).drop_last() =~= ss.take(k));
        lemma_stmts_error_prefix(ss, names, k + 1);
    } else {
        assert(ss.take(k) =~= ss);
    }
}

/// Resolves a list of statements in order.
fn resolve_list(ss: &[Statement], vars: &mut Vec<String>) -> (res: Result<Vec<Statement>, String>)
    ensures
        match res {
            Ok(rs) => {
                &&& stmts_error(ss@, names_of(old(vars)@)) is None
                &&& stmts_resolved(ss@, names_of(old(vars)@), rs@)
                &&& names_of(final(vars)@) == stmts_names(ss@, names_of(old(vars)@))
            },
            Err(v) => stmts_error(ss@, names_of(old(vars)@)) == Some(v),
        },
    decreases ss@, 0nat,
{
    let ghost start = names_of(vars@);
    let mut out: Vec<Statement> = Vec::new();
    let mut i: usize = 0;
    assert(ss@.take(0) =~= Seq::<Statement>::empty());
    while i < ss.len()
        invariant
            i <= ss@.len(),
            start == names_of(old(vars)@),
            stmts_error(ss@.take(i as int), start) is None,
            stmts_resolved(ss@.take(i as int), start, out@),
            names_of(vars@) == stmts_names(ss@.take(i as int), start),
        decreases ss.len() - i,
    {
        assert(ss@.take(i + 1).drop_last() =~= ss@.take(i as int));
        assert(ss@.take(i + 1).last() == ss@[i as int]);
        match ss[i].resolve(vars) {
            Ok(y) => {
                let ghost prev = out@;
                out.push(y);
                assert(out@.drop_last() =~= prev);
            },
            Err(e) => {
                assert(stmts_error(ss@.take(i + 1), start) == Some(e));
                proof {
                    lemma_stmts_error_prefix(ss@, start, i + 1);
                }
                return Err(e);
            },
        }
        i = i + 1;
    }
    assert(ss@.take(ss@.len() as int) =~= ss@);
    Ok(out)
}

/// Resolution of `ss` stopped at statement `k` with the error `v`: the
/// statements before it resolve without error, and statement `k` reads the
/// undeclared variable `v`; `rs` holds the statements before it resolved and
/// the rest as they were.
pub open spec fn stopped_at(ss: Seq<Statement>, rs: Seq<Statement>, k: int, v: String) -> bool {
    &&& 0 <= k < ss.len()
    &&& rs.len() == ss.len()
    &&& stmts_error(ss.take(k), Seq::empty()) is None
    &&& stmt_error(ss[k], stmts_names(ss.take(k), Seq::empty())) == Some(v)
    &&& stmts_resolved(ss.take(k), Seq::empty(), rs.take(k))
    &&& rs.skip(k) == ss.skip(k)
}

/// Replaces every variable name of the formula by its slot, numbering the
/// variables in the order of their first assignment, and returns how many
/// variables the formula uses. When a statement reads a variable that no
/// earlier statement assigns, the name of the first such variable is
/// returned; the statements before that one are left resolved, and it and
/// the rest as they were.
pub fn chek_all(exprs: &mut [Statement]) -> (res: Result<usize, String>)
    ensures
        match res {
            Ok(n) => {
                &&& stmts_error(old(exprs)@, Seq::empty()) is None
                &&& stmts_resolved(old(exprs)@, Seq::empty(), final(exprs)@)
                &&& n == stmts_names(old(exprs)@, Seq::empty()).len()
            },
            Err(v) => {
                &&& stmts_error(old(exprs)@, Seq::empty()) == Some(v)
                &&& exists|k: int| #[trigger] stopped_at(old(exprs)@, final(exprs)@, k, v)
            },
        },
{
    let ghost initial = exprs@;
    let n = exprs.len();
    let mut vars: Vec<String> = Vec::new();
    assert(names_of(vars@) =~= Seq::<Seq<char>>::empty());
    assert(initial.take(0) =~= Seq::<Statement>::empty());
    assert(exprs@.take(0) =~= Seq::<Statement>::empty());
    let mut i: usize = 0;
    while i < n
        invariant
            initial == old(exprs)@,
            n == initial.len(),
            exprs@.len() == n,
            i <= n,
            stmts_error(initial.take(i as int), Seq::empty()) is None,
            stmts_resolved(initial.take(i as int), Seq::empty(), exprs@.take(i as int)),
            forall|k: int| i <= k < n ==> exprs@[k] == initial[k],
            names_of(vars@) == stmts_names(initial.take(i as int), Seq::empty()),
        decreases n - i,
    {
        assert(initial.take(i + 1).drop_last() =~= initial.take(i as int));
        assert(initial.take(i + 1).last() == initial[i as int]);
        match exprs[i].resolve(&mut vars) {
            Ok(y) => {
                let ghost before = exprs@;
                exprs[i] = y;
                assert(exprs@.take(i + 1).drop_last() =~= before.take(i as int));
                assert(exprs@.take(i + 1).last() == y);
            },
            Err(e) => {
                assert(stmts_error(initial.take(i + 1), Seq::empty()) == Some(e));
                proof {
                    lemma_stmts_error_prefix(initial, Seq::empty(), i + 1);
                }
                assert(exprs@.skip(i as int) =~= initial.skip(i as int));
                assert(stopped_at(initial, exprs@, i as int, e));
                return Err(e);
            },
        }
        i = i + 1;
    }
    assert(initial.take(n as int) =~= initial);
    assert(exprs@.take(n as int) =~= exprs@);
    Ok(vars.len())
}


/// No variable of `e` is referred to by name.
pub open spec fn expr_name_free(e: Expr) -> bool
    decreases e, 1nat,
{
    match e {
        Expr::ArrAcc(x) => expr_name_free(*x),
        Expr::Var(_) => false,
        Expr::Binary { l, o, r } => expr_name_free(*l) && expr_name_free(*r),
        Expr::SaFunc { f, x } => expr_name_free(*x),
        Expr::MaFunc { f, xs } => exprs_name_free((*xs)@),
        _ => true,
    }
}

/// No variable of any expression of `xs` is referred to by name.
pub open spec fn exprs_name_free(xs: Seq<Expr>) -> bool
    decreases xs, 0nat,
{
    xs.len() > 0 ==> exprs_name_free(xs.drop_last()) && expr_name_free(xs.last())
}

/// No variable of the condition is referred to by name.
pub open spec fn bin_name_free(b: BinExpr) -> bool
    decreases b,
{
    match b {
        BinExpr::Lit(_) => true,
        BinExpr::Cmp { l, o, r } => expr_name_free(*l) && expr_name_free(*r),
        BinExpr::Bin { l, o, r } => bin_name_free(*l) && bin_name_free(*r),
    }
}

/// No variable of the statement, read or written, is referred to by name.
pub open spec fn stmt_name_free(s: Statement) -> bool
    decreases s, 1nat,
{
    match s {
        Statement::Assign { target, expr } => !(target is Var) && expr_name_free(expr),
        Statement::Block(ss) => stmts_name_free((*ss)@),
        Statement::Cond { ifs, thens } => bin_name_free(*ifs) && stmt_name_free(*thens),
    }
}

/// No variable of any statement of `ss` is referred to by name.
pub open spec fn stmts_name_free(ss: Seq<Statement>) -> bool
    decreases ss, 0nat,
{
    ss.len() > 0 ==> stmts_name_free(ss.drop_last()) && stmt_name_free(ss.last())
}

proof fn lemma_expr_resolution_name_free(e: Expr, names: Seq<Seq<char>>, r: Expr)
    requires
        expr_error(e, names) is None,
        expr_resolved(e, names, r),
    ensures
        expr_name_free(r),
    decreases e, 1nat,
{
    match e {
        Expr::ArrAcc(x) => {
            if let Expr::ArrAcc(y) = r {
                lemma_expr_resolution_name_free(*x, names, *y);
            }
        },
        Expr::Binary { l, o, r: rr } => {
            if let Expr::Binary { l: l2, o: o2, r: r2 } = r {
                lemma_expr_resolution_name_free(*l, names, *l2);
                lemma_expr_resolution_name_free(*rr, names, *r2);
            }
        },
        Expr::SaFunc { f, x } => {
            if let Expr::SaFunc { f: f2, x: x2 } = r {
                lemma_expr_resolution_name_free(*x, names, *x2);
            }
        },
        Expr::MaFunc { f, xs } => {
            if let Expr::MaFunc { f: f2, xs: ys } = r {
                lemma_exprs_resolution_name_free((*xs)@, names, (*ys)@);
            }
        },
        _ => {},
    }
}

proof fn lemma_exprs_resolution_name_free(xs: Seq<Expr>, names: Seq<Seq<char>>, rs: Seq<Expr>)
    requires
        exprs_error(xs, names) is None,
        exprs_resolved(xs, names, rs),
    ensures
        exprs_name_free(rs),
    decreases xs, 0nat,
{
    if xs.len() > 0 {
        lemma_exprs_resolution_name_free(xs.drop_last(), names, rs.drop_last());
        lemma_expr_resolution_name_free(xs.last(), names, rs.last());
    }
}

proof fn lemma_bin_resolution_name_free(b: BinExpr, names: Seq<Seq<char>>, r: BinExpr)
    requires
        bin_error(b, names) is None,
        bin_resolved(b, names, r),
    ensures
        bin_name_free(r),
    decreases b,
{
    match b {
        BinExpr::Cmp { l, o, r: rr } => {
            if let BinExpr::Cmp { l: l2, o: o2, r: r2 } = r {
                lemma_expr_resolution_name_free(*l, names, *l2);
                lemma_expr_resolution_name_free(*rr, names, *r2);
            }
        },
        BinExpr::Bin { l, o, r: rr } => {
            if let BinExpr::Bin { l: l2, o: o2, r: r2 } = r {
                lemma_bin_resolution_name_free(*l, names, *l2);
                lemma_bin_resolution_name_free(*rr, names, *r2);
            }
        },
        _ => {},
    }
}

proof fn lemma_stmt_resolution_name_free(s: Statement, names: Seq<Seq<char>>, r: Statement)
    requires
        stmt_error(s, names) is None,
        stmt_resolved(s, names, r),
    ensures
        stmt_name_free(r),
    decreases s, 1nat,
{
    match s {
        Statement::Assign { target, expr } => {
            if let Statement::Assign { target: t2, expr: e2 } = r {
                lemma_expr_resolution_name_free(expr, names, e2);
            }
        },
        Statement::Block(ss) => {
            if let Statement::Block(rs) = r {
                lemma_stmts_resolution_name_free((*ss)@, names, (*rs)@);
            }
        },
        Statement::Cond { ifs, thens } => {
            if let Statement::Cond { ifs: i2, thens: t2 } = r {
                lemma_bin_resolution_name_free(*ifs, names, *i2);
                lemma_stmt_resolution_name_free(*thens, names, *t2);
            }
        },
    }
}

proof fn lemma_stmts_resolution_name_free(ss: Seq<Statement>, names: Seq<Seq<char>>, rs: Seq<Statement>)
    requires
        stmts_error(ss, names) is None,
        stmts_resolved(ss, names, rs),
    ensures
        stmts_name_free(rs),
    decreases ss, 0nat,
{
    if ss.len() > 0 {
        lemma_stmts_resolution_name_free(ss.drop_last(), names, rs.drop_last());
        lemma_stmt_resolution_name_free(ss.last(), stmts_names(ss.drop_last(), names), rs.last());
    }
}

/// Law: a formula that resolves without error is left with no variable
/// referred to by name; every variable is referred to by its slot.
pub proof fn law_resolution_removes_names(ss: Seq<Statement>, rs: Seq<Statement>)
    requires
        stmts_error(ss, Seq::empty()) is None,
        stmts_resolved(ss, Seq::empty(), rs),
    ensures
        stmts_name_free(rs),
{
    lemma_stmts_resolution_name_free(ss, Seq::empty(), rs);
}

proof fn lemma_expr_name_free_fixed(e: Expr, names: Seq<Seq<char>>)
    requires
        expr_name_free(e),
    ensures
        expr_error(e, names) is None,
        expr_resolved(e, names, e),
    decreases e, 1nat,
{
    match e {
        Expr::ArrAcc(x) => lemma_expr_name_free_fixed(*x, names),
        Expr::Binary { l, o, r } => {
            lemma_expr_name_free_fixed(*l, names);
            lemma_expr_name_free_fixed(*r, names);
        },
        Expr::SaFunc { f, x } => lemma_expr_name_free_fixed(*x, names),
        Expr::MaFunc { f, xs } => lemma_exprs_name_free_fixed((*xs)@, names),
        _ => {},
    }
}

proof fn lemma_exprs_name_free_fixed(xs: Seq<Expr>, names: Seq<Seq<char>>)
    requires
        exprs_name_free(xs),
    ensures
        exprs_error(xs, names) is None,
        exprs_resolved(xs, names, xs),
    decreases xs, 0nat,
{
    if xs.len() > 0 {
        lemma_exprs_name_free_fixed(xs.drop_last(), names);
        lemma_expr_name_free_fixed(xs.last(), names);
    }
}

proof fn lemma_bin_name_free_fixed(b: BinExpr, names: Seq<Seq<char>>)
    requires
        bin_name_free(b),
    ensures
        bin_error(b, names) is None,
        bin_resolved(b, names, b),
    decreases b,
{
    match b {
        BinExpr::Cmp { l, o, r } => {
            lemma_expr_name_free_fixed(*l, names);
            lemma_expr_name_free_fixed(*r, names);
        },
        BinExpr::Bin { l, o, r } => {
            lemma_bin_name_free_fixed(*l, names);
            lemma_bin_name_free_fixed(*r, names);
        },
        _ => {},
    }
}

proof fn lemma_stmt_name_free_fixed(s: Statement, names: Seq<Seq<char>>)
    requires
        stmt_name_free(s),
    ensures
        stmt_error(s, names) is None,
        stmt_resolved(s, names, s),
        stmt_names(s, names) == names,
    decreases s, 1nat,
{
    match s {
        Statement::Assign { target, expr } => lemma_expr_name_free_fixed(expr, names),
        Statement::Block(ss) => lemma_stmts_name_free_fixed((*ss)@, names),
        Statement::Cond { ifs, thens } => {
            lemma_bin_name_free_fixed(*ifs, names);
            lemma_stmt_name_free_fixed(*thens, names);
        },
    }
}

proof fn lemma_stmts_name_free_fixed(ss: Seq<Statement>, names: Seq<Seq<char>>)
    requires
        stmts_name_free(ss),
    ensures
        stmts_error(ss, names) is None,
        stmts_resolved(ss, names, ss),
        stmts_names(ss, names) == names,
    decreases ss, 0nat,
{
    if ss.len() > 0 {
        lemma_stmts_name_free_fixed(ss.drop_last(), names);
        lemma_stmt_name_free_fixed(ss.last(), names);
    }
}

/// Law: resolving a formula whose variables are already all referred to by
/// slot changes nothing and declares no variable, so resolving twice gives
/// the same formula as resolving once.
pub proof fn law_resolution_idempotent(ss: Seq<Statement>)
    requires
        stmts_name_free(ss),
    ensures
        stmts_error(ss, Seq::empty()) is None,
        stmts_resolved(ss, Seq::empty(), ss),
        stmts_names(ss, Seq::empty()).len() == 0,
{
    lemma_stmts_name_free_fixed(ss, Seq::empty());
}


/// Every slot that `e` refers to is below `b`.
pub open spec fn expr_slots_below(e: Expr, b: int) -> bool
    decreases e, 1nat,
{
    match e {
        Expr::ArrAcc(x) => expr_slots_below(*x, b),
        Expr::ResVar(i) => i < b,
        Expr::Binary { l, o, r } => expr_slots_below(*l, b) && expr_slots_below(*r, b),
        Expr::SaFunc { f, x } => expr_slots_below(*x, b),
        Expr::MaFunc { f, xs } => exprs_slots_below((*xs)@, b),
        _ => true,
    }
}

/// Every slot that an expression of `xs` refers to is below `b`.
pub open spec fn exprs_slots_below(xs: Seq<Expr>, b: int) -> bool
    decreases xs, 0nat,
{
    xs.len() > 0 ==> exprs_slots_below(xs.drop_last(), b) && expr_slots_below(xs.last(), b)
}

/// Every slot that the condition refers to is below `b`.
pub open spec fn bin_slots_below(c: BinExpr, b: int) -> bool
    decreases c,
{
    match c {
        BinExpr::Lit(_) => true,
        BinExpr::Cmp { l, o, r } => expr_slots_below(*l, b) && expr_slots_below(*r, b),
        BinExpr::Bin { l, o, r } => bin_slots_below(*l, b) && bin_slots_below(*r, b),
    }
}

/// Every slot that the statement reads or writes is below `b`.
pub open spec fn stmt_slots_below(s: Statement, b: int) -> bool
    decreases s, 1nat,
{
    match s {
        Statement::Assign { target, expr } => (target matches Targets::ResVar(i) ==> i < b)
            && expr_slots_below(expr, b),
        Statement::Block(ss) => stmts_slots_below((*ss)@, b),
        Statement::Cond { ifs, thens } => bin_slots_below(*ifs, b) && stmt_slots_below(*thens, b),
    }
}

/// Every slot that a statement of `ss` reads or writes is below `b`.
pub open spec fn stmts_slots_below(ss: Seq<Statement>, b: int) -> bool
    decreases ss, 0nat,
{
    ss.len() > 0 ==> stmts_slots_below(ss.drop_last(), b) && stmt_slots_below(ss.last(), b)
}

proof fn lemma_expr_slots_mono(e: Expr, a: int, b: int)
    requires
        expr_slots_below(e, a),
        a <= b,
    ensures
        expr_slots_below(e, b),
    decreases e, 1nat,
{
    match e {
        Expr::ArrAcc(x) => lemma_expr_slots_mono(*x, a, b),
        Expr::Binary { l, o, r } => {
            lemma_expr_slots_mono(*l, a, b);
            lemma_expr_slots_mono(*r, a, b);
        },
        Expr::SaFunc { f, x } => lemma_expr_slots_mono(*x, a, b),
        Expr::MaFunc { f, xs } => lemma_exprs_slots_mono((*xs)@, a, b),
        _ => {},
    }
}

proof fn lemma_exprs_slots_mono(xs: Seq<Expr>, a: int, b: int)
    requires
        exprs_slots_below(xs, a),
        a <= b,
    ensures
        exprs_slots_below(xs, b),
    decreases xs, 0nat,
{
    if xs.len() > 0 {
        lemma_exprs_slots_mono(xs.drop_last(), a, b);
        lemma_expr_slots_mono(xs.last(), a, b);
    }
}

proof fn lemma_bin_slots_mono(c: BinExpr, a: int, b: int)
    requires
        bin_slots_below(c, a),
        a <= b,
    ensures
        bin_slots_below(c, b),
    decreases c,
{
    match c {
        BinExpr::Cmp { l, o, r } => {
            lemma_expr_slots_mono(*l, a, b);
            lemma_expr_slots_mono(*r, a, b);
        },
        BinExpr::Bin { l, o, r } => {
            lemma_bin_slots_mono(*l, a, b);
            lemma_bin_slots_mono(*r, a, b);
        },
        _ => {},
    }
}

proof fn lemma_stmt_slots_mono(s: Statement, a: int, b: int)
    requires
        stmt_slots_below(s, a),
        a <= b,
    ensures
        stmt_slots_below(s, b),
    decreases s, 1nat,
{
    match s {
        Statement::Assign { target, expr } => lemma_expr_slots_mono(expr, a, b),
        Statement::Block(ss) => lemma_stmts_slots_mono((*ss)@, a, b),
        Statement::Cond { ifs, thens } => {
            lemma_bin_slots_mono(*ifs, a, b);
            lemma_stmt_slots_mono(*thens, a, b);
        },
    }
}

proof fn lemma_stmts_slots_mono(ss: Seq<Statement>, a: int, b: int)
    requires
        stmts_slots_below(ss, a),
        a <= b,
    ensures
        stmts_slots_below(ss, b),
    decreases ss, 0nat,
{
    if ss.len() > 0 {
        lemma_stmts_slots_mono(ss.drop_last(), a, b);
        lemma_stmt_slots_mono(ss.last(), a, b);
    }
}

proof fn lemma_lookup_bound(names: Seq<Seq<char>>, v: Seq<char>)
    ensures
        spec_lookup(names, v) matches Some(i) ==> 0 <= i < names.len(),
    decreases names.len(),
{
    if names.len() > 0 {
        lemma_lookup_bound(names.drop_last(), v);
    }
}

proof fn lemma_stmt_names_grow(s: Statement, names: Seq<Seq<char>>)
    ensures
        stmt_names(s, names).len() >= names.len(),
    decreases s, 1nat,
{
    match s {
        Statement::Assign { target, expr } => {},
        Statement::Block(ss) => lemma_stmts_names_grow((*ss)@, names),
        Statement::Cond { ifs, thens } => lemma_stmt_names_grow(*thens, names),
    }
}

proof fn lemma_stmts_names_grow(ss: Seq<Statement>, names: Seq<Seq<char>>)
    ensures
        stmts_names(ss, names).len() >= names.len(),
    decreases ss, 0nat,
{
    if ss.len() > 0 {
        lemma_stmts_names_grow(ss.drop_last(), names);
        lemma_stmt_names_grow(ss.last(), stmts_names(ss.drop_last(), names));
    }
}

proof fn lemma_expr_resolved_slots(e: Expr, names: Seq<Seq<char>>, r: Expr)
    requires
        expr_error(e, names) is None,
        expr_resolved(e, names, r),
        expr_slots_below(e, 0),
    ensures
        expr_slots_below(r, names.len() as int),
    decreases e, 1nat,
{
    match e {
        Expr::ArrAcc(x) => {
            if let Expr::ArrAcc(y) = r {
                lemma_expr_resolved_slots(*x, names, *y);
            }
        },
        Expr::Var(v) => lemma_lookup_bound(names, v@),
        Expr::Binary { l, o, r: rr } => {
            if let Expr::Binary { l: l2, o: o2, r: r2 } = r {
                lemma_expr_resolved_slots(*l, names, *l2);
                lemma_expr_resolved_slots(*rr, names, *r2);
            }
        },
        Expr::SaFunc { f, x } => {
            if let Expr::SaFunc { f: f2, x: x2 } = r {
                lemma_expr_resolved_slots(*x, names, *x2);
            }
        },
        Expr::MaFunc { f, xs } => {
            if let Expr::MaFunc { f: f2, xs: ys } = r {
                lemma_exprs_resolved_slots((*xs)@, names, (*ys)@);
            }
        },
        _ => {},
    }
}

proof fn lemma_exprs_resolved_slots(xs: Seq<Expr>, names: Seq<Seq<char>>, rs: Seq<Expr>)
    requires
        exprs_error(xs, names) is None,
        exprs_resolved(xs, names, rs),
        exprs_slots_below(xs, 0),
    ensures
        exprs_slots_below(rs, names.len() as int),
    decreases xs, 0nat,
{
    if xs.len() > 0 {
        lemma_exprs_resolved_slots(xs.drop_last(), names, rs.drop_last());
        lemma_expr_resolved_slots(xs.last(), names, rs.last());
    }
}

proof fn lemma_bin_resolved_slots(c: BinExpr, names: Seq<Seq<char>>, r: BinExpr)
    requires
        bin_error(c, names) is None,
        bin_resolved(c, names, r),
        bin_slots_below(c, 0),
    ensures
        bin_slots_below(r, names.len() as int),
    decreases c,
{
    match c {
        BinExpr::Cmp { l, o, r: rr } => {
            if let BinExpr::Cmp { l: l2, o: o2, r: r2 } = r {
                lemma_expr_resolved_slots(*l, names, *l2);
                lemma_expr_resolved_slots(*rr, names, *r2);
            }
        },
        BinExpr::Bin { l, o, r: rr } => {
            if let BinExpr::Bin { l: l2, o: o2, r: r2 } = r {
                lemma_bin_resolved_slots(*l, names, *l2);
                lemma_bin_resolved_slots(*rr, names, *r2);
            }
        },
        _ => {},
    }
}

proof fn lemma_stmt_resolved_slots(s: Statement, names: Seq<Seq<char>>, r: Statement)
    requires
        stmt_error(s, names) is None,
        stmt_resolved(s, names, r),
        stmt_slots_below(s, 0),
    ensures
        stmt_slots_below(r, stmt_names(s, names).len() as int),
    decreases s, 1nat,
{
    match s {
        Statement::Assign { target, expr } => {
            if let Statement::Assign { target: t2, expr: e2 } = r {
                lemma_expr_resolved_slots(expr, names, e2);
                lemma_expr_slots_mono(e2, names.len() as int, target_names(target, names).len() as int);
                if let Targets::Var(v) = target {
                    lemma_lookup_bound(target_names(target, names), v@);
                }
            }
        },
        Statement::Block(ss) => {
            if let Statement::Block(rs) = r {
                lemma_stmts_resolved_slots((*ss)@, names, (*rs)@);
            }
        },
        Statement::Cond { ifs, thens } => {
            if let Statement::Cond { ifs: i2, thens: t2 } = r {
                lemma_bin_resolved_slots(*ifs, names, *i2);
                lemma_stmt_names_grow(*thens, names);
                lemma_bin_slots_mono(*i2, names.len() as int, stmt_names(*thens, names).len() as int);
                lemma_stmt_resolved_slots(*thens, names, *t2);
            }
        },
    }
}

proof fn lemma_stmts_resolved_slots(ss: Seq<Statement>, names: Seq<Seq<char>>, rs: Seq<Statement>)
    requires
        stmts_error(ss, names) is None,
        stmts_resolved(ss, names, rs),
        stmts_slots_below(ss, 0),
    ensures
        stmts_slots_below(rs, stmts_names(ss, names).len() as int),
    decreases ss, 0nat,
{
    if ss.len() > 0 {
        let mid = stmts_names(ss.drop_last(), names);
        lemma_stmts_resolved_slots(ss.drop_last(), names, rs.drop_last());
        lemma_stmt_names_grow(ss.last(), mid);
        lemma_stmts_slots_mono(rs.drop_last(), mid.len() as int, stmts_names(ss, names).len() as int);
        lemma_stmt_resolved_slots(ss.last(), mid, rs.last());
    }
}

/// Law: when a formula that refers to no slot yet resolves without error,
/// every slot that the resolved formula reads or writes is below the number
/// of variables that resolution reports, so that many slots are enough to
/// run it.
pub proof fn law_slots_within_count(ss: Seq<Statement>, rs: Seq<Statement>)
    requires
        stmts_slots_below(ss, 0),
        stmts_error(ss, Seq::empty()) is None,
        stmts_resolved(ss, Seq::empty(), rs),
    ensures
        stmts_slots_below(rs, stmts_names(ss, Seq::empty()).len() as int),
{
    lemma_stmts_resolved_slots(ss, Seq::empty(), rs);
}

} // verus!
