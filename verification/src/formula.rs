//! The state of the formula editor: the current formula, the number of
//! variables it uses, and the two lines of feedback shown under it.
use vstd::prelude::*;
use crate::ast::{Expr, Spec, Statement, Targets};
use crate::resolve::{chek_all, clamp_usize, stmts_error, stmts_names, stmts_resolved, summ};

verus! {

/// Why a formula could not be evaluated on a sample.
#[derive(Debug, Clone, Copy)]
pub enum EvalErr {
    DivByZero,
    NoArgs,
}

/// Why the formula text could not be parsed.
#[derive(Debug, Clone, Copy)]
pub enum ParseProblem {
    InvalidToken,
    UnrecognizedEof,
    UnrecognizedToken,
    ExtraToken,
}

/// Sample `at` of `data`, or silence where `at` lies outside the data.
pub open spec fn sample_or_silence(data: Seq<i16>, at: int) -> i16 {
    if 0 <= at < data.len() {
        data[at]
    } else {
        0
    }
}

/// The sample a formula reads at offset `off` from sample `base`: the
/// position is moved as `summ` moves it, and a position beyond the data
/// reads as silence.
pub fn sample_at(data: &Vec<i16>, base: usize, off: i64) -> (r: i16)
    ensures
        r == sample_or_silence(data@, clamp_usize(base + off)),
{
    let at = summ(base, off);
    if at < data.len() {
        data[at]
    } else {
        0
    }
}

/// Stores the value of a statement at offset `off` from sample `pos` of the
/// edited samples; the position is moved as `summ` moves it, and a value
/// whose position lies beyond them is dropped.
pub fn store_at(target: &mut Vec<i16>, pos: usize, off: i64, v: i16)
    ensures
        final(target)@ == if clamp_usize(pos + off) < old(target)@.len() {
            old(target)@.update(clamp_usize(pos + off), v)
        } else {
            old(target)@
        },
{
    let at = summ(pos, off);
    if at < target.len() {
        target.set(at, v);
    }
}

/// How many characters of context the error window shows on each side of
/// the error position.
pub const RANG: usize = 10;

/// The characters of `text` around position `pos`: `RANG` characters before
/// it (padded with spaces at the start of the text), the character at `pos`
/// and `RANG` after it, as far as the text reaches, with line breaks shown
/// as spaces.
pub open spec fn error_window(text: Seq<char>, pos: int) -> Seq<char> {
    let pad: int = if pos < 10 { 10 - pos } else { 0 };
    let padded = Seq::new(pad as nat, |i: int| ' ') + text;
    let skip: int = if pos > 10 { pos - 10 } else { 0 };
    let rest = if skip <= padded.len() { padded.subrange(skip, padded.len() as int) } else { Seq::empty() };
    let taken = if rest.len() > 21 { rest.subrange(0, 21) } else { rest };
    taken.map_values(|c: char| if c == '\n' { ' ' } else { c })
}

/// `chars` as a string.
///
/// Collects the characters with `Iterator::collect::<String>` of std; the
/// string holds exactly `chars`, in order.
#[verifier::external_body]
fn chars_to_string(chars: &Vec<char>) -> (r: String)
    ensures
        r@ == chars@,
{
    chars.iter().collect()
}

/// The characters of `text` around position `pos` (see `error_window`).
pub fn error_window_of(text: &Vec<char>, pos: usize) -> (r: Vec<char>)
    ensures
        r@ == error_window(text@, pos as int),
{
    let pad: usize = if pos < RANG { RANG - pos } else { 0 };
    let skip: usize = if pos > RANG { pos - RANG } else { 0 };
    let ghost padded = Seq::new(pad as nat, |i: int| ' ') + text@;
    let ghost rest = if skip <= padded.len() {
        padded.subrange(skip as int, padded.len() as int)
    } else {
        Seq::empty()
    };
    let ghost taken = if rest.len() > 21 { rest.subrange(0, 21) } else { rest };
    let mut out: Vec<char> = Vec::new();
    let mut i: usize = 0;
    while i < 21
        invariant
            i <= 21,
            pad < 11,
            skip == 0 || pad == 0,
            padded == Seq::new(pad as nat, |k: int| ' ') + text@,
            taken == (if rest.len() > 21 { rest.subrange(0, 21) } else { rest }),
            rest == (if skip <= padded.len() {
                padded.subrange(skip as int, padded.len() as int)
            } else {
                Seq::<char>::empty()
            }),
            i <= taken.len(),
            out@ == taken.subrange(0, i as int).map_values(|c: char| if c == '\n' { ' ' } else { c }),
        ensures
            i == taken.len(),
            out@ == taken.subrange(0, i as int).map_values(|c: char| if c == '\n' { ' ' } else { c }),
        decreases 21 - i,
    {
        let c: char = if skip > 0 {
            if i < text.len() && skip < text.len() - i {
                text[skip + i]
            } else {
                break;
            }
        } else if i < pad {
            ' '
        } else if i - pad < text.len() {
            text[i - pad]
        } else {
            break;
        };
        assert(c == taken[i as int]);
        out.push(if c == '\n' { ' ' } else { c });
        i = i + 1;
        assert(out@ =~= taken.subrange(0, i as int).map_values(
            |c: char| if c == '\n' { ' ' } else { c },
        ));
    }
    assert(taken.subrange(0, i as int) =~= taken);
    out
}

/// Law: the character under the caret of the error window, at column
/// `RANG`, is the character at the error position, with a line break shown
/// as a space.
pub proof fn law_caret_under_error(text: Seq<char>, pos: int)
    requires
        0 <= pos < text.len(),
    ensures
        error_window(text, pos).len() > 10,
        error_window(text, pos)[10] == if text[pos] == '\n' { ' ' } else { text[pos] },
{
}


/// The text shown under the error window for each parse problem: a caret
/// under column `RANG` and what went wrong.
pub open spec fn problem_message(p: ParseProblem) -> Seq<char> {
    match p {
        ParseProblem::InvalidToken => "          ^ - bad token"@,
        ParseProblem::UnrecognizedEof => "          ^ - early EOF"@,
        ParseProblem::UnrecognizedToken => "          ^ - bad syntax"@,
        ParseProblem::ExtraToken => "          ^ - bad token"@,
    }
}

/// The formula of an editor and the feedback on it.
#[derive(Debug)]
pub struct FormulaState {
    /// The formula, with its variables resolved to slots.
    pub formula: Vec<Statement>,
    pub message1: String,
    pub message2: String,
    /// How many variable slots the formula uses.
    pub variables: usize,
}

impl Default for FormulaState {
    /// The formula `[0]=&m`, which sets the sample under the cursor to the
    /// drawn amplitude.
    fn default() -> (r: Self)
        ensures
            r.formula@.len() == 1,
            r.formula@[0] == (Statement::Assign { target: Targets::ArrAcc(0), expr: Expr::Spec(Spec::Mouse) }),
            r.message1@ == ""@,
            r.message2@ == "Ok"@,
            r.variables == 0,
    {
        let mut formula: Vec<Statement> = Vec::new();
        formula.push(Statement::Assign { target: Targets::ArrAcc(0), expr: Expr::Spec(Spec::Mouse) });
        FormulaState {
            formula,
            message1: "".to_string(),
            message2: "Ok".to_string(),
            variables: 0,
        }
    }
}

/// `n` and `ok` are what taking the freshly parsed formula `parsed` makes of
/// the editor state `o`: when every variable it reads is assigned first, it
/// replaces the current formula with its variables resolved and the feedback
/// reports success; otherwise the current formula is dropped and the
/// feedback names the first variable read before it is assigned.
pub open spec fn accept_done(o: FormulaState, parsed: Seq<Statement>, n: FormulaState, ok: bool) -> bool {
    &&& ok == stmts_error(parsed, Seq::empty()) is None
    &&& ok ==> {
        &&& stmts_resolved(parsed, Seq::empty(), n.formula@)
        &&& n.variables == stmts_names(parsed, Seq::empty()).len()
        &&& n.message1@ == ""@
        &&& n.message2@ == "Success!"@
    }
    &&& !ok ==> {
        &&& stmts_error(parsed, Seq::empty()) matches Some(v) && n.message1@ == v@
        &&& n.message2@ == "Undeclared variable"@
        &&& n.formula@.len() == 0
        &&& n.variables == o.variables
    }
}

impl FormulaState {
    /// Takes a freshly parsed formula (see `accept_done`). Returns whether
    /// the formula was taken.
    pub fn accept(&mut self, parsed: Vec<Statement>) -> (ok: bool)
        ensures
            accept_done(*old(self), parsed@, *final(self), ok),
    {
        let mut rez = parsed;
        match chek_all(rez.as_mut_slice()) {
            Err(s) => {
                self.message1 = s.clone();
                self.message2 = "Undeclared variable".to_string();
                self.formula = Vec::new();
                false
            },
            Ok(n) => {
                self.message1 = "".to_string();
                self.message2 = "Success!".to_string();
                self.formula = rez;
                self.variables = n;
                true
            },
        }
    }

    /// Reports a problem found at character `location` of the formula
    /// `text`: the first line shows the text around it, the second points a
    /// caret at it and names the problem.
    pub fn generate_err_message(&mut self, text: &Vec<char>, location: usize, problem: ParseProblem)
        ensures
            final(self).message1@ == error_window(text@, location as int),
            final(self).message2@ == problem_message(problem),
            final(self).formula == old(self).formula,
            final(self).variables == old(self).variables,
    {
        let window = error_window_of(text, location);
        self.message1 = chars_to_string(&window);
        self.message2 = match problem {
            ParseProblem::InvalidToken => "          ^ - bad token".to_string(),
            ParseProblem::UnrecognizedEof => "          ^ - early EOF".to_string(),
            ParseProblem::UnrecognizedToken => "          ^ - bad syntax".to_string(),
            ParseProblem::ExtraToken => "          ^ - bad token".to_string(),
        };
    }

    /// Takes the outcome of parsing the formula `text`: a parse failure at
    /// a character is reported on the text and the current formula stays;
    /// a parsed formula is taken as `accept` takes it. Returns whether a new
    /// formula was taken.
    pub fn parsed(&mut self, text: &Vec<char>, outcome: Result<Vec<Statement>, (usize, ParseProblem)>) -> (ok: bool)
        ensures
            match outcome {
                Ok(stmts) => accept_done(*old(self), stmts@, *final(self), ok),
                Err((location, problem)) => {
                    &&& !ok
                    &&& final(self).message1@ == error_window(text@, location as int)
                    &&& final(self).message2@ == problem_message(problem)
                    &&& final(self).formula == old(self).formula
                    &&& final(self).variables == old(self).variables
                },
            },
    {
        match outcome {
            Ok(stmts) => self.accept(stmts),
            Err((location, problem)) => {
                self.generate_err_message(text, location, problem);
                false
            },
        }
    }

    /// Reports why the formula could not be evaluated.
    pub fn eval_error_message(&mut self, e: EvalErr)
        ensures
            final(self).message1@ == match e {
                EvalErr::DivByZero => "Sample skipped"@,
                EvalErr::NoArgs => ""@,
            },
            final(self).message2@ == match e {
                EvalErr::DivByZero => "Divide by Zero occured"@,
                EvalErr::NoArgs => "No arguments provided"@,
            },
            final(self).formula == old(self).formula,
            final(self).variables == old(self).variables,
    {
        match e {
            EvalErr::DivByZero => {
                self.message1 = "Sample skipped".to_string();
                self.message2 = "Divide by Zero occured".to_string();
            },
            EvalErr::NoArgs => {
                self.message1 = "".to_string();
                self.message2 = "No arguments provided".to_string();
            },
        }
    }
}

} // verus!
