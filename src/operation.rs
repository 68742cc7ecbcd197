use vstd::prelude::*;
use vstd::string::*;
use crate::ieee::{is_negative, is_negative_bits, is_zero, is_zero_bits};

verus! {

/// The six operators of the calculator.
#[derive(Clone, Copy, Debug, PartialEq, Eq, Structural)]
pub enum Operator {
    Add,
    Subtract,
    Multiply,
    Divide,
    Power,
    SquareRoot,
}

/// The ways an evaluation can fail.
#[derive(Clone, Copy, Debug, PartialEq, Eq, Structural)]
pub enum CalcError {
    InvalidInput,
    DivideByZero,
    NegativeSqrt,
    UnknownOperator,
}

/// An operation that passed every check: applying `op` to the numbers with
/// bit patterns `lhs` and `rhs` yields the calculator's value.
#[derive(Clone, Copy, Debug, PartialEq, Eq, Structural)]
pub struct Evaluation {
    pub op: Operator,
    pub lhs: u64,
    pub rhs: u64,
}

/// The button text of each operator.
pub open spec fn symbol_of(op: Operator) -> Seq<char> {
    match op {
        Operator::Add => seq!['+'],
        Operator::Subtract => seq!['-'],
        Operator::Multiply => seq!['*'],
        Operator::Divide => seq!['/'],
        Operator::Power => seq!['^'],
        Operator::SquareRoot => seq!['\u{221a}'],
    }
}

/// The operator whose button text is `s`, if any.
pub open spec fn operator_of(s: Seq<char>) -> Option<Operator> {
    if s == symbol_of(Operator::Add) {
        Some(Operator::Add)
    } else if s == symbol_of(Operator::Subtract) {
        Some(Operator::Subtract)
    } else if s == symbol_of(Operator::Multiply) {
        Some(Operator::Multiply)
    } else if s == symbol_of(Operator::Divide) {
        Some(Operator::Divide)
    } else if s == symbol_of(Operator::Power) {
        Some(Operator::Power)
    } else if s == symbol_of(Operator::SquareRoot) {
        Some(Operator::SquareRoot)
    } else {
        None
    }
}

/// The user-facing description of each error.
pub open spec fn message_of(e: CalcError) -> Seq<char> {
    match e {
        CalcError::InvalidInput => "Invalid input"@,
        CalcError::DivideByZero => "Cannot divide by zero"@,
        CalcError::NegativeSqrt => "Cannot sqrt negative number"@,
        CalcError::UnknownOperator => "Unknown operator"@,
    }
}

/// What the result display shows for an error.
pub open spec fn error_text_of(e: CalcError) -> Seq<char> {
    "Error: "@ + message_of(e)
}

/// The evaluator's rules on two numbers: the operator must be known, a
/// division needs a non-zero divisor, a square root a non-negative operand
/// (the second number is then ignored); everything else goes through.
pub open spec fn calculation_of(op: Seq<char>, lhs: u64, rhs: u64) -> Result<Evaluation, CalcError> {
    match operator_of(op) {
        None => Err(CalcError::UnknownOperator),
        Some(o) => if o == Operator::Divide && is_zero(rhs) {
            Err(CalcError::DivideByZero)
        } else if o == Operator::SquareRoot && is_negative(lhs) {
            Err(CalcError::NegativeSqrt)
        } else {
            Ok(Evaluation { op: o, lhs, rhs })
        },
    }
}

/// Input resolution: both operands must parse, except that a square root
/// needs the first one only (and then evaluates with 0.0 in place of the
/// second).
pub open spec fn resolution_of(op: Seq<char>, first: Option<u64>, second: Option<u64>) -> Result<
    Evaluation,
    CalcError,
> {
    match (first, second) {
        (Some(a), Some(b)) => calculation_of(op, a, b),
        (Some(a), None) => if operator_of(op) == Some(Operator::SquareRoot) {
            calculation_of(op, a, 0)
        } else {
            Err(CalcError::InvalidInput)
        },
        _ => Err(CalcError::InvalidInput),
    }
}

/// A symbol names at most one operator, and each operator is named by its
/// own symbol.
pub proof fn lemma_symbol_names_operator(op: Operator)
    ensures
        operator_of(symbol_of(op)) == Some(op),
{
    assert forall|o: Operator| symbol_of(o) == symbol_of(op) implies o == op by {
        assert(symbol_of(o)[0] == symbol_of(op)[0]);
    }
}

/// A division by a non-zero number goes through to `lhs / rhs`, and a
/// division by zero (+0.0 or -0.0) fails with the divide-by-zero error,
/// whatever the dividend.
pub proof fn lemma_division_rule(lhs: u64, rhs: u64)
    ensures
        !is_zero(rhs) ==> calculation_of(symbol_of(Operator::Divide), lhs, rhs) == Ok::<
            Evaluation,
            CalcError,
        >(Evaluation { op: Operator::Divide, lhs, rhs }),
        is_zero(rhs) ==> calculation_of(symbol_of(Operator::Divide), lhs, rhs) == Err::<
            Evaluation,
            CalcError,
        >(CalcError::DivideByZero),
{
    lemma_symbol_names_operator(Operator::Divide);
}

/// A square root of a negative number fails with the negative-operand error;
/// of any other number it goes through, whatever the second number.
pub proof fn lemma_square_root_rule(lhs: u64, rhs: u64)
    ensures
        is_negative(lhs) ==> calculation_of(symbol_of(Operator::SquareRoot), lhs, rhs) == Err::<
            Evaluation,
            CalcError,
        >(CalcError::NegativeSqrt),
        !is_negative(lhs) ==> calculation_of(symbol_of(Operator::SquareRoot), lhs, rhs) == Ok::<
            Evaluation,
            CalcError,
        >(Evaluation { op: Operator::SquareRoot, lhs, rhs }),
{
    lemma_symbol_names_operator(Operator::SquareRoot);
}

/// Addition, subtraction, multiplication and power never fail: on any two
/// numbers they go through to the arithmetic.
pub proof fn lemma_total_operators(op: Operator, lhs: u64, rhs: u64)
    requires
        op == Operator::Add || op == Operator::Subtract || op == Operator::Multiply || op
            == Operator::Power,
    ensures
        calculation_of(symbol_of(op), lhs, rhs) == Ok::<Evaluation, CalcError>(
            Evaluation { op, lhs, rhs },
        ),
{
    lemma_symbol_names_operator(op);
}

/// A square root needs only its first operand: with a first operand that
/// parsed and a second that did not, it goes through on 0.0 in place of
/// the second; any other operator then fails as invalid input.
pub proof fn lemma_square_root_ignores_second(op: Operator, lhs: u64)
    ensures
        op == Operator::SquareRoot ==> resolution_of(symbol_of(op), Some(lhs), None) == calculation_of(
            symbol_of(op),
            lhs,
            0,
        ),
        op != Operator::SquareRoot ==> resolution_of(symbol_of(op), Some(lhs), None) == Err::<
            Evaluation,
            CalcError,
        >(CalcError::InvalidInput),
{
    lemma_symbol_names_operator(op);
}

fn is_single_char(s: &str, c: char) -> (r: bool)
    ensures
        r == (s@ == seq![c]),
{
    let n = s.unicode_len();
    if n != 1 {
        assert(s@.len() != seq![c].len());
        return false;
    }
    let first = s.get_char(0);
    if first == c {
        assert(s@ =~= seq![c]);
        true
    } else {
        assert(s@[0] != seq![c][0]);
        false
    }
}

impl Operator {
    /// The operator whose button text is `s`.
    pub fn from_symbol(s: &str) -> (r: Option<Operator>)
        ensures
            r == operator_of(s@),
    {
        if is_single_char(s, '+') {
            Some(Operator::Add)
        } else if is_single_char(s, '-') {
            Some(Operator::Subtract)
        } else if is_single_char(s, '*') {
            Some(Operator::Multiply)
        } else if is_single_char(s, '/') {
            Some(Operator::Divide)
        } else if is_single_char(s, '^') {
            Some(Operator::Power)
        } else if is_single_char(s, '\u{221a}') {
            Some(Operator::SquareRoot)
        } else {
            None
        }
    }

    /// The button text of this operator.
    pub fn symbol(&self) -> (r: String)
        ensures
            r@ == symbol_of(*self),
    {
        match self {
            Operator::Add => {
                proof { reveal_strlit("+"); }
                String::from_str("+")
            },
            Operator::Subtract => {
                proof { reveal_strlit("-"); }
                String::from_str("-")
            },
            Operator::Multiply => {
                proof { reveal_strlit("*"); }
                String::from_str("*")
            },
            Operator::Divide => {
                proof { reveal_strlit("/"); }
                String::from_str("/")
            },
            Operator::Power => {
                proof { reveal_strlit("^"); }
                String::from_str("^")
            },
            Operator::SquareRoot => {
                proof { reveal_strlit("\u{221a}"); }
                String::from_str("\u{221a}")
            },
        }
    }
}

impl CalcError {
    /// The user-facing description of this error.
    pub fn message(&self) -> (r: String)
        ensures
            r@ == message_of(*self),
    {
        match self {
            CalcError::InvalidInput => String::from_str("Invalid input"),
            CalcError::DivideByZero => String::from_str("Cannot divide by zero"),
            CalcError::NegativeSqrt => String::from_str("Cannot sqrt negative number"),
            CalcError::UnknownOperator => String::from_str("Unknown operator"),
        }
    }

    /// The text shown in place of a result: `Error: ` and the description.
    pub fn error_text(&self) -> (r: String)
        ensures
            r@ == error_text_of(*self),
    {
        let mut text = String::from_str("Error: ");
        let message = self.message();
        text.append(message.as_str());
        text
    }
}

/// Checks an operation on two numbers, given as bit patterns, against the
/// evaluator's rules. On success the caller applies `r.op` to the numbers.
pub fn calculate(op: &str, lhs: u64, rhs: u64) -> (r: Result<Evaluation, CalcError>)
    ensures
        r == calculation_of(op@, lhs, rhs),
{
    match Operator::from_symbol(op) {
        None => Err(CalcError::UnknownOperator),
        Some(o) => {
            if o == Operator::Divide && is_zero_bits(rhs) {
                Err(CalcError::DivideByZero)
            } else if o == Operator::SquareRoot && is_negative_bits(lhs) {
                Err(CalcError::NegativeSqrt)
            } else {
                Ok(Evaluation { op: o, lhs, rhs })
            }
        },
    }
}

/// Resolves the two operand fields, each given as the bit pattern it parsed
/// to (or `None` where it did not parse), and checks the operation.
pub fn resolve_operands(op: &str, first: Option<u64>, second: Option<u64>) -> (r: Result<
    Evaluation,
    CalcError,
>)
    ensures
        r == resolution_of(op@, first, second),
{
    match (first, second) {
        (Some(a), Some(b)) => calculate(op, a, b),
        (Some(a), None) => {
            if Operator::from_symbol(op) == Some(Operator::SquareRoot) {
                calculate(op, a, 0)
            } else {
                Err(CalcError::InvalidInput)
            }
        },
        _ => Err(CalcError::InvalidInput),
    }
}

} // verus!
