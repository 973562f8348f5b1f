//! Errors of one's own: a division whose answer must be odd, reported with one or
//! with two error kinds.

use vstd::prelude::*;

verus! {

/// The answer was an even integer.
#[derive(Debug, Clone, Copy, PartialEq, Eq, Structural)]
pub struct EvenIntegerError;

impl EvenIntegerError {
    /// The message the error reads as.
    pub fn message(&self) -> &'static str {
        "The answer cannot be an even integer.."
    }
}

/// Either error kind of [`example_2_inner`].
#[derive(Debug, Clone, Copy, PartialEq, Eq, Structural)]
pub enum AnswerError {
    /// The answer was 1.
    One,
    /// The answer was an even integer.
    EvenInteger,
}

impl AnswerError {
    /// The message the error reads as.
    pub fn message(&self) -> &'static str {
        match self {
            AnswerError::One => "The answer cannot be 1..",
            AnswerError::EvenInteger => "The answer cannot be an even integer..",
        }
    }
}

/// Integer division rounding toward zero, as Rust's `/` on integers does: the
/// quotient of the magnitudes, negated when exactly one operand is negative.
pub open spec fn div_toward_zero(x: int, d: int) -> int {
    if x == 0 {
        0
    } else if x > 0 && d > 0 {
        x / d
    } else if x < 0 && d < 0 {
        (-x) / (-d)
    } else if x < 0 {
        -((-x) / d)
    } else {
        -(x / (-d))
    }
}

/// `numer / denom`, rounded toward zero.
pub fn quotient(numer: i32, denom: i32) -> (r: i32)
    requires
        denom != 0,
        !(numer == i32::MIN && denom == -1),
    ensures
        r as int == div_toward_zero(numer as int, denom as int),
{
    proof {
        let (x, d) = (numer as int, denom as int);
        if x > 0 && d < 0 {
            assert(x / (-d) <= x) by (nonlinear_arith)
                requires
                    x > 0,
                    -d > 0,
            ;
        } else if x < 0 && d < 0 {
            assert((-x) / (-d) <= -x) by (nonlinear_arith)
                requires
                    -x > 0,
                    -d > 0,
            ;
            if d < -1 {
                assert((-x) / (-d) <= i32::MAX) by (nonlinear_arith)
                    requires
                        -x <= 0x8000_0000,
                        -d >= 2,
                ;
            }
        } else if x < 0 {
            assert((-x) / d <= -x) by (nonlinear_arith)
                requires
                    -x > 0,
                    d > 0,
            ;
        } else if x > 0 {
            assert(x / d <= x) by (nonlinear_arith)
                requires
                    x > 0,
                    d > 0,
            ;
        }
    }
    numer.checked_div(denom).unwrap()
}

/// Divides, and refuses an even answer.
pub fn example_1_inner(numer: &i32, denom: &i32) -> (r: Result<i32, EvenIntegerError>)
    requires
        *denom != 0,
        !(*numer == i32::MIN && *denom == -1),
    ensures
        ({
            let answer = div_toward_zero(*numer as int, *denom as int);
            &&& answer % 2 == 0 ==> r == Err::<i32, EvenIntegerError>(EvenIntegerError)
            &&& answer % 2 != 0 ==> r == Ok::<i32, EvenIntegerError>(answer as i32)
        }),
{
    let answer: i32 = quotient(*numer, *denom);
    assert((answer % 2 == 0) == ((answer as int) % 2 == 0)) by {
        let a = answer as int;
        if a < 0 {
            assert((-a) % 2 == 0 <==> a % 2 == 0) by (nonlinear_arith);
        }
    }
    if answer % 2 == 0 {
        Err(EvenIntegerError)
    } else {
        Ok(answer)
    }
}

/// Divides, and refuses an answer of 1 and an even answer, the first before the
/// second.
pub fn example_2_inner(numer: &i32, denom: &i32) -> (r: Result<i32, AnswerError>)
    requires
        *denom != 0,
        !(*numer == i32::MIN && *denom == -1),
    ensures
        ({
            let answer = div_toward_zero(*numer as int, *denom as int);
            &&& answer == 1 ==> r == Err::<i32, AnswerError>(AnswerError::One)
            &&& answer % 2 == 0 ==> r == Err::<i32, AnswerError>(AnswerError::EvenInteger)
            &&& answer != 1 && answer % 2 != 0 ==> r == Ok::<i32, AnswerError>(answer as i32)
        }),
{
    let answer: i32 = quotient(*numer, *denom);
    assert((answer % 2 == 0) == ((answer as int) % 2 == 0)) by {
        let a = answer as int;
        if a < 0 {
            assert((-a) % 2 == 0 <==> a % 2 == 0) by (nonlinear_arith);
        }
    }
    if answer == 1 {
        Err(AnswerError::One)
    } else if answer % 2 == 0 {
        Err(AnswerError::EvenInteger)
    } else {
        Ok(answer)
    }
}

} // verus!
