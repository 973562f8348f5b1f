use sync_guides::error_handling::{
    example_1_inner, example_2_inner, quotient, AnswerError, EvenIntegerError,
};

#[test]
fn odd_answer_is_accepted() {
    assert_eq!(example_1_inner(&9, &3), Ok(3));
    assert_eq!(example_1_inner(&-7, &2), Ok(-3));
}

#[test]
fn even_answer_is_refused() {
    assert_eq!(example_1_inner(&6, &3), Err(EvenIntegerError));
    assert_eq!(example_1_inner(&1, &2), Err(EvenIntegerError));
    assert_eq!(
        EvenIntegerError.message(),
        "The answer cannot be an even integer.."
    );
}

#[test]
fn answer_one_is_refused_first() {
    assert_eq!(example_2_inner(&6, &6), Err(AnswerError::One));
    assert_eq!(example_2_inner(&8, &2), Err(AnswerError::EvenInteger));
    assert_eq!(example_2_inner(&15, &5), Ok(3));
    assert_eq!(example_2_inner(&-6, &6), Ok(-1));
    assert_eq!(AnswerError::One.message(), "The answer cannot be 1..");
}

#[test]
fn quotient_rounds_toward_zero() {
    assert_eq!(quotient(7, 2), 3);
    assert_eq!(quotient(-7, 2), -3);
    assert_eq!(quotient(7, -2), -3);
    assert_eq!(quotient(-7, -2), 3);
    assert_eq!(quotient(i32::MIN, 1), i32::MIN);
    assert_eq!(quotient(i32::MIN, 2), -1073741824);
}
