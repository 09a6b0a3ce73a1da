use core::convert::Infallible;
use core::ops::ControlFlow;
use u32err::ErrCode;

/// Propagates the codes 0, then 1, and would end with 123: the explicit
/// propagation protocol must stop at the second step.
fn inner() -> ErrCode {
    match ErrCode(0).branch() {
        ControlFlow::Break(r) => return ErrCode::from_residual(r),
        ControlFlow::Continue(()) => {}
    }
    match ErrCode(1).branch() {
        ControlFlow::Break(r) => return ErrCode::from_residual(r),
        ControlFlow::Continue(()) => {}
    }
    ErrCode(123)
}

#[test]
fn it_works() {
    assert!(inner() == ErrCode(1));
}

#[test]
fn classification_of_zero() {
    let c = ErrCode(0);
    assert!(c.is_ok());
    assert!(!c.is_err());
}

#[test]
fn classification_of_nonzero() {
    for n in [1u32, 2, 42, 123, u32::MAX] {
        let c = ErrCode(n);
        assert!(!c.is_ok());
        assert!(c.is_err());
    }
}

#[test]
fn debug_text_of_zero() {
    assert_eq!(ErrCode(0).debug_text(), "E0");
}

#[test]
fn debug_text_of_single_digit() {
    assert_eq!(ErrCode(1).debug_text(), "E1");
}

#[test]
fn debug_text_of_many_digits() {
    assert_eq!(ErrCode(123).debug_text(), "E123");
    assert_eq!(ErrCode(1000).debug_text(), "E1000");
    assert_eq!(ErrCode(4007).debug_text(), "E4007");
}

#[test]
fn debug_text_of_largest_code() {
    assert_eq!(ErrCode(u32::MAX).debug_text(), "E4294967295");
}

#[test]
fn unwrap_of_success_is_silent() {
    ErrCode(0).unwrap();
}

#[test]
fn expect_of_success_is_silent() {
    ErrCode(0).expect("must succeed");
}

#[test]
fn unwrap_diagnostic_holds_debug_text() {
    assert_eq!(ErrCode(7).unwrap_diagnostic(), "Error: E7");
    assert_eq!(ErrCode(123).unwrap_diagnostic(), "Error: E123");
}

#[test]
fn expect_diagnostic_orders_code_then_message() {
    assert_eq!(ErrCode(7).expect_diagnostic("boom"), "[E7] boom");
    assert_eq!(ErrCode(500).expect_diagnostic(""), "[E500] ");
}

#[test]
fn branch_of_success_continues() {
    assert!(matches!(ErrCode(0).branch(), ControlFlow::Continue(())));
}

#[test]
fn branch_of_failure_breaks_and_rebuilds() {
    match ErrCode(42).branch() {
        ControlFlow::Break(r) => {
            let rebuilt = ErrCode::from_residual(r);
            assert!(rebuilt == ErrCode(42));
            assert!(rebuilt.is_err());
        }
        ControlFlow::Continue(()) => panic!("a failing code must break"),
    }
}

#[test]
fn from_output_is_success() {
    let c = ErrCode::from_output(());
    assert_eq!(c.0, 0);
    assert!(c.is_ok());
}

#[test]
fn raw_integer_round_trip() {
    let c = ErrCode::from(42u32);
    assert_eq!(c.0, 42);
}

#[test]
fn result_residual_unwraps_the_error() {
    let residual: Result<Infallible, ErrCode> = Err(ErrCode(9));
    assert!(ErrCode::from_result_residual(residual) == ErrCode(9));
}
