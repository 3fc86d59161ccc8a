use riru::ForkResult;
use riru::native_bool;

#[test]
fn classify_zero_is_child_side() {
    let r = ForkResult::from_raw(0);
    assert_eq!(r, ForkResult::OnChild);
}

#[test]
fn classify_positive_is_parent_side() {
    let r = ForkResult::from_raw(1234);
    assert_eq!(r, ForkResult::OnParent(1234));
}

#[test]
fn classify_one_is_parent_side() {
    let r = ForkResult::from_raw(1);
    assert_eq!(r, ForkResult::OnParent(1));
}

#[test]
fn classify_negative_is_parent_side_unchanged() {
    let r = ForkResult::from_raw(-7);
    assert_eq!(r, ForkResult::OnParent(-7));
    let r = ForkResult::from_raw(i32::MIN);
    assert_eq!(r, ForkResult::OnParent(i32::MIN));
}

#[test]
fn native_bool_true_is_one() {
    assert_eq!(native_bool(true), 1);
}

#[test]
fn native_bool_false_is_zero() {
    assert_eq!(native_bool(false), 0);
}
