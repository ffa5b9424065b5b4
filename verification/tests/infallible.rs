use core::convert::Infallible;
use unwrap_infallible::unwrap_or_extract;
use unwrap_infallible::UnwrapInfallible;

#[test]
fn with_infallible() {
    let a = 42u8;
    let a = u64::try_from(a).unwrap_infallible();
    assert_eq!(a, 42u64);
}

#[test]
fn with_never_type() {
    let r: Result<bool, Infallible> = Ok(true);
    assert!(r.unwrap_infallible());
}

#[test]
fn round_trip_keeps_the_payload() {
    let text = String::from("it's always sunny!");
    let r: Result<String, Infallible> = Ok(text.clone());
    assert_eq!(r.unwrap_infallible(), text);
}

#[test]
fn operation_in_function_form() {
    let r: Result<u32, Infallible> = Ok(7u32);
    assert_eq!(unwrap_or_extract(r), 7u32);
}
