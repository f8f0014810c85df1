use cdumay_core::Outcome;

fn double(x: i32) -> Outcome<i32> {
    Ok(x * 2).into()
}

#[test]
fn test_simple_result() {
    let result = double(2);
    assert!(matches!(result, Outcome::Success(4)));
}

#[test]
fn test_map() {
    let result: Outcome<i32> = Outcome::Success(2);
    let mapped = result.map(|x| x * 10);
    assert!(matches!(mapped, Outcome::Success(20)));
}
