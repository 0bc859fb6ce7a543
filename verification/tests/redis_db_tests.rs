#[test]
fn connect() {}
