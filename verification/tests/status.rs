use wasm_hello::{
    greeting, Invocation, InvocationResult, STATUS_INVALID_ENCODING, STATUS_SUCCESS,
};

#[test]
fn status_codes_are_as_documented() {
    assert_eq!(STATUS_SUCCESS, 0);
    assert_eq!(STATUS_INVALID_ENCODING, -1);
    assert_eq!(InvocationResult::Success.status_code(), 0);
    assert_eq!(InvocationResult::InvalidEncoding.status_code(), -1);
}

#[test]
fn status_codes_are_stable_and_distinct() {
    let all = [InvocationResult::Success, InvocationResult::InvalidEncoding];
    for a in all {
        assert_eq!(a.status_code(), a.status_code());
        for b in all {
            assert_eq!(a.status_code() == b.status_code(), a == b);
        }
    }
}

#[test]
fn invocation_status_is_that_of_its_result() {
    let ok = Invocation { result: InvocationResult::Success, output: Some(greeting("x")) };
    let bad = Invocation { result: InvocationResult::InvalidEncoding, output: None };
    assert_eq!(ok.status(), 0);
    assert_eq!(bad.status(), -1);
}

#[test]
fn greeting_frames_the_name() {
    assert_eq!(greeting("World"), "Hello, World!");
    assert_eq!(greeting(""), "Hello, !");
    assert_eq!(greeting("{}"), "Hello, {}!");
    assert_eq!(greeting("a\nb"), "Hello, a\nb!");
    assert_eq!(greeting("世界"), "Hello, 世界!");
}

#[test]
fn greeting_bytes_are_the_frame_around_the_name_bytes() {
    let name = "Zoë 🦀";
    let mut expected = vec![0x48u8, 0x65, 0x6c, 0x6c, 0x6f, 0x2c, 0x20];
    expected.extend_from_slice(name.as_bytes());
    expected.push(0x21);
    assert_eq!(greeting(name).into_bytes(), expected);
}
