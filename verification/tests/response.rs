use calibri::response::{
    decimal_string, respond, response_time, BAD_REQUEST_CODE, OK_CODE,
};

#[test]
fn decimal_of_small_and_large_numbers() {
    assert_eq!(decimal_string(0), "0");
    assert_eq!(decimal_string(7), "7");
    assert_eq!(decimal_string(10), "10");
    assert_eq!(decimal_string(1234567890), "1234567890");
    assert_eq!(decimal_string(u128::MAX), u128::MAX.to_string());
}

#[test]
fn decimal_matches_std_formatting() {
    for n in [1u128, 9, 99, 100, 101, 1000, 65535, 4294967296, 18446744073709551615] {
        assert_eq!(decimal_string(n), format!("{}", n));
    }
}

#[test]
fn response_time_is_milliseconds() {
    assert_eq!(response_time(0), "0 ms");
    assert_eq!(response_time(42), "42 ms");
    assert_eq!(response_time(1500), "1500 ms");
}

#[test]
fn data_is_answered_ok() {
    let e = respond::<Vec<i64>>(Ok(vec![1, 2]), 12);
    assert_eq!(e.code, 200);
    assert_eq!(e.code, OK_CODE);
    assert_eq!(e.status, "ok");
    assert_eq!(e.response_time, "12 ms");
    assert_eq!(e.body, Ok(vec![1, 2]));
}

#[test]
fn error_is_answered_bad_request() {
    let e = respond::<Vec<i64>>(Err("pool timed out".to_string()), 3);
    assert_eq!(e.code, 400);
    assert_eq!(e.code, BAD_REQUEST_CODE);
    assert_eq!(e.status, "error");
    assert_eq!(e.response_time, "3 ms");
    assert_eq!(e.body, Err("pool timed out".to_string()));
}
