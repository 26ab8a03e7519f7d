use doubler::doubling::{
    double_value, health_check, respond_double, DoubleReply, InputValue, OutputValue,
    RequestError, STATUS_BAD_REQUEST, STATUS_OK,
};

fn doubled(v: i32) -> Option<i32> {
    double_value(InputValue { value: v }).map(|o| o.result)
}

#[test]
fn doubles_twenty_one() {
    assert_eq!(doubled(21), Some(42));
}

#[test]
fn doubles_minus_five() {
    assert_eq!(doubled(-5), Some(-10));
}

#[test]
fn doubles_zero() {
    assert_eq!(doubled(0), Some(0));
}

#[test]
fn doubles_at_the_edges_of_the_range() {
    assert_eq!(doubled(1_073_741_823), Some(2_147_483_646));
    assert_eq!(doubled(-1_073_741_824), Some(i32::MIN));
}

#[test]
fn refuses_values_whose_double_overflows() {
    assert_eq!(doubled(1_073_741_824), None);
    assert_eq!(doubled(-1_073_741_825), None);
    assert_eq!(doubled(i32::MAX), None);
    assert_eq!(doubled(i32::MIN), None);
}

#[test]
fn doubled_reply_has_success_status() {
    let reply = respond_double(Some(InputValue { value: 21 }));
    assert_eq!(reply, DoubleReply::Doubled(OutputValue { result: 42 }));
    assert_eq!(reply.status(), STATUS_OK);
    assert_eq!(STATUS_OK, 200);
}

#[test]
fn doubled_reply_for_many_values() {
    for v in [-1_000_000, -77, -1, 1, 2, 3, 1000, 123_456_789] {
        let reply = respond_double(Some(InputValue { value: v }));
        assert_eq!(reply, DoubleReply::Doubled(OutputValue { result: 2 * v }));
        assert_eq!(reply.status(), 200);
    }
}

#[test]
fn unreadable_body_is_a_client_error() {
    let reply = respond_double(None);
    assert_eq!(reply, DoubleReply::Rejected(RequestError::MalformedBody));
    assert_eq!(reply.status(), STATUS_BAD_REQUEST);
    assert_eq!(STATUS_BAD_REQUEST, 400);
}

#[test]
fn overflowing_value_is_a_client_error() {
    let reply = respond_double(Some(InputValue { value: i32::MAX }));
    assert_eq!(reply, DoubleReply::Rejected(RequestError::OutOfRange));
    assert_eq!(reply.status(), 400);
}

#[test]
fn health_check_says_ok() {
    assert_eq!(health_check(), "OK");
}
