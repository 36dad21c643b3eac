use rocket_utilize::errors::{
    Reply, ReplyBody, ResultJson, ResultJsonExt, ResultValue, Status, ToJsonError,
    ToJsonErrorMapped, ToStatusErr, STATUS_CONFLICT, STATUS_INTERNAL, STATUS_OK,
};
use serde_json::Value;

fn number(n: i64) -> Value {
    Value::from(n)
}

fn words(text: &str) -> Value {
    Value::String(text.to_string())
}

#[test]
fn status_codes_are_the_usual_ones() {
    assert_eq!(STATUS_OK, 200);
    assert_eq!(STATUS_CONFLICT, 409);
    assert_eq!(STATUS_INTERNAL, 500);
    assert_eq!(Status::new(404), Status { code: 404 });
    assert_eq!(Status::new(404).code, 404);
}

#[test]
fn status_err_keeps_an_ok_value() {
    let outcome: Result<i32, &str> = Ok(7);
    assert_eq!(outcome.status_err(500), Ok(7));
}

#[test]
fn status_err_replaces_an_error_by_the_status() {
    let outcome: Result<i32, &str> = Err("boom");
    assert_eq!(outcome.status_err(404), Err(Status { code: 404 }));
}

#[test]
fn status_err_on_an_option() {
    assert_eq!(Some(3u8).status_err(500), Ok(3u8));
    let nothing: Option<u8> = None;
    assert_eq!(nothing.status_err(401), Err(Status { code: 401 }));
}

#[test]
fn json_err_keeps_an_ok_value() {
    let outcome: Result<i32, &str> = Ok(7);
    assert_eq!(outcome.json_err(Ok(words("unused")), None), Ok(7));
    assert_eq!(Some(7).json_err(Ok(words("unused")), None), Ok(7));
}

#[test]
fn json_err_fails_with_the_failure_payload() {
    let outcome: Result<i32, &str> = Err("boom");
    let failed = outcome.json_err(Ok(words("no such user")), Some(Status::new(404)));
    assert_eq!(
        failed,
        Err(ResultValue {
            success: None,
            failure: Some(words("no such user")),
            status: Some(Status { code: 404 }),
        })
    );
}

#[test]
fn json_err_on_an_empty_option() {
    let nothing: Option<i32> = None;
    let failed = nothing.json_err(Ok(number(12)), None);
    assert_eq!(
        failed,
        Err(ResultValue { success: None, failure: Some(number(12)), status: None })
    );
}

#[test]
fn json_err_with_a_payload_that_did_not_serialize() {
    let nothing: Option<i32> = None;
    let failed = nothing.json_err(Err("key must be a string".to_string()), Some(Status::new(400)));
    assert_eq!(
        failed,
        Err(ResultValue {
            success: None,
            failure: Some(words("key must be a string")),
            status: None,
        })
    );
}

#[test]
fn json_err_map_hands_the_error_to_the_closure() {
    let outcome: Result<i32, i64> = Err(41);
    let failed = outcome.json_err_map(|code: i64| Ok(Value::from(code + 1)), Some(Status::new(422)));
    assert_eq!(
        failed,
        Err(ResultValue {
            success: None,
            failure: Some(number(42)),
            status: Some(Status { code: 422 }),
        })
    );
}

#[test]
fn json_err_map_leaves_an_ok_value_alone() {
    let outcome: Result<i32, i64> = Ok(5);
    let kept = outcome.json_err_map(|code: i64| Ok(Value::from(code)), None);
    assert_eq!(kept, Ok(5));
}

#[test]
fn success_carries_the_value_and_the_status() {
    let outcome = ResultJson::Success(Ok(number(1)), Some(Status::new(201)));
    assert_eq!(
        outcome,
        Ok(ResultValue {
            success: Some(number(1)),
            failure: None,
            status: Some(Status { code: 201 }),
        })
    );
}

#[test]
fn success_of_what_did_not_serialize_is_a_failure() {
    let outcome = ResultJson::Success(Err("bad float".to_string()), Some(Status::new(201)));
    assert_eq!(
        outcome,
        Err(ResultValue { success: None, failure: Some(words("bad float")), status: None })
    );
}

#[test]
fn failure_is_always_an_error() {
    let outcome = ResultJson::Failure(Ok(words("denied")), Some(Status::new(403)));
    assert_eq!(
        outcome,
        Err(ResultValue {
            success: None,
            failure: Some(words("denied")),
            status: Some(Status { code: 403 }),
        })
    );
    let broken = ResultJson::Failure(Err("bad float".to_string()), Some(Status::new(403)));
    assert_eq!(
        broken,
        Err(ResultValue { success: None, failure: Some(words("bad float")), status: None })
    );
}

#[test]
fn failing_matches_failure() {
    let payload = ResultValue::failing(Ok(number(9)), None);
    assert_eq!(ResultJson::Failure(Ok(number(9)), None), Err(payload));
}

#[test]
fn a_success_is_sent_as_200_by_default() {
    let value = ResultValue { success: Some(number(3)), failure: None, status: None };
    assert_eq!(
        value.respond_to(),
        Reply {
            status: Status { code: 200 },
            body: Some(ReplyBody { success: Some(number(3)), failure: None }),
        }
    );
}

#[test]
fn a_success_is_sent_under_its_own_status() {
    let value = ResultValue {
        success: Some(number(3)),
        failure: None,
        status: Some(Status::new(202)),
    };
    assert_eq!(value.respond_to().status, Status { code: 202 });
}

#[test]
fn a_failure_is_sent_as_500_by_default() {
    let value = ResultValue { success: None, failure: Some(words("down")), status: None };
    assert_eq!(
        value.respond_to(),
        Reply {
            status: Status { code: 500 },
            body: Some(ReplyBody { success: None, failure: Some(words("down")) }),
        }
    );
}

#[test]
fn a_failure_is_sent_under_its_own_status() {
    let value = ResultValue {
        success: None,
        failure: Some(words("gone")),
        status: Some(Status::new(410)),
    };
    let reply = value.respond_to();
    assert_eq!(reply.status.code, 410);
    assert_eq!(reply.body, Some(ReplyBody { success: None, failure: Some(words("gone")) }));
}

#[test]
fn neither_payload_is_a_conflict() {
    let value = ResultValue { success: None, failure: None, status: None };
    assert_eq!(value.respond_to(), Reply { status: Status { code: 409 }, body: None });
}

#[test]
fn neither_payload_is_a_conflict_whatever_the_status() {
    let value = ResultValue { success: None, failure: None, status: Some(Status::new(200)) };
    let reply = value.respond_to();
    assert_eq!(reply.status.code, 409);
    assert_ne!(reply.status.code, 200);
    assert_ne!(reply.status.code, 500);
    assert_eq!(reply.body, None);
}

#[test]
fn both_payloads_are_a_conflict() {
    let value = ResultValue {
        success: Some(number(1)),
        failure: Some(number(2)),
        status: Some(Status::new(200)),
    };
    assert_eq!(value.respond_to(), Reply { status: Status { code: 409 }, body: None });
}

#[test]
fn the_default_payload_is_empty_and_a_conflict() {
    let value = ResultValue::default();
    assert_eq!(value, ResultValue { success: None, failure: None, status: None });
    assert_eq!(value.respond_to().status.code, 409);
}
