use gazenot::{
    is_success, process_response, process_response_basic, BasicResponse, GazenotErrorInner,
    Inconsistency, Response,
};

fn parts<T: std::fmt::Debug>(r: gazenot::ResultInner<T>) -> (u16, Vec<String>, Option<Inconsistency>) {
    match r {
        Err(GazenotErrorInner::ResponseError { status, errors, inconsistency }) => {
            (status, errors, inconsistency)
        }
        other => panic!("not a response error: {:?}", other),
    }
}

#[test]
fn success_returns_payload() {
    let parsed = Response { success: true, result: Some(7u32), errors: None };
    let r = process_response(200, "{...}".to_owned(), Some(parsed));
    assert_eq!(r.unwrap(), 7);
}

#[test]
fn failure_flag_gives_error_with_messages() {
    let parsed: Response<u32> =
        Response { success: false, result: None, errors: Some(vec!["no such owner".to_owned()]) };
    let (status, errors, inc) = parts(process_response(404, "{...}".to_owned(), Some(parsed)));
    assert_eq!(status, 404);
    assert_eq!(errors, vec!["no such owner".to_owned()]);
    assert_eq!(inc, None);
}

#[test]
fn failure_flag_with_2xx_is_inconsistent() {
    let parsed: Response<u32> = Response { success: false, result: None, errors: None };
    let (status, errors, inc) = parts(process_response(200, "{}".to_owned(), Some(parsed)));
    assert_eq!(status, 200);
    assert!(errors.is_empty());
    assert_eq!(inc, Some(Inconsistency { success: false, has_result: Some(false) }));
}

#[test]
fn success_without_result_is_inconsistent() {
    let parsed: Response<u32> = Response { success: true, result: None, errors: None };
    let (status, errors, inc) = parts(process_response(201, "{}".to_owned(), Some(parsed)));
    assert_eq!(status, 201);
    assert!(errors.is_empty());
    assert_eq!(inc, Some(Inconsistency { success: true, has_result: Some(false) }));
}

#[test]
fn success_with_error_status_is_inconsistent() {
    let parsed = Response { success: true, result: Some(1u8), errors: Some(vec!["x".to_owned()]) };
    let (status, errors, inc) = parts(process_response(500, "{}".to_owned(), Some(parsed)));
    assert_eq!(status, 500);
    assert_eq!(errors, vec!["x".to_owned()]);
    assert_eq!(inc, Some(Inconsistency { success: true, has_result: Some(true) }));
}

#[test]
fn non_json_body_is_the_only_message() {
    let (status, errors, inc) =
        parts(process_response::<u32>(502, "Bad Gateway".to_owned(), None));
    assert_eq!(status, 502);
    assert_eq!(errors, vec!["Bad Gateway".to_owned()]);
    assert_eq!(inc, None);
    let (status, errors, _) = parts(process_response::<u32>(200, "oops".to_owned(), None));
    assert_eq!(status, 200);
    assert_eq!(errors, vec!["oops".to_owned()]);
}

#[test]
fn empty_body_gives_no_message() {
    let (status, errors, inc) = parts(process_response::<u32>(503, String::new(), None));
    assert_eq!(status, 503);
    assert!(errors.is_empty());
    assert_eq!(inc, None);
}

#[test]
fn basic_success() {
    let parsed = BasicResponse { success: true, errors: None };
    assert!(process_response_basic(204, String::new(), Some(parsed)).is_ok());
}

#[test]
fn basic_inconsistent_and_consistent_failures() {
    let parsed = BasicResponse { success: true, errors: None };
    let (_, _, inc) = parts(process_response_basic(400, "{}".to_owned(), Some(parsed)));
    assert_eq!(inc, Some(Inconsistency { success: true, has_result: None }));
    let parsed = BasicResponse { success: false, errors: Some(vec!["a".to_owned(), "b".to_owned()]) };
    let (status, errors, inc) = parts(process_response_basic(403, "{}".to_owned(), Some(parsed)));
    assert_eq!(status, 403);
    assert_eq!(errors, vec!["a".to_owned(), "b".to_owned()]);
    assert_eq!(inc, None);
}

#[test]
fn basic_non_json_body() {
    let (status, errors, _) = parts(process_response_basic(418, "teapot".to_owned(), None));
    assert_eq!(status, 418);
    assert_eq!(errors, vec!["teapot".to_owned()]);
    let (_, errors, _) = parts(process_response_basic(500, String::new(), None));
    assert!(errors.is_empty());
}

#[test]
fn success_status_range() {
    assert!(!is_success(199));
    assert!(is_success(200));
    assert!(is_success(299));
    assert!(!is_success(300));
}
