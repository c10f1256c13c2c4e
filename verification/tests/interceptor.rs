use alternator_validator::interceptor::set_body;
use alternator_validator::interceptor::InjectError;
use alternator_validator::interceptor::JsonBodyInjectInterceptor;
use alternator_validator::request::MAX_HEADERS;
use aws_smithy_runtime_api::http::Request;
use aws_smithy_types::body::SdkBody;
use serde_json::Value;

fn interceptor(fields: &[(&str, u64)]) -> JsonBodyInjectInterceptor {
    JsonBodyInjectInterceptor::new(
        fields.iter().map(|(name, value)| (name.to_string(), Value::from(*value))).collect(),
    )
}

fn injected(fields: &[(&str, u64)], body: &str) -> String {
    String::from_utf8(interceptor(fields).inject(body.as_bytes()).unwrap()).unwrap()
}

#[test]
fn replaces_body_and_length() {
    let interceptor = JsonBodyInjectInterceptor::new(vec![("b".to_string(), Value::from(2))]);
    let mut request = Request::new(SdkBody::from("{\"a\":1}"));
    request.headers_mut().insert("content-length", "7");
    assert!(interceptor.modify_before_signing(&mut request).is_ok());
    assert_eq!(request.body().bytes(), Some(&b"{\"a\":1,\"b\":2}"[..]));
    assert_eq!(request.headers().get("content-length"), Some("13"));
}

#[test]
fn leaves_one_content_length_and_the_other_headers() {
    let mut request = Request::new(SdkBody::from("{}"));
    request.headers_mut().append("content-length", "2");
    request.headers_mut().append("content-length", "3");
    request.headers_mut().append("x-amz-target", "DynamoDB_20120810.CreateTable");
    request.headers_mut().append("accept", "b");
    request.headers_mut().append("accept", "a");
    request.set_method("POST").unwrap();
    request.set_uri("http://127.0.1.1:8000/").unwrap();
    assert!(interceptor(&[("x", 10)]).modify_before_signing(&mut request).is_ok());
    let lengths: Vec<&str> = request.headers().get_all("content-length").collect();
    assert_eq!(lengths, vec!["8"]);
    assert_eq!(request.headers().get("x-amz-target"), Some("DynamoDB_20120810.CreateTable"));
    let accepted: Vec<&str> = request.headers().get_all("accept").collect();
    assert_eq!(accepted, vec!["b", "a"]);
    assert_eq!(request.headers().len(), 4);
    assert_eq!(request.method(), "POST");
    assert_eq!(request.uri(), "http://127.0.1.1:8000/");
}

#[test]
fn adds_a_content_length_where_there_is_none() {
    let mut request = Request::new(SdkBody::from("{}"));
    assert!(interceptor(&[]).modify_before_signing(&mut request).is_ok());
    assert_eq!(request.body().bytes(), Some(&b"{}"[..]));
    assert_eq!(request.headers().get("content-length"), Some("2"));
}

#[test]
fn overrides_members_and_keeps_others() {
    assert_eq!(
        injected(&[("b", 7), ("c", 8)], "{\"a\":1,\"b\":[true,null]}"),
        "{\"a\":1,\"b\":7,\"c\":8}"
    );
}

#[test]
fn last_field_of_a_name_counts() {
    assert_eq!(injected(&[("a", 1), ("b", 5), ("a", 2)], "{}"), "{\"a\":2,\"b\":5}");
}

#[test]
fn injecting_twice_is_injecting_once() {
    let once = injected(&[("a", 1), ("b", 2)], "{\"c\":\"x\"}");
    assert_eq!(injected(&[("a", 1), ("b", 2)], &once), once);
}

#[test]
fn injecting_more_is_injecting_all_at_once() {
    let first = injected(&[("a", 1), ("b", 2)], "{\"c\":3}");
    let second = injected(&[("b", 20), ("d", 4)], &first);
    assert_eq!(second, injected(&[("a", 1), ("b", 20), ("d", 4)], "{\"c\":3}"));
}

#[test]
fn whitespace_and_key_order_of_the_body_are_not_kept() {
    assert_eq!(injected(&[], " { \"b\" : 1 , \"a\" : \"\\u0041\" } "), "{\"a\":\"A\",\"b\":1}");
}

#[test]
fn body_that_is_not_in_memory_is_refused() {
    let mut request = Request::new(SdkBody::taken());
    request.headers_mut().insert("content-length", "7");
    let error = interceptor(&[("a", 1)]).modify_before_signing(&mut request).unwrap_err();
    assert!(matches!(error, InjectError::BodyNotInMemory));
    assert_eq!(error.message(), Some("expected in-memory body for Alternator request"));
    assert_eq!(request.body().bytes(), None);
    assert_eq!(request.headers().get("content-length"), Some("7"));
}

#[test]
fn body_that_is_no_json_is_refused() {
    let mut request = Request::new(SdkBody::from("{\"a\":"));
    request.headers_mut().insert("content-length", "5");
    let error = interceptor(&[("a", 1)]).modify_before_signing(&mut request).unwrap_err();
    assert_eq!(error.message(), None);
    match error {
        InjectError::InvalidJson(reason) => assert!(reason.is_eof()),
        other => panic!("unexpected {other:?}"),
    }
    assert_eq!(request.body().bytes(), Some(&b"{\"a\":"[..]));
    assert_eq!(request.headers().get("content-length"), Some("5"));
}

#[test]
fn reason_is_that_of_the_body() {
    let reason = |body: &str| match interceptor(&[]).inject(body.as_bytes()) {
        Err(InjectError::InvalidJson(reason)) => reason.to_string(),
        other => panic!("unexpected {other:?}"),
    };
    assert_eq!(reason(""), "EOF while parsing a value at line 1 column 0");
    assert_eq!(reason("{\n1"), "key must be a string at line 2 column 1");
    assert_eq!(reason("{} x"), "trailing characters at line 1 column 4");
}

#[test]
fn empty_body_is_no_json() {
    let mut request = Request::new(SdkBody::empty());
    let error = interceptor(&[("a", 1)]).modify_before_signing(&mut request).unwrap_err();
    assert!(matches!(error, InjectError::InvalidJson(_)));
    assert_eq!(request.headers().get("content-length"), None);
}

#[test]
fn body_that_is_no_object_is_refused() {
    for body in ["[1]", "null", "true", "3", "1.5", "\"a\""] {
        let mut request = Request::new(SdkBody::from(body));
        let error = interceptor(&[("a", 1)]).modify_before_signing(&mut request).unwrap_err();
        assert!(matches!(error, InjectError::NotAnObject));
        assert_eq!(error.message(), Some("expected JSON object body for Alternator request"));
        assert_eq!(request.body().bytes(), Some(body.as_bytes()));
    }
}

#[test]
fn body_is_read_to_the_limit_of_nesting() {
    let object = |depth: usize| format!("{}1{}", "{\"a\":".repeat(depth), "}".repeat(depth));
    assert!(interceptor(&[]).inject(object(127).as_bytes()).is_ok());
    let error = interceptor(&[]).inject(object(128).as_bytes()).unwrap_err();
    assert!(matches!(error, InjectError::InvalidJson(_)));
}

#[test]
fn merges_into_a_value() {
    let mut json = Value::Object(serde_json::Map::new());
    assert!(interceptor(&[("a", 1)]).merge_into(&mut json).is_ok());
    assert_eq!(json.get("a"), Some(&Value::from(1)));
    let mut list = Value::Array(vec![Value::Null]);
    assert!(matches!(
        interceptor(&[("a", 1)]).merge_into(&mut list),
        Err(InjectError::NotAnObject)
    ));
    assert_eq!(list, Value::Array(vec![Value::Null]));
}

#[test]
fn copy_injects_the_same() {
    let copy = interceptor(&[("a", 1), ("b", 2)]).clone();
    assert_eq!(copy.inject(b"{}").unwrap(), b"{\"a\":1,\"b\":2}".to_vec());
    assert_eq!(copy.name(), "JsonBodyInjectInterceptor");
}

/// A request with `count` headers.
fn crowded(body: SdkBody, count: usize) -> Request<SdkBody> {
    let mut request = Request::new(body);
    for i in 0..count {
        request.headers_mut().append(format!("h{i}"), "1");
    }
    request
}

#[test]
fn requests_with_too_many_headers_are_left_alone() {
    let mut request = crowded(SdkBody::from("{}"), MAX_HEADERS);
    let outcome = interceptor(&[("a", 1)]).try_modify_before_signing(&mut request);
    assert!(matches!(outcome, Some(Ok(()))));
    assert_eq!(request.headers().get("content-length"), Some("7"));
    assert_eq!(request.headers().len(), MAX_HEADERS + 1);

    let outcome = interceptor(&[("b", 2)]).try_modify_before_signing(&mut request);
    assert!(outcome.is_none());
    assert_eq!(request.body().bytes(), Some(&b"{\"a\":1}"[..]));
    assert_eq!(request.headers().get("content-length"), Some("7"));
}

#[test]
fn bad_bodies_are_refused_whatever_the_headers() {
    for count in [0, MAX_HEADERS + 1] {
        let interceptor = interceptor(&[("a", 1)]);
        let mut request = crowded(SdkBody::taken(), count);
        assert!(matches!(
            interceptor.modify_before_signing(&mut request),
            Err(InjectError::BodyNotInMemory)
        ));
        assert!(matches!(
            interceptor.try_modify_before_signing(&mut request),
            Some(Err(InjectError::BodyNotInMemory))
        ));
        let mut request = crowded(SdkBody::from("{"), count);
        assert!(matches!(
            interceptor.modify_before_signing(&mut request),
            Err(InjectError::InvalidJson(_))
        ));
        assert!(matches!(
            interceptor.try_modify_before_signing(&mut request),
            Some(Err(InjectError::InvalidJson(_)))
        ));
        let mut request = crowded(SdkBody::from("[]"), count);
        assert!(matches!(
            interceptor.modify_before_signing(&mut request),
            Err(InjectError::NotAnObject)
        ));
        assert!(matches!(
            interceptor.try_modify_before_signing(&mut request),
            Some(Err(InjectError::NotAnObject))
        ));
        assert_eq!(request.body().bytes(), Some(&b"[]"[..]));
        assert_eq!(request.headers().len(), count);
    }
}

#[test]
fn equal_bodies_fare_alike() {
    let interceptor = interceptor(&[("a", 1)]);
    let mut first = Request::new(SdkBody::from("{\"b\":2}"));
    let mut second = crowded(SdkBody::from("{\"b\":2}"), 3);
    second.headers_mut().insert("content-length", "99");
    assert!(interceptor.modify_before_signing(&mut first).is_ok());
    assert!(interceptor.clone().modify_before_signing(&mut second).is_ok());
    assert_eq!(first.body().bytes(), Some(&b"{\"a\":1,\"b\":2}"[..]));
    assert_eq!(first.body().bytes(), second.body().bytes());
    assert_eq!(first.headers().get("content-length"), Some("13"));
    assert_eq!(second.headers().get("content-length"), Some("13"));
}

#[test]
fn request_is_modified_once() {
    let interceptor = interceptor(&[("a", 1)]);
    let mut request = crowded(SdkBody::from("{\"b\":2}"), 2);
    assert!(interceptor.modify_before_signing(&mut request).is_ok());
    assert!(interceptor.modify_before_signing(&mut request).is_ok());
    assert_eq!(request.body().bytes(), Some(&b"{\"a\":1,\"b\":2}"[..]));
    assert_eq!(request.headers().get("content-length"), Some("13"));
    assert_eq!(request.headers().len(), 3);
}

#[test]
fn later_list_of_fields_overrides_the_earlier() {
    assert_eq!(
        injected(&[("a", 1), ("b", 2), ("b", 3), ("c", 4)], "{}"),
        injected(&[("b", 3), ("c", 4)], &injected(&[("a", 1), ("b", 2)], "{}"))
    );
}

#[test]
fn merged_value_is_written() {
    let json = serde_json::from_slice(b"{\"b\":2}").unwrap();
    let written = interceptor(&[("a", 1)]).write_merged(json).unwrap();
    assert_eq!(written, b"{\"a\":1,\"b\":2}".to_vec());
    let outcome = interceptor(&[("a", 1)]).write_merged(Value::Null);
    assert!(matches!(outcome, Err(InjectError::NotAnObject)));
}

#[test]
fn new_body_comes_with_its_length() {
    let mut request = crowded(SdkBody::taken(), 1);
    let length = set_body(&mut request, b"0123456789".to_vec());
    assert_eq!(length.as_bytes(), b"10");
    assert_eq!(request.body().bytes(), Some(&b"0123456789"[..]));
    assert_eq!(request.headers().len(), 1);
}
