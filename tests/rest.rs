use rig_tools::{HttpMethod, RestApiArgs, RestApiError, RestApiTool, RestRequest};

fn args(url: &str, method: Option<&str>, body: Option<&str>) -> RestApiArgs {
    RestApiArgs {
        url: url.to_string(),
        method: method.map(|m| m.to_string()),
        body: body.map(|b| b.to_string()),
    }
}

/// A transport that records each request and answers with a fixed body.
struct MockTransport {
    sent: Vec<RestRequest>,
    answer: Result<String, String>,
}

impl MockTransport {
    fn new(answer: Result<String, String>) -> Self {
        MockTransport { sent: Vec::new(), answer }
    }

    fn invoke(&mut self, a: RestApiArgs) -> Result<String, RestApiError> {
        let request = RestApiTool.plan(a)?;
        self.sent.push(request);
        RestApiTool.finish(self.answer.clone())
    }
}

#[test]
fn get_returns_body_as_text() {
    let mut t = MockTransport::new(Ok("{\"a\":1}".to_string()));
    let r = t.invoke(args("http://example.test/x", Some("GET"), None));
    assert_eq!(r, Ok("{\"a\":1}".to_string()));
    assert_eq!(t.sent.len(), 1);
    assert_eq!(t.sent[0].method, HttpMethod::Get);
    assert_eq!(t.sent[0].url, "http://example.test/x");
    assert_eq!(t.sent[0].payload, None);
}

#[test]
fn unsupported_method_sends_nothing() {
    let mut t = MockTransport::new(Ok("never".to_string()));
    let r = t.invoke(args("http://example.test", Some("PATCH"), Some("x")));
    let e = r.unwrap_err();
    assert_eq!(e, RestApiError::RequestError("Unsupported method: PATCH".to_string()));
    assert_eq!(e.message(), "Unsupported method: PATCH");
    assert_eq!(e.kind(), "RequestError");
    assert_eq!(e.to_string(), "Request failed: Unsupported method: PATCH");
    assert_eq!(t.sent.len(), 0);
}

#[test]
fn unsupported_method_is_reported_upper_case() {
    let r = RestApiTool.plan(args("u", Some("patch"), None));
    assert_eq!(r, Err(RestApiError::RequestError("Unsupported method: PATCH".to_string())));
    let r = RestApiTool.plan(args("u", Some(""), None));
    assert_eq!(r, Err(RestApiError::RequestError("Unsupported method: ".to_string())));
}

#[test]
fn post_sends_body_verbatim() {
    let mut t = MockTransport::new(Ok(String::new()));
    t.invoke(args("http://example.test", Some("POST"), Some("hello"))).unwrap();
    assert_eq!(t.sent[0].method, HttpMethod::Post);
    assert_eq!(t.sent[0].payload, Some("hello".to_string()));
}

#[test]
fn method_is_upper_cased() {
    let r = RestApiTool.plan(args("u", Some("post"), Some("b"))).unwrap();
    assert_eq!(r.method, HttpMethod::Post);
    assert_eq!(RestApiTool.plan(args("u", Some("Delete"), None)).unwrap().method, HttpMethod::Delete);
    assert_eq!(RestApiTool.plan(args("u", Some("pUt"), None)).unwrap().method, HttpMethod::Put);
}

#[test]
fn missing_method_means_get() {
    let r = RestApiTool.plan(args("u", None, Some("ignored"))).unwrap();
    assert_eq!(r.method, HttpMethod::Get);
    assert_eq!(r.payload, None);
}

#[test]
fn put_without_body_sends_empty_payload() {
    let r = RestApiTool.plan(args("u", Some("PUT"), None)).unwrap();
    assert_eq!(r.payload, Some(String::new()));
}

#[test]
fn delete_ignores_body() {
    let r = RestApiTool.plan(args("u", Some("DELETE"), Some("x"))).unwrap();
    assert_eq!(r.payload, None);
}

#[test]
fn parse_knows_four_methods() {
    assert_eq!(HttpMethod::parse("GET"), Some(HttpMethod::Get));
    assert_eq!(HttpMethod::parse("POST"), Some(HttpMethod::Post));
    assert_eq!(HttpMethod::parse("PUT"), Some(HttpMethod::Put));
    assert_eq!(HttpMethod::parse("DELETE"), Some(HttpMethod::Delete));
    assert_eq!(HttpMethod::parse("get"), None);
    assert_eq!(HttpMethod::parse("HEAD"), None);
}

#[test]
fn transport_failure_is_request_error() {
    let mut t = MockTransport::new(Err("error sending request".to_string()));
    let r = t.invoke(args("http://unreachable.test", None, None));
    assert_eq!(r, Err(RestApiError::RequestError("error sending request".to_string())));
    assert_eq!(t.sent.len(), 1);
}

#[test]
fn same_request_gives_same_result() {
    let mut t = MockTransport::new(Ok("body".to_string()));
    let a = t.invoke(args("u", Some("GET"), None));
    let b = t.invoke(args("u", Some("GET"), None));
    assert_eq!(a, b);
    assert_eq!(t.sent[0], t.sent[1]);
}
