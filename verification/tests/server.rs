use h1core::message::method_from_bytes;
use h1core::server::holder::CallHolder;
use h1core::server::{Flow, RecvRequestResult};
use h1core::{ArrayVec, H1Error, Method, ParseErrorKind, Response};

#[test]
fn expect_100_takes_priority() {
    let mut flow = Flow::new().unwrap();
    let input = b"POST /upload HTTP/1.1\r\nExpect: 100-continue\r\nContent-Length: 3\r\n\r\n";
    let (n, req) = flow.try_request(input).unwrap();
    assert_eq!(n, input.len());
    let req = req.unwrap();
    assert_eq!(req.method, Method::Post);
    assert_eq!(req.path, b"/upload".to_vec());
    assert!(flow.can_proceed());
    match flow.proceed().unwrap() {
        RecvRequestResult::Send100(_) => {}
        RecvRequestResult::RecvBody(_) => panic!("must not skip the 100-continue negotiation"),
        RecvRequestResult::SendResponse(_) => panic!("must not skip the 100-continue negotiation"),
    }
}

#[test]
fn body_method_without_expect_goes_to_recv_body() {
    let mut flow = Flow::new().unwrap();
    let input = b"POST /upload HTTP/1.1\r\nContent-Length: 3\r\n\r\n";
    let (n, req) = flow.try_request(input).unwrap();
    assert_eq!(n, input.len());
    assert!(req.is_some());
    match flow.proceed().unwrap() {
        RecvRequestResult::RecvBody(_) => {}
        _ => panic!("expected the receive-body branch"),
    }
}

#[test]
fn bodiless_method_goes_straight_to_send_response() {
    let mut flow = Flow::new().unwrap();
    let input = b"GET /page HTTP/1.1\r\nHost: x\r\n\r\n";
    flow.try_request(input).unwrap();
    match flow.proceed().unwrap() {
        RecvRequestResult::SendResponse(_) => {}
        _ => panic!("expected the send-response branch"),
    }
}

#[test]
fn proceed_before_a_full_request_yields_none() {
    let mut flow = Flow::new().unwrap();
    let (n, req) = flow.try_request(b"POST /upload HTTP/1.1\r\nConte").unwrap();
    assert_eq!(n, 0);
    assert!(req.is_none());
    assert!(!flow.can_proceed());
    assert!(flow.proceed().is_none());
}

#[test]
fn accept_writes_the_continue_line() {
    let mut flow = Flow::new().unwrap();
    let input = b"POST /u HTTP/1.1\r\nExpect: 100-continue\r\n\r\n";
    flow.try_request(input).unwrap();
    let flow = match flow.proceed().unwrap() {
        RecvRequestResult::Send100(f) => f,
        _ => panic!("expected the Send100 branch"),
    };
    let mut out = vec![0u8; 64];
    let (n, _next) = flow.accept(&mut out).unwrap();
    assert_eq!(n, 25);
    assert_eq!(&out[..n], b"HTTP/1.1 100 Continue\r\n\r\n");
}

#[test]
fn accept_with_a_tiny_buffer_overflows() {
    let mut flow = Flow::new().unwrap();
    let input = b"POST /u HTTP/1.1\r\nExpect: 100-continue\r\n\r\n";
    flow.try_request(input).unwrap();
    let flow = match flow.proceed().unwrap() {
        RecvRequestResult::Send100(f) => f,
        _ => panic!("expected the Send100 branch"),
    };
    let mut out = vec![0u8; 10];
    let before = out.clone();
    match flow.accept(&mut out) {
        Err(H1Error::OutputOverflow) => {}
        _ => panic!("expected overflow"),
    }
    assert_eq!(out, before);
}

#[test]
fn reject_with_success_class_is_refused() {
    let mut flow = Flow::new().unwrap();
    let input = b"POST /u HTTP/1.1\r\nExpect: 100-continue\r\n\r\n";
    flow.try_request(input).unwrap();
    let flow = match flow.proceed().unwrap() {
        RecvRequestResult::Send100(f) => f,
        _ => panic!("expected the Send100 branch"),
    };
    match flow.reject(Response::new(200, ())) {
        Err(H1Error::BadReject100Status(200)) => {}
        _ => panic!("expected the dedicated status-class error"),
    }
}

#[test]
fn reject_with_error_class_proceeds() {
    let mut flow = Flow::new().unwrap();
    let input = b"POST /u HTTP/1.1\r\nExpect: 100-continue\r\n\r\n";
    flow.try_request(input).unwrap();
    let flow = match flow.proceed().unwrap() {
        RecvRequestResult::Send100(f) => f,
        _ => panic!("expected the Send100 branch"),
    };
    assert!(flow.reject(Response::new(417, ())).is_ok());
}

#[test]
fn connection_close_is_recorded() {
    let mut flow = Flow::new().unwrap();
    assert!(!flow.must_close());
    let input = b"GET / HTTP/1.1\r\nConnection: close\r\n\r\n";
    flow.try_request(input).unwrap();
    assert!(flow.must_close());

    let mut flow = Flow::new().unwrap();
    let input = b"GET / HTTP/1.1\r\nHost: x\r\n\r\n";
    flow.try_request(input).unwrap();
    assert!(!flow.must_close());
}

#[test]
fn header_queries_ignore_ascii_case() {
    let mut flow = Flow::new().unwrap();
    let input = b"POST /u HTTP/1.1\r\nEXPECT: 100-Continue\r\nCONNECTION: CLOSE\r\n\r\n";
    flow.try_request(input).unwrap();
    assert!(flow.must_close());
    match flow.proceed().unwrap() {
        RecvRequestResult::Send100(_) => {}
        _ => panic!("expected the Send100 branch"),
    }
}

#[test]
fn too_many_headers_is_reported() {
    let mut flow = Flow::new().unwrap();
    let mut s = String::from("GET / HTTP/1.1\r\n");
    for _ in 0..200 {
        s.push_str("x-a: b\r\n");
    }
    s.push_str("\r\n");
    let r = flow.try_request(s.as_bytes());
    assert!(matches!(
        r,
        Err(H1Error::ParseError(ParseErrorKind::TooManyHeaders))
    ));
}

#[test]
fn incremental_request_completes_once() {
    let mut flow = Flow::new().unwrap();
    let input = b"GET /p HTTP/1.0\r\nHost: x\r\n\r\n";
    for k in 1..input.len() {
        let (n, req) = flow.try_request(&input[..k]).unwrap();
        assert_eq!(n, 0, "prefix of {} bytes must not complete", k);
        assert!(req.is_none());
    }
    let (n, req) = flow.try_request(input).unwrap();
    assert_eq!(n, input.len());
    assert!(req.is_some());
}

#[test]
fn holder_new_starts_in_recv_request() {
    let mut holder = CallHolder::new().unwrap();
    let call = holder.as_recv_request_mut();
    let r = call.try_request(b"GET / HTTP/1.1\r\n\r\n").unwrap();
    let (n, req) = r.unwrap();
    assert_eq!(n, b"GET / HTTP/1.1\r\n\r\n".len());
    assert_eq!(req.method, Method::Get);
}

#[test]
fn method_parsing_and_body_need() {
    assert_eq!(method_from_bytes(b"GET"), Method::Get);
    assert_eq!(method_from_bytes(b"PATCH"), Method::Patch);
    assert_eq!(method_from_bytes(b"BREW"), Method::Other(b"BREW".to_vec()));
    assert!(Method::Post.need_request_body());
    assert!(Method::Put.need_request_body());
    assert!(Method::Patch.need_request_body());
    assert!(!Method::Get.need_request_body());
    assert!(!Method::Head.need_request_body());
}

#[test]
fn array_vec_appends_in_order() {
    let mut v: ArrayVec<u8, 4> = ArrayVec::new();
    assert_eq!(v.len(), 0);
    v.push(7);
    v.push(7);
    v.push(9);
    assert_eq!(v.len(), 3);
    assert_eq!(*v.get(0), 7);
    assert_eq!(*v.get(2), 9);
}
