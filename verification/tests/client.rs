use h1core::{Call, H1Error, ParseErrorKind, ParseResult, Status};

#[test]
fn test_req() {
    let buf = vec![0u8; 1024];

    // Call::new starts a new request; the buffer is held until flush().
    let output = Call::new(buf)
        // First select HTTP/1.0 or HTTP/1.1.
        .http_10()
        // Then the verb and path; this writes into the buffer, hence the
        // Result in case the buffer overflows.
        .get(b"/some-path")
        .unwrap()
        // Release the round: Output holds the bytes to write to a transport.
        .flush();

    assert_eq!(output.as_bytes(), &b"GET /some-path HTTP/1.0\r\n"[..]);
    assert_eq!(output.as_bytes(), &b"GET /some-path HTTP/1.0\r\n"[..]);

    // Once the bytes were sent, ready() releases the buffer and yields a
    // state that can be resumed with the same buffer or another.
    let (state, buf) = output.ready();

    let output = Call::resume(state, buf)
        .header(b"accept", b"text/plain")
        .unwrap()
        .header(b"x-my-thing", b"martin")
        .unwrap()
        // finish() writes the head terminator and transitions the state to
        // expect response input; it exists only for bodiless verbs.
        .finish()
        .unwrap()
        .flush();

    assert_eq!(
        output.as_bytes(),
        &b"accept: text/plain\r\nx-my-thing: martin\r\n\r\n"[..]
    );

    let (state, buf) = output.ready();
    let mut call = Call::resume(state, buf);

    // Incomplete status lines do not progress the state.
    let attempts: Vec<&[u8]> = vec![b"HT", b"HTTP/1.0", b"HTTP/1.0 20"];
    for a in attempts {
        call = match call.parse_status(a).unwrap() {
            ParseResult::Incomplete(c) => c,
            ParseResult::Complete(_, _, _) => unreachable!(),
        };
    }

    // The complete status line progresses the state.
    let ParseResult::Complete(_call, _n, status) = call.parse_status(b"HTTP/1.0 200 OK\r\n").unwrap()
    else {
        panic!("Expected complete parse")
    };

    assert_eq!(status, Status(200, Some("OK".to_string())));
}

#[test]
fn request_line_overflow_on_every_short_buffer() {
    let needed = b"GET /some-path HTTP/1.0\r\n".len();
    for size in 0..needed {
        let r = Call::new(vec![0u8; size]).http_10().get(b"/some-path");
        assert!(matches!(r, Err(H1Error::OutputOverflow)), "size {}", size);
    }
    let r = Call::new(vec![0u8; needed]).http_10().get(b"/some-path");
    assert!(r.is_ok());
}

#[test]
fn header_overflow_on_every_short_buffer() {
    let line = b"GET /p HTTP/1.1\r\n".len();
    let header = b"accept: text/plain\r\n".len();
    for size in line..line + header {
        let call = Call::new(vec![0u8; size]).http_11().get(b"/p").unwrap();
        let r = call.header(b"accept", b"text/plain");
        assert!(matches!(r, Err(H1Error::OutputOverflow)), "size {}", size);
    }
    let call = Call::new(vec![0u8; line + header]).http_11().get(b"/p").unwrap();
    assert!(call.header(b"accept", b"text/plain").is_ok());
}

#[test]
fn parse_status_byte_by_byte() {
    let line = b"HTTP/1.1 204 No Content\r\n";
    let mut call = Call::new(vec![0u8; 64])
        .http_11()
        .get(b"/x")
        .unwrap()
        .finish()
        .unwrap();
    for k in 1..line.len() {
        call = match call.parse_status(&line[..k]).unwrap() {
            ParseResult::Incomplete(c) => c,
            ParseResult::Complete(_, _, _) => panic!("prefix of {} bytes must be incomplete", k),
        };
    }
    let ParseResult::Complete(_, n, status) = call.parse_status(line).unwrap() else {
        panic!("full line must be complete")
    };
    assert_eq!(n, line.len());
    assert_eq!(status, Status(204, Some("No Content".to_string())));
}

#[test]
fn resume_with_a_different_buffer() {
    let output = Call::new(vec![0u8; 40]).http_11().get(b"/a").unwrap().flush();
    assert_eq!(output.as_bytes(), &b"GET /a HTTP/1.1\r\n"[..]);
    let (state, _first_buffer) = output.ready();
    // A fresh, differently sized buffer resumes the same phase.
    let out2 = Call::resume(state, vec![0u8; 99])
        .header(b"a", b"b")
        .unwrap()
        .finish()
        .unwrap()
        .flush();
    assert_eq!(out2.as_bytes(), &b"a: b\r\n\r\n"[..]);
}

#[test]
fn head_and_post_and_put_request_lines() {
    let output = Call::new(vec![0u8; 64]).http_11().head(b"/h").unwrap().flush();
    assert_eq!(output.as_bytes(), &b"HEAD /h HTTP/1.1\r\n"[..]);

    let output = Call::new(vec![0u8; 64])
        .http_11()
        .post(b"/p")
        .unwrap()
        .header(b"content-length", b"3")
        .unwrap()
        .flush();
    assert_eq!(
        output.as_bytes(),
        &b"POST /p HTTP/1.1\r\ncontent-length: 3\r\n"[..]
    );

    let output = Call::new(vec![0u8; 64]).http_10().put(b"/z").unwrap().flush();
    assert_eq!(output.as_bytes(), &b"PUT /z HTTP/1.0\r\n"[..]);
}

#[test]
fn status_version_mismatch_is_reported() {
    let call = Call::new(vec![0u8; 64])
        .http_11()
        .get(b"/x")
        .unwrap()
        .finish()
        .unwrap();
    let r = call.parse_status(b"HTTP/1.0 200 OK\r\n");
    assert!(matches!(r, Err(H1Error::InvalidHttpVersion)));
}

#[test]
fn malformed_status_line_is_reported() {
    let call = Call::new(vec![0u8; 64])
        .http_11()
        .get(b"/x")
        .unwrap()
        .finish()
        .unwrap();
    let r = call.parse_status(b"GARBAGEGARBAGE\r\n");
    assert!(matches!(r, Err(H1Error::ParseError(ParseErrorKind::Version))));
}

#[test]
fn status_without_reason_parses() {
    let call = Call::new(vec![0u8; 64])
        .http_11()
        .get(b"/x")
        .unwrap()
        .finish()
        .unwrap();
    let ParseResult::Complete(_, n, status) = call.parse_status(b"HTTP/1.1 304\r\n").unwrap()
    else {
        panic!("expected complete parse")
    };
    assert_eq!(n, b"HTTP/1.1 304\r\n".len());
    assert_eq!(status.0, 304);
    assert_eq!(status.1, Some("".to_string()));
}

#[test]
fn parse_response_headers_incrementally() {
    let call = Call::new(vec![0u8; 64])
        .http_11()
        .get(b"/x")
        .unwrap()
        .finish()
        .unwrap();
    let ParseResult::Complete(call, _, _) = call.parse_status(b"HTTP/1.1 200 OK\r\n").unwrap()
    else {
        panic!("expected complete status parse")
    };
    let block = b"content-type: text/plain\r\ncontent-length: 3\r\n\r\n";
    let call = match call.parse_headers(&block[..block.len() - 1]).unwrap() {
        ParseResult::Incomplete(c) => c,
        ParseResult::Complete(_, _, _) => panic!("truncated block must be incomplete"),
    };
    let ParseResult::Complete(_, n, headers) = call.parse_headers(block).unwrap() else {
        panic!("expected complete header parse")
    };
    assert_eq!(n, block.len());
    assert_eq!(
        headers,
        vec![
            (b"content-type".to_vec(), b"text/plain".to_vec()),
            (b"content-length".to_vec(), b"3".to_vec()),
        ]
    );
}
