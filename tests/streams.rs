use etl0::buffer::DockerStreamBuffer;
use etl0::codec::{
    extract_records, ContainerLogsStreamHandler, ErrorResponse, ImageCreateStreamItem, ImageCreateStreamLine,
    ImageCreateStreamProgress,
};
use etl0::error::{DockerError, DockerResult};
use etl0::stream::{BodyFrame, DockerStream, DriverOutcome, ImageCreateStreamHandler};

fn frame(stream: u8, payload: &[u8]) -> Vec<u8> {
    let mut f = vec![stream, 0, 0, 0];
    f.extend_from_slice(&(payload.len() as u32).to_be_bytes());
    f.extend_from_slice(payload);
    f
}

fn texts(items: Vec<DockerResult<String>>) -> Vec<String> {
    items.into_iter().map(|i| i.expect("text")).collect()
}

#[test]
fn buffer_appends_and_consumes() {
    let mut buffer = DockerStreamBuffer::with_capacity(4);
    buffer.append(b"hello");
    buffer.append(b" world");
    assert_eq!(buffer.len(), 11);
    assert_eq!(buffer.as_bytes(), b"hello world");
    buffer.consume(6);
    assert_eq!(buffer.as_bytes(), b"world");
    assert_eq!(buffer.get(0), b'w');
    buffer.consume(5);
    assert_eq!(buffer.len(), 0);
}

#[test]
fn multiplexed_log_yields_each_frame() {
    let mut stream = DockerStream::from(ContainerLogsStreamHandler::new(), "/logs".to_string());
    let mut body = frame(1, b"hello");
    body.extend(frame(2, b"err"));
    let first = stream.handle_frame(BodyFrame::Data(body));
    assert_eq!(first.unwrap().unwrap(), "hello");
    assert_eq!(stream.next_prefetched().unwrap().unwrap(), "err");
    assert!(stream.next_prefetched().is_none());
    assert!(stream.handle_connection_cleanup(DriverOutcome::Finished).is_none());
}

#[test]
fn partial_log_frame_waits_for_the_rest() {
    let payload = b"twenty bytes of text";
    assert_eq!(payload.len(), 20);
    let whole = frame(1, payload);
    let handler = ContainerLogsStreamHandler::new();
    let mut buffer = DockerStreamBuffer::with_capacity(16);
    buffer.append(&whole[..10]);
    assert!(handler.extract(&mut buffer).is_empty());
    assert_eq!(buffer.len(), 10);
    buffer.append(&whole[10..]);
    let items = texts(handler.extract(&mut buffer));
    assert_eq!(items, vec!["twenty bytes of text".to_string()]);
    assert_eq!(buffer.len(), 0);
}

#[test]
fn log_stream_round_trips() {
    let sent: Vec<String> =
        vec!["first line".to_string(), String::new(), "ünïcödé ✓".to_string(), "x".repeat(70_000)];
    let mut body = Vec::new();
    for (i, t) in sent.iter().enumerate() {
        body.extend(frame((i % 3) as u8, t.as_bytes()));
    }
    let handler = ContainerLogsStreamHandler::new();
    let mut buffer = DockerStreamBuffer::with_capacity(64);
    buffer.append(&body);
    let items = texts(handler.extract(&mut buffer));
    assert_eq!(items, sent);
    assert_eq!(buffer.len(), 0);
}

#[test]
fn log_extraction_is_a_left_fold() {
    let mut body = Vec::new();
    for t in ["alpha", "beta", "", "gamma delta"] {
        body.extend(frame(1, t.as_bytes()));
    }
    body.extend(&frame(2, b"tail")[..5]);
    let handler = ContainerLogsStreamHandler::new();
    let mut whole = DockerStreamBuffer::with_capacity(8);
    whole.append(&body);
    let single = texts(handler.extract(&mut whole));
    for split in 0..=body.len() {
        let mut buffer = DockerStreamBuffer::with_capacity(8);
        buffer.append(&body[..split]);
        let mut items = texts(handler.extract(&mut buffer));
        buffer.append(&body[split..]);
        items.extend(texts(handler.extract(&mut buffer)));
        assert_eq!(items, single, "split at {split}");
        assert_eq!(buffer.as_bytes(), whole.as_bytes());
    }
}

#[test]
fn invalid_utf8_breaks_the_stream() {
    let mut stream = DockerStream::from(ContainerLogsStreamHandler::new(), "/logs".to_string());
    let mut body = frame(1, b"ok");
    body.extend(frame(1, &[0xff, 0xfe]));
    body.extend(frame(1, b"after"));
    assert_eq!(stream.handle_frame(BodyFrame::Data(body)).unwrap().unwrap(), "ok");
    assert!(matches!(stream.next_prefetched(), Some(Err(DockerError::Utf8ParsingFailed(_)))));
    assert!(stream.is_broken());
    assert!(stream.next_prefetched().is_none());
    assert!(stream.handle_frame(BodyFrame::Data(frame(1, b"more"))).is_none());
}

#[test]
fn unrecognized_frame_breaks_the_stream() {
    let mut stream = DockerStream::from(ContainerLogsStreamHandler::new(), "/attach".to_string());
    match stream.handle_frame(BodyFrame::Unrecognized) {
        Some(Err(DockerError::HttpFrameUnrecognized(url))) => assert_eq!(url, "/attach"),
        _ => panic!("an unrecognized frame error"),
    }
    assert!(stream.is_broken());
}

fn text(v: &serde_json::Value, key: &str) -> Option<String> {
    v.get(key).and_then(|x| x.as_str()).map(|s| s.to_string())
}

/// Decodes a pull record through `serde_json::Value`, refusing unknown fields.
fn parse(record: Vec<u8>) -> DockerResult<ImageCreateStreamItem> {
    let value: serde_json::Value = match serde_json::from_slice(&record) {
        Ok(v) => v,
        Err(e) => return Err(DockerError::DeserializationFailed(None, e, record)),
    };
    let known = ["status", "id", "error", "errorDetail", "progress", "progressDetail"];
    for key in value.as_object().unwrap().keys() {
        assert!(known.contains(&key.as_str()), "unknown field {key}");
    }
    Ok(ImageCreateStreamItem {
        status: text(&value, "status"),
        id: text(&value, "id"),
        error: text(&value, "error"),
        error_detail: value.get("errorDetail").map(|d| ErrorResponse { message: text(d, "message").unwrap() }),
        progress: text(&value, "progress"),
        progress_detail: value.get("progressDetail").map(|d| ImageCreateStreamProgress {
            current: d.get("current").and_then(|x| x.as_u64()),
            total: d.get("total").and_then(|x| x.as_u64()),
        }),
    })
}

#[test]
fn pull_progress_is_classified() {
    let body = b"{\"status\":\"Pulling\",\"id\":\"abc\"}\r\n{\"status\":\"Downloading\",\"id\":\"abc\",\"progress\":\"[=>]\",\"progressDetail\":{\"current\":10,\"total\":100}}\r\n";
    let mut stream = DockerStream::from(ImageCreateStreamHandler::new(parse), "/pull".to_string());
    match stream.handle_frame(BodyFrame::Data(body.to_vec())) {
        Some(Ok(ImageCreateStreamLine::Status(s))) => {
            assert_eq!(s.id, "abc");
            assert_eq!(s.status, "Pulling");
        }
        _ => panic!("a status line"),
    }
    match stream.next_prefetched() {
        Some(Ok(ImageCreateStreamLine::Progress(p))) => {
            assert_eq!(p.id, "abc");
            assert_eq!(p.status, "Downloading");
            assert_eq!(p.info, "[=>]");
            assert_eq!(p.current, 10);
            assert_eq!(p.total, 100);
        }
        _ => panic!("a progress line"),
    }
    assert!(stream.next_prefetched().is_none());
    assert!(stream.handle_connection_cleanup(DriverOutcome::Finished).is_none());
}

#[test]
fn pull_records_split_on_line_feeds() {
    let mut buffer = DockerStreamBuffer::with_capacity(8);
    buffer.append(b"{\"a\":1}\r\n{\"b\":2}\n{\"c\"");
    let records = extract_records(&mut buffer);
    assert_eq!(records, vec![b"{\"a\":1}".to_vec(), b"{\"b\":2}".to_vec()]);
    assert_eq!(buffer.as_bytes(), b"{\"c\"");
    buffer.append(b":3}\r\n");
    assert_eq!(extract_records(&mut buffer), vec![b"{\"c\":3}".to_vec()]);
    assert_eq!(buffer.len(), 0);
}

#[test]
fn pull_lines_of_every_class() {
    let item = |status: Option<&str>, id: Option<&str>, error: Option<&str>, detail: Option<&str>| ImageCreateStreamItem {
        status: status.map(String::from),
        id: id.map(String::from),
        error: error.map(String::from),
        error_detail: detail.map(|m| ErrorResponse { message: m.to_string() }),
        progress: None,
        progress_detail: None,
    };
    match ImageCreateStreamLine::from(Ok(item(Some("s"), Some("i"), Some("boom"), Some("detail")))) {
        Ok(ImageCreateStreamLine::Error(e)) => {
            assert_eq!(e.message, "boom");
            assert_eq!(e.detail, "detail");
        }
        _ => panic!("an error line"),
    }
    match ImageCreateStreamLine::from(Ok(item(Some("Pulling fs layer"), None, Some("no detail"), None))) {
        Ok(ImageCreateStreamLine::Info(i)) => assert_eq!(i.status, "Pulling fs layer"),
        _ => panic!("an info line"),
    }
    assert!(matches!(ImageCreateStreamLine::from(Ok(item(None, Some("i"), None, None))), Ok(ImageCreateStreamLine::Raw(_))));
    let mut partial = item(Some("Downloading"), Some("abc"), None, None);
    partial.progress = Some("[>]".to_string());
    partial.progress_detail = Some(ImageCreateStreamProgress { current: Some(1), total: None });
    assert!(matches!(ImageCreateStreamLine::from(Ok(partial)), Ok(ImageCreateStreamLine::Status(_))));
}

#[test]
fn undecodable_pull_record_breaks_the_stream() {
    let mut stream = DockerStream::from(ImageCreateStreamHandler::new(parse), "/pull".to_string());
    let body = b"{\"status\":\"one\"}\r\nnot json\r\n{\"status\":\"three\"}\r\n";
    assert!(matches!(stream.handle_frame(BodyFrame::Data(body.to_vec())), Some(Ok(ImageCreateStreamLine::Info(_)))));
    assert!(matches!(stream.next_prefetched(), Some(Err(DockerError::DeserializationFailed(None, _, _)))));
    assert!(stream.next_prefetched().is_none());
    assert!(stream.is_broken());
}

#[test]
fn pull_extraction_is_a_left_fold() {
    let body: &[u8] = b"{\"status\":\"a\"}\r\n\n{\"status\":\"b\"}\n{\"id\":\"c\"}\r\n{\"partial\"";
    let mut whole = DockerStreamBuffer::with_capacity(8);
    whole.append(body);
    let single = extract_records(&mut whole);
    for split in 0..=body.len() {
        let mut buffer = DockerStreamBuffer::with_capacity(8);
        buffer.append(&body[..split]);
        let mut records = extract_records(&mut buffer);
        buffer.append(&body[split..]);
        records.extend(extract_records(&mut buffer));
        assert_eq!(records, single, "split at {split}");
        assert_eq!(buffer.as_bytes(), whole.as_bytes());
    }
    assert_eq!(single.len(), 4);
    assert_eq!(single[1], Vec::<u8>::new());
}

#[test]
fn driver_failures_end_the_stream_with_an_error() {
    let mut stream = DockerStream::from(ContainerLogsStreamHandler::new(), "/logs".to_string());
    let mut body = frame(1, b"one");
    body.extend(frame(1, b"two"));
    assert_eq!(stream.handle_frame(BodyFrame::Data(body)).unwrap().unwrap(), "one");
    assert_eq!(stream.handle_connection_cleanup(DriverOutcome::Finished).unwrap().unwrap(), "two");
    assert!(stream.handle_connection_cleanup(DriverOutcome::Finished).is_none());
}
