use blockless_http::error::{HttpErrorKind, RETRY_SENTINEL};
use blockless_http::session::{ReadStep, StreamRead};
use blockless_http::{BlocklessHttp, CallLog, FetchOptions, HttpHost};

struct FakeHost {
    open_reply: (u32, u32, u32),
    body_replies: Vec<(u32, Vec<u8>)>,
    header_replies: Vec<(u32, Vec<u8>)>,
    close_code: u32,
    body_calls: usize,
    header_calls: usize,
    closed: Vec<u32>,
    sent_url: Vec<u8>,
    sent_opts: Vec<u8>,
    sent_header_names: Vec<Vec<u8>>,
}

impl FakeHost {
    fn new(open_reply: (u32, u32, u32)) -> FakeHost {
        FakeHost {
            open_reply,
            body_replies: Vec::new(),
            header_replies: Vec::new(),
            close_code: 0,
            body_calls: 0,
            header_calls: 0,
            closed: Vec::new(),
            sent_url: Vec::new(),
            sent_opts: Vec::new(),
            sent_header_names: Vec::new(),
        }
    }
}

fn fill(buf: &mut [u8], bytes: &[u8]) -> u32 {
    let n = bytes.len().min(buf.len());
    buf[..n].copy_from_slice(&bytes[..n]);
    bytes.len() as u32
}

impl HttpHost for FakeHost {
    fn log(&self) -> CallLog {
        unreachable!("the call log exists only in proofs")
    }

    fn open(&mut self, url: &[u8], opts: &[u8]) -> (u32, u32, u32) {
        self.sent_url = url.to_vec();
        self.sent_opts = opts.to_vec();
        self.open_reply
    }

    fn read_header(&mut self, _handle: u32, name: &[u8], buf: &mut [u8]) -> (u32, u32) {
        self.sent_header_names.push(name.to_vec());
        let (code, bytes) = self.header_replies[self.header_calls].clone();
        self.header_calls += 1;
        (code, fill(buf, &bytes))
    }

    fn read_body(&mut self, _handle: u32, buf: &mut [u8]) -> (u32, u32) {
        let (code, bytes) = self.body_replies[self.body_calls].clone();
        self.body_calls += 1;
        (code, fill(buf, &bytes))
    }

    fn close(&mut self, handle: u32) -> u32 {
        self.closed.push(handle);
        self.close_code
    }
}

fn opened(host: &mut FakeHost) -> BlocklessHttp {
    BlocklessHttp::open(host, "https://example.test/x", &FetchOptions::new("GET")).unwrap()
}

#[test]
fn open_success_keeps_status_and_handle() {
    let mut host = FakeHost::new((0, 7, 200));
    let s = opened(&mut host);
    assert_eq!(s.get_code(), 200);
    assert_eq!(s.handle(), 7);
    assert_eq!(host.sent_url, b"https://example.test/x".to_vec());
    assert_eq!(
        String::from_utf8(host.sent_opts.clone()).unwrap(),
        "{\"body\":null,\"connectTimeout\":30,\"headers\":\"{}\",\"method\":\"GET\",\"readTimeout\":10}"
    );
}

#[test]
fn open_failure_maps_code() {
    let mut host = FakeHost::new((7, 3, 200));
    let r = BlocklessHttp::open(&mut host, "https://example.test/x", &FetchOptions::new("BREW"));
    assert_eq!(r.err(), Some(HttpErrorKind::InvalidMethod));
    let mut host = FakeHost::new((12, 3, 200));
    let r = BlocklessHttp::open(&mut host, "u", &FetchOptions::new("GET"));
    assert_eq!(r.err(), Some(HttpErrorKind::TooManySessions));
}

#[test]
fn open_with_unknown_code_is_runtime_error() {
    let mut host = FakeHost::new((255, 3, 200));
    let r = BlocklessHttp::open(&mut host, "u", &FetchOptions::new("GET"));
    assert_eq!(r.err(), Some(HttpErrorKind::RuntimeError));
}

#[test]
fn from_open_reply_cases() {
    let s = BlocklessHttp::from_open_reply(0, 9, 404).unwrap();
    assert_eq!(s.get_code(), 404);
    assert_eq!(s.handle(), 9);
    assert_eq!(
        BlocklessHttp::from_open_reply(9, 9, 404).err(),
        Some(HttpErrorKind::InvalidUrl)
    );
}

#[test]
fn body_chunks_five_three_then_end() {
    let mut host = FakeHost::new((0, 1, 200));
    host.body_replies = vec![(0, vec![1, 2, 3, 4, 5]), (0, vec![6, 7, 8]), (0, vec![])];
    let s = opened(&mut host);
    let body = s.get_all_body(&mut host).unwrap();
    assert_eq!(body, vec![1, 2, 3, 4, 5, 6, 7, 8]);
    assert_eq!(body.len(), 8);
    assert_eq!(host.body_calls, 3);
}

#[test]
fn body_retries_then_terminal_error() {
    let n = 4;
    let mut host = FakeHost::new((0, 1, 200));
    for _ in 0..n {
        host.body_replies.push((RETRY_SENTINEL, vec![9, 9]));
    }
    host.body_replies.push((10, vec![]));
    let s = opened(&mut host);
    let r = s.get_all_body(&mut host);
    assert_eq!(r.err(), Some(HttpErrorKind::RequestError));
    assert_eq!(host.body_calls, n + 1);
}

#[test]
fn retry_limit_bounds_busy_replies() {
    let mut host = FakeHost::new((0, 1, 200));
    for _ in 0..3 {
        host.body_replies.push((RETRY_SENTINEL, vec![]));
    }
    host.body_replies.push((0, vec![]));
    let s = opened(&mut host).with_retry_limit(2);
    assert_eq!(s.retry_limit(), 2);
    let r = s.get_all_body(&mut host);
    assert_eq!(r.err(), Some(HttpErrorKind::RuntimeError));
    assert_eq!(host.body_calls, 3);
}

#[test]
fn body_count_beyond_scratch_is_memory_error() {
    let mut host = FakeHost::new((0, 1, 200));
    host.body_replies = vec![(0, vec![0u8; 2000])];
    let s = opened(&mut host);
    assert_eq!(s.get_all_body(&mut host).err(), Some(HttpErrorKind::MemoryAccessError));
}

#[test]
fn header_not_found_is_an_error() {
    let mut host = FakeHost::new((0, 1, 200));
    host.header_replies = vec![(4, vec![])];
    let s = opened(&mut host);
    let r = s.get_header(&mut host, "X-Missing");
    assert_eq!(r.err(), Some(HttpErrorKind::HeaderNotFound));
    assert_eq!(host.header_calls, 1);
}

#[test]
fn header_value_is_gathered_and_decoded() {
    let mut host = FakeHost::new((0, 1, 200));
    host.header_replies = vec![
        (RETRY_SENTINEL, vec![]),
        (0, b"text/".to_vec()),
        (0, b"html".to_vec()),
        (0, vec![]),
    ];
    let s = opened(&mut host);
    assert_eq!(s.get_header(&mut host, "Content-Type").unwrap(), "text/html");
    assert_eq!(host.sent_header_names[0], b"Content-Type".to_vec());
    assert_eq!(host.header_calls, 4);
}

#[test]
fn header_invalid_utf8_is_utf8_error() {
    let mut host = FakeHost::new((0, 1, 200));
    host.header_replies = vec![(0, vec![0xff, 0xfe]), (0, vec![])];
    let s = opened(&mut host);
    assert_eq!(s.get_header(&mut host, "X").err(), Some(HttpErrorKind::Utf8Error));
}

#[test]
fn close_swallows_host_failure() {
    let mut host = FakeHost::new((0, 5, 200));
    host.close_code = 1;
    let s = opened(&mut host);
    let () = s.close(&mut host);
    assert_eq!(host.closed, vec![5]);
}

#[test]
fn single_read_returns_count_or_error() {
    let mut host = FakeHost::new((0, 1, 200));
    host.body_replies = vec![(0, vec![1, 2, 3]), (2, vec![]), (0, vec![0u8; 20])];
    let s = opened(&mut host);
    let mut buf = [0u8; 8];
    assert_eq!(s.read_body(&mut host, &mut buf), Ok(3));
    assert_eq!(&buf[..3], &[1, 2, 3]);
    assert_eq!(s.read_body(&mut host, &mut buf), Err(HttpErrorKind::MemoryAccessError));
    assert_eq!(s.read_body(&mut host, &mut buf), Err(HttpErrorKind::MemoryAccessError));
    assert_eq!(host.body_calls, 3);
}

#[test]
fn end_to_end_status_and_body() {
    let mut host = FakeHost::new((0, 42, 200));
    host.body_replies = vec![(0, b"{\"a\"".to_vec()), (0, b":1}".to_vec()), (0, vec![])];
    let s = BlocklessHttp::open(&mut host, "https://example.test/x", &FetchOptions::new("GET"))
        .unwrap();
    assert_eq!(s.get_code(), 200);
    let body = s.get_all_body(&mut host).unwrap();
    assert_eq!(String::from_utf8(body).unwrap(), "{\"a\":1}");
    s.close(&mut host);
    assert_eq!(host.closed, vec![42]);
}

#[test]
fn feed_steps_exactly() {
    let mut r = StreamRead::new(1);
    let buf = [7u8, 8, 9, 10];
    assert_eq!(r.feed(RETRY_SENTINEL, &buf, 4), ReadStep::Retry);
    assert_eq!(r.feed(RETRY_SENTINEL, &buf, 4), ReadStep::Failed(HttpErrorKind::RuntimeError));
    assert_eq!(r.feed(0, &buf, 2), ReadStep::Appended);
    assert_eq!(r.feed(0, &buf, 5), ReadStep::Failed(HttpErrorKind::MemoryAccessError));
    assert_eq!(r.feed(3, &buf, 2), ReadStep::Failed(HttpErrorKind::BufferTooSmall));
    assert_eq!(r.gathered_len(), 2);
    assert_eq!(r.feed(0, &buf, 0), ReadStep::End);
    assert_eq!(r.into_bytes(), vec![7, 8]);
}

#[test]
fn failure_after_bytes_returns_the_error() {
    let mut host = FakeHost::new((0, 1, 200));
    host.body_replies = vec![(0, b"ab".to_vec()), (255, vec![])];
    let s = opened(&mut host);
    assert_eq!(s.get_all_body(&mut host).err(), Some(HttpErrorKind::RuntimeError));
    assert_eq!(host.body_calls, 2);
}

#[test]
fn present_empty_header_is_empty_text() {
    let mut host = FakeHost::new((0, 1, 200));
    host.header_replies = vec![(0, vec![])];
    let s = opened(&mut host);
    assert_eq!(s.get_header(&mut host, "X-Empty").unwrap(), "");
}

#[test]
fn header_char_split_across_chunks() {
    let mut host = FakeHost::new((0, 1, 200));
    let e = "é".as_bytes().to_vec();
    host.header_replies = vec![(0, vec![e[0]]), (0, vec![e[1]]), (0, vec![])];
    let s = opened(&mut host);
    assert_eq!(s.get_header(&mut host, "X").unwrap(), "é");
}
