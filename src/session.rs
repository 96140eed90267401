use vstd::prelude::*;
use vstd::string::StringSliceAdditionalSpecFns;
use crate::error::{kind_of_code, HttpErrorKind, RETRY_SENTINEL};
use crate::options::{
    descriptor_text, FetchOptions, HttpOptions, DEFAULT_CONNECT_TIMEOUT, DEFAULT_READ_TIMEOUT,
};

verus! {

/// Size of the scratch region handed to the host on each read.
pub const SCRATCH_LEN: usize = 1024;

/// One call made to the host, with its arguments and what came back.
pub enum HostCall {
    /// An open request: the URL and description bytes, then the code, the
    /// handle and the response status returned.
    Open { url: Seq<u8>, opts: Seq<u8>, code: u32, handle: u32, status: u32 },
    /// A header read into a region of `len` bytes: the code, the count and
    /// the region's contents afterwards.
    ReadHeader { handle: u32, name: Seq<u8>, len: nat, code: u32, num: u32, written: Seq<u8> },
    /// A body read into a region of `len` bytes: the code, the count and the
    /// region's contents afterwards.
    ReadBody { handle: u32, len: nat, code: u32, num: u32, written: Seq<u8> },
    /// A release of `handle`, and the code returned.
    Close { handle: u32, code: u32 },
}

/// The record of the calls made to a host, oldest first. It exists only in
/// proofs: no code ever computes it.
pub type CallLog = Seq<HostCall>;

/// The four primitives of the host runtime. Each returns a status code
/// (0 for success) together with its out-values, and each call is recorded
/// in the host's log of calls.
pub trait HttpHost {
    /// The calls made to this host so far, oldest first.
    spec fn log(&self) -> CallLog;

    /// Opens a request for `url` described by `opts`; returns the code, the
    /// new handle and the response status.
    fn open(&mut self, url: &[u8], opts: &[u8]) -> (r: (u32, u32, u32))
        ensures
            final(self).log() == old(self).log().push(
                HostCall::Open { url: url@, opts: opts@, code: r.0, handle: r.1, status: r.2 },
            ),
    ;

    /// Writes up to `buf.len()` bytes of the value of header `name` into `buf`;
    /// returns the code and the count written.
    fn read_header(&mut self, handle: u32, name: &[u8], buf: &mut [u8]) -> (r: (u32, u32))
        ensures
            final(buf)@.len() == old(buf)@.len(),
            final(self).log() == old(self).log().push(
                HostCall::ReadHeader {
                    handle,
                    name: name@,
                    len: old(buf)@.len(),
                    code: r.0,
                    num: r.1,
                    written: final(buf)@,
                },
            ),
    ;

    /// Writes up to `buf.len()` body bytes into `buf`; returns the code and the
    /// count written.
    fn read_body(&mut self, handle: u32, buf: &mut [u8]) -> (r: (u32, u32))
        ensures
            final(buf)@.len() == old(buf)@.len(),
            final(self).log() == old(self).log().push(
                HostCall::ReadBody {
                    handle,
                    len: old(buf)@.len(),
                    code: r.0,
                    num: r.1,
                    written: final(buf)@,
                },
            ),
    ;

    /// Releases the handle; returns the code.
    fn close(&mut self, handle: u32) -> (r: u32)
        ensures
            final(self).log() == old(self).log().push(HostCall::Close { handle, code: r }),
    ;
}

/// The calls in `after` that came after those of `before`.
pub open spec fn new_calls(before: Seq<HostCall>, after: Seq<HostCall>) -> Seq<HostCall> {
    after.subrange(before.len() as int, after.len() as int)
}

/// Whether `after` is `before` with exactly one call added.
pub open spec fn one_more_call(before: Seq<HostCall>, after: Seq<HostCall>) -> bool {
    after.len() == before.len() + 1 && after.drop_last() == before
}

/// What one reply of the host's buffered read means for a read in progress.
#[derive(Debug, Clone, Copy, PartialEq, Eq, Structural)]
pub enum ReadStep {
    /// The host was busy: ask again, nothing consumed.
    Retry,
    /// Bytes were appended: ask again.
    Appended,
    /// The stream is exhausted: the accumulated bytes are the result.
    End,
    /// The read stops with this error.
    Failed(HttpErrorKind),
}

/// The meaning of reply (`code`, `num`) for a scratch region of `len` bytes
/// when `retries_left` busy replies may still be waited out.
pub open spec fn step_of(code: u32, num: u32, len: int, retries_left: u64) -> ReadStep {
    if code == RETRY_SENTINEL {
        if retries_left > 0 {
            ReadStep::Retry
        } else {
            ReadStep::Failed(HttpErrorKind::RuntimeError)
        }
    } else if code != 0 {
        ReadStep::Failed(kind_of_code(code))
    } else if num == 0 {
        ReadStep::End
    } else if num > len {
        ReadStep::Failed(HttpErrorKind::MemoryAccessError)
    } else {
        ReadStep::Appended
    }
}

/// A read in progress: the bytes gathered so far and the busy replies that
/// may still be waited out.
pub struct StreamRead {
    acc: Vec<u8>,
    retries_left: u64,
}

impl StreamRead {
    /// The bytes gathered so far.
    pub closed spec fn gathered(&self) -> Seq<u8> {
        self.acc@
    }

    /// How many more busy replies are waited out.
    pub closed spec fn retries(&self) -> u64 {
        self.retries_left
    }

    /// A fresh read that tolerates `retry_limit` busy replies in all.
    pub fn new(retry_limit: u64) -> (r: StreamRead)
        ensures
            r.gathered() == Seq::<u8>::empty(),
            r.retries() == retry_limit,
    {
        StreamRead { acc: Vec::new(), retries_left: retry_limit }
    }

    /// Takes in one host reply: `code`, and `num` bytes written to `buf`.
    pub fn feed(&mut self, code: u32, buf: &[u8], num: u32) -> (r: ReadStep)
        ensures
            r == step_of(code, num, buf@.len() as int, old(self).retries()),
            final(self).gathered() == (if r == ReadStep::Appended {
                old(self).gathered() + buf@.subrange(0, num as int)
            } else {
                old(self).gathered()
            }),
            final(self).gathered().len() <= usize::MAX,
            final(self).retries() == (if r == ReadStep::Retry {
                (old(self).retries() - 1) as u64
            } else {
                old(self).retries()
            }),
    {
        proof {
            vstd::std_specs::vec::axiom_spec_len(&self.acc);
        }
        if code == RETRY_SENTINEL {
            if self.retries_left > 0 {
                self.retries_left = self.retries_left - 1;
                ReadStep::Retry
            } else {
                ReadStep::Failed(HttpErrorKind::RuntimeError)
            }
        } else if code != 0 {
            ReadStep::Failed(HttpErrorKind::from_code(code))
        } else if num == 0 {
            ReadStep::End
        } else if num as usize > buf.len() {
            ReadStep::Failed(HttpErrorKind::MemoryAccessError)
        } else {
            let n = num as usize;
            let ghost start = self.acc@;
            let mut i: usize = 0;
            while i < n
                invariant
                    n <= buf@.len(),
                    i <= n,
                    self.acc@ == start + buf@.subrange(0, i as int),
                    self.retries_left == old(self).retries_left,
                    start == old(self).acc@,
                decreases n - i,
            {
                self.acc.push(buf[i]);
                proof {
                    assert(buf@.subrange(0, i + 1) == buf@.subrange(0, i as int).push(buf@[i as int]));
                }
                i = i + 1;
            }
            proof {
                vstd::std_specs::vec::axiom_spec_len(&self.acc);
            }
            ReadStep::Appended
        }
    }

    /// How many bytes were gathered so far.
    pub fn gathered_len(&self) -> (r: usize)
        ensures
            r == self.gathered().len(),
    {
        self.acc.len()
    }

    /// The bytes gathered, ending the read.
    pub fn into_bytes(self) -> (r: Vec<u8>)
        ensures
            r@ == self.gathered(),
    {
        self.acc
    }
}

/// The state of a streaming read after some host replies.
pub enum ReadState {
    /// Still reading: busy replies that may still be waited out, and the
    /// bytes gathered.
    Running { retries: u64, acc: Seq<u8> },
    /// The read has stopped with this result.
    Done(Result<Seq<u8>, HttpErrorKind>),
    /// A call came after the read had stopped.
    Overrun,
}

/// The state after reply (`code`, `num`, region contents `written`) when
/// `retries` busy replies may be waited out and `acc` was gathered.
pub open spec fn reply_step(retries: u64, acc: Seq<u8>, code: u32, num: u32, written: Seq<u8>) -> ReadState {
    match step_of(code, num, written.len() as int, retries) {
        ReadStep::Retry => ReadState::Running { retries: (retries - 1) as u64, acc },
        ReadStep::Appended => ReadState::Running {
            retries,
            acc: acc + written.subrange(0, num as int),
        },
        ReadStep::End => ReadState::Done(Ok(acc)),
        ReadStep::Failed(e) => ReadState::Done(Err(e)),
    }
}

/// The state after one more host call.
pub open spec fn advance(s: ReadState, c: HostCall) -> ReadState {
    match s {
        ReadState::Running { retries, acc } => match c {
            HostCall::ReadBody { code, num, written, .. } => reply_step(
                retries,
                acc,
                code,
                num,
                written,
            ),
            HostCall::ReadHeader { code, num, written, .. } => reply_step(
                retries,
                acc,
                code,
                num,
                written,
            ),
            _ => ReadState::Overrun,
        },
        _ => ReadState::Overrun,
    }
}

/// The state of a read that waits out at most `retry_limit` busy replies,
/// after the host calls `calls`, in order.
pub open spec fn run_reads(calls: Seq<HostCall>, retry_limit: u64) -> ReadState
    decreases calls.len(),
{
    if calls.len() == 0 {
        ReadState::Running { retries: retry_limit, acc: Seq::empty() }
    } else {
        advance(run_reads(calls.drop_last(), retry_limit), calls.last())
    }
}

/// Whether `c` reads from session `handle` into a scratch region: the body
/// when `name` is `None`, else the header of that name.
pub open spec fn is_read_of(c: HostCall, handle: u32, name: Option<Seq<u8>>) -> bool {
    match c {
        HostCall::ReadBody { handle: h, len, .. } => name is None && h == handle && len
            == SCRATCH_LEN,
        HostCall::ReadHeader { handle: h, name: n, len, .. } => name == Some(n) && h == handle
            && len == SCRATCH_LEN,
        _ => false,
    }
}

/// Whether every call of `calls` reads from session `handle` (see `is_read_of`).
pub open spec fn all_reads_of(calls: Seq<HostCall>, handle: u32, name: Option<Seq<u8>>) -> bool {
    forall|i: int| 0 <= i < calls.len() ==> is_read_of(#[trigger] calls[i], handle, name)
}

/// A byte result, as a sequence.
pub open spec fn bytes_result(r: Result<Vec<u8>, HttpErrorKind>) -> Result<Seq<u8>, HttpErrorKind> {
    match r {
        Ok(v) => Ok(v@),
        Err(e) => Err(e),
    }
}

/// A text result, as a sequence.
pub open spec fn text_result(r: Result<String, HttpErrorKind>) -> Result<Seq<char>, HttpErrorKind> {
    match r {
        Ok(s) => Ok(s@),
        Err(e) => Err(e),
    }
}

/// What a header read gives once stopped: its bytes decoded as UTF-8, or
/// `Utf8Error` when they are not UTF-8, or the error it stopped with.
pub open spec fn header_outcome(s: ReadState) -> Result<Seq<char>, HttpErrorKind> {
    match s {
        ReadState::Done(Ok(b)) => if vstd::utf8::valid_utf8(b) {
            Ok(vstd::utf8::decode_utf8(b))
        } else {
            Err(HttpErrorKind::Utf8Error)
        },
        ReadState::Done(Err(e)) => Err(e),
        _ => Err(HttpErrorKind::RuntimeError),
    }
}

/// The name of a header to read, as bytes.
pub open spec fn name_view(header: Option<&[u8]>) -> Option<Seq<u8>> {
    match header {
        Some(n) => Some(n@),
        None => None,
    }
}

/// Runs the buffered-read protocol against the host until the stream ends or
/// fails: the body when `header` is `None`, else that header's value. Busy
/// replies are retried, at most `retry_limit` times in all.
fn read_stream<H: HttpHost>(
    host: &mut H,
    handle: u32,
    header: Option<&[u8]>,
    retry_limit: u64,
) -> (r: Result<Vec<u8>, HttpErrorKind>)
    ensures
        old(host).log().is_prefix_of(final(host).log()),
        all_reads_of(new_calls(old(host).log(), final(host).log()), handle, name_view(header)),
        run_reads(new_calls(old(host).log(), final(host).log()), retry_limit) == ReadState::Done(
            bytes_result(r),
        ),
{
    let mut reader = StreamRead::new(retry_limit);
    let mut buf: Vec<u8> = vec![0u8; SCRATCH_LEN];
    let ghost start = host.log();
    let ghost mut calls: Seq<HostCall> = Seq::empty();
    assert(start + calls =~= start);
    loop
        invariant
            host.log() == start + calls,
            start == old(host).log(),
            buf@.len() == SCRATCH_LEN,
            reader.gathered().len() <= usize::MAX,
            all_reads_of(calls, handle, name_view(header)),
            run_reads(calls, retry_limit) == (ReadState::Running {
                retries: reader.retries(),
                acc: reader.gathered(),
            }),
        decreases usize::MAX - reader.gathered().len(), reader.retries(),
    {
        let ghost before = host.log();
        let (code, num) = match header {
            Some(name) => host.read_header(handle, name, buf.as_mut_slice()),
            None => host.read_body(handle, buf.as_mut_slice()),
        };
        let ghost c = host.log().last();
        proof {
            assert(host.log() == before.push(c));
            let next = calls.push(c);
            assert(next.drop_last() =~= calls);
            assert(start + next =~= (start + calls).push(c));
            assert forall|i: int| 0 <= i < next.len() implies is_read_of(
                #[trigger] next[i],
                handle,
                name_view(header),
            ) by {
                if i < calls.len() {
                    assert(next[i] == calls[i]);
                }
            }
            calls = next;
        }
        let step = reader.feed(code, buf.as_slice(), num);
        proof {
            assert(new_calls(start, start + calls) =~= calls);
            assert(start.is_prefix_of(start + calls));
        }
        match step {
            ReadStep::Retry => {},
            ReadStep::Appended => {},
            ReadStep::End => {
                return Ok(reader.into_bytes());
            },
            ReadStep::Failed(e) => {
                return Err(e);
            },
        }
    }
}

/// Relies on String::from_utf8: the text that `bytes` encode, when they are
/// valid UTF-8.
#[verifier::external_body]
fn text_of_bytes(bytes: Vec<u8>) -> (r: Option<String>)
    ensures
        r is Some <==> vstd::utf8::valid_utf8(bytes@),
        r matches Some(s) ==> s@ == vstd::utf8::decode_utf8(bytes@),
{
    String::from_utf8(bytes).ok()
}

/// The retry budget a session starts with: busy replies are waited out
/// without a practical bound.
pub const DEFAULT_RETRY_LIMIT: u64 = 0xffff_ffff_ffff_ffff;

/// Whether `r` is what an open reply (`code`, `handle`, `status`) gives: a
/// session on code 0, else the error that the code stands for.
pub open spec fn opened_as(r: Result<BlocklessHttp, HttpErrorKind>, code: u32, handle: u32, status: u32) -> bool {
    if code == 0 {
        r matches Ok(s) && s.spec_handle() == handle && s.spec_code() == status
            && s.spec_retry_limit() == DEFAULT_RETRY_LIMIT
    } else {
        r == Err::<BlocklessHttp, HttpErrorKind>(kind_of_code(code))
    }
}

/// The result of a single read into a region of `len` bytes: the count on
/// code 0 when it fits, `MemoryAccessError` when it does not, else the error
/// that the code stands for.
pub open spec fn single_read_outcome(code: u32, num: u32, len: int) -> Result<u32, HttpErrorKind> {
    if code != 0 {
        Err(kind_of_code(code))
    } else if num > len {
        Err(HttpErrorKind::MemoryAccessError)
    } else {
        Ok(num)
    }
}

/// An open request at the host: its handle and the response status.
pub struct BlocklessHttp {
    inner: u32,
    code: u32,
    retry_limit: u64,
}

impl BlocklessHttp {
    /// The host handle of this session.
    pub closed spec fn spec_handle(&self) -> u32 {
        self.inner
    }

    /// The response status the host reported.
    pub closed spec fn spec_code(&self) -> u32 {
        self.code
    }

    /// How many busy replies one read waits out.
    pub closed spec fn spec_retry_limit(&self) -> u64 {
        self.retry_limit
    }

    /// The session or error that the host's reply to an open request gives:
    /// a session on code 0, else the error that the code stands for.
    pub fn from_open_reply(code: u32, handle: u32, status: u32) -> (r: Result<
        BlocklessHttp,
        HttpErrorKind,
    >)
        ensures
            opened_as(r, code, handle, status),
    {
        if code != 0 {
            Err(HttpErrorKind::from_code(code))
        } else {
            Ok(BlocklessHttp { inner: handle, code: status, retry_limit: DEFAULT_RETRY_LIMIT })
        }
    }

    /// Opens `url` with the method of `opts` and the default timeouts. The host
    /// receives the URL bytes and the canonical description's bytes.
    pub fn open<H: HttpHost>(host: &mut H, url: &str, opts: &FetchOptions) -> (r: Result<
        BlocklessHttp,
        HttpErrorKind,
    >)
        ensures
            one_more_call(old(host).log(), final(host).log()),
            final(host).log().last() matches HostCall::Open { url: u, opts: o, code, handle, status }
                ==> (u == url.spec_bytes() && o == vstd::utf8::encode_utf8(
                descriptor_text(
                    opts.spec_method(),
                    DEFAULT_CONNECT_TIMEOUT,
                    DEFAULT_READ_TIMEOUT,
                    None,
                ),
            ) && opened_as(r, code, handle, status)),
            final(host).log().last() is Open,
    {
        let desc = HttpOptions::new(opts.method(), DEFAULT_CONNECT_TIMEOUT, DEFAULT_READ_TIMEOUT);
        let text = desc.to_json();
        let (code, handle, status) = host.open(url.as_bytes(), text.as_str().as_bytes());
        proof {
            assert(host.log().drop_last() =~= old(host).log());
        }
        BlocklessHttp::from_open_reply(code, handle, status)
    }

    /// The response status.
    pub fn get_code(&self) -> (r: u32)
        ensures
            r == self.spec_code(),
    {
        self.code
    }

    /// The host handle.
    pub fn handle(&self) -> (r: u32)
        ensures
            r == self.spec_handle(),
    {
        self.inner
    }

    /// How many busy replies one read waits out.
    pub fn retry_limit(&self) -> (r: u64)
        ensures
            r == self.spec_retry_limit(),
    {
        self.retry_limit
    }

    /// The same session, waiting out at most `limit` busy replies per read.
    pub fn with_retry_limit(self, limit: u64) -> (r: BlocklessHttp)
        ensures
            r.spec_handle() == self.spec_handle(),
            r.spec_code() == self.spec_code(),
            r.spec_retry_limit() == limit,
    {
        BlocklessHttp { inner: self.inner, code: self.code, retry_limit: limit }
    }

    /// Reads the whole body.
    ///
    /// The host calls made are body reads of this session into a scratch
    /// region of `SCRATCH_LEN` bytes, and the result is the one the read rule
    /// gives on their replies, the last of which stopped the read.
    pub fn get_all_body<H: HttpHost>(&self, host: &mut H) -> (r: Result<Vec<u8>, HttpErrorKind>)
        ensures
            old(host).log().is_prefix_of(final(host).log()),
            all_reads_of(new_calls(old(host).log(), final(host).log()), self.spec_handle(), None),
            run_reads(new_calls(old(host).log(), final(host).log()), self.spec_retry_limit())
                == ReadState::Done(bytes_result(r)),
    {
        read_stream(host, self.inner, None, self.retry_limit)
    }

    /// Reads the value of header `header` as text; bytes that are not UTF-8
    /// give `Utf8Error`.
    ///
    /// The host calls made are reads of header `header` of this session into a
    /// scratch region of `SCRATCH_LEN` bytes; the read stopped at the last.
    pub fn get_header<H: HttpHost>(&self, host: &mut H, header: &str) -> (r: Result<
        String,
        HttpErrorKind,
    >)
        ensures
            old(host).log().is_prefix_of(final(host).log()),
            all_reads_of(
                new_calls(old(host).log(), final(host).log()),
                self.spec_handle(),
                Some(header.spec_bytes()),
            ),
            run_reads(new_calls(old(host).log(), final(host).log()), self.spec_retry_limit()) is Done,
            text_result(r) == header_outcome(
                run_reads(new_calls(old(host).log(), final(host).log()), self.spec_retry_limit()),
            ),
    {
        match read_stream(host, self.inner, Some(header.as_bytes()), self.retry_limit) {
            Ok(bytes) => header_text(text_of_bytes(bytes)),
            Err(e) => Err(e),
        }
    }

    /// One buffered read into `buf`, with no retry: the count written, or the
    /// error that the host's code stands for.
    pub fn read_body<H: HttpHost>(&self, host: &mut H, buf: &mut [u8]) -> (r: Result<
        u32,
        HttpErrorKind,
    >)
        ensures
            one_more_call(old(host).log(), final(host).log()),
            final(host).log().last() matches HostCall::ReadBody { handle, len, code, num, written }
                ==> (handle == self.spec_handle() && len == old(buf)@.len() && written == final(buf)@
                && r == single_read_outcome(code, num, len as int)),
            final(host).log().last() is ReadBody,
    {
        let (code, num) = host.read_body(self.inner, buf);
        proof {
            assert(host.log().drop_last() =~= old(host).log());
        }
        single_read_result(code, num, buf.len())
    }

    /// Releases the host session. Whatever the host answers, nothing is
    /// reported back: the session is consumed either way.
    pub fn close<H: HttpHost>(self, host: &mut H)
        ensures
            one_more_call(old(host).log(), final(host).log()),
            final(host).log().last() matches HostCall::Close { handle, .. } ==> handle
                == self.spec_handle(),
            final(host).log().last() is Close,
    {
        let _ = host.close(self.inner);
        proof {
            assert(host.log().drop_last() =~= old(host).log());
        }
    }
}

/// The result of a header read once its bytes were decoded: the text, or
/// `Utf8Error` where they were not UTF-8.
pub fn header_text(decoded: Option<String>) -> (r: Result<String, HttpErrorKind>)
    ensures
        decoded matches Some(s) ==> (r matches Ok(t) && t@ == s@),
        decoded is None ==> r == Err::<String, HttpErrorKind>(HttpErrorKind::Utf8Error),
{
    match decoded {
        Some(s) => Ok(s),
        None => Err(HttpErrorKind::Utf8Error),
    }
}

/// The result of a single read: the count on code 0 when it fits the
/// `len`-byte region, `MemoryAccessError` when it does not, else the error
/// that the code stands for.
pub fn single_read_result(code: u32, num: u32, len: usize) -> (r: Result<u32, HttpErrorKind>)
    ensures
        r == single_read_outcome(code, num, len as int),
{
    if code != 0 {
        Err(HttpErrorKind::from_code(code))
    } else if num as usize > len {
        Err(HttpErrorKind::MemoryAccessError)
    } else {
        Ok(num)
    }
}

} // verus!
