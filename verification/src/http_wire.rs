//! The HTTP/1.1 exchange of the timing probe: the request that is sent, the
//! reading of the response head with its size limits, the fields read from
//! the head, and the framing of the body (fixed length, chunked, or up to the
//! close of the connection).
use vstd::prelude::*;
use vstd::utf8::encode_utf8;

use crate::text::{
    chars_of, colon_field, colon_field_exec, contains_ci, contains_ci_exec, find_from,
    find_from_exec, lemma_find_from_bounds, matches_ci_at, matches_ci_at_exec, parse_unsigned,
    parse_unsigned_exec, second_token, second_token_exec, slice_range, starts_with,
    starts_with_exec, string_from_chars, trim, trim_exec,
};

verus! {

broadcast use vstd::string::group_string_axioms;

/// Most bytes that all header lines together may take.
pub const MAX_HEADER_SIZE: usize = 65536;

/// Room kept free in the header buffer before each line is read.
pub const HEADER_LINE_RESERVE: usize = 1024;

/// Largest response body that is read.
pub const MAX_BODY_SIZE: usize = 104857600;

/// Most bytes drained from a response whose status line cannot be read.
pub const MAX_DISCARD: usize = 1048576;

/// Size of the buffer through which the body is read and discarded.
pub const READ_CHUNK: usize = 8192;

/// Errors of the HTTP exchange that the library detects.
#[derive(Debug, Clone, PartialEq, Eq)]
pub enum WireError {
    /// The header lines exceed `MAX_HEADER_SIZE` bytes.
    HeadersTooLarge,
    /// No status line with a status code was found.
    InvalidStatusLine,
    /// The Content-Length header exceeds `MAX_BODY_SIZE`.
    ContentTooLarge(usize),
    /// A chunk size line is not a hexadecimal number.
    InvalidChunkSize,
    /// The chunks together exceed `MAX_BODY_SIZE`.
    ChunkedTooLarge(usize),
    /// A body read up to the close exceeds `MAX_BODY_SIZE`.
    BodyTooLarge(usize),
    /// The URL has no host.
    InvalidHost,
    /// The URL's scheme has no known default port.
    InvalidScheme,
    /// The URL could not be parsed; the parser's message.
    InvalidUrl(String),
}

/// Length in bytes of the UTF-8 encoding of a text.
pub open spec fn byte_len(s: Seq<char>) -> usize {
    encode_utf8(s).len() as usize
}

fn str_byte_len(s: &str) -> (n: usize)
    ensures
        n == byte_len(s@),
{
    s.len()
}

/// What reading one more header line leads to.
#[derive(Debug, Clone, Copy, PartialEq, Eq, Structural)]
pub enum LineOutcome {
    /// More header lines follow.
    More,
    /// The empty line that ends the head was read.
    EndOfHead,
    /// The connection was closed before the head ended.
    Closed,
    /// The head has grown beyond `MAX_HEADER_SIZE`.
    TooLarge,
}

/// The outcome of appending a line of `line_bytes` bytes, after which the
/// buffer holds `buf`.
pub open spec fn line_outcome(buf: Seq<char>, line_bytes: usize) -> LineOutcome {
    if byte_len(buf) > MAX_HEADER_SIZE {
        LineOutcome::TooLarge
    } else if line_bytes == 2 && buf.len() > 0 && buf.last() == '\n' {
        LineOutcome::EndOfHead
    } else if line_bytes == 0 {
        LineOutcome::Closed
    } else {
        LineOutcome::More
    }
}

/// The response head as it is read, line by line, after its first byte.
pub struct ResponseHead {
    buf: String,
}

impl View for ResponseHead {
    type V = Seq<char>;

    closed spec fn view(&self) -> Seq<char> {
        self.buf@
    }
}

impl ResponseHead {
    /// A head that holds the first byte of the response (read to time the
    /// first byte), taken as a character.
    pub fn new(first_byte: u8) -> (h: ResponseHead)
        ensures
            h@ == seq![first_byte as char],
    {
        let c = vec![first_byte as char];
        ResponseHead { buf: string_from_chars(&c) }
    }

    /// Whether one more line may be read: the buffer keeps
    /// `HEADER_LINE_RESERVE` bytes free below `MAX_HEADER_SIZE`.
    pub fn has_room(&self) -> (r: bool)
        ensures
            r == (byte_len(self@) + HEADER_LINE_RESERVE <= MAX_HEADER_SIZE),
    {
        let n = str_byte_len(self.buf.as_str());
        n <= MAX_HEADER_SIZE - HEADER_LINE_RESERVE
    }

    /// Appends a line as read from the connection (with its line ending; empty
    /// when the connection was closed) and says how reading goes on.
    pub fn push_line(&mut self, line: &str) -> (o: LineOutcome)
        ensures
            final(self)@ == old(self)@ + line@,
            o == line_outcome(final(self)@, byte_len(line@)),
    {
        self.buf.append(line);
        let n = str_byte_len(self.buf.as_str());
        let k = str_byte_len(line);
        let c = chars_of(self.buf.as_str());
        if n > MAX_HEADER_SIZE {
            LineOutcome::TooLarge
        } else if k == 2 && c.len() > 0 && c[c.len() - 1] == '\n' {
            LineOutcome::EndOfHead
        } else if k == 0 {
            LineOutcome::Closed
        } else {
            LineOutcome::More
        }
    }

    /// The fields read from the head.
    pub fn fields(&self) -> (f: HeadFields)
        ensures
            f == head_fields(self@),
    {
        let c = chars_of(self.buf.as_str());
        head_fields_exec(&c)
    }
}

/// The header fields that decide how the body is read.
#[derive(Debug, Clone, Copy, PartialEq, Eq, Structural)]
pub struct HeadFields {
    /// Status code of the first status line that has one.
    pub status: Option<u16>,
    /// Value of the first Content-Length header that has one.
    pub content_length: Option<usize>,
    /// Some header names chunked transfer encoding.
    pub chunked: bool,
}

/// The prefix of a status line, in lower case.
pub open spec fn pat_http() -> Seq<char> {
    seq!['h', 't', 't', 'p', '/']
}

/// The name of the length header with its colon, in lower case.
pub open spec fn pat_content_length() -> Seq<char> {
    seq!['c', 'o', 'n', 't', 'e', 'n', 't', '-', 'l', 'e', 'n', 'g', 't', 'h', ':']
}

/// The name of the transfer encoding header, in lower case.
pub open spec fn pat_transfer_encoding() -> Seq<char> {
    seq!['t', 'r', 'a', 'n', 's', 'f', 'e', 'r', '-', 'e', 'n', 'c', 'o', 'd', 'i', 'n', 'g']
}

/// The chunked transfer encoding, in lower case.
pub open spec fn pat_chunked() -> Seq<char> {
    seq!['c', 'h', 'u', 'n', 'k', 'e', 'd']
}

/// The status code of a status line (`HTTP/1.1 200 OK`): its second word.
pub open spec fn status_of_line(l: Seq<char>) -> Option<u16> {
    if matches_ci_at(l, pat_http(), 0) {
        match second_token(l) {
            Some(t) => match parse_unsigned(t, 10, 65535) {
                Some(v) => Some(v as u16),
                None => None,
            },
            None => None,
        }
    } else {
        None
    }
}

/// The value of a `Content-Length:` line.
pub open spec fn length_of_line(l: Seq<char>) -> Option<usize> {
    if matches_ci_at(l, pat_content_length(), 0) {
        match colon_field(l) {
            Some(f) => match parse_unsigned(trim(f), 10, usize::MAX as nat) {
                Some(v) => Some(v as usize),
                None => None,
            },
            None => None,
        }
    } else {
        None
    }
}

/// A line that names chunked transfer encoding.
pub open spec fn chunked_line(l: Seq<char>) -> bool {
    contains_ci(l, pat_transfer_encoding()) && contains_ci(l, pat_chunked())
}

/// The line of `str::lines` that starts at `p`: up to the next `\n`, without
/// it and without a `\r` just before it.
pub open spec fn line_at(s: Seq<char>, p: int) -> Seq<char> {
    let e = find_from(s, '\n', p);
    let t = s.subrange(p, e);
    if e < s.len() && t.len() > 0 && t.last() == '\r' {
        t.drop_last()
    } else {
        t
    }
}

/// No field found.
pub open spec fn no_fields() -> HeadFields {
    HeadFields { status: None, content_length: None, chunked: false }
}

/// Fields found so far, completed by those found later.
pub open spec fn combine(a: HeadFields, b: HeadFields) -> HeadFields {
    HeadFields {
        status: if a.status is Some {
            a.status
        } else {
            b.status
        },
        content_length: if a.content_length is Some {
            a.content_length
        } else {
            b.content_length
        },
        chunked: a.chunked || b.chunked,
    }
}

/// The fields that one line gives.
pub open spec fn line_fields(l: Seq<char>) -> HeadFields {
    HeadFields {
        status: status_of_line(l),
        content_length: length_of_line(l),
        chunked: chunked_line(l),
    }
}

/// The fields of the lines of `s` from position `p` on.
pub open spec fn scan_fields(s: Seq<char>, p: int) -> HeadFields
    decreases s.len() - p,
    via scan_fields_decreases
{
    if p < 0 || p >= s.len() {
        no_fields()
    } else {
        let e = find_from(s, '\n', p);
        let rest = if e < s.len() {
            scan_fields(s, e + 1)
        } else {
            no_fields()
        };
        combine(line_fields(line_at(s, p)), rest)
    }
}

#[via_fn]
proof fn scan_fields_decreases(s: Seq<char>, p: int) {
    if 0 <= p < s.len() {
        lemma_find_from_bounds(s, '\n', p);
    }
}

/// The fields of a response head: for the status and the length, the first
/// line that gives one; chunked if any line says so.
pub open spec fn head_fields(s: Seq<char>) -> HeadFields {
    scan_fields(s, 0)
}

fn status_of_line_exec(l: &[char]) -> (r: Option<u16>)
    ensures
        r == status_of_line(l@),
{
    let pat = vec!['h', 't', 't', 'p', '/'];
    assert(pat@ =~= pat_http());
    if !matches_ci_at_exec(l, &pat, 0) {
        return None;
    }
    match second_token_exec(l) {
        Some(t) => match parse_unsigned_exec(&t, 10, 65535) {
            Some(v) => Some(v as u16),
            None => None,
        },
        None => None,
    }
}

fn length_of_line_exec(l: &[char]) -> (r: Option<usize>)
    ensures
        r == length_of_line(l@),
{
    let pat = vec![
        'c',
        'o',
        'n',
        't',
        'e',
        'n',
        't',
        '-',
        'l',
        'e',
        'n',
        'g',
        't',
        'h',
        ':',
    ];
    assert(pat@ =~= pat_content_length());
    if !matches_ci_at_exec(l, &pat, 0) {
        return None;
    }
    match colon_field_exec(l) {
        Some(f) => {
            let t = trim_exec(&f);
            match parse_unsigned_exec(&t, 10, usize::MAX as u64) {
                Some(v) => Some(v as usize),
                None => None,
            }
        },
        None => None,
    }
}

fn chunked_line_exec(l: &[char]) -> (r: bool)
    ensures
        r == chunked_line(l@),
{
    let te = vec![
        't',
        'r',
        'a',
        'n',
        's',
        'f',
        'e',
        'r',
        '-',
        'e',
        'n',
        'c',
        'o',
        'd',
        'i',
        'n',
        'g',
    ];
    let ch = vec!['c', 'h', 'u', 'n', 'k', 'e', 'd'];
    assert(te@ =~= pat_transfer_encoding());
    assert(ch@ =~= pat_chunked());
    contains_ci_exec(l, &te) && contains_ci_exec(l, &ch)
}

fn line_at_exec(s: &[char], p: usize) -> (r: (Vec<char>, usize))
    requires
        p < s@.len(),
    ensures
        r.0@ == line_at(s@, p as int),
        r.1 as int == find_from(s@, '\n', p as int),
{
    let e = find_from_exec(s, '\n', p);
    proof {
        lemma_find_from_bounds(s@, '\n', p as int);
    }
    let mut t = slice_range(s, p, e);
    if e < s.len() && t.len() > 0 && t[t.len() - 1] == '\r' {
        t.pop();
        proof {
            assert(t@ =~= s@.subrange(p as int, e as int).drop_last());
        }
    }
    (t, e)
}

/// Reads the fields of a response head given as characters.
pub fn head_fields_exec(s: &[char]) -> (f: HeadFields)
    ensures
        f == head_fields(s@),
{
    let mut acc = HeadFields { status: None, content_length: None, chunked: false };
    let mut p: usize = 0;
    while p < s.len()
        invariant
            p <= s@.len(),
            combine(acc, scan_fields(s@, p as int)) == head_fields(s@),
        decreases s@.len() - p,
    {
        let (l, e) = line_at_exec(s, p);
        proof {
            lemma_find_from_bounds(s@, '\n', p as int);
        }
        let st = status_of_line_exec(&l);
        let cl = length_of_line_exec(&l);
        let ch = chunked_line_exec(&l);
        let ghost old_acc = acc;
        if acc.status.is_none() {
            acc.status = st;
        }
        if acc.content_length.is_none() {
            acc.content_length = cl;
        }
        acc.chunked = acc.chunked || ch;
        assert(acc == combine(old_acc, line_fields(l@)));
        if e >= s.len() {
            assert(combine(acc, no_fields()) == acc);
            return acc;
        }
        p = e + 1;
    }
    assert(scan_fields(s@, p as int) == no_fields());
    acc
}

/// How the body of a response is read.
#[derive(Debug, Clone, Copy, PartialEq, Eq, Structural)]
pub enum BodyPlan {
    /// Exactly this many bytes (the Content-Length).
    Fixed(usize),
    /// Chunked transfer encoding.
    Chunked,
    /// Everything up to the close of the connection.
    UntilClose,
}

/// The status and body framing that the fields call for.
pub open spec fn body_plan_of(f: HeadFields) -> Result<(u16, BodyPlan), WireError> {
    match f.status {
        None => Err(WireError::InvalidStatusLine),
        Some(code) => {
            let len = match f.content_length {
                Some(n) => n,
                None => 0,
            };
            if len > MAX_BODY_SIZE {
                Err(WireError::ContentTooLarge(len))
            } else if len > 0 {
                Ok((code, BodyPlan::Fixed(len)))
            } else if f.chunked {
                Ok((code, BodyPlan::Chunked))
            } else {
                Ok((code, BodyPlan::UntilClose))
            }
        },
    }
}

/// Decides, from the head's fields, the status and how the body is read.
pub fn body_plan(f: &HeadFields) -> (r: Result<(u16, BodyPlan), WireError>)
    ensures
        r == body_plan_of(*f),
{
    match f.status {
        None => Err(WireError::InvalidStatusLine),
        Some(code) => {
            let len = match f.content_length {
                Some(n) => n,
                None => 0,
            };
            if len > MAX_BODY_SIZE {
                Err(WireError::ContentTooLarge(len))
            } else if len > 0 {
                Ok((code, BodyPlan::Fixed(len)))
            } else if f.chunked {
                Ok((code, BodyPlan::Chunked))
            } else {
                Ok((code, BodyPlan::UntilClose))
            }
        },
    }
}

/// The size that a chunk size line gives: hexadecimal, after trimming.
pub open spec fn chunk_size_of(line: Seq<char>) -> Option<usize> {
    match parse_unsigned(trim(line), 16, usize::MAX as nat) {
        Some(v) => Some(v as usize),
        None => None,
    }
}

/// Reads a chunk size line.
pub fn parse_chunk_size(line: &str) -> (r: Result<usize, WireError>)
    ensures
        match chunk_size_of(line@) {
            Some(n) => r == Ok::<usize, WireError>(n),
            None => r == Err::<usize, WireError>(WireError::InvalidChunkSize),
        },
{
    let c = chars_of(line);
    let t = trim_exec(&c);
    match parse_unsigned_exec(&t, 16, usize::MAX as u64) {
        Some(v) => Ok(v as usize),
        None => Err(WireError::InvalidChunkSize),
    }
}

/// What a chunk size means for the chunked body read so far.
#[derive(Debug, Clone, Copy, PartialEq, Eq, Structural)]
pub enum ChunkStep {
    /// The last chunk: the body is complete.
    Last,
    /// A chunk of data follows.
    Data,
}

/// Accepts the size of the next chunk when `total_read` bytes were read.
pub fn chunk_step(total_read: usize, chunk_size: usize) -> (r: Result<ChunkStep, WireError>)
    requires
        total_read + chunk_size <= usize::MAX,
    ensures
        chunk_size == 0 ==> r == Ok::<ChunkStep, WireError>(ChunkStep::Last),
        chunk_size > 0 && total_read + chunk_size > MAX_BODY_SIZE ==> r == Err::<
            ChunkStep,
            WireError,
        >(WireError::ChunkedTooLarge((total_read + chunk_size) as usize)),
        chunk_size > 0 && total_read + chunk_size <= MAX_BODY_SIZE ==> r == Ok::<
            ChunkStep,
            WireError,
        >(ChunkStep::Data),
{
    if chunk_size == 0 {
        Ok(ChunkStep::Last)
    } else if total_read + chunk_size > MAX_BODY_SIZE {
        Err(WireError::ChunkedTooLarge(total_read + chunk_size))
    } else {
        Ok(ChunkStep::Data)
    }
}

/// Accepts `n` more bytes of a body read up to the close, after `total` bytes.
pub fn until_close_step(total: usize, n: usize) -> (r: Result<usize, WireError>)
    requires
        total + n <= usize::MAX,
    ensures
        total + n > MAX_BODY_SIZE ==> r == Err::<usize, WireError>(
            WireError::BodyTooLarge((total + n) as usize),
        ),
        total + n <= MAX_BODY_SIZE ==> r == Ok::<usize, WireError>((total + n) as usize),
{
    if total + n > MAX_BODY_SIZE {
        Err(WireError::BodyTooLarge(total + n))
    } else {
        Ok(total + n)
    }
}

/// The size of the next read of a body part of which `remaining` bytes are
/// left.
pub fn next_read_size(remaining: usize) -> (n: usize)
    ensures
        n == if remaining < READ_CHUNK {
            remaining
        } else {
            READ_CHUNK
        },
{
    if remaining < READ_CHUNK {
        remaining
    } else {
        READ_CHUNK
    }
}

/// The request path: the URL's path, or `/` when it is empty.
pub open spec fn request_path(path: Seq<char>) -> Seq<char> {
    if path.len() == 0 {
        "/"@
    } else {
        path
    }
}

/// The GET request that the probe sends.
pub open spec fn get_request_text(path: Seq<char>, host: Seq<char>) -> Seq<char> {
    "GET "@ + request_path(path) + " HTTP/1.1\r\nHost: "@ + host
        + "\r\nUser-Agent: curl/8.7.1\r\nConnection: close\r\nAccept: */*\r\n\r\n"@
}

/// Builds the GET request for a URL's path and host; a URL without a host is
/// refused.
pub fn get_request(path: &str, host: Option<&str>) -> (r: Result<String, WireError>)
    ensures
        match host {
            Some(h) => r matches Ok(t) && t@ == get_request_text(path@, h@),
            None => r == Err::<String, WireError>(WireError::InvalidHost),
        },
{
    match host {
        None => Err(WireError::InvalidHost),
        Some(h) => {
            let mut t = String::new();
            t.append("GET ");
            if path.is_empty() {
                t.append("/");
            } else {
                t.append(path);
            }
            t.append(" HTTP/1.1\r\nHost: ");
            t.append(h);
            t.append("\r\nUser-Agent: curl/8.7.1\r\nConnection: close\r\nAccept: */*\r\n\r\n");
            Ok(t)
        },
    }
}

/// The timings of one HTTP exchange. DNS is not timed here: the system's
/// resolver answers it, usually from its cache.
#[derive(Debug)]
pub struct ResponseTimings {
    /// TCP connection time
    pub tcp: std::time::Duration,
    /// TLS handshake time, for HTTPS
    pub tls: Option<std::time::Duration>,
    /// Time to first byte
    pub ttfb: std::time::Duration,
    /// Time to read the rest of the response
    pub content_download: std::time::Duration,
}

impl ResponseTimings {
    /// Gathers the four timings.
    pub fn new(
        tcp: std::time::Duration,
        tls: Option<std::time::Duration>,
        ttfb: std::time::Duration,
        content_download: std::time::Duration,
    ) -> (r: ResponseTimings)
        ensures
            r.tcp == tcp,
            r.tls == tls,
            r.ttfb == ttfb,
            r.content_download == content_download,
    {
        ResponseTimings { tcp, tls, ttfb, content_download }
    }
}

/// The reserve keeps the head within its limit: a line of at most
/// `HEADER_LINE_RESERVE` bytes, read while there is room, never makes the
/// head too large.
pub proof fn lemma_reserved_line_fits(buf: Seq<char>, line: Seq<char>)
    requires
        encode_utf8(buf).len() + HEADER_LINE_RESERVE <= MAX_HEADER_SIZE,
        encode_utf8(line).len() <= HEADER_LINE_RESERVE,
    ensures
        line_outcome(buf + line, byte_len(line)) != LineOutcome::TooLarge,
{
    crate::text::lemma_encode_utf8_concat(buf, line);
}

} // verus!
