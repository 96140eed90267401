use vstd::prelude::*;
use vstd::string::StringExecFns;

verus! {

/// Seconds allowed for connecting, as every session is opened with.
pub const DEFAULT_CONNECT_TIMEOUT: u32 = 30;

/// Seconds allowed for reading, as every session is opened with.
pub const DEFAULT_READ_TIMEOUT: u32 = 10;

/// The lowercase hexadecimal digit for `d < 16`.
pub open spec fn hex_digit(d: nat) -> char {
    if d < 10 { digit_char(d) }
    else if d == 10 { 'a' }
    else if d == 11 { 'b' }
    else if d == 12 { 'c' }
    else if d == 13 { 'd' }
    else if d == 14 { 'e' }
    else { 'f' }
}

/// How one character is written inside a JSON string: quote and backslash
/// behind a backslash, the usual short escapes, other control characters as
/// `\u00xx`, and everything else as itself.
pub open spec fn escape_char(c: char) -> Seq<char> {
    if c == '"' {
        seq!['\\', '"']
    } else if c == '\\' {
        seq!['\\', '\\']
    } else if c == '\u{8}' {
        seq!['\\', 'b']
    } else if c == '\t' {
        seq!['\\', 't']
    } else if c == '\n' {
        seq!['\\', 'n']
    } else if c == '\u{c}' {
        seq!['\\', 'f']
    } else if c == '\r' {
        seq!['\\', 'r']
    } else if (c as u32) < 0x20 {
        seq!['\\', 'u', '0', '0', hex_digit((c as u32 / 16) as nat), hex_digit((c as u32 % 16) as nat)]
    } else {
        seq![c]
    }
}

/// The characters of `s`, each escaped.
pub open spec fn escaped(s: Seq<char>) -> Seq<char>
    decreases s.len(),
{
    if s.len() == 0 {
        Seq::empty()
    } else {
        escaped(s.drop_last()) + escape_char(s.last())
    }
}

/// The JSON string literal for `s`: its escaped characters between quotes.
pub open spec fn json_quote(s: Seq<char>) -> Seq<char> {
    seq!['"'] + escaped(s) + seq!['"']
}

/// The decimal digit for `d < 10`.
pub open spec fn digit_char(d: nat) -> char {
    if d == 0 { '0' }
    else if d == 1 { '1' }
    else if d == 2 { '2' }
    else if d == 3 { '3' }
    else if d == 4 { '4' }
    else if d == 5 { '5' }
    else if d == 6 { '6' }
    else if d == 7 { '7' }
    else if d == 8 { '8' }
    else { '9' }
}

/// The decimal representation of `n`, without sign or leading zeros.
pub open spec fn decimal(n: nat) -> Seq<char>
    decreases n,
{
    if n < 10 {
        seq![digit_char(n)]
    } else {
        decimal(n / 10) + seq![digit_char(n % 10)]
    }
}

/// How an optional body is written: a JSON string, or `null` when absent.
pub open spec fn body_text(body: Option<Seq<char>>) -> Seq<char> {
    match body {
        Some(b) => json_quote(b),
        None => "null"@,
    }
}

/// The canonical request description handed to the host: a JSON object with
/// its keys in sorted order and the headers as a fixed placeholder.
pub open spec fn descriptor_text(
    method: Seq<char>,
    connect_timeout: u32,
    read_timeout: u32,
    body: Option<Seq<char>>,
) -> Seq<char> {
    "{\"body\":"@ + body_text(body) + ",\"connectTimeout\":"@ + decimal(connect_timeout as nat)
        + ",\"headers\":\"{}\",\"method\":"@ + json_quote(method) + ",\"readTimeout\":"@
        + decimal(read_timeout as nat) + "}"@
}

/// The text of the caller-side fetch options: an object holding the method.
pub open spec fn fetch_text(method: Seq<char>) -> Seq<char> {
    "{\"method\":"@ + json_quote(method) + "}"@
}

/// Relies on serde_json::to_string on a `str`: the JSON string literal for `s`
/// (its escape table and lowercase `\u00xx` form).
/// Serializing a string into memory cannot fail.
#[verifier::external_body]
fn quote_json(s: &str) -> (r: String)
    ensures
        r@ == json_quote(s@),
{
    serde_json::to_string(s).unwrap_or_default()
}

/// Relies on serde_json::to_string on a `u32`: its decimal digits.
#[verifier::external_body]
fn number_json(n: u32) -> (r: String)
    ensures
        r@ == decimal(n as nat),
{
    serde_json::to_string(&n).unwrap_or_default()
}

/// What the caller asks for: the request method.
#[derive(Debug)]
pub struct FetchOptions {
    method: String,
}

impl FetchOptions {
    pub fn new(method: &str) -> (r: FetchOptions)
        ensures
            r.spec_method() == method@,
    {
        FetchOptions { method: method.to_owned() }
    }

    /// The request method, as text.
    pub closed spec fn spec_method(&self) -> Seq<char> {
        self.method@
    }

    /// The request method.
    pub fn method(&self) -> (r: &str)
        ensures
            r@ == self.spec_method(),
    {
        self.method.as_str()
    }

    /// The options as JSON text, `{"method":...}`.
    pub fn to_string(&self) -> (r: String)
        ensures
            r@ == fetch_text(self.spec_method()),
    {
        let mut out = "{\"method\":".to_owned();
        let q = quote_json(self.method.as_str());
        out.append(q.as_str());
        out.append("}");
        out
    }
}

/// The full description of a request, as the host reads it.
#[derive(Debug)]
pub struct HttpOptions {
    pub method: String,
    pub connect_timeout: u32,
    pub read_timeout: u32,
    pub body: Option<String>,
}

/// The body of a description, as text.
pub open spec fn body_view(body: Option<String>) -> Option<Seq<char>> {
    match body {
        Some(b) => Some(b@),
        None => None,
    }
}

impl HttpOptions {
    /// A description with the given method and timeouts and no body.
    pub fn new(method: &str, connect_timeout: u32, read_timeout: u32) -> (r: HttpOptions)
        ensures
            r.method@ == method@,
            r.connect_timeout == connect_timeout,
            r.read_timeout == read_timeout,
            r.body is None,
    {
        HttpOptions { method: method.to_owned(), connect_timeout, read_timeout, body: None }
    }

    /// The canonical text of this description.
    pub fn to_json(&self) -> (r: String)
        ensures
            r@ == descriptor_text(
                self.method@,
                self.connect_timeout,
                self.read_timeout,
                body_view(self.body),
            ),
    {
        let mut out = "{\"body\":".to_owned();
        match &self.body {
            Some(b) => {
                let q = quote_json(b.as_str());
                out.append(q.as_str());
            },
            None => {
                out.append("null");
            },
        }
        out.append(",\"connectTimeout\":");
        let c = number_json(self.connect_timeout);
        out.append(c.as_str());
        out.append(",\"headers\":\"{}\",\"method\":");
        let m = quote_json(self.method.as_str());
        out.append(m.as_str());
        out.append(",\"readTimeout\":");
        let t = number_json(self.read_timeout);
        out.append(t.as_str());
        out.append("}");
        proof {
            assert(out@ =~= descriptor_text(
                self.method@,
                self.connect_timeout,
                self.read_timeout,
                body_view(self.body),
            ));
        }
        out
    }
}

} // verus!
