use vstd::prelude::*;
use crate::options::{body_text, body_view, decimal, descriptor_text, digit_char, json_quote, HttpOptions};

verus! {

/// A decimal digit character.
pub open spec fn is_digit(c: char) -> bool {
    '0' <= c && c <= '9'
}

/// The parts of a request description: method, connect timeout, read
/// timeout and body.
pub type DescriptorParts = (Seq<char>, u32, u32, Option<Seq<char>>);

/// The canonical text of a description given by its parts.
pub open spec fn parts_text(w: DescriptorParts) -> Seq<char> {
    descriptor_text(w.0, w.1, w.2, w.3)
}

/// Whether `t` is the canonical text of some request description.
pub open spec fn is_descriptor_text(t: Seq<char>) -> bool {
    exists|w: DescriptorParts| #[trigger] parts_text(w) == t
}

/// The canonical text of a description value.
pub open spec fn options_text(d: HttpOptions) -> Seq<char> {
    descriptor_text(d.method@, d.connect_timeout, d.read_timeout, body_view(d.body))
}

/// Whether `t` is what serde_json writes for some string.
pub open spec fn is_quoted_text(t: Seq<char>) -> bool {
    exists|m: Seq<char>| #[trigger] json_quote(m) == t
}

/// Whether `t` is the decimal text of some `u32`.
pub open spec fn is_decimal_text(t: Seq<char>) -> bool {
    exists|n: u32| #[trigger] decimal(n as nat) == t
}

proof fn lemma_decimal_digits(n: nat)
    ensures
        decimal(n).len() >= 1,
        forall|i: int| 0 <= i < decimal(n).len() ==> is_digit(#[trigger] decimal(n)[i]),
    decreases n,
{
    if n >= 10 {
        lemma_decimal_digits(n / 10);
        assert(is_digit(digit_char(n % 10)));
    }
}

/// Relies on str::chars, collected: the characters of `s` in order.
#[verifier::external_body]
fn chars_of(s: &str) -> (r: Vec<char>)
    ensures
        r@ == s@,
{
    s.chars().collect()
}

/// Relies on serde_json::from_str into a `String`: it reads back the string
/// that serde_json::to_string wrote.
#[verifier::external_body]
fn parse_json_string(t: &[char]) -> (r: Option<String>)
    ensures
        r is None ==> !is_quoted_text(t@),
        r matches Some(s) ==> (is_quoted_text(t@) ==> json_quote(s@) == t@),
{
    let s: String = t.iter().collect();
    serde_json::from_str::<String>(&s).ok()
}

/// Relies on serde_json::from_str into a `u32`: it reads back a number's
/// decimal digits.
#[verifier::external_body]
fn parse_json_u32(t: &[char]) -> (r: Option<u32>)
    ensures
        r is None ==> !is_decimal_text(t@),
        r matches Some(v) ==> (is_decimal_text(t@) ==> decimal(v as nat) == t@),
{
    let s: String = t.iter().collect();
    serde_json::from_str::<u32>(&s).ok()
}

/// Whether `lit` stands in `c` from `pos` on.
fn lit_at(c: &[char], pos: usize, lit: &[char]) -> (r: bool)
    ensures
        r == (pos + lit@.len() <= c@.len() && c@.subrange(pos as int, pos + lit@.len()) == lit@),
{
    if pos > c.len() || lit.len() > c.len() - pos {
        return false;
    }
    let mut i: usize = 0;
    while i < lit.len()
        invariant
            pos + lit@.len() <= c@.len(),
            c@.len() <= usize::MAX,
            i <= lit@.len(),
            forall|k: int| 0 <= k < i ==> c@[pos + k] == lit@[k],
        decreases lit.len() - i,
    {
        if c[pos + i] != lit[i] {
            assert(c@.subrange(pos as int, pos + lit@.len())[i as int] != lit@[i as int]);
            return false;
        }
        i = i + 1;
    }
    assert(c@.subrange(pos as int, pos + lit@.len()) =~= lit@);
    true
}

fn char_is_digit(ch: char) -> (r: bool)
    ensures
        r == is_digit(ch),
{
    '0' <= ch && ch <= '9'
}

/// The end of the run of digits that starts at `pos`.
fn digits_end(c: &[char], pos: usize) -> (r: usize)
    requires
        pos <= c@.len(),
    ensures
        pos <= r <= c@.len(),
        forall|i: int| pos <= i < r ==> is_digit(#[trigger] c@[i]),
        r == c@.len() || !is_digit(c@[r as int]),
{
    let mut i = pos;
    while i < c.len() && char_is_digit(c[i])
        invariant
            pos <= i <= c@.len(),
            forall|k: int| pos <= k < i ==> is_digit(#[trigger] c@[k]),
        decreases c.len() - i,
    {
        i = i + 1;
    }
    i
}

/// The start of the run of digits that ends at `end`.
fn digits_start(c: &[char], end: usize) -> (r: usize)
    requires
        end <= c@.len(),
    ensures
        r <= end,
        forall|i: int| r <= i < end ==> is_digit(#[trigger] c@[i]),
        r == 0 || !is_digit(c@[r - 1]),
{
    let mut i = end;
    while i > 0 && char_is_digit(c[i - 1])
        invariant
            i <= end <= c@.len(),
            forall|k: int| i <= k < end ==> is_digit(#[trigger] c@[k]),
        decreases i,
    {
        i = i - 1;
    }
    i
}

/// Reads a description whose body text ends at `k` and whose read timeout
/// digits start at `j`.
fn candidate(c: &[char], k: usize, j: usize, Ghost(w): Ghost<DescriptorParts>) -> (r: Option<
    HttpOptions,
>)
    requires
        j < c@.len(),
    ensures
        (c@ == parts_text(w) && k == "{\"body\":"@.len() + body_text(w.3).len() && j == c@.len() - 1
            - decimal(w.2 as nat).len()) ==> (r matches Some(d) && options_text(d) == c@),
{
    let ghost hyp = c@ == parts_text(w) && k == "{\"body\":"@.len() + body_text(w.3).len() && j
        == c@.len() - 1 - decimal(w.2 as nat).len();
    let ghost bt = body_text(w.3);
    let ghost dc = decimal(w.1 as nat);
    let ghost qm = json_quote(w.0);
    let ghost dr = decimal(w.2 as nat);
    let ghost l1 = "{\"body\":"@;
    let ghost l2 = ",\"connectTimeout\":"@;
    let ghost l3 = ",\"headers\":\"{}\",\"method\":"@;
    let ghost l4 = ",\"readTimeout\":"@;
    let ghost l5 = "}"@;
    let n = c.len();
    let open = chars_of("{\"body\":");
    let null = chars_of("null");
    let ct_lit = chars_of(",\"connectTimeout\":");
    let hm_lit = chars_of(",\"headers\":\"{}\",\"method\":");
    let rt_lit = chars_of(",\"readTimeout\":");
    proof {
        if hyp {
            reveal_strlit(",\"headers\":\"{}\",\"method\":");
            reveal_strlit("}");
            lemma_decimal_digits(w.1 as nat);
            lemma_decimal_digits(w.2 as nat);
            let body_start = l1.len() as int;
            let body_end = body_start + bt.len();
            let ct_start = body_end + l2.len();
            let ct_end = ct_start + dc.len();
            let method_start = ct_end + l3.len();
            let method_end = method_start + qm.len();
            let rt_start = method_end + l4.len();
            let rt_end = rt_start + dr.len();
            assert(c@ == l1 + bt + l2 + dc + l3 + qm + l4 + dr + l5);
            assert(c@.len() == rt_end + 1);
            assert(c@.subrange(body_start, body_end) =~= bt);
            assert(c@.subrange(body_end, ct_start) =~= l2);
            assert(c@.subrange(ct_start, ct_end) =~= dc);
            assert(c@.subrange(ct_end, method_start) =~= l3);
            assert(c@.subrange(method_start, method_end) =~= qm);
            assert(c@.subrange(method_end, rt_start) =~= l4);
            assert(c@.subrange(rt_start, rt_end) =~= dr);
            assert(c@[ct_end] == l3[0]);
            assert(forall|i: int| ct_start <= i < ct_end ==> c@[i] == dc[i - ct_start]);
        }
    }
    if k < open.len() || k > n {
        return None;
    }
    let body: Option<String> = if k - open.len() == null.len() && lit_at(c, open.len(), null.as_slice()) {
        None
    } else {
        proof {
            if hyp {
                if w.3 is None {
                    assert(false);
                }
                assert(json_quote(w.3->Some_0) == c@.subrange(open@.len() as int, k as int));
            }
        }
        match parse_json_string(&c[open.len()..k]) {
            Some(b) => Some(b),
            None => {
                return None;
            },
        }
    };
    assert(hyp ==> body_text(body_view(body)) == bt);
    if !lit_at(c, k, ct_lit.as_slice()) {
        return None;
    }
    let p = k + ct_lit.len();
    let q = digits_end(c, p);
    proof {
        if hyp {
            assert(q == p + dc.len());
            assert(decimal(w.1 as nat) == c@.subrange(p as int, q as int));
        }
    }
    let ct = match parse_json_u32(&c[p..q]) {
        Some(v) => v,
        None => {
            return None;
        },
    };
    if !lit_at(c, q, hm_lit.as_slice()) {
        return None;
    }
    let ms = q + hm_lit.len();
    if j < rt_lit.len() {
        return None;
    }
    let me = j - rt_lit.len();
    if ms > me || !lit_at(c, me, rt_lit.as_slice()) {
        return None;
    }
    proof {
        if hyp {
            assert(json_quote(w.0) == c@.subrange(ms as int, me as int));
        }
    }
    let method = match parse_json_string(&c[ms..me]) {
        Some(m) => m,
        None => {
            return None;
        },
    };
    proof {
        if hyp {
            assert(decimal(w.2 as nat) == c@.subrange(j as int, n - 1));
        }
    }
    let rt = match parse_json_u32(&c[j..n - 1]) {
        Some(v) => v,
        None => {
            return None;
        },
    };
    let d = HttpOptions { method, connect_timeout: ct, read_timeout: rt, body };
    proof {
        if hyp {
            assert(options_text(d) == parts_text(w));
        }
    }
    Some(d)
}

proof fn lemma_text_tail(w: DescriptorParts)
    ensures
        ({
            let t = parts_text(w);
            let dr = decimal(w.2 as nat);
            &&& t.len() >= dr.len() + 2
            &&& t[t.len() - 1] == '}'
            &&& !is_digit(t[t.len() - 2 - dr.len()])
            &&& forall|i: int| t.len() - 1 - dr.len() <= i < t.len() - 1 ==> is_digit(#[trigger] t[i])
            &&& "{\"body\":"@.len() + body_text(w.3).len() < t.len()
        }),
{
    reveal_strlit("}");
    reveal_strlit(",\"readTimeout\":");
    lemma_decimal_digits(w.2 as nat);
    let t = parts_text(w);
    let dr = decimal(w.2 as nat);
    let head = "{\"body\":"@ + body_text(w.3) + ",\"connectTimeout\":"@ + decimal(w.1 as nat)
        + ",\"headers\":\"{}\",\"method\":"@ + json_quote(w.0);
    let l4 = ",\"readTimeout\":"@;
    assert(t == head + l4 + dr + "}"@);
    let rt_start = head.len() + l4.len();
    assert(t[rt_start - 1] == l4[l4.len() - 1]);
    assert forall|i: int| t.len() - 1 - dr.len() <= i < t.len() - 1 implies is_digit(#[trigger] t[i]) by {
        assert(t[i] == dr[i - rt_start]);
    }
}

/// Reads back a request description from its canonical text: it succeeds
/// exactly on the texts that some description encodes to, and what it gives
/// encodes to the text read.
pub fn decode(text: &str) -> (r: Option<HttpOptions>)
    ensures
        r is Some <==> is_descriptor_text(text@),
        r matches Some(d) ==> options_text(d) == text@,
{
    let c = chars_of(text);
    let n = c.len();
    let ghost w = choose|w: DescriptorParts| parts_text(w) == c@;
    let ghost encoded = is_descriptor_text(c@);
    proof {
        if encoded {
            lemma_text_tail(w);
        }
    }
    if n < 2 || c[n - 1] != '}' {
        return None;
    }
    let open = chars_of("{\"body\":");
    let j = digits_start(c.as_slice(), n - 1);
    proof {
        if encoded {
            let dr = decimal(w.2 as nat);
            if j < n - 1 - dr.len() {
                assert(is_digit(c@[n - 2 - dr.len()]));
            }
            if j > n - 1 - dr.len() {
                assert(is_digit(c@[j - 1]));
            }
        }
    }
    let mut k: usize = open.len();
    while k < n
        invariant
            c@ == text@,
            n == c@.len(),
            j < n,
            open@ == "{\"body\":"@,
            encoded == is_descriptor_text(c@),
            encoded ==> (parts_text(w) == c@ && k <= open@.len() + body_text(w.3).len() && open@.len()
                + body_text(w.3).len() < n && j == n - 1 - decimal(w.2 as nat).len()),
        decreases n - k,
    {
        match candidate(c.as_slice(), k, j, Ghost(w)) {
            Some(d) => {
                let t = d.to_json();
                let tc = chars_of(t.as_str());
                assert(c@.subrange(0, n as int) =~= c@);
                if tc.len() == n && lit_at(c.as_slice(), 0, tc.as_slice()) {
                    proof {
                        assert(tc@ =~= c@.subrange(0, n as int));
                        assert(options_text(d) == text@);
                        let w2: DescriptorParts = (
                            d.method@,
                            d.connect_timeout,
                            d.read_timeout,
                            body_view(d.body),
                        );
                        assert(parts_text(w2) == text@);
                    }
                    return Some(d);
                }
            },
            None => {},
        }
        k = k + 1;
    }
    None
}

/// Encoding is stable under a round trip: the text of every description is
/// one that `decode` accepts, and (by `decode`'s contract) what it gives back
/// encodes to that same text again.
pub proof fn lemma_encode_decode_stable(d: HttpOptions)
    ensures
        is_descriptor_text(options_text(d)),
{
    let w: DescriptorParts = (d.method@, d.connect_timeout, d.read_timeout, body_view(d.body));
    assert(parts_text(w) == options_text(d));
}

} // verus!
