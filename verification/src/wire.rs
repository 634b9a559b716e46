//! The wire form of a response, and a minimal parser for it.
//!
//! A response is a status line, a `Content-Length` header, a `Content-Type`
//! header, a blank line, and the body, all delimited with CRLF.  The
//! serializer pins the output down to the byte; the parser inverts it, and
//! the round-trip law at the end of the module proves that parsing a
//! serialized response gives back the status, length and content type it was
//! built from.

use vstd::prelude::*;

verus! {

use vstd::string::StrSliceExecFns;
use vstd::string::StringSliceAdditionalSpecFns;
use vstd::utf8::is_ascii_chars;
use vstd::utf8::is_ascii_chars_encode_utf8;

/// The bytes of an ASCII character sequence, one byte per character.
pub open spec fn ascii_of(s: Seq<char>) -> Seq<u8> {
    Seq::new(s.len(), |i: int| s[i] as u8)
}

/// Whether `s` is free of carriage returns and line feeds, so that it can
/// stand on one line of a response head.
pub open spec fn line_safe(s: Seq<char>) -> bool {
    forall|i: int| 0 <= i < s.len() ==> s[i] != '\r' && s[i] != '\n'
}

/// The decimal digits of `n`, most significant first, without leading zeros.
pub open spec fn dec_digits(n: nat) -> Seq<u8>
    decreases n,
{
    if n < 10 {
        seq![(48 + n) as u8]
    } else {
        dec_digits(n / 10).push((48 + n % 10) as u8)
    }
}

/// The number the decimal digit string `s` denotes.
pub open spec fn dec_value(s: Seq<u8>) -> nat
    decreases s.len(),
{
    if s.len() == 0 {
        0
    } else {
        dec_value(s.drop_last()) * 10 + (if s.last() >= 48 { (s.last() - 48) as nat } else { 0 })
    }
}

/// Every digit `dec_digits` produces lies between `0` and `9`, and at least
/// one digit is produced.
pub proof fn lemma_dec_digits_bounds(n: nat)
    ensures
        dec_digits(n).len() >= 1,
        forall|i: int| 0 <= i < dec_digits(n).len() ==> 48 <= #[trigger] dec_digits(n)[i] <= 57,
    decreases n,
{
    if n >= 10 {
        lemma_dec_digits_bounds(n / 10);
        assert forall|i: int| 0 <= i < dec_digits(n).len() implies 48 <= #[trigger] dec_digits(
            n,
        )[i] <= 57 by {
            if i < dec_digits(n / 10).len() {
                assert(dec_digits(n)[i] == dec_digits(n / 10)[i]);
            }
        }
    }
}

/// Reading back the digits of `n` yields `n`: formatting and numeric value
/// are inverses.
pub proof fn lemma_dec_digits_value(n: nat)
    ensures
        dec_value(dec_digits(n)) == n,
    decreases n,
{
    if n < 10 {
        assert(dec_digits(n).drop_last() =~= Seq::<u8>::empty());
        assert(dec_value(Seq::<u8>::empty()) == 0);
        assert(dec_digits(n).last() == (48 + n) as u8);
    } else {
        lemma_dec_digits_value(n / 10);
        assert(dec_digits(n).drop_last() =~= dec_digits(n / 10));
        vstd::arithmetic::div_mod::lemma_fundamental_div_mod(n as int, 10);
    }
}

/// Appends the decimal digits of `n` to `out`.
pub fn push_dec(n: usize, out: &mut Vec<u8>)
    ensures
        final(out)@ == old(out)@ + dec_digits(n as nat),
    decreases n,
{
    if n < 10 {
        out.push(48 + n as u8);
        assert(out@ =~= old(out)@ + dec_digits(n as nat));
    } else {
        push_dec(n / 10, out);
        out.push(48 + (n % 10) as u8);
        assert(out@ =~= old(out)@ + dec_digits(n as nat));
    }
}

/// The head of a response: status line, `Content-Length` and `Content-Type`
/// headers, and the blank line, as bytes.
pub open spec fn head_bytes(status: Seq<char>, mime: Seq<char>, len: nat) -> Seq<u8> {
    ascii_of(status) + ascii_of("\r\nContent-Length: "@) + dec_digits(len) + ascii_of(
        "\r\nContent-Type: "@,
    ) + ascii_of(mime) + ascii_of("\r\n\r\n"@)
}

/// The full wire form of a response: its head followed by its body.
pub open spec fn response_wire_bytes(status: Seq<char>, mime: Seq<char>, body: Seq<u8>) -> Seq<
    u8,
> {
    head_bytes(status, mime, body.len()) + body
}

/// An ASCII string's UTF-8 bytes are its characters, one byte each.
proof fn lemma_ascii_bytes(s: &str)
    requires
        is_ascii_chars(s@),
    ensures
        s.spec_bytes() == ascii_of(s@),
{
    is_ascii_chars_encode_utf8(s@);
    assert(s.spec_bytes() =~= ascii_of(s@));
}

/// Serializes a status line, a content type and a body into the wire bytes
/// of the response, with the `Content-Length` header holding exactly the
/// byte length of the body.
pub fn serialize_response(status: &String, content_type: &String, body: Vec<u8>) -> (r: Vec<u8>)
    requires
        is_ascii_chars(status@),
        is_ascii_chars(content_type@),
    ensures
        r@ == response_wire_bytes(status@, content_type@, body@),
{
    let ghost body0 = body@;
    let st = status.as_str();
    let mut out = st.as_bytes_vec();
    proof {
        lemma_ascii_bytes(st);
    }
    let mut lbl1 = "\r\nContent-Length: ".as_bytes_vec();
    proof {
        reveal_strlit("\r\nContent-Length: ");
        lemma_ascii_bytes("\r\nContent-Length: ");
    }
    out.append(&mut lbl1);
    push_dec(body.len(), &mut out);
    let mut lbl2 = "\r\nContent-Type: ".as_bytes_vec();
    proof {
        reveal_strlit("\r\nContent-Type: ");
        lemma_ascii_bytes("\r\nContent-Type: ");
    }
    out.append(&mut lbl2);
    let cts = content_type.as_str();
    let mut ct = cts.as_bytes_vec();
    proof {
        lemma_ascii_bytes(cts);
    }
    out.append(&mut ct);
    let mut lbl3 = "\r\n\r\n".as_bytes_vec();
    proof {
        reveal_strlit("\r\n\r\n");
        lemma_ascii_bytes("\r\n\r\n");
    }
    out.append(&mut lbl3);
    let mut b = body;
    out.append(&mut b);
    proof {
        assert(out@ =~= response_wire_bytes(status@, content_type@, body0));
    }
    out
}

/// Whether a CRLF pair stands at index `i` of `b`.
pub open spec fn crlf_at(b: Seq<u8>, i: int) -> bool {
    0 <= i && i + 1 < b.len() && b[i] == 13 && b[i + 1] == 10
}

/// Index of the first CRLF pair at or after `i`, or `-1` if none follows.
pub open spec fn find_crlf(b: Seq<u8>, i: int) -> int
    decreases b.len() - i,
{
    if i + 1 >= b.len() {
        -1
    } else if b[i] == 13 && b[i + 1] == 10 {
        i
    } else {
        find_crlf(b, i + 1)
    }
}

/// `find_crlf` lands on `k` when a CRLF pair stands there and none stands
/// earlier.
pub proof fn lemma_find_crlf_at(b: Seq<u8>, j: int, k: int)
    requires
        0 <= j <= k,
        crlf_at(b, k),
        forall|i: int| j <= i < k ==> !crlf_at(b, i),
    ensures
        find_crlf(b, j) == k,
    decreases k - j,
{
    if j < k {
        assert(!crlf_at(b, j));
        lemma_find_crlf_at(b, j + 1, k);
    }
}

/// `find_crlf` reports none when no CRLF pair stands at or after `j`.
pub proof fn lemma_find_crlf_none(b: Seq<u8>, j: int)
    requires
        0 <= j,
        forall|i: int| j <= i ==> !crlf_at(b, i),
    ensures
        find_crlf(b, j) == -1,
    decreases b.len() - j,
{
    if j + 1 < b.len() {
        assert(!crlf_at(b, j));
        lemma_find_crlf_none(b, j + 1);
    }
}

/// What the minimal parser reads out of `b`: the status line, the value of
/// the `Content-Length` header, the value of the `Content-Type` header, and
/// the body; or `None` when `b` is not a response this library serializes.
/// The length header must hold the canonical decimal of the body's length.
pub open spec fn spec_parse(b: Seq<u8>) -> Option<(Seq<u8>, nat, Seq<u8>, Seq<u8>)> {
    let e1 = find_crlf(b, 0);
    if e1 < 0 {
        Option::None
    } else {
        let status = b.subrange(0, e1);
        let rest1 = b.subrange(e1 + 2, b.len() as int);
        if rest1.len() >= 16 && rest1.subrange(0, 16) == ascii_of("Content-Length: "@) {
            let e2 = find_crlf(rest1, 16);
            if e2 < 0 {
                Option::None
            } else {
                let digits = rest1.subrange(16, e2);
                let rest2 = rest1.subrange(e2 + 2, rest1.len() as int);
                if rest2.len() >= 14 && rest2.subrange(0, 14) == ascii_of("Content-Type: "@) {
                    let e3 = find_crlf(rest2, 14);
                    if e3 < 0 {
                        Option::None
                    } else {
                        let ctype = rest2.subrange(14, e3);
                        let rest3 = rest2.subrange(e3 + 2, rest2.len() as int);
                        if rest3.len() >= 2 && rest3[0] == 13 && rest3[1] == 10 {
                            let body = rest3.subrange(2, rest3.len() as int);
                            if digits == dec_digits(body.len()) {
                                Option::Some((status, body.len(), ctype, body))
                            } else {
                                Option::None
                            }
                        } else {
                            Option::None
                        }
                    }
                } else {
                    Option::None
                }
            }
        } else {
            Option::None
        }
    }
}

/// Finds the first CRLF pair at or after `start`, as `find_crlf` names it.
pub fn scan_crlf(b: &Vec<u8>, start: usize) -> (r: Option<usize>)
    requires
        start <= b@.len(),
    ensures
        match r {
            Option::Some(k) => start <= k && k + 1 < b@.len() && find_crlf(b@, start as int)
                == k && b@[k as int] == 13 && b@[k as int + 1] == 10,
            Option::None => find_crlf(b@, start as int) == -1,
        },
{
    let n = b.len();
    let mut i = start;
    while n - i > 1
        invariant
            n == b@.len(),
            start <= i <= n,
            forall|m: int| start <= m < i ==> !crlf_at(b@, m),
        decreases n - i,
    {
        if b[i] == 13 && b[i + 1] == 10 {
            proof {
                lemma_find_crlf_at(b@, start as int, i as int);
            }
            return Option::Some(i);
        }
        i += 1;
    }
    proof {
        assert(forall|m: int| start <= m ==> !crlf_at(b@, m));
        lemma_find_crlf_none(b@, start as int);
    }
    Option::None
}

/// Copies the bytes of `b` between `i` and `j` into a fresh vector.
pub fn vec_range(b: &Vec<u8>, i: usize, j: usize) -> (r: Vec<u8>)
    requires
        i <= j <= b@.len(),
    ensures
        r@ == b@.subrange(i as int, j as int),
{
    let mut out: Vec<u8> = Vec::new();
    let mut k = i;
    while k < j
        invariant
            i <= k <= j <= b@.len(),
            out@ == b@.subrange(i as int, k as int),
        decreases j - k,
    {
        out.push(b[k]);
        proof {
            assert(out@ =~= b@.subrange(i as int, k + 1));
        }
        k += 1;
    }
    out
}

fn bytes_equal(a: &Vec<u8>, b: &Vec<u8>) -> (r: bool)
    ensures
        r == (a@ == b@),
{
    if a.len() != b.len() {
        return false;
    }
    let n = a.len();
    let mut k: usize = 0;
    while k < n
        invariant
            n == a@.len() == b@.len(),
            k <= n,
            forall|m: int| 0 <= m < k ==> a@[m] == b@[m],
        decreases n - k,
    {
        if a[k] != b[k] {
            return false;
        }
        k += 1;
    }
    proof {
        assert(a@ =~= b@);
    }
    true
}

/// What the minimal parser read out of a response's wire bytes.
pub struct ParsedHead {
    /// The status line, without its trailing CRLF.
    pub status: Vec<u8>,
    /// The value of the `Content-Length` header.
    pub content_length: usize,
    /// The value of the `Content-Type` header.
    pub content_type: Vec<u8>,
    /// The body: every byte after the blank line.
    pub body: Vec<u8>,
}

/// Parses the wire bytes of a response back into its status line, its two
/// header values and its body; returns `None` on any byte sequence this
/// library's serializer cannot have produced.
pub fn parse_response(bytes: &Vec<u8>) -> (r: Option<ParsedHead>)
    ensures
        match r {
            Option::Some(h) => spec_parse(bytes@) == Option::Some(
                (h.status@, h.content_length as nat, h.content_type@, h.body@),
            ),
            Option::None => spec_parse(bytes@) is None,
        },
{
    let e1 = match scan_crlf(bytes, 0) {
        Option::Some(k) => k,
        Option::None => {
            return Option::None;
        },
    };
    let n = bytes.len();
    assert(e1 + 2 <= n);
    let status = vec_range(bytes, 0, e1);
    let rest1 = vec_range(bytes, e1 + 2, n);
    let lbl_len = "Content-Length: ".as_bytes_vec();
    proof {
        reveal_strlit("Content-Length: ");
        lemma_ascii_bytes("Content-Length: ");
        assert(lbl_len@.len() == 16);
    }
    if rest1.len() < 16 {
        return Option::None;
    }
    let pre1 = vec_range(&rest1, 0, 16);
    if !bytes_equal(&pre1, &lbl_len) {
        return Option::None;
    }
    let e2 = match scan_crlf(&rest1, 16) {
        Option::Some(k) => k,
        Option::None => {
            return Option::None;
        },
    };
    let n1 = rest1.len();
    assert(e2 + 2 <= n1);
    let digits = vec_range(&rest1, 16, e2);
    let rest2 = vec_range(&rest1, e2 + 2, n1);
    let lbl_type = "Content-Type: ".as_bytes_vec();
    proof {
        reveal_strlit("Content-Type: ");
        lemma_ascii_bytes("Content-Type: ");
        assert(lbl_type@.len() == 14);
    }
    if rest2.len() < 14 {
        return Option::None;
    }
    let pre2 = vec_range(&rest2, 0, 14);
    if !bytes_equal(&pre2, &lbl_type) {
        return Option::None;
    }
    let e3 = match scan_crlf(&rest2, 14) {
        Option::Some(k) => k,
        Option::None => {
            return Option::None;
        },
    };
    let n2 = rest2.len();
    assert(e3 + 2 <= n2);
    let ctype = vec_range(&rest2, 14, e3);
    let rest3 = vec_range(&rest2, e3 + 2, n2);
    if rest3.len() < 2 {
        return Option::None;
    }
    if !(rest3[0] == 13 && rest3[1] == 10) {
        return Option::None;
    }
    let body = vec_range(&rest3, 2, rest3.len());
    let mut expected: Vec<u8> = Vec::new();
    push_dec(body.len(), &mut expected);
    if !bytes_equal(&digits, &expected) {
        return Option::None;
    }
    Option::Some(ParsedHead { status, content_length: body.len(), content_type: ctype, body })
}

/// Law: parsing the wire bytes of a serialized response reproduces exactly
/// the status line, the body length as the `Content-Length` value, the
/// content type, and the body the response was built from.  In particular
/// the `Content-Length` value always equals the byte length of the body.
pub proof fn lemma_parse_round_trip(status: Seq<char>, mime: Seq<char>, body: Seq<u8>)
    requires
        is_ascii_chars(status),
        line_safe(status),
        is_ascii_chars(mime),
        line_safe(mime),
    ensures
        spec_parse(response_wire_bytes(status, mime, body)) == Option::Some(
            (ascii_of(status), body.len(), ascii_of(mime), body),
        ),
{
    reveal_strlit("\r\nContent-Length: ");
    reveal_strlit("\r\nContent-Type: ");
    reveal_strlit("\r\n\r\n");
    reveal_strlit("Content-Length: ");
    reveal_strlit("Content-Type: ");
    let b = response_wire_bytes(status, mime, body);
    let st = ascii_of(status);
    let lbl1 = ascii_of("\r\nContent-Length: "@);
    let d = dec_digits(body.len());
    let lbl2 = ascii_of("\r\nContent-Type: "@);
    let mi = ascii_of(mime);
    let lbl3 = ascii_of("\r\n\r\n"@);
    let cl = ascii_of("Content-Length: "@);
    let ct = ascii_of("Content-Type: "@);
    lemma_dec_digits_bounds(body.len());
    let r1 = lbl1 + d + lbl2 + mi + lbl3 + body;
    assert(b =~= st + r1);
    assert(lbl1.len() == 18 && lbl2.len() == 16 && lbl3.len() == 4);
    assert(cl.len() == 16 && ct.len() == 14);

    // The first CRLF closes the status line.
    assert forall|i: int| 0 <= i < st.len() implies !crlf_at(b, i) by {
        assert(b[i] == status[i] as u8);
        assert(status[i] != '\r' && status[i] as nat <= 127);
    }
    assert(b[st.len() as int] == r1[0] && r1[0] == 13);
    assert(b[st.len() as int + 1] == r1[1] && r1[1] == 10);
    assert(crlf_at(b, st.len() as int));
    lemma_find_crlf_at(b, 0, st.len() as int);
    assert(b.subrange(0, st.len() as int) =~= st);

    // The length header follows, closed by the second CRLF.
    let rest1 = b.subrange(st.len() as int + 2, b.len() as int);
    assert(rest1 =~= cl + d + lbl2 + mi + lbl3 + body);
    assert(rest1.subrange(0, 16) =~= cl);
    assert forall|i: int| 16 <= i < 16 + d.len() implies !crlf_at(rest1, i) by {
        assert(rest1[i] == d[i - 16]);
        assert(48 <= d[i - 16] <= 57);
    }
    assert(rest1[16 + d.len() as int] == lbl2[0] && lbl2[0] == 13);
    assert(rest1[16 + d.len() as int + 1] == lbl2[1] && lbl2[1] == 10);
    assert(crlf_at(rest1, 16 + d.len() as int));
    lemma_find_crlf_at(rest1, 16, 16 + d.len() as int);
    assert(rest1.subrange(16, 16 + d.len() as int) =~= d);

    // The type header follows, closed by the third CRLF.
    let rest2 = rest1.subrange(16 + d.len() as int + 2, rest1.len() as int);
    assert(rest2 =~= ct + mi + lbl3 + body);
    assert(rest2.subrange(0, 14) =~= ct);
    assert forall|i: int| 14 <= i < 14 + mi.len() implies !crlf_at(rest2, i) by {
        assert(rest2[i] == mime[i - 14] as u8);
        assert(mime[i - 14] != '\r' && mime[i - 14] as nat <= 127);
    }
    assert(rest2[14 + mi.len() as int] == lbl3[0] && lbl3[0] == 13);
    assert(rest2[14 + mi.len() as int + 1] == lbl3[1] && lbl3[1] == 10);
    assert(crlf_at(rest2, 14 + mi.len() as int));
    lemma_find_crlf_at(rest2, 14, 14 + mi.len() as int);
    assert(rest2.subrange(14, 14 + mi.len() as int) =~= mi);

    // The blank line, then the body.
    let rest3 = rest2.subrange(14 + mi.len() as int + 2, rest2.len() as int);
    assert(rest3 =~= seq![13u8, 10u8] + body);
    assert(rest3.len() >= 2 && rest3[0] == 13 && rest3[1] == 10);
    assert(rest3.subrange(2, rest3.len() as int) =~= body);
}

} // verus!
