use vstd::prelude::*;
use vstd::utf8::is_ascii_chars;

use crate::text::{decimal, decimal_string, hex4, hex4_string};

verus! {

broadcast use vstd::string::is_ascii_spec_bytes;

/// The bytes of an ASCII string, one per character.
pub open spec fn ascii_bytes(s: Seq<char>) -> Seq<u8> {
    Seq::new(s.len(), |i: int| s[i] as u8)
}

/// `t` with every occurrence of `pat` replaced by `rep`, occurrences taken
/// from the left and never overlapping. An empty pattern changes nothing.
pub open spec fn substitute(t: Seq<u8>, pat: Seq<u8>, rep: Seq<u8>) -> Seq<u8>
    decreases t.len(),
{
    if t.len() == 0 || pat.len() == 0 {
        t
    } else if pat.len() <= t.len() && t.take(pat.len() as int) == pat {
        rep + substitute(t.skip(pat.len() as int), pat, rep)
    } else {
        seq![t[0]] + substitute(t.skip(1), pat, rep)
    }
}

/// The placeholder of the capture page for the WebSocket port.
pub open spec fn port_marker() -> Seq<u8> {
    ascii_bytes("__WS_PORT__"@)
}

/// The placeholder of the capture page for the vendor id.
pub open spec fn vid_marker() -> Seq<u8> {
    ascii_bytes("__VID__"@)
}

/// The placeholder of the capture page for the product id.
pub open spec fn pid_marker() -> Seq<u8> {
    ascii_bytes("__PID__"@)
}

/// The capture page: the template with the WebSocket port in decimal and the
/// vendor and product ids as "0x" and four hexadecimal digits.
pub open spec fn rendered_page(template: Seq<u8>, ws_port: u16, vid: u16, pid: u16) -> Seq<u8> {
    let with_port = substitute(template, port_marker(), ascii_bytes(decimal(ws_port as nat)));
    let with_vid = substitute(with_port, vid_marker(), ascii_bytes(hex4(vid)));
    substitute(with_vid, pid_marker(), ascii_bytes(hex4(pid)))
}

/// The head of the one response that the page server gives, up to the length.
pub open spec fn response_head() -> Seq<char> {
    "HTTP/1.1 200 OK\r\nContent-Type: text/html;charset=utf-8\r\nContent-Length: "@
}

/// The end of the response headers, after the length.
pub open spec fn response_tail() -> Seq<char> {
    "\r\nConnection: close\r\n\r\n"@
}

/// The full HTTP response that carries `body`.
pub open spec fn http_response_bytes(body: Seq<u8>) -> Seq<u8> {
    ascii_bytes(response_head() + decimal(body.len()) + response_tail()) + body
}

/// Appends the bytes of `b` to `out`.
fn push_bytes(out: &mut Vec<u8>, b: &[u8])
    ensures
        final(out)@ == old(out)@ + b@,
{
    let mut i: usize = 0;
    while i < b.len()
        invariant
            i <= b@.len(),
            out@ == old(out)@ + b@.take(i as int),
        decreases b.len() - i,
    {
        out.push(b[i]);
        i = i + 1;
        assert(out@ =~= old(out)@ + b@.take(i as int));
    }
    assert(b@.take(i as int) =~= b@);
}

/// Appends the bytes of an ASCII string to `out`.
fn push_ascii(out: &mut Vec<u8>, s: &str)
    requires
        is_ascii_chars(s@),
    ensures
        final(out)@ == old(out)@ + ascii_bytes(s@),
{
    let b = s.as_bytes();
    assert(vstd::string::is_ascii(s));
    assert(b@ =~= ascii_bytes(s@));
    push_bytes(out, b);
}

/// The bytes of an ASCII string.
fn ascii_vec(s: &str) -> (r: Vec<u8>)
    requires
        is_ascii_chars(s@),
    ensures
        r@ == ascii_bytes(s@),
{
    let mut r = Vec::new();
    push_ascii(&mut r, s);
    assert(r@ =~= ascii_bytes(s@));
    r
}

/// Whether `pat` occurs in `t` at position `i`.
fn occurs_at(t: &[u8], i: usize, pat: &[u8]) -> (r: bool)
    requires
        i <= t@.len(),
    ensures
        r == (i + pat@.len() <= t@.len() && t@.subrange(i as int, i + pat@.len()) == pat@),
{
    if pat.len() > t.len() - i {
        return false;
    }
    let end = i + pat.len();
    let mut j: usize = 0;
    while j < pat.len()
        invariant
            end == i + pat@.len(),
            end <= t@.len(),
            j <= pat@.len(),
            forall|k: int| 0 <= k < j ==> t@[i + k] == pat@[k],
        decreases pat.len() - j,
    {
        if t[i + j] != pat[j] {
            assert(t@.subrange(i as int, i + pat@.len())[j as int] != pat@[j as int]);
            return false;
        }
        j = j + 1;
    }
    assert(t@.subrange(i as int, i + pat@.len()) =~= pat@);
    true
}

/// `t` with every occurrence of `pat` replaced by `rep`.
pub fn substitute_bytes(t: &[u8], pat: &[u8], rep: &[u8]) -> (r: Vec<u8>)
    ensures
        r@ == substitute(t@, pat@, rep@),
{
    let mut out: Vec<u8> = Vec::new();
    if pat.len() == 0 {
        push_bytes(&mut out, t);
        assert(out@ =~= t@);
        return out;
    }
    let mut i: usize = 0;
    assert(t@.skip(0) =~= t@);
    while i < t.len()
        invariant
            pat@.len() > 0,
            i <= t@.len(),
            out@ + substitute(t@.skip(i as int), pat@, rep@) == substitute(t@, pat@, rep@),
        decreases t.len() - i,
    {
        let ghost rest = t@.skip(i as int);
        proof {
            if i + pat@.len() <= t@.len() {
                assert(rest.take(pat@.len() as int) =~= t@.subrange(i as int, i + pat@.len()));
                assert(rest.skip(pat@.len() as int) =~= t@.skip(i + pat@.len()));
            }
            assert(rest.skip(1) =~= t@.skip(i + 1));
        }
        if occurs_at(t, i, pat) {
            let ghost before = out@;
            push_bytes(&mut out, rep);
            i = i + pat.len();
            assert(before + (rep@ + substitute(t@.skip(i as int), pat@, rep@)) =~= out@
                + substitute(t@.skip(i as int), pat@, rep@));
        } else {
            let ghost before = out@;
            out.push(t[i]);
            i = i + 1;
            assert(before + (seq![t@[i - 1]] + substitute(t@.skip(i as int), pat@, rep@)) =~= out@
                + substitute(t@.skip(i as int), pat@, rep@));
        }
    }
    assert(t@.skip(i as int).len() == 0);
    assert(out@ + substitute(t@.skip(i as int), pat@, rep@) =~= out@);
    out
}

/// Renders the capture page from its template: `__WS_PORT__` becomes the
/// WebSocket port in decimal, `__VID__` and `__PID__` the vendor and product
/// ids as "0x" and four upper-case hexadecimal digits.
pub fn bridge_html(template: &[u8], ws_port: u16, vid: u16, pid: u16) -> (r: Vec<u8>)
    ensures
        r@ == rendered_page(template@, ws_port, vid, pid),
{
    proof {
        reveal_strlit("__WS_PORT__");
        reveal_strlit("__VID__");
        reveal_strlit("__PID__");
    }
    let port_text = decimal_string(ws_port as u64);
    let port_bytes = ascii_vec(port_text.as_str());
    let vid_bytes = ascii_vec(hex4_string(vid).as_str());
    let pid_bytes = ascii_vec(hex4_string(pid).as_str());
    let port_pat = ascii_vec("__WS_PORT__");
    let vid_pat = ascii_vec("__VID__");
    let pid_pat = ascii_vec("__PID__");
    let with_port = substitute_bytes(template, port_pat.as_slice(), port_bytes.as_slice());
    let with_vid = substitute_bytes(with_port.as_slice(), vid_pat.as_slice(), vid_bytes.as_slice());
    substitute_bytes(with_vid.as_slice(), pid_pat.as_slice(), pid_bytes.as_slice())
}

/// The response to any request on the page server: status 200, an HTML
/// content type, the length of `body`, `Connection: close`, then `body`.
pub fn http_response(body: &[u8]) -> (r: Vec<u8>)
    ensures
        r@ == http_response_bytes(body@),
{
    proof {
        reveal_strlit("HTTP/1.1 200 OK\r\nContent-Type: text/html;charset=utf-8\r\nContent-Length: ");
        reveal_strlit("\r\nConnection: close\r\n\r\n");
    }
    let mut out: Vec<u8> = Vec::new();
    push_ascii(&mut out, "HTTP/1.1 200 OK\r\nContent-Type: text/html;charset=utf-8\r\nContent-Length: ");
    let len_text = decimal_string(body.len() as u64);
    push_ascii(&mut out, len_text.as_str());
    push_ascii(&mut out, "\r\nConnection: close\r\n\r\n");
    let ghost head = out@;
    push_bytes(&mut out, body);
    assert(head =~= ascii_bytes(response_head() + decimal(body@.len()) + response_tail()));
    out
}

} // verus!
