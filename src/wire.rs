//! The wire form of a batch: one JSON-RPC 2.0 array holding an object per
//! request, whose id is the request's position.
use vstd::prelude::*;
use vstd::string::{StrSliceExecFns, StringExecFns};
use crate::batch::{Batch, Request};

verus! {

/// The decimal digit `d` as a character.
pub open spec fn digit_char(d: u64) -> char {
    ((48 + d) as u8) as char
}

/// The lower-case hexadecimal digit `d` as a character.
pub open spec fn hex_char(d: u32) -> char {
    if d < 10 {
        ((48 + d) as u8) as char
    } else {
        ((87 + d) as u8) as char
    }
}

/// `n` written in decimal, without leading zeros.
pub open spec fn decimal(n: u64) -> Seq<char>
    decreases n,
{
    if n < 10 {
        seq![digit_char(n)]
    } else {
        decimal(n / 10).push(digit_char(n % 10))
    }
}

/// `c` as it stands inside a JSON string: quote and backslash are escaped,
/// control characters written as `\u00XX`, all else kept.
pub open spec fn escaped_char(c: char) -> Seq<char> {
    if c == '"' {
        seq!['\\', '"']
    } else if c == '\\' {
        seq!['\\', '\\']
    } else if (c as u32) < 32 {
        seq!['\\', 'u', '0', '0', hex_char((c as u32) / 16), hex_char((c as u32) % 16)]
    } else {
        seq![c]
    }
}

/// `s` as it stands inside a JSON string.
pub open spec fn escaped(s: Seq<char>) -> Seq<char>
    decreases s.len(),
{
    if s.len() == 0 {
        Seq::empty()
    } else {
        escaped(s.drop_last()) + escaped_char(s.last())
    }
}

/// The parameters, already JSON text, separated by commas.
pub open spec fn params_text(ps: Seq<String>) -> Seq<char>
    decreases ps.len(),
{
    if ps.len() == 0 {
        Seq::empty()
    } else if ps.len() == 1 {
        ps[0]@
    } else {
        params_text(ps.drop_last()) + ","@ + ps.last()@
    }
}

/// One request object.
pub open spec fn request_text(r: Request) -> Seq<char> {
    "{\"jsonrpc\":\"2.0\",\"method\":\""@ + escaped(r.method@) + "\",\"params\":["@ + params_text(
        r.params@,
    ) + "],\"id\":"@ + decimal(r.position as u64) + "}"@
}

/// The request objects, separated by commas.
pub open spec fn requests_text(rs: Seq<Request>) -> Seq<char>
    decreases rs.len(),
{
    if rs.len() == 0 {
        Seq::empty()
    } else if rs.len() == 1 {
        request_text(rs[0])
    } else {
        requests_text(rs.drop_last()) + ","@ + request_text(rs.last())
    }
}

/// The body of the batch request.
pub open spec fn batch_text(rs: Seq<Request>) -> Seq<char> {
    "["@ + requests_text(rs) + "]"@
}

/// Relies on `String::push`: appends one character.
#[verifier::external_body]
fn push_char(s: &mut String, c: char)
    ensures
        final(s)@ == old(s)@.push(c),
{
    s.push(c)
}

fn write_decimal(out: &mut String, n: u64)
    ensures
        final(out)@ == old(out)@ + decimal(n),
    decreases n,
{
    if n >= 10 {
        write_decimal(out, n / 10);
    }
    push_char(out, ((48 + n % 10) as u8) as char);
    assert(decimal(n) =~= if n < 10 {
        seq![digit_char(n)]
    } else {
        decimal(n / 10).push(digit_char(n % 10))
    });
}

fn write_hex_digit(out: &mut String, d: u32)
    requires
        d < 16,
    ensures
        final(out)@ == old(out)@.push(hex_char(d)),
{
    if d < 10 {
        push_char(out, ((48 + d) as u8) as char);
    } else {
        push_char(out, ((87 + d) as u8) as char);
    }
}

fn write_escaped(out: &mut String, s: &String)
    ensures
        final(out)@ == old(out)@ + escaped(s@),
{
    let ghost start = out@;
    let n = s.as_str().unicode_len();
    let mut i: usize = 0;
    while i < n
        invariant
            n == s@.len(),
            i <= n,
            out@ == start + escaped(s@.take(i as int)),
        decreases n - i,
    {
        let c = s.as_str().get_char(i);
        assert(s@.take(i + 1).drop_last() =~= s@.take(i as int));
        let ghost before = out@;
        if c == '"' {
            push_char(out, '\\');
            push_char(out, '"');
        } else if c == '\\' {
            push_char(out, '\\');
            push_char(out, '\\');
        } else if (c as u32) < 32 {
            push_char(out, '\\');
            push_char(out, 'u');
            push_char(out, '0');
            push_char(out, '0');
            write_hex_digit(out, (c as u32) / 16);
            write_hex_digit(out, (c as u32) % 16);
        } else {
            push_char(out, c);
        }
        assert(out@ =~= before + escaped_char(c));
        i = i + 1;
    }
    assert(s@.take(n as int) =~= s@);
}

fn write_request(out: &mut String, r: &Request)
    ensures
        final(out)@ == old(out)@ + request_text(*r),
{
    let ghost start = out@;
    out.append("{\"jsonrpc\":\"2.0\",\"method\":\"");
    write_escaped(out, &r.method);
    out.append("\",\"params\":[");
    let ghost mid = out@;
    let mut i: usize = 0;
    while i < r.params.len()
        invariant
            i <= r.params@.len(),
            out@ == mid + params_text(r.params@.take(i as int)),
        decreases r.params@.len() - i,
    {
        assert(r.params@.take(i + 1).drop_last() =~= r.params@.take(i as int));
        if i > 0 {
            out.append(",");
        }
        out.append(r.params[i].as_str());
        i = i + 1;
    }
    assert(r.params@.take(r.params@.len() as int) =~= r.params@);
    out.append("],\"id\":");
    write_decimal(out, r.position as u64);
    out.append("}");
    assert(out@ =~= start + request_text(*r));
}

/// The JSON-RPC 2.0 batch request body for `batch`: an array with one
/// object per request, in position order, each carrying its method, its
/// parameters as given, and its position as id.
pub fn request_body(batch: &Batch) -> (body: String)
    ensures
        body@ == batch_text(batch@),
{
    let mut out = String::new();
    out.append("[");
    let ghost mid = out@;
    let n = batch.len();
    let mut i: usize = 0;
    while i < n
        invariant
            n == batch@.len(),
            i <= n,
            out@ == mid + requests_text(batch@.take(i as int)),
        decreases n - i,
    {
        assert(batch@.take(i + 1).drop_last() =~= batch@.take(i as int));
        if i > 0 {
            out.append(",");
        }
        write_request(&mut out, batch.request(i));
        i = i + 1;
    }
    assert(batch@.take(n as int) =~= batch@);
    out.append("]");
    assert(out@ =~= batch_text(batch@));
    out
}

} // verus!
