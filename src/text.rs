use vstd::prelude::*;

verus! {

/// The character of a decimal digit.
pub open spec fn digit_char(d: nat) -> char {
    if d == 0 {
        '0'
    } else if d == 1 {
        '1'
    } else if d == 2 {
        '2'
    } else if d == 3 {
        '3'
    } else if d == 4 {
        '4'
    } else if d == 5 {
        '5'
    } else if d == 6 {
        '6'
    } else if d == 7 {
        '7'
    } else if d == 8 {
        '8'
    } else {
        '9'
    }
}

/// The decimal notation of `n`, without leading zeros.
pub open spec fn decimal(n: nat) -> Seq<char>
    decreases n,
{
    if n < 10 {
        seq![digit_char(n)]
    } else {
        decimal(n / 10).push(digit_char(n % 10))
    }
}

/// The loopback host the server is told to bind to.
pub open spec fn local_host() -> Seq<char> {
    "127.0.0.1"@
}

/// `http://127.0.0.1:<port>`: where a healthy server is reached.
pub open spec fn endpoint_text(port: u16) -> Seq<char> {
    "http://"@ + local_host() + ":"@ + decimal(port as nat)
}

/// The health endpoint of a server on `port`.
pub open spec fn health_text(port: u16) -> Seq<char> {
    endpoint_text(port) + "/api/health"@
}

fn digit_str(d: u32) -> (r: &'static str)
    requires
        d < 10,
    ensures
        r@ == seq![digit_char(d as nat)],
{
    if d == 0 {
        proof { reveal_strlit("0"); }
        "0"
    } else if d == 1 {
        proof { reveal_strlit("1"); }
        "1"
    } else if d == 2 {
        proof { reveal_strlit("2"); }
        "2"
    } else if d == 3 {
        proof { reveal_strlit("3"); }
        "3"
    } else if d == 4 {
        proof { reveal_strlit("4"); }
        "4"
    } else if d == 5 {
        proof { reveal_strlit("5"); }
        "5"
    } else if d == 6 {
        proof { reveal_strlit("6"); }
        "6"
    } else if d == 7 {
        proof { reveal_strlit("7"); }
        "7"
    } else if d == 8 {
        proof { reveal_strlit("8"); }
        "8"
    } else {
        proof { reveal_strlit("9"); }
        "9"
    }
}

/// Appends the decimal notation of `n` to `s`.
pub fn push_decimal(s: &mut String, n: u32)
    ensures
        final(s)@ == old(s)@ + decimal(n as nat),
    decreases n,
{
    if n >= 10 {
        push_decimal(s, n / 10);
    }
    s.append(digit_str(n % 10));
    proof {
        if n >= 10 {
            assert(old(s)@ + decimal(n as nat) =~= old(s)@ + decimal((n / 10) as nat) + seq![
                digit_char((n % 10) as nat),
            ]);
        } else {
            assert(decimal(n as nat) == seq![digit_char(n as nat)]);
        }
    }
}

/// The decimal notation of `n` as a string.
pub fn decimal_string(n: u32) -> (r: String)
    ensures
        r@ == decimal(n as nat),
{
    let mut s = String::new();
    push_decimal(&mut s, n);
    assert(s@ =~= decimal(n as nat));
    s
}

/// The URL under which a healthy server on `port` is shown.
pub fn endpoint_url(port: u16) -> (r: String)
    ensures
        r@ == endpoint_text(port),
{
    let mut s = String::from_str("http://");
    s.append("127.0.0.1");
    s.append(":");
    push_decimal(&mut s, port as u32);
    s
}

/// The URL polled for the health of a server on `port`.
pub fn health_url(port: u16) -> (r: String)
    ensures
        r@ == health_text(port),
{
    let mut s = endpoint_url(port);
    s.append("/api/health");
    s
}

/// The last `n` lines of `lines`, or all of them where there are fewer.
pub open spec fn last_lines(lines: Seq<String>, n: nat) -> Seq<String> {
    if lines.len() <= n {
        lines
    } else {
        lines.subrange(lines.len() - n, lines.len() as int)
    }
}

/// Keeps the last `n` lines of captured output, in their order.
pub fn tail_lines(lines: &Vec<String>, n: usize) -> (r: Vec<String>)
    ensures
        r@ == last_lines(lines@, n as nat),
{
    let start: usize = if lines.len() <= n { 0 } else { lines.len() - n };
    let mut out: Vec<String> = Vec::new();
    let mut i: usize = start;
    while i < lines.len()
        invariant
            start <= i <= lines.len(),
            out@ == lines@.subrange(start as int, i as int),
        decreases lines.len() - i,
    {
        out.push(lines[i].clone());
        i = i + 1;
        assert(out@ =~= lines@.subrange(start as int, i as int));
    }
    assert(lines@.subrange(0, lines@.len() as int) =~= lines@);
    out
}

} // verus!
