use vstd::prelude::*;
use vstd::string::*;
use crate::text::{has_prefix, trim, trim_spec};

verus! {

/// The prefix of the line on which a self-selecting backend reports its port.
pub const PORT_PREFIX: &'static str = "BACKEND_PORT:";

pub open spec fn is_digit(c: char) -> bool {
    '0' <= c && c <= '9'
}

pub open spec fn digit_value(c: char) -> nat {
    (c as nat - '0' as nat) as nat
}

/// The number that a string of decimal digits denotes.
pub open spec fn decimal_value(s: Seq<char>) -> nat
    decreases s.len(),
{
    if s.len() == 0 {
        0
    } else {
        decimal_value(s.drop_last()) * 10 + digit_value(s.last())
    }
}

pub open spec fn all_digits(s: Seq<char>) -> bool {
    forall|i: int| 0 <= i < s.len() ==> is_digit(#[trigger] s[i])
}

/// The digits of an unsigned number's text, after an optional leading `+`.
pub open spec fn unsigned_digits(s: Seq<char>) -> Seq<char> {
    if s.len() > 0 && s[0] == '+' {
        s.drop_first()
    } else {
        s
    }
}

/// The `u16` that `s` denotes in decimal, as the standard library reads it: an
/// optional `+`, then at least one digit, and a value below 65536.
pub open spec fn parse_u16_spec(s: Seq<char>) -> Option<u16> {
    let d = unsigned_digits(s);
    if d.len() > 0 && all_digits(d) && decimal_value(d) <= 65535 {
        Some(decimal_value(d) as u16)
    } else {
        None
    }
}

/// The port a line of backend output reports, if any: the line starts with
/// the port prefix and the rest, trimmed, is a `u16`.
pub open spec fn port_of_line(line: Seq<char>) -> Option<u16> {
    if PORT_PREFIX@.is_prefix_of(line) {
        parse_u16_spec(trim_spec(line.skip(PORT_PREFIX@.len() as int)))
    } else {
        None
    }
}

proof fn lemma_decimal_prefix_le(s: Seq<char>, k: int)
    requires
        0 <= k <= s.len(),
    ensures
        decimal_value(s.subrange(0, k)) <= decimal_value(s),
    decreases s.len() - k,
{
    if k < s.len() {
        lemma_decimal_prefix_le(s.drop_last(), k);
        assert(s.drop_last().subrange(0, k) =~= s.subrange(0, k));
    } else {
        assert(s.subrange(0, k) =~= s);
    }
}

/// Reads a `u16` written in decimal, with an optional leading `+`.
pub fn parse_u16(s: &str) -> (r: Option<u16>)
    ensures
        r == parse_u16_spec(s@),
{
    let n = s.unicode_len();
    let mut start: usize = 0;
    if n > 0 && s.get_char(0) == '+' {
        start = 1;
    }
    let ghost d = unsigned_digits(s@);
    assert(d =~= s@.skip(start as int));
    if start == n {
        return None;
    }
    let mut acc: u32 = 0;
    let mut i: usize = start;
    while i < n
        invariant
            n == s@.len(),
            start < n,
            start <= i <= n,
            d == s@.skip(start as int),
            d == unsigned_digits(s@),
            forall|j: int| start <= j < i ==> is_digit(#[trigger] s@[j]),
            acc as nat == decimal_value(s@.subrange(start as int, i as int)),
            acc <= 65535,
        decreases n - i,
    {
        let c = s.get_char(i);
        if !('0' <= c && c <= '9') {
            assert(d[i - start] == s@[i as int]);
            assert(!is_digit(d[i - start]));
            return None;
        }
        let v: u32 = acc * 10 + (c as u32 - '0' as u32);
        proof {
            let t = s@.subrange(start as int, i + 1);
            assert(t.drop_last() =~= s@.subrange(start as int, i as int));
            assert(t.last() == c);
            assert(digit_value(c) == c as u32 - '0' as u32);
            assert(decimal_value(t) == v);
        }
        if v > 65535 {
            proof {
                if all_digits(d) {
                    lemma_decimal_prefix_le(d, i + 1 - start);
                    assert(d.subrange(0, i + 1 - start) =~= s@.subrange(start as int, i + 1));
                }
            }
            return None;
        }
        acc = v;
        i += 1;
    }
    assert(s@.subrange(start as int, n as int) =~= d);
    Some(acc as u16)
}

/// The port reported on `line`, if it is a well-formed port line.
pub fn parse_port_line(line: &str) -> (r: Option<u16>)
    ensures
        r == port_of_line(line@),
{
    if !has_prefix(line, PORT_PREFIX) {
        return None;
    }
    proof {
        reveal_strlit("BACKEND_PORT:");
    }
    let rest = line.substring_char(13, line.unicode_len());
    assert(rest@ =~= line@.skip(PORT_PREFIX@.len() as int));
    parse_u16(trim(rest))
}

/// The port that a stream of output lines reports: that of its first
/// well-formed port line.
pub open spec fn first_port(lines: Seq<Seq<char>>) -> Option<u16>
    decreases lines.len(),
{
    if lines.len() == 0 {
        None
    } else {
        match port_of_line(lines[0]) {
            Some(p) => Some(p),
            None => first_port(lines.drop_first()),
        }
    }
}

pub open spec fn option_seq(o: Option<u16>) -> Seq<u16> {
    match o {
        Some(p) => seq![p],
        None => seq![],
    }
}

/// Extending a stream by one line changes its reported port only where none
/// was reported before.
pub proof fn lemma_first_port_push(lines: Seq<Seq<char>>, line: Seq<char>)
    ensures
        first_port(lines.push(line)) == match first_port(lines) {
            Some(p) => Some(p),
            None => port_of_line(line),
        },
    decreases lines.len(),
{
    if lines.len() > 0 {
        assert(lines.push(line).drop_first() =~= lines.drop_first().push(line));
        assert(lines.push(line)[0] == lines[0]);
        lemma_first_port_push(lines.drop_first(), line);
    } else {
        assert(lines.push(line).drop_first() =~= Seq::<Seq<char>>::empty());
        assert(lines.push(line)[0] == line);
        assert(first_port(lines) is None);
        assert(first_port(lines.push(line).drop_first()) is None);
    }
}

/// Once a stream has reported its port, later lines, repeated port lines
/// included, never change it.
pub proof fn lemma_first_port_stable(lines: Seq<Seq<char>>, more: Seq<Seq<char>>)
    requires
        first_port(lines) is Some,
    ensures
        first_port(lines + more) == first_port(lines),
    decreases lines.len(),
{
    assert(lines.len() > 0);
    if port_of_line(lines[0]) is None {
        assert((lines + more).drop_first() =~= lines.drop_first() + more);
        lemma_first_port_stable(lines.drop_first(), more);
    }
}

/// Watches the backend's output for its port line and hands the port on at
/// most once.
pub struct PortScanner {
    port_sent: bool,
}

impl PortScanner {
    /// Whether a port has already been handed on.
    pub closed spec fn sent(&self) -> bool {
        self.port_sent
    }

    pub fn new() -> (r: PortScanner)
        ensures
            !r.sent(),
    {
        PortScanner { port_sent: false }
    }

    pub fn port_sent(&self) -> (r: bool)
        ensures
            r == self.sent(),
    {
        self.port_sent
    }

    /// Takes one line of output; returns the port to hand on, if this line
    /// is the first well-formed port line.
    pub fn on_line(&mut self, line: &str) -> (r: Option<u16>)
        ensures
            old(self).sent() ==> r is None,
            !old(self).sent() ==> r == port_of_line(line@),
            final(self).sent() == (old(self).sent() || r is Some),
    {
        if self.port_sent {
            return None;
        }
        let r = parse_port_line(line);
        if r.is_some() {
            self.port_sent = true;
        }
        r
    }
}

/// The ports a fresh scanner hands on over a whole stream of lines: the
/// stream's reported port once, or nothing.
pub fn reported_ports(lines: &Vec<String>) -> (r: Vec<u16>)
    ensures
        r@ == option_seq(first_port(lines@.map_values(|l: String| l@))),
{
    let ghost all = lines@.map_values(|l: String| l@);
    let mut scanner = PortScanner::new();
    let mut out: Vec<u16> = Vec::new();
    let mut i: usize = 0;
    while i < lines.len()
        invariant
            i <= lines@.len(),
            all == lines@.map_values(|l: String| l@),
            out@ == option_seq(first_port(all.subrange(0, i as int))),
            scanner.sent() == first_port(all.subrange(0, i as int)) is Some,
        decreases lines.len() - i,
    {
        proof {
            lemma_first_port_push(all.subrange(0, i as int), all[i as int]);
            assert(all.subrange(0, i as int).push(all[i as int]) =~= all.subrange(0, i + 1));
        }
        if let Some(p) = scanner.on_line(lines[i].as_str()) {
            out.push(p);
        }
        i += 1;
    }
    assert(all.subrange(0, i as int) =~= all);
    out
}

} // verus!
