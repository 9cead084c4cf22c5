use vstd::prelude::*;

verus! {

/// Whether `c` is an ASCII decimal digit.
pub open spec fn is_digit(c: char) -> bool {
    '0' <= c && c <= '9'
}

/// Whether `s` is a non-empty run of decimal digits.
pub open spec fn is_digits(s: Seq<char>) -> bool {
    s.len() > 0 && forall|i: int| 0 <= i < s.len() ==> is_digit(#[trigger] s[i])
}

/// The number that the decimal digits `s` write.
pub open spec fn digits_value(s: Seq<char>) -> nat
    decreases s.len(),
{
    if s.len() == 0 {
        0
    } else {
        digits_value(s.drop_last()) * 10 + (s.last() as nat - '0' as nat) as nat
    }
}

/// Position of the last `':'` in `s`, or -1 where there is none.
pub open spec fn last_colon(s: Seq<char>) -> int
    decreases s.len(),
{
    if s.len() == 0 {
        -1
    } else if s.last() == ':' {
        s.len() - 1
    } else {
        last_colon(s.drop_last())
    }
}

/// The text before the last colon.
pub open spec fn host_part(s: Seq<char>) -> Seq<char> {
    s.take(last_colon(s))
}

/// The text after the last colon.
pub open spec fn port_part(s: Seq<char>) -> Seq<char> {
    s.skip(last_colon(s) + 1)
}

/// Whether `s` reads as `host:port`: a non-empty host, a colon, and a port
/// of decimal digits whose value fits in 16 bits.
pub open spec fn is_host_port(s: Seq<char>) -> bool {
    &&& last_colon(s) > 0
    &&& is_digits(port_part(s))
    &&& digits_value(port_part(s)) <= 65535
}

/// A tunnel destination: a host name or address, and a port.
pub struct SocketTarget {
    pub host: String,
    pub port: u16,
}

proof fn lemma_last_colon_at(s: Seq<char>, i: int)
    requires
        0 <= i < s.len(),
        s[i] == ':',
        forall|j: int| i < j < s.len() ==> s[j] != ':',
    ensures
        last_colon(s) == i,
    decreases s.len(),
{
    if i < s.len() - 1 {
        assert(s.drop_last()[i] == ':');
        lemma_last_colon_at(s.drop_last(), i);
    }
}

proof fn lemma_no_colon(s: Seq<char>)
    requires
        forall|j: int| 0 <= j < s.len() ==> s[j] != ':',
    ensures
        last_colon(s) == -1,
    decreases s.len(),
{
    if s.len() > 0 {
        lemma_no_colon(s.drop_last());
    }
}

proof fn lemma_digits_value_grows(s: Seq<char>, k: int)
    requires
        0 <= k <= s.len(),
    ensures
        digits_value(s.take(k)) <= digits_value(s),
    decreases s.len(),
{
    if k < s.len() {
        assert(s.drop_last().take(k) =~= s.take(k));
        lemma_digits_value_grows(s.drop_last(), k);
    } else {
        assert(s.take(k) =~= s);
    }
}

/// Splits an authority into host and port, as a tunnel destination needs
/// it. The split is at the last colon, so a bracketed IPv6 host keeps its
/// own colons.
pub fn parse_host_port(authority: &str) -> (r: Option<SocketTarget>)
    ensures
        r is Some <==> is_host_port(authority@),
        r matches Some(t) ==> t.host@ == host_part(authority@) && t.port as nat == digits_value(
            port_part(authority@),
        ),
{
    let len = authority.unicode_len();
    let mut i: usize = len;
    while i > 0 && authority.get_char(i - 1) != ':'
        invariant
            i <= len == authority@.len(),
            forall|j: int| i <= j < len ==> authority@[j] != ':',
        decreases i,
    {
        i = i - 1;
    }
    if i == 0 {
        proof {
            lemma_no_colon(authority@);
        }
        return None;
    }
    let colon = i - 1;
    proof {
        lemma_last_colon_at(authority@, colon as int);
    }
    if colon == 0 || colon + 1 == len {
        return None;
    }
    let ghost port = authority@.skip(colon + 1);
    let mut value: u32 = 0;
    let mut k: usize = colon + 1;
    while k < len
        invariant
            colon + 1 <= k <= len == authority@.len(),
            port == authority@.skip(colon + 1),
            last_colon(authority@) == colon,
            value as nat == digits_value(port.take(k - colon - 1)),
            value <= 65535,
            forall|j: int| 0 <= j < k - colon - 1 ==> is_digit(#[trigger] port[j]),
        decreases len - k,
    {
        let c = authority.get_char(k);
        if !('0' <= c && c <= '9') {
            assert(!is_digit(port[k - colon - 1]));
            return None;
        }
        let next = value * 10 + (c as u32 - '0' as u32);
        assert(port.take(k - colon).drop_last() =~= port.take(k - colon - 1));
        assert(port.take(k - colon).last() == c);
        assert(digits_value(port.take(k - colon)) == next);
        if next > 65535 {
            proof {
                lemma_digits_value_grows(port, k - colon);
            }
            return None;
        }
        value = next;
        k = k + 1;
    }
    assert(port.take(len - colon - 1) =~= port);
    let host = authority.substring_char(0, colon).to_string();
    Some(SocketTarget { host, port: value as u16 })
}

} // verus!
