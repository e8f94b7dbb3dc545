//! The textual form of a socket address that a session may be started on.
//!
//! An endpoint is written `host:port`. The port is what follows the last
//! colon: decimal digits whose value fits sixteen bits. The host is what
//! precedes that colon: at least one character, each of them printable
//! ASCII, so that a name, a dotted quad and a bracketed IPv6 literal all
//! qualify. Whether the host exists is for the network to say.

use vstd::prelude::*;
use vstd::string::*;

verus! {

/// Largest port number.
pub const MAX_PORT: u32 = 65535;

pub open spec fn is_digit(c: char) -> bool {
    '0' <= c && c <= '9'
}

/// The value of a decimal digit; zero for any other character.
pub open spec fn digit_value(c: char) -> nat {
    if is_digit(c) {
        (c as int - '0' as int) as nat
    } else {
        0
    }
}

/// The number that a run of decimal digits denotes, most significant digit
/// first.
pub open spec fn decimal_value(digits: Seq<char>) -> nat
    decreases digits.len(),
{
    if digits.len() == 0 {
        0
    } else {
        10 * decimal_value(digits.drop_last()) + digit_value(digits.last())
    }
}

/// Non-empty, all digits, and no larger than a port can be.
pub open spec fn is_port_text(text: Seq<char>) -> bool {
    &&& text.len() > 0
    &&& forall|i: int| 0 <= i < text.len() ==> is_digit(#[trigger] text[i])
    &&& decimal_value(text) <= MAX_PORT
}

/// Printable, non-blank ASCII.
pub open spec fn is_host_char(c: char) -> bool {
    '!' <= c && c <= '~'
}

/// Non-empty and made of host characters only.
pub open spec fn is_host_text(text: Seq<char>) -> bool {
    &&& text.len() > 0
    &&& forall|i: int| 0 <= i < text.len() ==> is_host_char(#[trigger] text[i])
}

/// Position of the last colon in `text`, or -1 if it holds none.
pub open spec fn last_colon(text: Seq<char>) -> int
    decreases text.len(),
{
    if text.len() == 0 {
        -1
    } else if text.last() == ':' {
        text.len() - 1
    } else {
        last_colon(text.drop_last())
    }
}

/// The host part of an address: everything before the last colon.
pub open spec fn host_part(text: Seq<char>) -> Seq<char> {
    text.subrange(0, last_colon(text))
}

/// The port part of an address: everything after the last colon.
pub open spec fn port_part(text: Seq<char>) -> Seq<char> {
    text.subrange(last_colon(text) + 1, text.len() as int)
}

/// The port that a well-formed endpoint names; `None` for any other text.
pub open spec fn endpoint_port(text: Seq<char>) -> Option<u16> {
    if last_colon(text) >= 0 && is_host_text(host_part(text)) && is_port_text(port_part(text)) {
        Some(decimal_value(port_part(text)) as u16)
    } else {
        None
    }
}

/// True when `text` is a well-formed endpoint.
pub open spec fn is_endpoint(text: Seq<char>) -> bool {
    endpoint_port(text).is_some()
}

/// `last_colon` finds a colon, and no colon follows the one it finds.
pub proof fn lemma_last_colon(text: Seq<char>)
    ensures
        -1 <= last_colon(text) < text.len(),
        last_colon(text) >= 0 ==> text[last_colon(text)] == ':',
        forall|j: int| last_colon(text) < j < text.len() ==> #[trigger] text[j] != ':',
    decreases text.len(),
{
    if text.len() > 0 && text.last() != ':' {
        let front = text.drop_last();
        lemma_last_colon(front);
        assert forall|j: int| last_colon(text) < j < text.len() implies #[trigger] text[j]
            != ':' by {
            if j < front.len() {
                assert(text[j] == front[j]);
            }
        }
    }
}

/// A colon that no colon follows is the last one.
pub proof fn lemma_last_colon_at(text: Seq<char>, at: int)
    requires
        0 <= at < text.len(),
        text[at] == ':',
        forall|j: int| at < j < text.len() ==> #[trigger] text[j] != ':',
    ensures
        last_colon(text) == at,
{
    lemma_last_colon(text);
}

/// Text without a colon has no last colon.
pub proof fn lemma_no_colon(text: Seq<char>)
    requires
        forall|j: int| 0 <= j < text.len() ==> #[trigger] text[j] != ':',
    ensures
        last_colon(text) == -1,
{
    lemma_last_colon(text);
}

/// Reading one more digit multiplies by ten and adds the digit.
pub proof fn lemma_decimal_step(text: Seq<char>, from: int, to: int)
    requires
        0 <= from <= to < text.len(),
    ensures
        decimal_value(text.subrange(from, to + 1)) == 10 * decimal_value(text.subrange(from, to))
            + digit_value(text[to]),
{
    let longer = text.subrange(from, to + 1);
    assert(longer.drop_last() =~= text.subrange(from, to));
    assert(longer.last() == text[to]);
}

/// A leading part of a digit run denotes no more than the whole run.
pub proof fn lemma_decimal_prefix(digits: Seq<char>, len: int)
    requires
        0 <= len <= digits.len(),
    ensures
        decimal_value(digits.subrange(0, len)) <= decimal_value(digits),
    decreases digits.len(),
{
    if len == digits.len() {
        assert(digits.subrange(0, len) =~= digits);
    } else {
        let front = digits.drop_last();
        lemma_decimal_prefix(front, len);
        assert(front.subrange(0, len) =~= digits.subrange(0, len));
    }
}

/// Text with a character outside ASCII is no endpoint.
pub proof fn lemma_endpoint_is_ascii(text: Seq<char>)
    requires
        is_endpoint(text),
    ensures
        vstd::utf8::is_ascii_chars(text),
{
    lemma_last_colon(text);
    let at = last_colon(text);
    let host = host_part(text);
    let port = port_part(text);
    assert forall|i: int| 0 <= i < text.len() implies '\0' <= #[trigger] text[i] <= '\u{7f}' by {
        if i < at {
            assert(host[i] == text[i]);
            assert(is_host_char(host[i]));
        } else if i > at {
            assert(port[i - at - 1] == text[i]);
            assert(is_digit(port[i - at - 1]));
        }
    }
}

/// Reads the port out of `address`, or reports that `address` is not a
/// well-formed endpoint.
pub fn parse_port(address: &str) -> (port: Option<u16>)
    ensures
        port == endpoint_port(address@),
{
    if !address.is_ascii() {
        proof {
            if is_endpoint(address@) {
                lemma_endpoint_is_ascii(address@);
            }
        }
        return None;
    }
    let bytes = address.as_bytes();
    let n: usize = bytes.len();
    let ghost text = address@;
    proof {
        is_ascii_spec_bytes(address);
        assert(bytes@ =~= Seq::new(text.len(), |i: int| text[i] as u8));
        assert forall|i: int| 0 <= i < n implies #[trigger] bytes@[i] as int == text[i] as int by {
            assert('\0' <= text[i] <= '\u{7f}');
        }
    }
    let mut k: usize = n;
    while k > 0 && bytes[k - 1] != 58u8
        invariant
            k <= n,
            n == bytes@.len(),
            n == text.len(),
            forall|i: int| 0 <= i < n ==> #[trigger] bytes@[i] as int == text[i] as int,
            forall|j: int| k <= j < n ==> #[trigger] text[j] != ':',
        decreases k,
    {
        k = k - 1;
    }
    if k == 0 {
        proof {
            lemma_no_colon(text);
        }
        return None;
    }
    let at: usize = k - 1;
    proof {
        assert(text[at as int] == ':');
        lemma_last_colon_at(text, at as int);
    }
    if at == 0 || k == n {
        return None;
    }
    let ghost host = host_part(text);
    let ghost port = port_part(text);
    let mut i: usize = 0;
    while i < at
        invariant
            i <= at < n,
            n == bytes@.len(),
            n == text.len(),
            text == address@,
            last_colon(text) == at,
            host == host_part(text),
            forall|m: int| 0 <= m < n ==> #[trigger] bytes@[m] as int == text[m] as int,
            forall|m: int| 0 <= m < i ==> is_host_char(#[trigger] text[m]),
        decreases at - i,
    {
        let b: u8 = bytes[i];
        if b < 33u8 || b > 126u8 {
            proof {
                assert(host[i as int] == text[i as int]);
                assert(!is_host_char(host[i as int]));
            }
            return None;
        }
        i = i + 1;
    }
    proof {
        assert forall|m: int| 0 <= m < host.len() implies is_host_char(#[trigger] host[m]) by {
            assert(host[m] == text[m]);
        }
        assert(is_host_text(host));
    }
    let mut value: u32 = 0;
    let mut j: usize = k;
    proof {
        assert(text.subrange(k as int, k as int) =~= Seq::<char>::empty());
    }
    while j < n
        invariant
            k <= j <= n,
            k == at + 1,
            n == bytes@.len(),
            n == text.len(),
            text == address@,
            last_colon(text) == at,
            port == port_part(text),
            forall|m: int| 0 <= m < n ==> #[trigger] bytes@[m] as int == text[m] as int,
            forall|m: int| k <= m < j ==> is_digit(#[trigger] text[m]),
            value == decimal_value(text.subrange(k as int, j as int)),
            value <= MAX_PORT,
        decreases n - j,
    {
        let b: u8 = bytes[j];
        if b < 48u8 || b > 57u8 {
            proof {
                assert(port[j - k] == text[j as int]);
                assert(!is_digit(port[j - k]));
            }
            return None;
        }
        let next: u32 = value * 10 + (b - 48u8) as u32;
        proof {
            lemma_decimal_step(text, k as int, j as int);
            assert(is_digit(text[j as int]));
            assert(next == decimal_value(text.subrange(k as int, j + 1)));
        }
        if next > MAX_PORT {
            proof {
                lemma_decimal_prefix(port, j + 1 - k);
                assert(port.subrange(0, j + 1 - k) =~= text.subrange(k as int, j + 1));
            }
            return None;
        }
        value = next;
        j = j + 1;
    }
    proof {
        assert(text.subrange(k as int, j as int) == port);
        assert forall|m: int| 0 <= m < port.len() implies is_digit(#[trigger] port[m]) by {
            assert(port[m] == text[k + m]);
        }
        assert(is_port_text(port));
    }
    Some(value as u16)
}

} // verus!
