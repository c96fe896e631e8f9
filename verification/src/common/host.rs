//! Strict host names and the HTTPS origins built from them.

use vstd::prelude::*;
use vstd::utf8::is_ascii_chars;

use crate::address::{
    address_text, canonical_address_is_stable, gap, gap_is_first, groups_of, ipv4, ipv4_is_written, ipv6,
    is_address, parse_address, parse_ipv4, parse_ipv6, show_address,
};
use crate::text::{
    byte_length, characters, decimal, fields, has_character, has_white_space, lower_ascii,
    lower_case, numeral, split, split_of_field, split_then_join, text_of, views, white_space,
};

verus! {

#[derive(Debug, Clone, Copy, PartialEq, Eq, Structural)]
pub enum HostError {
    Invalid,
}

impl HostError {
    pub fn message(&self) -> (result: &'static str)
        ensures
            result@
                == "host must be a DNS name or IP address without a scheme, port, path, or whitespace"@,
    {
        "host must be a DNS name or IP address without a scheme, port, path, or whitespace"
    }
}

/// The longest host that is accepted, in bytes.
pub const MAX_HOST_BYTES: usize = 253;

/// The longest label of a DNS name, in bytes.
pub const MAX_LABEL_BYTES: usize = 63;

/// Whether `s` could be a host at all: short ASCII without white space and
/// without the characters that belong to other parts of a URL.
pub open spec fn plain_host(s: Seq<char>) -> bool {
    &&& 0 < s.len() <= MAX_HOST_BYTES
    &&& is_ascii_chars(s)
    &&& forall|i: int| 0 <= i < s.len() ==> !#[trigger] white_space(s[i])
    &&& !s.contains('/') && !s.contains('\\') && !s.contains('@') && !s.contains('%')
}

/// `s` without the brackets that enclose it.
pub open spec fn unbracketed(s: Seq<char>) -> Seq<char> {
    if s.len() >= 2 && s.first() == '[' && s.last() == ']' {
        s.subrange(1, s.len() - 1)
    } else {
        s
    }
}

/// `s` without one final dot.
pub open spec fn without_root_dot(s: Seq<char>) -> Seq<char> {
    if s.len() > 0 && s.last() == '.' {
        s.drop_last()
    } else {
        s
    }
}

/// A text in lower case.
pub open spec fn lowered(s: Seq<char>) -> Seq<char> {
    s.map_values(|c: char| lower_ascii(c))
}

pub open spec fn alphanumeric(c: char) -> bool {
    'a' <= c <= 'z' || 'A' <= c <= 'Z' || '0' <= c <= '9'
}

/// A label of a DNS name: letters, digits and inner hyphens.
pub open spec fn dns_label(s: Seq<char>) -> bool {
    &&& 0 < s.len() <= MAX_LABEL_BYTES
    &&& s.first() != '-'
    &&& s.last() != '-'
    &&& forall|i: int| 0 <= i < s.len() ==> alphanumeric(#[trigger] s[i]) || s[i] == '-'
}

/// A DNS name, possibly with a final dot.
pub open spec fn dns_name(s: Seq<char>) -> bool {
    &&& !s.contains('[') && !s.contains(']') && !s.contains(':')
    &&& without_root_dot(s).len() > 0
    &&& forall|i: int|
        0 <= i < split(without_root_dot(s), '.').len() ==> dns_label(
            #[trigger] split(without_root_dot(s), '.')[i],
        )
}

pub open spec fn decimal_digits(s: Seq<char>) -> bool {
    &&& s.len() > 0
    &&& forall|i: int| 0 <= i < s.len() ==> '0' <= #[trigger] s[i] <= '9'
}

/// Whether `s` has the form of an IPv4 address, four decimal numbers between dots,
/// but is none.
pub open spec fn invalid_literal(s: Seq<char>) -> bool {
    &&& split(s, '.').len() == 4
    &&& forall|i: int| 0 <= i < 4 ==> decimal_digits(#[trigger] split(s, '.')[i])
    &&& ipv4(s) is None
}

/// The canonical form of the host `s`: the canonical text of an IP address, or
/// a DNS name in lower case without its final dot. An invalid IP literal is no DNS
/// name.
pub open spec fn canonical(s: Seq<char>) -> Option<Seq<char>> {
    if !plain_host(s) {
        None
    } else if is_address(unbracketed(s)) {
        address_text(unbracketed(s))
    } else if dns_name(s) && !invalid_literal(without_root_dot(s)) {
        Some(lowered(without_root_dot(s)))
    } else {
        None
    }
}

fn has_decimal_digits(text: &str) -> (result: bool)
    ensures
        result == decimal_digits(text@),
{
    let all = characters(text);
    let mut i: usize = 0;
    while i < all.len()
        invariant
            i <= all.len(),
            all@ == text@,
            forall|j: int| 0 <= j < i ==> '0' <= #[trigger] all@[j] <= '9',
        decreases all.len() - i,
    {
        if all[i] < '0' || all[i] > '9' {
            assert(!('0' <= text@[i as int] <= '9'));
            return false;
        }
        i += 1;
    }
    all.len() > 0
}

fn is_invalid_literal(text: &str) -> (result: bool)
    ensures
        result == invalid_literal(text@),
{
    let parts = fields(text, '.');
    let ghost texts = split(text@, '.');
    assert(texts == views(parts@));
    if parts.len() != 4 {
        return false;
    }
    assert(forall|i: int| 0 <= i < 4 ==> #[trigger] texts[i] == parts@[i]@);
    let mut i: usize = 0;
    while i < 4
        invariant
            i <= 4,
            parts.len() == 4,
            texts == split(text@, '.'),
            texts.len() == 4,
            forall|i: int| 0 <= i < 4 ==> #[trigger] texts[i] == parts@[i]@,
            forall|j: int| 0 <= j < i ==> decimal_digits(#[trigger] texts[j]),
        decreases 4 - i,
    {
        if !has_decimal_digits(&parts[i]) {
            assert(!decimal_digits(texts[i as int]));
            return false;
        }
        i += 1;
    }
    parse_ipv4(text).is_none()
}

fn is_dns_label(label: &str) -> (result: bool)
    ensures
        result == dns_label(label@),
{
    let all = characters(label);
    let length: usize = all.len();
    if length == 0 || length > MAX_LABEL_BYTES || all[0] == '-' || all[length - 1] == '-' {
        return false;
    }
    let mut i: usize = 0;
    while i < length
        invariant
            i <= length,
            length == all.len(),
            all@ == label@,
            forall|j: int| 0 <= j < i ==> alphanumeric(#[trigger] all@[j]) || all@[j] == '-',
        decreases length - i,
    {
        let c = all[i];
        if !(('a' <= c && c <= 'z') || ('A' <= c && c <= 'Z') || ('0' <= c && c <= '9') || c
            == '-') {
            assert(!(alphanumeric(label@[i as int]) || label@[i as int] == '-'));
            return false;
        }
        i += 1;
    }
    true
}

fn is_plain_host(input: &str) -> (result: bool)
    ensures
        result == plain_host(input@),
{
    if input.is_empty() || !input.is_ascii() || has_white_space(input) {
        return false;
    }
    proof {
        vstd::utf8::is_ascii_chars_encode_utf8(input@);
    }
    byte_length(input) <= MAX_HOST_BYTES && !has_character(input, '/') && !has_character(
        input,
        '\\',
    ) && !has_character(input, '@') && !has_character(input, '%')
}

/// Parses one strict, ASCII DNS name or IP literal and returns its canonical
/// representation. Brackets around IPv6 input are accepted but are not
/// retained in the returned host value.
pub fn canonical_host(input: &str) -> (result: Result<String, HostError>)
    ensures
        match result {
            Ok(host) => canonical(input@) == Some(host@),
            Err(_) => canonical(input@) is None,
        },
{
    if !is_plain_host(input) {
        return Err(HostError::Invalid);
    }
    let all = characters(input);
    let length: usize = all.len();
    let bracketed = length >= 2 && all[0] == '[' && all[length - 1] == ']';
    let inner = if bracketed {
        text_of(vstd::slice::slice_subrange(all.as_slice(), 1, length - 1))
    } else {
        text_of(all.as_slice())
    };
    assert(inner@ == unbracketed(input@));
    match parse_address(&inner) {
        Some(address) => return Ok(show_address(&address)),
        None => {},
    }
    if has_character(input, '[') || has_character(input, ']') || has_character(input, ':') {
        return Err(HostError::Invalid);
    }
    let end: usize = if all[length - 1] == '.' {
        length - 1
    } else {
        length
    };
    let domain = text_of(vstd::slice::slice_subrange(all.as_slice(), 0, end));
    assert(domain@ =~= without_root_dot(input@));
    if domain.as_str().is_empty() {
        return Err(HostError::Invalid);
    }
    let labels = fields(&domain, '.');
    let ghost texts = split(domain@, '.');
    let mut i: usize = 0;
    while i < labels.len()
        invariant
            i <= labels.len(),
            texts == views(labels@),
            texts == split(domain@, '.'),
            domain@ == without_root_dot(input@),
            plain_host(input@),
            !is_address(unbracketed(input@)),
            forall|j: int| 0 <= j < i ==> dns_label(#[trigger] texts[j]),
        decreases labels.len() - i,
    {
        assert(texts[i as int] == labels@[i as int]@);
        if !is_dns_label(&labels[i]) {
            return Err(HostError::Invalid);
        }
        i += 1;
    }
    if is_invalid_literal(&domain) {
        return Err(HostError::Invalid);
    }
    Ok(lower_case(&domain))
}

/// The HTTPS origin of a canonical host: IPv6 hosts stand in brackets.
pub open spec fn origin(host: Seq<char>, port: u16) -> Seq<char> {
    if ipv6(host) is Some {
        "https://["@ + host + "]:"@ + numeral(port as nat, 10)
    } else {
        "https://"@ + host + ":"@ + numeral(port as nat, 10)
    }
}

/// Builds an HTTPS origin for a CentralD service, adding IPv6 brackets only
/// where URL syntax requires them.
pub fn https_endpoint(input: &str, port: u16) -> (result: Result<String, HostError>)
    ensures
        match result {
            Ok(endpoint) => port != 0 && canonical(input@) is Some && endpoint@ == origin(
                canonical(input@)->0,
                port,
            ),
            Err(_) => port == 0 || canonical(input@) is None,
        },
{
    if port == 0 {
        return Err(HostError::Invalid);
    }
    let host = match canonical_host(input) {
        Ok(host) => host,
        Err(error) => return Err(error),
    };
    let mut endpoint: String;
    if parse_ipv6(&host).is_some() {
        endpoint = "https://[".to_owned();
        endpoint.append(&host);
        endpoint.append("]:");
    } else {
        endpoint = "https://".to_owned();
        endpoint.append(&host);
        endpoint.append(":");
    }
    endpoint.append(&decimal(port as u64));
    Ok(endpoint)
}

proof fn split_of_lowered(s: Seq<char>)
    ensures
        split(lowered(s), '.') == Seq::new(
            split(s, '.').len(),
            |i: int| lowered(split(s, '.')[i]),
        ),
    decreases s.len(),
{
    let texts = Seq::new(split(s, '.').len(), |i: int| lowered(split(s, '.')[i]));
    if s.len() == 0 {
        assert(lowered(s) =~= Seq::empty());
        assert(lowered(Seq::<char>::empty()) =~= Seq::empty());
        assert(texts =~= seq![Seq::empty()]);
    } else {
        let init = s.drop_last();
        split_of_lowered(init);
        split_then_join(init, '.');
        assert(lowered(s).drop_last() =~= lowered(init));
        let before = split(init, '.');
        if s.last() == '.' {
            assert(lowered(Seq::<char>::empty()) =~= Seq::empty());
            assert(split(lowered(s), '.') =~= texts);
        } else {
            assert(lowered(before.last()).push(lower_ascii(s.last())) =~= lowered(
                before.last().push(s.last()),
            ));
            assert(split(lowered(s), '.') =~= texts);
        }
    }
}

proof fn colonless_is_not_ipv6(s: Seq<char>)
    requires
        !s.contains(':'),
    ensures
        ipv6(s) is None,
{
    gap_is_first(s);
    if gap(s) is Some {
        assert(s.contains(s[gap(s)->0]));
    }
    split_of_field(s, ':');
    assert(seq![s].drop_last() =~= Seq::empty());
    reveal_with_fuel(groups_of, 2);
}

proof fn canonical_name_is_stable(s: Seq<char>)
    requires
        plain_host(s),
        dns_name(s),
        !invalid_literal(without_root_dot(s)),
    ensures
        canonical(lowered(without_root_dot(s))) == Some(lowered(without_root_dot(s))),
{
    let d = without_root_dot(s);
    let c = lowered(d);
    assert forall|i: int| 0 <= i < c.len() implies #[trigger] c[i] == lower_ascii(s[i]) && s.contains(
        s[i],
    ) by {}
    assert forall|i: int| 0 <= i < c.len() implies !white_space(#[trigger] c[i]) && c[i] as u32
        <= 0x7f by {
        assert(!white_space(s[i]));
        assert(s[i] as u32 <= 0x7f);
    }
    assert(plain_host(c));
    assert(c[0] != '[');
    assert(unbracketed(c) == c);
    assert(!c.contains(':') && !c.contains('[') && !c.contains(']'));
    colonless_is_not_ipv6(c);
    if is_address(c) {
        ipv4_is_written(c);
    } else {
        let labels = split(d, '.');
        split_then_join(d, '.');
        split_of_lowered(d);
        assert(labels.last().len() > 0) by {
            assert(dns_label(labels[labels.len() - 1]));
        }
        assert(d.last() != '.');
        assert(c.last() == lower_ascii(d.last()));
        assert(without_root_dot(c) == c);
        assert forall|i: int| 0 <= i < split(c, '.').len() implies dns_label(
            #[trigger] split(c, '.')[i],
        ) by {
            let label = labels[i];
            assert(dns_label(label));
            assert(split(c, '.')[i] == lowered(label));
            assert forall|k: int| 0 <= k < label.len() implies alphanumeric(
                #[trigger] lowered(label)[k],
            ) || lowered(label)[k] == '-' by {
                assert(alphanumeric(label[k]) || label[k] == '-');
            }
        }
        assert(lowered(c) =~= c);
        if invalid_literal(c) {
            assert forall|i: int| 0 <= i < 4 implies decimal_digits(#[trigger] labels[i]) by {
                assert(split(c, '.')[i] == lowered(labels[i]));
                assert forall|k: int| 0 <= k < labels[i].len() implies '0'
                    <= #[trigger] labels[i][k] <= '9' by {
                    assert('0' <= lowered(labels[i])[k] <= '9');
                }
            }
            assert forall|i: int| 0 <= i < d.len() implies #[trigger] d[i] == c[i] by {
                decimal_field_or_dot(d, i);
            }
            assert(c =~= d);
        }
    }
}

/// In a text whose fields between dots have only decimal digits, every character
/// is a digit or a dot.
proof fn decimal_field_or_dot(s: Seq<char>, i: int)
    requires
        0 <= i < s.len(),
        forall|k: int|
            0 <= k < split(s, '.').len() ==> decimal_digits(#[trigger] split(s, '.')[k]) || split(
                s,
                '.',
            )[k].len() == 0,
    ensures
        '0' <= s[i] <= '9' || s[i] == '.',
    decreases s.len(),
{
    let init = s.drop_last();
    let before = split(init, '.');
    let parts = split(s, '.');
    split_then_join(init, '.');
    if s.last() != '.' {
        let last = parts[before.len() - 1];
        assert(last == before.last().push(s.last()));
        assert(last.last() == s.last());
        assert(decimal_digits(last));
    }
    if i < init.len() {
        assert forall|k: int| 0 <= k < before.len() implies decimal_digits(#[trigger] before[k])
            || before[k].len() == 0 by {
            if s.last() == '.' || k < before.len() - 1 {
                assert(parts[k] == before[k]);
            } else {
                let last = parts[k];
                assert forall|m: int| 0 <= m < before[k].len() implies '0'
                    <= #[trigger] before[k][m] <= '9' by {
                    assert(last[m] == before[k][m]);
                }
            }
        }
        decimal_field_or_dot(init, i);
        assert(init[i] == s[i]);
    }
}

/// A canonical host is its own canonical form.
pub proof fn canonical_host_is_stable(s: Seq<char>)
    requires
        canonical(s) is Some,
    ensures
        canonical(canonical(s)->0) == canonical(s),
{
    if is_address(unbracketed(s)) {
        canonical_address_is_stable(unbracketed(s));
        let c = canonical(s)->0;
        assert forall|i: int| 0 <= i < c.len() implies !white_space(#[trigger] c[i]) && c[i] as u32
            <= 0x7f by {}
        assert(plain_host(c));
        assert(c[0] != '[');
        assert(unbracketed(c) == c);
    } else {
        canonical_name_is_stable(s);
    }
}

} // verus!
