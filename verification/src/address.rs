//! Textual IP addresses: which texts denote one, and how one is written.

use vstd::prelude::*;

use crate::text::{
    characters, decimal, digit_in, fields, hexadecimal, join, number, number_of_prefix, numeral,
    numeral_is_read, numeral_is_written, plain_digit, split, split_of_appended, split_of_field,
    split_then_join, text_of, views,
};

verus! {

/// An IP address: four octets or eight groups of sixteen bits.
#[derive(Debug, Clone, Copy)]
pub enum Address {
    V4([u8; 4]),
    V6([u16; 8]),
}

/// An octet in decimal: at most three digits, no superfluous leading zero.
pub open spec fn octet(s: Seq<char>) -> Option<u8> {
    if 1 <= s.len() <= 3 && (s.len() == 1 || s[0] != '0') {
        match number(s, 10) {
            Some(value) if value <= 255 => Some(value as u8),
            _ => None,
        }
    } else {
        None
    }
}

/// The octets of a dotted-decimal IPv4 address.
pub open spec fn ipv4(s: Seq<char>) -> Option<Seq<u8>> {
    let parts = split(s, '.');
    if parts.len() == 4 && (forall|i: int| 0 <= i < 4 ==> octet(#[trigger] parts[i]) is Some) {
        Some(Seq::new(4, |i: int| octet(parts[i])->0))
    } else {
        None
    }
}

/// A group of an IPv6 address: one to four hexadecimal digits.
pub open spec fn group(s: Seq<char>) -> Option<u16> {
    if 1 <= s.len() <= 4 {
        match number(s, 16) {
            Some(value) => Some(value as u16),
            None => None,
        }
    } else {
        None
    }
}

/// Two octets as one group.
pub open spec fn pair(high: u8, low: u8) -> u16 {
    (high * 256 + low) as u16
}

/// The groups that the fields of a colon-separated list denote. The last field
/// may be an IPv4 address, which stands for two groups, where `embedded`.
pub open spec fn groups_of(parts: Seq<Seq<char>>, embedded: bool) -> Option<Seq<u16>>
    decreases parts.len(),
{
    if parts.len() == 0 {
        Some(Seq::empty())
    } else {
        match groups_of(parts.drop_last(), false) {
            None => None,
            Some(before) => match (group(parts.last()), ipv4(parts.last())) {
                (Some(value), _) => Some(before.push(value)),
                (None, Some(octets)) if embedded => Some(
                    before.push(pair(octets[0], octets[1])).push(pair(octets[2], octets[3])),
                ),
                _ => None,
            },
        }
    }
}

/// The groups of one side of an IPv6 address.
pub open spec fn groups(s: Seq<char>, embedded: bool) -> Option<Seq<u16>> {
    if s.len() == 0 {
        Some(Seq::empty())
    } else {
        groups_of(split(s, ':'), embedded)
    }
}

/// Whether `s` holds two colons in a row at `at`.
pub open spec fn double_colon(s: Seq<char>, at: int) -> bool {
    0 <= at && at + 1 < s.len() && s[at] == ':' && s[at + 1] == ':'
}

/// The position of the first double colon.
pub open spec fn gap(s: Seq<char>) -> Option<int>
    decreases s.len(),
{
    if s.len() < 2 {
        None
    } else {
        match gap(s.drop_last()) {
            Some(at) => Some(at),
            None => if double_colon(s, s.len() - 2) {
                Some(s.len() - 2)
            } else {
                None
            },
        }
    }
}

/// The eight groups of an IPv6 address. A double colon stands for as many zero
/// groups as are missing, at least one.
pub open spec fn ipv6(s: Seq<char>) -> Option<Seq<u16>> {
    match gap(s) {
        None => match groups(s, true) {
            Some(all) if all.len() == 8 => Some(all),
            _ => None,
        },
        Some(at) => match (groups(s.take(at), false), groups(s.skip(at + 2), true)) {
            (Some(head), Some(tail)) if head.len() + tail.len() <= 7 => Some(
                head + Seq::new((8 - head.len() - tail.len()) as nat, |i: int| 0u16) + tail,
            ),
            _ => None,
        },
    }
}

/// Whether `s` is the text of an IP address of either version.
pub open spec fn is_address(s: Seq<char>) -> bool {
    ipv4(s) is Some || ipv6(s) is Some
}

/// Reads at most four digits.
fn number_in(s: &Vec<char>, base: u32) -> (result: Option<u32>)
    requires
        2 <= base <= 16,
        s.len() <= 4,
    ensures
        match result {
            Some(value) => number(s@, base as nat) == Some(value as nat) && value < 65536,
            None => number(s@, base as nat) is None,
        },
{
    let mut value: u32 = 0;
    let mut i: usize = 0;
    let mut bound: u32 = 1;
    assert(s@.take(0) == Seq::<char>::empty());
    while i < s.len()
        invariant
            2 <= base <= 16,
            i <= s.len() <= 4,
            value < bound,
            i == 0 ==> bound == 1,
            i == 1 ==> bound <= 16,
            i == 2 ==> bound <= 256,
            i == 3 ==> bound <= 4096,
            i == 4 ==> bound <= 65536,
            number(s@.take(i as int), base as nat) == Some(value as nat),
        decreases s.len() - i,
    {
        assert(s@.take(i + 1).drop_last() == s@.take(i as int));
        match digit_in(s[i], base) {
            None => {
                proof {
                    number_of_prefix(s@, i + 1, base as nat);
                }
                return None;
            },
            Some(low) => {
                assert(value * base + low < bound * base) by (nonlinear_arith)
                    requires
                        value < bound,
                        low < base,
                ;
                assert(bound * base <= bound * 16) by (nonlinear_arith)
                    requires
                        base <= 16,
                ;
                value = value * base + low;
                bound = bound * base;
            },
        }
        i += 1;
    }
    assert(s@.take(s@.len() as int) == s@);
    Some(value)
}

fn parse_octet(s: &str) -> (result: Option<u8>)
    ensures
        result == octet(s@),
{
    let all = characters(s);
    if all.len() < 1 || all.len() > 3 || (all.len() > 1 && all[0] == '0') {
        return None;
    }
    match number_in(&all, 10) {
        Some(value) => if value <= 255 {
            Some(value as u8)
        } else {
            None
        },
        None => None,
    }
}

/// Reads a dotted-decimal IPv4 address.
pub fn parse_ipv4(s: &str) -> (result: Option<[u8; 4]>)
    ensures
        match result {
            Some(octets) => ipv4(s@) == Some(octets@),
            None => ipv4(s@) is None,
        },
{
    let parts = fields(s, '.');
    let ghost texts = split(s@, '.');
    assert(texts.len() == parts.len());
    if parts.len() != 4 {
        return None;
    }
    assert(forall|i: int| 0 <= i < 4 ==> #[trigger] texts[i] == parts@[i]@);
    match (
        parse_octet(&parts[0]),
        parse_octet(&parts[1]),
        parse_octet(&parts[2]),
        parse_octet(&parts[3]),
    ) {
        (Some(a), Some(b), Some(c), Some(d)) => {
            let octets: [u8; 4] = [a, b, c, d];
            assert(octet(texts[0]) == Some(a));
            assert(octet(texts[1]) == Some(b));
            assert(octet(texts[2]) == Some(c));
            assert(octet(texts[3]) == Some(d));
            assert(ipv4(s@)->0 =~= octets@);
            Some(octets)
        },
        _ => {
            assert(octet(texts[0]) is None || octet(texts[1]) is None || octet(texts[2]) is None
                || octet(texts[3]) is None);
            None
        },
    }
}

fn parse_group(s: &str) -> (result: Option<u16>)
    ensures
        result == group(s@),
{
    let all = characters(s);
    if all.len() < 1 || all.len() > 4 {
        return None;
    }
    match number_in(&all, 16) {
        Some(value) => Some(value as u16),
        None => None,
    }
}

/// A list of fields with an unreadable beginning is unreadable.
proof fn groups_of_prefix(parts: Seq<Seq<char>>, length: int, embedded: bool)
    requires
        0 <= length < parts.len(),
        groups_of(parts.take(length), false) is None,
    ensures
        groups_of(parts, embedded) is None,
    decreases parts.len() - length,
{
    if length == parts.len() - 1 {
        assert(parts.drop_last() == parts.take(length));
    } else {
        assert(parts.take(length + 1).drop_last() == parts.take(length));
        groups_of_prefix(parts, length + 1, embedded);
    }
}

fn parse_groups(s: &str, embedded: bool) -> (result: Option<Vec<u16>>)
    ensures
        match result {
            Some(values) => groups(s@, embedded) == Some(values@),
            None => groups(s@, embedded) is None,
        },
{
    let mut values: Vec<u16> = Vec::new();
    if s.is_empty() {
        assert(values@ =~= Seq::<u16>::empty());
        return Some(values);
    }
    let parts = fields(s, ':');
    let ghost texts = split(s@, ':');
    let mut i: usize = 0;
    assert(texts.take(0) == Seq::<Seq<char>>::empty());
    assert(values@ =~= Seq::<u16>::empty());
    while i < parts.len()
        invariant
            i <= parts.len(),
            texts == views(parts@),
            texts == split(s@, ':'),
            s@.len() > 0,
            i < parts.len() ==> groups_of(texts.take(i as int), false) == Some(values@),
            i == parts.len() ==> groups_of(texts, embedded) == Some(values@),
        decreases parts.len() - i,
    {
        let last = i + 1 == parts.len();
        assert(texts.take(i + 1).drop_last() == texts.take(i as int));
        assert(texts.take(i + 1).last() == parts@[i as int]@);
        assert(last ==> texts.take(i + 1) == texts);
        match parse_group(&parts[i]) {
            Some(value) => {
                values.push(value);
            },
            None => {
                match parse_ipv4(&parts[i]) {
                    Some(octets) if last && embedded => {
                        values.push(octets[0] as u16 * 256 + octets[1] as u16);
                        values.push(octets[2] as u16 * 256 + octets[3] as u16);
                    },
                    _ => {
                        proof {
                            if !last {
                                groups_of_prefix(texts, i + 1, embedded);
                            }
                        }
                        return None;
                    },
                }
            },
        }
        i += 1;
    }
    proof {
        split_then_join(s@, ':');
    }
    Some(values)
}

/// The first double colon is the least position at which one stands.
pub proof fn gap_is_first(s: Seq<char>)
    ensures
        match gap(s) {
            Some(at) => double_colon(s, at) && forall|i: int|
                0 <= i < at ==> !#[trigger] double_colon(s, i),
            None => forall|i: int| !#[trigger] double_colon(s, i),
        },
    decreases s.len(),
{
    if s.len() >= 2 {
        let init = s.drop_last();
        gap_is_first(init);
        assert forall|i: int| i < s.len() - 2 implies double_colon(s, i) == double_colon(init, i) by {}
    }
}

fn find_gap(all: &Vec<char>) -> (result: Option<usize>)
    ensures
        match result {
            Some(at) => gap(all@) == Some(at as int) && double_colon(all@, at as int),
            None => gap(all@) is None,
        },
{
    proof {
        gap_is_first(all@);
    }
    let mut at: usize = 0;
    while at < all.len()
        invariant
            at <= all.len(),
            match gap(all@) {
                Some(first) => double_colon(all@, first) && forall|i: int|
                    0 <= i < first ==> !#[trigger] double_colon(all@, i),
                None => forall|i: int| !#[trigger] double_colon(all@, i),
            },
            forall|i: int| 0 <= i < at ==> !#[trigger] double_colon(all@, i),
        decreases all.len() - at,
    {
        if at + 1 < all.len() && all[at] == ':' && all[at + 1] == ':' {
            assert(double_colon(all@, at as int));
            return Some(at);
        }
        at += 1;
    }
    None
}

fn eight(values: &Vec<u16>) -> (result: [u16; 8])
    requires
        values.len() == 8,
    ensures
        result@ == values@,
{
    let result: [u16; 8] = [
        values[0],
        values[1],
        values[2],
        values[3],
        values[4],
        values[5],
        values[6],
        values[7],
    ];
    assert(result@ =~= values@);
    result
}

/// Reads an IPv6 address.
pub fn parse_ipv6(s: &str) -> (result: Option<[u16; 8]>)
    ensures
        match result {
            Some(values) => ipv6(s@) == Some(values@),
            None => ipv6(s@) is None,
        },
{
    let all = characters(s);
    match find_gap(&all) {
        None => match parse_groups(s, true) {
            Some(values) => if values.len() == 8 {
                Some(eight(&values))
            } else {
                None
            },
            None => None,
        },
        Some(at) => {
            let before = text_of(vstd::slice::slice_subrange(all.as_slice(), 0, at));
            let after = text_of(vstd::slice::slice_subrange(all.as_slice(), at + 2, all.len()));
            assert(before@ == s@.take(at as int));
            assert(after@ == s@.skip(at + 2));
            match (parse_groups(&before, false), parse_groups(&after, true)) {
                (Some(head), Some(tail)) => {
                    if head.len() > 7 || tail.len() > 7 - head.len() {
                        return None;
                    }
                    let mut values: Vec<u16> = Vec::new();
                    let mut i: usize = 0;
                    while i < head.len()
                        invariant
                            i <= head.len(),
                            values@ == head@.take(i as int),
                        decreases head.len() - i,
                    {
                        values.push(head[i]);
                        i += 1;
                    }
                    assert(values@ == head@);
                    let missing: usize = 8 - head.len() - tail.len();
                    let mut filled: usize = 0;
                    while filled < missing
                        invariant
                            filled <= missing,
                            values@ == head@ + Seq::new(filled as nat, |i: int| 0u16),
                        decreases missing - filled,
                    {
                        values.push(0);
                        filled += 1;
                        assert(values@ =~= head@ + Seq::new(filled as nat, |i: int| 0u16));
                    }
                    let ghost front = values@;
                    let mut j: usize = 0;
                    assert(front + tail@.take(0) =~= front);
                    while j < tail.len()
                        invariant
                            j <= tail.len(),
                            values@ == front + tail@.take(j as int),
                        decreases tail.len() - j,
                    {
                        values.push(tail[j]);
                        j += 1;
                        assert(values@ =~= front + tail@.take(j as int));
                    }
                    assert(tail@.take(tail@.len() as int) =~= tail@);
                    Some(eight(&values))
                },
                _ => None,
            }
        },
    }
}

/// Reads an IP address of either version.
pub fn parse_address(s: &str) -> (result: Option<Address>)
    ensures
        match result {
            Some(Address::V4(octets)) => ipv4(s@) == Some(octets@),
            Some(Address::V6(values)) => ipv4(s@) is None && ipv6(s@) == Some(values@),
            None => !is_address(s@),
        },
{
    match parse_ipv4(s) {
        Some(octets) => Some(Address::V4(octets)),
        None => match parse_ipv6(s) {
            Some(values) => Some(Address::V6(values)),
            None => None,
        },
    }
}

/// Four octets in dotted decimal.
pub open spec fn ipv4_text(octets: Seq<u8>) -> Seq<char> {
    numeral(octets[0] as nat, 10).push('.') + numeral(octets[1] as nat, 10).push('.') + numeral(
        octets[2] as nat,
        10,
    ).push('.') + numeral(octets[3] as nat, 10)
}

/// Groups in lower-case hexadecimal, with colons between them.
pub open spec fn groups_text(values: Seq<u16>) -> Seq<char>
    decreases values.len(),
{
    if values.len() == 0 {
        Seq::empty()
    } else if values.len() == 1 {
        numeral(values[0] as nat, 16)
    } else {
        groups_text(values.drop_last()).push(':') + numeral(values.last() as nat, 16)
    }
}

/// Whether the `length` groups from `start` on are zero.
pub open spec fn zero_run(values: Seq<u16>, start: int, length: int) -> bool {
    &&& 0 <= start
    &&& 0 < length
    &&& start + length <= values.len()
    &&& forall|i: int| start <= i < start + length ==> values[i] == 0
}

/// Whether a run of zero groups is a longest one, and the first of its length.
pub open spec fn longest_zero_run(values: Seq<u16>, start: int, length: int) -> bool {
    &&& zero_run(values, start, length)
    &&& forall|s: int, l: int| #[trigger]
        zero_run(values, s, l) ==> l < length || (l == length && start <= s)
}

/// The canonical text of an IPv6 address: an IPv4-mapped address shows its IPv4
/// address, the first longest run of at least two zero groups is compressed,
/// any other address is written in full.
pub open spec fn ipv6_text(values: Seq<u16>) -> Seq<char> {
    if values.take(5) == seq![0u16, 0, 0, 0, 0] && values[5] == 0xffff {
        "::ffff:"@ + ipv4_text(
            seq![
                (values[6] / 256) as u8,
                (values[6] % 256) as u8,
                (values[7] / 256) as u8,
                (values[7] % 256) as u8,
            ],
        )
    } else if exists|run: (int, int)|
        run.1 > 1 && #[trigger] longest_zero_run(values, run.0, run.1) {
        let run = choose|run: (int, int)| #[trigger] longest_zero_run(values, run.0, run.1);
        groups_text(values.take(run.0)) + "::"@ + groups_text(values.skip(run.0 + run.1))
    } else {
        groups_text(values)
    }
}

/// The canonical text of the address that `s` denotes.
pub open spec fn address_text(s: Seq<char>) -> Option<Seq<char>> {
    match (ipv4(s), ipv6(s)) {
        (Some(octets), _) => Some(ipv4_text(octets)),
        (None, Some(values)) => Some(ipv6_text(values)),
        (None, None) => None,
    }
}

fn show_ipv4(a: u8, b: u8, c: u8, d: u8) -> (result: String)
    ensures
        result@ == ipv4_text(seq![a, b, c, d]),
{
    let mut result = decimal(a as u64);
    result.push('.');
    result.append(&decimal(b as u64));
    result.push('.');
    result.append(&decimal(c as u64));
    result.push('.');
    result.append(&decimal(d as u64));
    assert(result@ =~= ipv4_text(seq![a, b, c, d]));
    result
}

fn show_groups(values: &[u16; 8], from: usize, to: usize) -> (result: String)
    requires
        from <= to <= 8,
    ensures
        result@ == groups_text(values@.subrange(from as int, to as int)),
{
    let mut result: String = String::new();
    let mut i: usize = from;
    while i < to
        invariant
            from <= i <= to <= 8,
            result@ == groups_text(values@.subrange(from as int, i as int)),
        decreases to - i,
    {
        let ghost before = values@.subrange(from as int, i as int);
        let ghost after = values@.subrange(from as int, i + 1);
        assert(after.drop_last() =~= before);
        if i > from {
            result.push(':');
        }
        result.append(&hexadecimal(values[i] as u64));
        assert(result@ =~= groups_text(after));
        i += 1;
    }
    result
}

/// Finds the first longest run of zero groups; the length is 0 if there is none.
fn find_longest_zero_run(values: &[u16; 8]) -> (result: (usize, usize))
    ensures
        result.1 == 0 ==> forall|s: int, l: int| !#[trigger] zero_run(values@, s, l),
        result.1 > 0 ==> longest_zero_run(values@, result.0 as int, result.1 as int),
{
    let mut best: (usize, usize) = (0, 0);
    let mut start: usize = 0;
    while start < 8
        invariant
            start <= 8,
            best.1 == 0 ==> forall|s: int, l: int|
                s < start ==> !#[trigger] zero_run(values@, s, l),
            best.1 > 0 ==> zero_run(values@, best.0 as int, best.1 as int) && best.0 < start
                && forall|s: int, l: int|
                #![trigger zero_run(values@, s, l)]
                s < start && zero_run(values@, s, l) ==> l < best.1 || (l == best.1 && best.0
                    <= s),
        decreases 8 - start,
    {
        let mut length: usize = 0;
        while start + length < 8 && values[start + length] == 0
            invariant
                start + length <= 8,
                start < 8,
                forall|i: int| start <= i < start + length ==> values@[i] == 0,
            decreases 8 - length,
        {
            length += 1;
        }
        assert forall|l: int| #[trigger] zero_run(values@, start as int, l) implies l <= length by {
            if l > length {
                assert(values@[start + length] == 0);
            }
        }
        if length > best.1 {
            assert(zero_run(values@, start as int, length as int));
            best = (start, length);
        }
        start += 1;
    }
    best
}

/// Writes an IP address in its canonical form.
pub fn show_address(address: &Address) -> (result: String)
    ensures
        match *address {
            Address::V4(octets) => result@ == ipv4_text(octets@),
            Address::V6(values) => result@ == ipv6_text(values@),
        },
{
    match address {
        Address::V4(octets) => {
            assert(octets@ =~= seq![octets@[0], octets@[1], octets@[2], octets@[3]]);
            show_ipv4(octets[0], octets[1], octets[2], octets[3])
        },
        Address::V6(values) => {
            if values[0] == 0 && values[1] == 0 && values[2] == 0 && values[3] == 0 && values[4]
                == 0 && values[5] == 0xffff {
                assert(values@.take(5) =~= seq![0u16, 0, 0, 0, 0]);
                let mut result: String = "::ffff:".to_owned();
                result.append(
                    &show_ipv4(
                        (values[6] / 256) as u8,
                        (values[6] % 256) as u8,
                        (values[7] / 256) as u8,
                        (values[7] % 256) as u8,
                    ),
                );
                return result;
            }
            assert(!(values@.take(5) == seq![0u16, 0, 0, 0, 0] && values@[5] == 0xffff)) by {
                assert(forall|i: int| 0 <= i < 5 ==> values@.take(5)[i] == values@[i]);
                if values@.take(5) == seq![0u16, 0, 0, 0, 0] {
                    assert(values@.take(5)[0] == 0);
                    assert(values@.take(5)[1] == 0);
                    assert(values@.take(5)[2] == 0);
                    assert(values@.take(5)[3] == 0);
                    assert(values@.take(5)[4] == 0);
                }
            }
            let (start, length) = find_longest_zero_run(values);
            if length > 1 {
                let mut result = show_groups(values, 0, start);
                result.append("::");
                result.append(&show_groups(values, start + length, 8));
                assert(values@.subrange(0, start as int) =~= values@.take(start as int));
                assert(values@.subrange(start + length, 8) =~= values@.skip(start + length));
                let ghost found = (start as int, length as int);
                assert(longest_zero_run(values@, found.0, found.1));
                assert(forall|run: (int, int)| #[trigger]
                    longest_zero_run(values@, run.0, run.1) ==> run == found);
                result
            } else {
                assert forall|run: (int, int)| #[trigger]
                    longest_zero_run(values@, run.0, run.1) implies run.1 <= 1 by {}
                assert(values@.subrange(0, 8) =~= values@);
                show_groups(values, 0, 8)
            }
        },
    }
}

/// Whether a text has only characters of an address, and few enough of them.
pub open spec fn address_characters(s: Seq<char>, longest: int) -> bool {
    &&& 0 < s.len() <= longest
    &&& forall|i: int|
        0 <= i < s.len() ==> plain_digit(#[trigger] s[i]) || s[i] == ':' || s[i] == '.'
}

proof fn octet_is_read(value: u8)
    ensures
        octet(numeral(value as nat, 10)) == Some(value),
        1 <= numeral(value as nat, 10).len() <= 3,
        !numeral(value as nat, 10).contains('.'),
        !numeral(value as nat, 10).contains(':'),
        address_characters(numeral(value as nat, 10), 3),
{
    numeral_is_read(value as nat, 10);
    reveal_with_fuel(numeral, 4);
}

proof fn octet_is_written(s: Seq<char>)
    requires
        octet(s) is Some,
    ensures
        numeral(octet(s)->0 as nat, 10) == s,
{
    numeral_is_written(s, number(s, 10)->0);
}

/// An IPv4 address is read from its text.
pub proof fn ipv4_is_read(octets: Seq<u8>)
    requires
        octets.len() == 4,
    ensures
        ipv4(ipv4_text(octets)) == Some(octets),
        ipv4_text(octets).len() >= 7,
        !ipv4_text(octets).contains(':'),
        address_characters(ipv4_text(octets), 15),
{
    let a = numeral(octets[0] as nat, 10);
    let b = numeral(octets[1] as nat, 10);
    let c = numeral(octets[2] as nat, 10);
    let d = numeral(octets[3] as nat, 10);
    octet_is_read(octets[0]);
    octet_is_read(octets[1]);
    octet_is_read(octets[2]);
    octet_is_read(octets[3]);
    let two = a.push('.') + b;
    let three = two.push('.') + c;
    let four = three.push('.') + d;
    split_of_field(a, '.');
    split_of_appended(a, b, '.');
    split_of_appended(two, c, '.');
    split_of_appended(three, d, '.');
    let s = ipv4_text(octets);
    assert(s =~= four);
    let parts = split(s, '.');
    assert(parts =~= seq![a, b, c, d]);
    assert(ipv4(s)->0 =~= octets);
    assert forall|i: int| 0 <= i < s.len() implies plain_digit(#[trigger] s[i]) || s[i] == '.' by {
        let (m, n, o) = (a.len() + 1, two.len() + 1, three.len() + 1);
        if i < a.len() {
            assert(s[i] == a[i]);
        } else if m <= i < two.len() {
            assert(s[i] == b[i - m]);
        } else if n <= i < three.len() {
            assert(s[i] == c[i - n]);
        } else if o <= i {
            assert(s[i] == d[i - o]);
        }
        numeral_is_read(octets[0] as nat, 10);
        numeral_is_read(octets[1] as nat, 10);
        numeral_is_read(octets[2] as nat, 10);
        numeral_is_read(octets[3] as nat, 10);
    }
}

/// The text of an IPv4 address is the only one that is read as that address.
pub proof fn ipv4_is_written(s: Seq<char>)
    requires
        ipv4(s) is Some,
    ensures
        ipv4_text(ipv4(s)->0) == s,
{
    let parts = split(s, '.');
    split_then_join(s, '.');
    octet_is_written(parts[0]);
    octet_is_written(parts[1]);
    octet_is_written(parts[2]);
    octet_is_written(parts[3]);
    reveal_with_fuel(join, 5);
    assert(ipv4_text(ipv4(s)->0) =~= join(parts, '.'));
}

proof fn group_is_read(value: u16)
    ensures
        group(numeral(value as nat, 16)) == Some(value),
        1 <= numeral(value as nat, 16).len() <= 4,
        !numeral(value as nat, 16).contains(':'),
{
    numeral_is_read(value as nat, 16);
    reveal_with_fuel(numeral, 5);
}

/// Whether a text has neither two colons in a row nor one at either end.
spec fn inner_colons(s: Seq<char>) -> bool {
    &&& s.len() > 0
    &&& s.first() != ':'
    &&& s.last() != ':'
    &&& forall|i: int| !#[trigger] double_colon(s, i)
}

proof fn groups_are_read(values: Seq<u16>, embedded: bool)
    requires
        values.len() >= 1,
    ensures
        groups(groups_text(values), embedded) == Some(values),
        split(groups_text(values), ':') == Seq::new(
            values.len(),
            |i: int| numeral(values[i] as nat, 16),
        ),
        groups_of(split(groups_text(values), ':'), embedded) == Some(values),
        inner_colons(groups_text(values)),
        groups_text(values).len() <= 5 * values.len(),
        forall|i: int|
            0 <= i < groups_text(values).len() ==> plain_digit(#[trigger] groups_text(values)[i])
                || groups_text(values)[i] == ':',
    decreases values.len(),
{
    let s = groups_text(values);
    let last = numeral(values.last() as nat, 16);
    group_is_read(values.last());
    numeral_is_read(values.last() as nat, 16);
    let parts = Seq::new(values.len(), |i: int| numeral(values[i] as nat, 16));
    if values.len() == 1 {
        split_of_field(s, ':');
        assert(parts =~= seq![s]);
        assert(parts.drop_last() =~= Seq::empty());
        assert(groups_of(parts.drop_last(), false) == Some(Seq::<u16>::empty()));
        assert(Seq::<u16>::empty().push(values[0]) =~= values);
        assert forall|i: int| !#[trigger] double_colon(s, i) by {}
    } else {
        let before = groups_text(values.drop_last());
        groups_are_read(values.drop_last(), false);
        split_of_appended(before, last, ':');
        assert(parts.drop_last() =~= split(before, ':'));
        assert(split(s, ':') =~= parts);
        assert(values.drop_last().push(values.last()) =~= values);
        assert forall|i: int| !#[trigger] double_colon(s, i) by {
            if i >= 0 && i + 1 < before.len() {
                assert(!double_colon(before, i));
            } else if i >= 0 && i + 1 < s.len() {
                if i == before.len() - 1 {
                    assert(s[i] == before.last());
                } else {
                    assert(s[i + 1] == last[i - before.len()]);
                }
            }
        }
        assert forall|i: int| 0 <= i < s.len() implies plain_digit(#[trigger] s[i]) || s[i]
            == ':' by {
            if i < before.len() {
                assert(s[i] == before[i]);
            } else if i > before.len() {
                assert(s[i] == last[i - before.len() - 1]);
            }
        }
        assert(s.first() == before.first());
        assert(s.last() == last.last());
    }
}

proof fn gap_is_at(s: Seq<char>, at: int)
    requires
        double_colon(s, at),
        forall|i: int| 0 <= i < at ==> !#[trigger] double_colon(s, i),
    ensures
        gap(s) == Some(at),
{
    gap_is_first(s);
}

/// The text of an IPv6 address, in short: what stands before the zeros that are
/// left out, and what stands behind them.
proof fn shortened_is_read(head: Seq<u16>, tail: Seq<u16>)
    requires
        head.len() + tail.len() <= 7,
    ensures
        ({
            let s = groups_text(head) + "::"@ + groups_text(tail);
            &&& ipv6(s) == Some(
                head + Seq::new((8 - head.len() - tail.len()) as nat, |i: int| 0u16) + tail,
            )
            &&& ipv4(s) is None
            &&& address_characters(s, 45)
        }),
{
    reveal_strlit("::");
    let (before, after) = (groups_text(head), groups_text(tail));
    let s = before + "::"@ + after;
    let at = before.len() as int;
    if head.len() > 0 {
        groups_are_read(head, false);
    }
    if tail.len() > 0 {
        groups_are_read(tail, true);
    }
    assert(double_colon(s, at));
    assert forall|i: int| 0 <= i < at implies !#[trigger] double_colon(s, i) by {
        if i + 1 < at {
            assert(!double_colon(before, i));
            assert(s[i] == before[i] && s[i + 1] == before[i + 1]);
        } else {
            assert(s[i] == before.last());
        }
    }
    gap_is_at(s, at);
    assert(s.take(at) =~= before);
    assert(s.skip(at + 2) =~= after);
    if head.len() == 0 {
        assert(head =~= Seq::empty());
    }
    if tail.len() == 0 {
        assert(tail =~= Seq::empty());
    }
    assert forall|i: int| 0 <= i < s.len() implies plain_digit(#[trigger] s[i]) || s[i] == ':' by {
        if i < at {
            assert(s[i] == before[i]);
        } else if i >= at + 2 {
            assert(s[i] == after[i - at - 2]);
        }
    }
    dotless_is_not_ipv4(s);
}

proof fn dotless_is_not_ipv4(s: Seq<char>)
    requires
        forall|i: int| 0 <= i < s.len() ==> plain_digit(#[trigger] s[i]) || s[i] == ':',
    ensures
        ipv4(s) is None,
{
    split_of_field(s, '.');
}

proof fn mapped_groups_are_read(octets: Seq<u8>)
    requires
        octets.len() == 4,
    ensures
        groups(seq!['f', 'f', 'f', 'f'].push(':') + ipv4_text(octets), true) == Some(
            seq![0xffffu16, pair(octets[0], octets[1]), pair(octets[2], octets[3])],
        ),
{
    let dotted = ipv4_text(octets);
    let group_text = seq!['f', 'f', 'f', 'f'];
    let after = group_text.push(':') + dotted;
    ipv4_is_read(octets);
    split_of_field(group_text, ':');
    split_of_appended(group_text, dotted, ':');
    let parts = split(after, ':');
    assert(parts =~= seq![group_text, dotted]);
    let first = parts.drop_last();
    assert(first =~= seq![group_text]);
    assert(first.drop_last() =~= Seq::empty());
    mapped_prefix_is_read();
    assert(group(dotted) is None);
    let empty = Seq::<u16>::empty();
    assert(groups_of(first.drop_last(), false) == Some(empty));
    assert(groups_of(first, false) == Some(empty.push(0xffffu16)));
    let tail = seq![0xffffu16, pair(octets[0], octets[1]), pair(octets[2], octets[3])];
    assert(empty.push(0xffffu16).push(pair(octets[0], octets[1])).push(
        pair(octets[2], octets[3]),
    ) =~= tail);
}

proof fn mapped_prefix_is_read()
    ensures
        group(seq!['f', 'f', 'f', 'f']) == Some(0xffffu16),
{
    let s = seq!['f', 'f', 'f', 'f'];
    assert(s.drop_last() =~= seq!['f', 'f', 'f']);
    assert(seq!['f', 'f', 'f'].drop_last() =~= seq!['f', 'f']);
    assert(seq!['f', 'f'].drop_last() =~= seq!['f']);
    assert(seq!['f'].drop_last() =~= Seq::<char>::empty());
    assert(number(Seq::<char>::empty(), 16) == Some(0nat));
    assert(number(seq!['f'], 16) == Some(0xfnat));
    assert(number(seq!['f', 'f'], 16) == Some(0xffnat));
    assert(number(seq!['f', 'f', 'f'], 16) == Some(0xfffnat));
}

proof fn colon_first_is_not_ipv4(s: Seq<char>)
    requires
        s.len() > 0,
        s[0] == ':',
    ensures
        ipv4(s) is None,
{
    let parts = split(s, '.');
    split_then_join(s, '.');
    if ipv4(s) is Some {
        let first = parts[0];
        assert(octet(first) is Some);
        reveal_with_fuel(join, 5);
        assert(join(parts, '.')[0] == first[0]);
        assert(first.take(1).drop_last() =~= Seq::empty());
        number_of_prefix(first, 1, 10);
    }
}

/// The text of an IPv4-mapped address.
proof fn mapped_is_read(octets: Seq<u8>)
    requires
        octets.len() == 4,
    ensures
        ({
            let s = "::ffff:"@ + ipv4_text(octets);
            &&& ipv6(s) == Some(
                Seq::new(5, |i: int| 0u16) + seq![
                    0xffffu16,
                    pair(octets[0], octets[1]),
                    pair(octets[2], octets[3]),
                ],
            )
            &&& ipv4(s) is None
            &&& address_characters(s, 45)
        }),
{
    reveal_strlit("::ffff:");
    let dotted = ipv4_text(octets);
    let s = "::ffff:"@ + dotted;
    ipv4_is_read(octets);
    mapped_groups_are_read(octets);
    assert(double_colon(s, 0));
    gap_is_at(s, 0);
    assert(s.take(0) =~= Seq::empty());
    assert(s.skip(2) =~= seq!['f', 'f', 'f', 'f'].push(':') + dotted);
    let tail = seq![0xffffu16, pair(octets[0], octets[1]), pair(octets[2], octets[3])];
    assert(Seq::<u16>::empty() + Seq::new(5, |i: int| 0u16) + tail =~= Seq::new(5, |i: int| 0u16)
        + tail);
    colon_first_is_not_ipv4(s);
    assert forall|i: int| 0 <= i < s.len() implies plain_digit(#[trigger] s[i]) || s[i] == ':'
        || s[i] == '.' by {
        if i >= 7 {
            assert(s[i] == dotted[i - 7]);
        }
    }
}

/// An IPv6 address is read from its text, which is no IPv4 address.
pub proof fn ipv6_is_read(values: Seq<u16>)
    requires
        values.len() == 8,
    ensures
        ipv6(ipv6_text(values)) == Some(values),
        ipv4(ipv6_text(values)) is None,
        address_characters(ipv6_text(values), 45),
{
    if values.take(5) == seq![0u16, 0, 0, 0, 0] && values[5] == 0xffff {
        let octets = seq![
            (values[6] / 256) as u8,
            (values[6] % 256) as u8,
            (values[7] / 256) as u8,
            (values[7] % 256) as u8,
        ];
        mapped_is_read(octets);
        assert(pair(octets[0], octets[1]) == values[6]);
        assert(pair(octets[2], octets[3]) == values[7]);
        assert forall|i: int| 0 <= i < 5 implies #[trigger] values[i] == 0 by {
            assert(values.take(5)[i] == values[i]);
        }
        assert(Seq::new(5, |i: int| 0u16) + seq![
            0xffffu16,
            pair(octets[0], octets[1]),
            pair(octets[2], octets[3]),
        ] =~= values);
    } else if exists|run: (int, int)|
        run.1 > 1 && #[trigger] longest_zero_run(values, run.0, run.1) {
        let other = choose|run: (int, int)|
            run.1 > 1 && #[trigger] longest_zero_run(values, run.0, run.1);
        let run = choose|run: (int, int)| #[trigger] longest_zero_run(values, run.0, run.1);
        assert(zero_run(values, other.0, other.1) && zero_run(values, run.0, run.1));
        assert(run.1 == other.1);
        let (head, tail) = (values.take(run.0), values.skip(run.0 + run.1));
        shortened_is_read(head, tail);
        assert(head + Seq::new((8 - head.len() - tail.len()) as nat, |i: int| 0u16) + tail
            =~= values);
    } else {
        groups_are_read(values, true);
        gap_is_first(groups_text(values));
        dotless_is_not_ipv4(groups_text(values));
    }
}

/// The canonical text of an address is read as that address, and is its own
/// canonical text.
pub proof fn canonical_address_is_stable(s: Seq<char>)
    requires
        is_address(s),
    ensures
        address_text(address_text(s)->0) == address_text(s),
        address_characters(address_text(s)->0, 45),
        is_address(address_text(s)->0),
{
    match ipv4(s) {
        Some(octets) => ipv4_is_read(octets),
        None => ipv6_is_read(ipv6(s)->0),
    }
}

} // verus!
