//! Text as sequences of characters: the vocabulary that every parser and
//! validator of this crate is specified with.

use vstd::prelude::*;
use vstd::utf8::encode_utf8;
use vstd::utf8::encode_utf8_decode_utf8;
use vstd::utf8::valid_utf8;

verus! {

/// `String::push` appends one character.
pub assume_specification[ String::push ](text: &mut String, character: char)
    ensures
        final(text)@ == old(text)@.push(character),
;

/// Calls `String::from_utf8`: bytes are a text exactly when they are valid
/// UTF-8, and they are then that text's encoding.
#[verifier::external_body]
pub(crate) fn utf8_text(bytes: Vec<u8>) -> (result: Option<String>)
    ensures
        match result {
            Some(text) => valid_utf8(bytes@) && encode_utf8(text@) == bytes@,
            None => !valid_utf8(bytes@),
        },
{
    String::from_utf8(bytes).ok()
}

/// The characters with Unicode's `White_Space` property.
pub open spec fn white_space(c: char) -> bool {
    ||| '\u{9}' <= c <= '\u{d}'
    ||| c == ' '
    ||| c == '\u{85}'
    ||| c == '\u{a0}'
    ||| c == '\u{1680}'
    ||| '\u{2000}' <= c <= '\u{200a}'
    ||| c == '\u{2028}'
    ||| c == '\u{2029}'
    ||| c == '\u{202f}'
    ||| c == '\u{205f}'
    ||| c == '\u{3000}'
}

/// The characters of Unicode's general category `Cc`.
pub open spec fn control(c: char) -> bool {
    c <= '\u{1f}' || '\u{7f}' <= c <= '\u{9f}'
}

pub fn is_white_space(c: char) -> (result: bool)
    ensures
        result == white_space(c),
{
    ('\u{9}' <= c && c <= '\u{d}') || c == ' ' || c == '\u{85}' || c == '\u{a0}' || c == '\u{1680}'
        || ('\u{2000}' <= c && c <= '\u{200a}') || c == '\u{2028}' || c == '\u{2029}'
        || c == '\u{202f}' || c == '\u{205f}' || c == '\u{3000}'
}

pub fn is_control(c: char) -> (result: bool)
    ensures
        result == control(c),
{
    c <= '\u{1f}' || ('\u{7f}' <= c && c <= '\u{9f}')
}

/// The characters of a text, in order.
pub fn characters(text: &str) -> (result: Vec<char>)
    ensures
        result@ == text@,
{
    let mut result: Vec<char> = Vec::new();
    for c in iter: text.chars()
        invariant
            iter.seq() == text@,
            result@ == text@.take(iter.index()),
    {
        result.push(c);
    }
    assert(text@.take(text@.len() as int) == text@);
    result
}

/// The text made of `characters`.
pub fn text_of(characters: &[char]) -> (result: String)
    ensures
        result@ == characters@,
{
    let mut result: String = String::new();
    let mut i: usize = 0;
    while i < characters.len()
        invariant
            i <= characters.len(),
            result@ == characters@.take(i as int),
        decreases characters.len() - i,
    {
        result.push(characters[i]);
        i += 1;
    }
    assert(characters@.take(characters@.len() as int) == characters@);
    result
}

/// The number of bytes in a text's UTF-8 encoding.
pub fn byte_length(text: &str) -> (result: usize)
    ensures
        result == encode_utf8(text@).len(),
{
    text.as_bytes().len()
}

/// Whether two byte sequences are the same.
pub fn same_bytes(left: &[u8], right: &[u8]) -> (result: bool)
    ensures
        result == (left@ == right@),
{
    if left.len() != right.len() {
        return false;
    }
    let mut i: usize = 0;
    while i < left.len()
        invariant
            i <= left.len(),
            left.len() == right.len(),
            forall|j: int| 0 <= j < i ==> left@[j] == right@[j],
        decreases left.len() - i,
    {
        if left[i] != right[i] {
            return false;
        }
        i += 1;
    }
    assert(left@ =~= right@);
    true
}

/// Whether two texts hold the same characters.
pub fn same_text(left: &str, right: &str) -> (result: bool)
    ensures
        result == (left@ == right@),
{
    let result = same_bytes(left.as_bytes(), right.as_bytes());
    proof {
        encode_utf8_decode_utf8(left@);
        encode_utf8_decode_utf8(right@);
    }
    result
}

/// `s` without its leading white space.
pub open spec fn trim_start(s: Seq<char>) -> Seq<char>
    decreases s.len(),
{
    if s.len() > 0 && white_space(s.first()) {
        trim_start(s.drop_first())
    } else {
        s
    }
}

/// `s` without its trailing white space.
pub open spec fn trim_end(s: Seq<char>) -> Seq<char>
    decreases s.len(),
{
    if s.len() > 0 && white_space(s.last()) {
        trim_end(s.drop_last())
    } else {
        s
    }
}

/// `s` without white space at either end.
pub open spec fn trim(s: Seq<char>) -> Seq<char> {
    trim_end(trim_start(s))
}

/// Trimming drops one character of white space behind a text that has none at
/// its ends.
pub proof fn trim_drops_ending(s: Seq<char>, ending: char)
    requires
        s.len() > 0,
        !white_space(s[0]),
        !white_space(s.last()),
        white_space(ending),
    ensures
        trim(s.push(ending)) == s,
{
    let ended = s.push(ending);
    assert(ended.first() == s[0]);
    assert(trim_start(ended) == ended);
    assert(ended.last() == ending);
    assert(ended.drop_last() =~= s);
    assert(trim_end(s) == s);
}

/// Trims white space from both ends of a text.
pub fn trimmed(text: &str) -> (result: String)
    ensures
        result@ == trim(text@),
{
    let all = characters(text);
    let mut start: usize = 0;
    assert(all@.skip(0) == all@);
    while start < all.len() && is_white_space(all[start])
        invariant
            start <= all.len(),
            trim_start(all@) == trim_start(all@.skip(start as int)),
        decreases all.len() - start,
    {
        assert(all@.skip(start as int).drop_first() == all@.skip(start + 1));
        start += 1;
    }
    assert(trim_start(all@) == all@.skip(start as int));
    let mut end: usize = all.len();
    let ghost rest = all@.skip(start as int);
    assert(all@.subrange(start as int, end as int) == rest);
    while end > start && is_white_space(all[end - 1])
        invariant
            start <= end <= all.len(),
            trim_end(rest) == trim_end(all@.subrange(start as int, end as int)),
        decreases end,
    {
        assert(all@.subrange(start as int, end as int).drop_last() == all@.subrange(
            start as int,
            end - 1,
        ));
        end -= 1;
    }
    assert(trim_end(rest) == all@.subrange(start as int, end as int));
    text_of(vstd::slice::slice_subrange(all.as_slice(), start, end))
}

/// Whether a text holds a white-space character.
pub fn has_white_space(text: &str) -> (result: bool)
    ensures
        result == exists|i: int| 0 <= i < text@.len() && #[trigger] white_space(text@[i]),
{
    let all = characters(text);
    let mut i: usize = 0;
    while i < all.len()
        invariant
            i <= all.len(),
            all@ == text@,
            forall|j: int| 0 <= j < i ==> !#[trigger] white_space(text@[j]),
        decreases all.len() - i,
    {
        if is_white_space(all[i]) {
            assert(white_space(text@[i as int]));
            return true;
        }
        i += 1;
    }
    false
}

/// Whether a text holds a control character.
pub fn has_control(text: &str) -> (result: bool)
    ensures
        result == exists|i: int| 0 <= i < text@.len() && #[trigger] control(text@[i]),
{
    let all = characters(text);
    let mut i: usize = 0;
    while i < all.len()
        invariant
            i <= all.len(),
            all@ == text@,
            forall|j: int| 0 <= j < i ==> !#[trigger] control(text@[j]),
        decreases all.len() - i,
    {
        if is_control(all[i]) {
            assert(control(text@[i as int]));
            return true;
        }
        i += 1;
    }
    false
}

/// Whether a text holds the character `wanted`.
pub fn has_character(text: &str, wanted: char) -> (result: bool)
    ensures
        result == text@.contains(wanted),
{
    let all = characters(text);
    let mut i: usize = 0;
    while i < all.len()
        invariant
            i <= all.len(),
            all@ == text@,
            forall|j: int| 0 <= j < i ==> text@[j] != wanted,
        decreases all.len() - i,
    {
        if all[i] == wanted {
            return true;
        }
        i += 1;
    }
    false
}

/// Whether `pattern` stands in `s` at position `at`.
pub open spec fn occurs_at(s: Seq<char>, pattern: Seq<char>, at: int) -> bool {
    0 <= at && at + pattern.len() <= s.len() && s.subrange(at, at + pattern.len()) == pattern
}

/// Whether `pattern` stands anywhere in `s`.
pub open spec fn contains_text(s: Seq<char>, pattern: Seq<char>) -> bool {
    exists|at: int| occurs_at(s, pattern, at)
}

/// Whether `all` holds `pattern` from position `at` on.
fn matches_at(all: &Vec<char>, pattern: &Vec<char>, at: usize) -> (result: bool)
    requires
        at <= all.len(),
    ensures
        result == occurs_at(all@, pattern@, at as int),
{
    if pattern.len() > all.len() - at {
        return false;
    }
    let mut i: usize = 0;
    while i < pattern.len()
        invariant
            i <= pattern.len(),
            at + pattern.len() <= all.len(),
            forall|j: int| 0 <= j < i ==> all@[at + j] == pattern@[j],
        decreases pattern.len() - i,
    {
        if all[at + i] != pattern[i] {
            assert(all@.subrange(at as int, at + pattern.len())[i as int] != pattern@[i as int]);
            return false;
        }
        i += 1;
    }
    assert(all@.subrange(at as int, at + pattern.len()) =~= pattern@);
    true
}

/// Whether `pattern` stands anywhere in `text`.
pub fn has_text(text: &str, pattern: &str) -> (result: bool)
    ensures
        result == contains_text(text@, pattern@),
{
    let all = characters(text);
    let wanted = characters(pattern);
    let mut at: usize = 0;
    loop
        invariant
            at <= all.len(),
            all@ == text@,
            wanted@ == pattern@,
            forall|j: int| 0 <= j < at ==> !#[trigger] occurs_at(text@, pattern@, j),
        decreases all.len() - at,
    {
        if matches_at(&all, &wanted, at) {
            return true;
        }
        if at == all.len() {
            return false;
        }
        at += 1;
    }
}

/// Whether `text` begins with `prefix`.
pub fn starts_with(text: &str, prefix: &str) -> (result: bool)
    ensures
        result == prefix@.is_prefix_of(text@),
{
    let all = characters(text);
    matches_at(&all, &characters(prefix), 0)
}

/// Whether `text` ends with `suffix`.
pub fn ends_with(text: &str, suffix: &str) -> (result: bool)
    ensures
        result == suffix@.is_suffix_of(text@),
{
    let all = characters(text);
    let wanted = characters(suffix);
    if wanted.len() > all.len() {
        return false;
    }
    matches_at(&all, &wanted, all.len() - wanted.len())
}

/// The fields of `s` between the occurrences of `separator`.
pub open spec fn split(s: Seq<char>, separator: char) -> Seq<Seq<char>>
    decreases s.len(),
{
    if s.len() == 0 {
        seq![Seq::empty()]
    } else {
        let before = split(s.drop_last(), separator);
        if s.last() == separator {
            before.push(Seq::empty())
        } else {
            before.update(before.len() - 1, before.last().push(s.last()))
        }
    }
}

/// `fields` with one `separator` between neighbours.
pub open spec fn join(fields: Seq<Seq<char>>, separator: char) -> Seq<char>
    decreases fields.len(),
{
    if fields.len() == 0 {
        Seq::empty()
    } else if fields.len() == 1 {
        fields[0]
    } else {
        join(fields.drop_last(), separator).push(separator) + fields.last()
    }
}

/// Splitting yields at least one field, none of which holds the separator,
/// and joining the fields gives the text back.
pub proof fn split_then_join(s: Seq<char>, separator: char)
    ensures
        split(s, separator).len() >= 1,
        forall|i: int|
            0 <= i < split(s, separator).len() ==> !(#[trigger] split(s, separator)[i]).contains(
                separator,
            ),
        join(split(s, separator), separator) == s,
    decreases s.len(),
{
    if s.len() > 0 {
        let init = s.drop_last();
        split_then_join(init, separator);
        let before = split(init, separator);
        let fields = split(s, separator);
        if s.last() == separator {
            assert(fields.drop_last() =~= before);
            assert(join(fields, separator) =~= init.push(separator));
            assert(!Seq::<char>::empty().contains(separator));
        } else {
            let longer = before.last().push(s.last());
            assert forall|i: int| 0 <= i < fields.len() implies !(
            #[trigger] fields[i]).contains(separator) by {
                if i == fields.len() - 1 {
                    assert(fields[i] == longer);
                    if longer.contains(separator) {
                        let k = longer.index_of(separator);
                        assert(longer[k] == separator);
                        assert(before.last()[k] == separator);
                        assert(before[before.len() - 1].contains(separator));
                    }
                } else {
                    assert(fields[i] == before[i]);
                }
            }
            if before.len() > 1 {
                assert(fields.drop_last() =~= before.drop_last());
            }
            assert(join(fields, separator) =~= init.push(s.last()));
        }
        assert(init.push(s.last()) =~= s);
    }
}

/// A text without the separator is one field.
pub proof fn split_of_field(s: Seq<char>, separator: char)
    requires
        !s.contains(separator),
    ensures
        split(s, separator) == seq![s],
    decreases s.len(),
{
    if s.len() > 0 {
        let init = s.drop_last();
        assert(s.contains(s.last()));
        assert forall|i: int| 0 <= i < init.len() implies init[i] != separator by {
            assert(s.contains(s[i]));
        }
        split_of_field(init, separator);
        assert(init.push(s.last()) =~= s);
        assert(split(s, separator) =~= seq![s]);
    } else {
        assert(s =~= Seq::empty());
    }
}

/// A separator and a field without it add that field.
pub proof fn split_of_appended(s: Seq<char>, field: Seq<char>, separator: char)
    requires
        !field.contains(separator),
    ensures
        split(s.push(separator) + field, separator) == split(s, separator).push(field),
    decreases field.len(),
{
    let whole = s.push(separator) + field;
    if field.len() == 0 {
        assert(whole =~= s.push(separator));
        assert(whole.drop_last() =~= s);
        assert(field =~= Seq::empty());
    } else {
        let init = field.drop_last();
        assert(field.contains(field.last()));
        assert forall|i: int| 0 <= i < init.len() implies init[i] != separator by {
            assert(field.contains(field[i]));
        }
        split_of_appended(s, init, separator);
        assert(whole.drop_last() =~= s.push(separator) + init);
        assert(init.push(field.last()) =~= field);
        assert(split(whole, separator) =~= split(s, separator).push(field));
    }
}

/// The view of a list of texts.
pub open spec fn views(texts: Seq<String>) -> Seq<Seq<char>> {
    texts.map_values(|text: String| text@)
}

/// Splits a text at every `separator`.
pub fn fields(text: &str, separator: char) -> (result: Vec<String>)
    ensures
        views(result@) == split(text@, separator),
        result.len() >= 1,
{
    let all = characters(text);
    let mut result: Vec<String> = Vec::new();
    let mut current: String = String::new();
    let mut i: usize = 0;
    assert(all@.take(0) == Seq::<char>::empty());
    assert(views(result@).push(current@) =~= split(all@.take(0), separator));
    while i < all.len()
        invariant
            i <= all.len(),
            views(result@).push(current@) == split(all@.take(i as int), separator),
        decreases all.len() - i,
    {
        let ghost done = views(result@);
        let ghost open = current@;
        assert(all@.take(i + 1).drop_last() == all@.take(i as int));
        if all[i] == separator {
            result.push(current);
            current = String::new();
            assert(views(result@) =~= done.push(open));
        } else {
            current.push(all[i]);
            assert(views(result@).push(current@) =~= done.push(open).update(
                done.len() as int,
                open.push(all@[i as int]),
            ));
        }
        i += 1;
    }
    assert(all@.take(all@.len() as int) == all@);
    let ghost done = views(result@);
    let ghost open = current@;
    result.push(current);
    assert(views(result@) =~= done.push(open));
    result
}

/// `c` with `A` to `Z` in lower case.
pub open spec fn lower_ascii(c: char) -> char {
    if 'A' <= c <= 'Z' {
        ((c as u32) + 32) as char
    } else {
        c
    }
}

/// Lowers `A` to `Z` in a text and leaves everything else alone.
pub fn lower_case(text: &str) -> (result: String)
    ensures
        result@ == text@.map_values(|c: char| lower_ascii(c)),
{
    let all = characters(text);
    let mut result: String = String::new();
    let mut i: usize = 0;
    while i < all.len()
        invariant
            i <= all.len(),
            result@ == all@.take(i as int).map_values(|c: char| lower_ascii(c)),
        decreases all.len() - i,
    {
        let c = all[i];
        let ghost before = result@;
        if 'A' <= c && c <= 'Z' {
            let lowered: u8 = c as u8 + 32;
            result.push(lowered as char);
        } else {
            result.push(c);
        }
        i += 1;
        assert(result@ =~= all@.take(i as int).map_values(|c: char| lower_ascii(c)));
    }
    assert(all@.take(all@.len() as int) == all@);
    result
}

/// The digit for a value below 36, in lower case.
pub open spec fn digit(value: nat) -> char {
    if value < 10 {
        (value + '0' as nat) as char
    } else {
        (value - 10 + 'a' as nat) as char
    }
}

/// `value` written in `base`, without leading zeros.
pub open spec fn numeral(value: nat, base: nat) -> Seq<char>
    decreases value,
{
    if value < base || base < 2 {
        seq![digit(value)]
    } else {
        proof {
            vstd::arithmetic::div_mod::lemma_div_decreases(value as int, base as int);
        }
        numeral(value / base, base).push(digit(value % base))
    }
}

/// The digit for a value below 16.
pub fn digit_of(value: u8) -> (result: char)
    requires
        value < 16,
    ensures
        result == digit(value as nat),
{
    if value < 10 {
        (value + 48u8) as char
    } else {
        (value - 10 + 97u8) as char
    }
}

fn numeral_in(value: u64, base: u64) -> (result: String)
    requires
        2 <= base <= 16,
    ensures
        result@ == numeral(value as nat, base as nat),
    decreases value,
{
    if value < base {
        let mut result: String = String::new();
        result.push(digit_of(value as u8));
        assert(result@ =~= seq![digit(value as nat)]);
        result
    } else {
        proof {
            vstd::arithmetic::div_mod::lemma_div_decreases(value as int, base as int);
        }
        let mut result = numeral_in(value / base, base);
        result.push(digit_of((value % base) as u8));
        result
    }
}

/// `value` in decimal.
pub fn decimal(value: u64) -> (result: String)
    ensures
        result@ == numeral(value as nat, 10),
{
    numeral_in(value, 10)
}

/// `value` in lower-case hexadecimal.
pub fn hexadecimal(value: u64) -> (result: String)
    ensures
        result@ == numeral(value as nat, 16),
{
    numeral_in(value, 16)
}

/// The value of a digit in a base of at most sixteen; letters of either case.
pub open spec fn digit_value(c: char, base: nat) -> Option<nat> {
    let value = if '0' <= c <= '9' {
        (c as nat - '0' as nat) as nat
    } else if 'a' <= c <= 'f' {
        (c as nat - 'a' as nat + 10) as nat
    } else if 'A' <= c <= 'F' {
        (c as nat - 'A' as nat + 10) as nat
    } else {
        base
    };
    if value < base {
        Some(value)
    } else {
        None
    }
}

/// The number that `s` writes in `base`, when every character is a digit.
pub open spec fn number(s: Seq<char>, base: nat) -> Option<nat>
    decreases s.len(),
{
    if s.len() == 0 {
        Some(0)
    } else {
        match (number(s.drop_last(), base), digit_value(s.last(), base)) {
            (Some(high), Some(low)) => Some(high * base + low),
            _ => None,
        }
    }
}

/// The value of a digit.
pub fn digit_in(c: char, base: u32) -> (result: Option<u32>)
    requires
        2 <= base <= 16,
    ensures
        match result {
            Some(value) => digit_value(c, base as nat) == Some(value as nat) && value < base,
            None => digit_value(c, base as nat) is None,
        },
{
    let value: u32 = if '0' <= c && c <= '9' {
        c as u32 - 48
    } else if 'a' <= c && c <= 'f' {
        c as u32 - 97 + 10
    } else if 'A' <= c && c <= 'F' {
        c as u32 - 65 + 10
    } else {
        base
    };
    if value < base {
        Some(value)
    } else {
        None
    }
}

/// A digit as [`digit`] writes it.
pub open spec fn plain_digit(c: char) -> bool {
    '0' <= c <= '9' || 'a' <= c <= 'f'
}

proof fn digit_is_read(value: nat, base: nat)
    requires
        value < base <= 16,
    ensures
        digit_value(digit(value), base) == Some(value),
        plain_digit(digit(value)),
        value > 0 ==> digit(value) != '0',
{
}

/// A number is read from its numeral, which has only digits and, but for zero,
/// no leading zero.
pub proof fn numeral_is_read(value: nat, base: nat)
    requires
        2 <= base <= 16,
    ensures
        number(numeral(value, base), base) == Some(value),
        numeral(value, base).len() >= 1,
        value < base ==> numeral(value, base).len() == 1,
        value > 0 ==> numeral(value, base)[0] != '0',
        forall|i: int|
            0 <= i < numeral(value, base).len() ==> plain_digit(#[trigger] numeral(value, base)[i]),
    decreases value,
{
    let written = numeral(value, base);
    if value < base {
        digit_is_read(value, base);
        assert(written.drop_last() =~= Seq::empty());
        assert(number(written.drop_last(), base) == Some(0nat));
        assert(0 * base == 0) by (nonlinear_arith);
    } else {
        vstd::arithmetic::div_mod::lemma_div_decreases(value as int, base as int);
        vstd::arithmetic::div_mod::lemma_fundamental_div_mod(value as int, base as int);
        vstd::arithmetic::div_mod::lemma_mod_bound(value as int, base as int);
        assert(value / base >= 1) by (nonlinear_arith)
            requires
                value >= base,
                base >= 2,
        ;
        numeral_is_read(value / base, base);
        digit_is_read(value % base, base);
        assert(written.drop_last() =~= numeral(value / base, base));
        assert((value / base) * base + value % base == value) by (nonlinear_arith)
            requires
                value == base * (value / base) + value % base,
        ;
    }
}

/// A numeral without a leading zero is written back from its number.
pub proof fn numeral_is_written(s: Seq<char>, value: nat)
    requires
        s.len() >= 1,
        s.len() == 1 || s[0] != '0',
        number(s, 10) == Some(value),
    ensures
        numeral(value, 10) == s,
    decreases s.len(),
{
    let high = number(s.drop_last(), 10)->0;
    let low = digit_value(s.last(), 10)->0;
    assert(digit(low) == s.last());
    if s.len() == 1 {
        assert(s.drop_last() =~= Seq::empty());
        assert(numeral(value, 10) =~= s);
    } else {
        numeral_is_written(s.drop_last(), high);
        if high == 0 {
            assert(numeral(0, 10)[0] == '0');
            assert(s.drop_last()[0] == s[0]);
        }
        assert(value / 10 == high && value % 10 == low);
        assert(numeral(value, 10) =~= s);
    }
}

/// A text whose beginning is no number is no number.
pub proof fn number_of_prefix(s: Seq<char>, length: int, base: nat)
    requires
        0 <= length <= s.len(),
        number(s.take(length), base) is None,
    ensures
        number(s, base) is None,
    decreases s.len() - length,
{
    if length == s.len() {
        assert(s.take(length) == s);
    } else {
        assert(s.take(length + 1).drop_last() == s.take(length));
        number_of_prefix(s, length + 1, base);
    }
}

/// The value of an unsigned integer in decimal: digits, possibly after a plus
/// sign, and a value of at most `max`.
pub open spec fn unsigned(s: Seq<char>, max: nat) -> Option<nat> {
    let digits = if s.len() > 0 && s[0] == '+' {
        s.skip(1)
    } else {
        s
    };
    if digits.len() == 0 {
        None
    } else {
        match number(digits, 10) {
            Some(value) if value <= max => Some(value),
            _ => None,
        }
    }
}

/// A number is at least as large as any of its beginnings.
pub proof fn number_grows(s: Seq<char>, length: int, base: nat)
    requires
        0 <= length <= s.len(),
        base >= 1,
        number(s, base) is Some,
    ensures
        number(s.take(length), base) is Some,
        number(s.take(length), base)->0 <= number(s, base)->0,
    decreases s.len() - length,
{
    if length == s.len() {
        assert(s.take(length) == s);
    } else {
        number_grows(s, length + 1, base);
        assert(s.take(length + 1).drop_last() == s.take(length));
        let before = number(s.take(length), base)->0;
        assert(before <= before * base) by (nonlinear_arith)
            requires
                base >= 1,
        ;
    }
}

/// Reads an unsigned integer in decimal.
pub fn parse_unsigned(text: &str, max: u64) -> (result: Option<u64>)
    ensures
        match result {
            Some(value) => unsigned(text@, max as nat) == Some(value as nat) && value <= max,
            None => unsigned(text@, max as nat) is None,
        },
{
    let all = characters(text);
    let start: usize = if all.len() > 0 && all[0] == '+' {
        1
    } else {
        0
    };
    let ghost digits = all@.skip(start as int);
    assert(start == 0 ==> digits == all@);
    if start == all.len() {
        return None;
    }
    let mut value: u64 = 0;
    let mut i: usize = start;
    assert(digits.take(0) == Seq::<char>::empty());
    while i < all.len()
        invariant
            start <= i <= all.len(),
            start < all.len(),
            all@ == text@,
            start == if all@.len() > 0 && all@[0] == '+' {
                1int
            } else {
                0int
            },
            digits == if all@.len() > 0 && all@[0] == '+' {
                all@.skip(1)
            } else {
                all@
            },
            value <= max,
            number(digits.take(i - start), 10) == Some(value as nat),
        decreases all.len() - i,
    {
        assert(digits.take(i - start + 1).drop_last() == digits.take(i - start));
        assert(digits.take(i - start + 1).last() == all@[i as int]);
        match digit_in(all[i], 10) {
            None => {
                proof {
                    number_of_prefix(digits, i - start + 1, 10);
                }
                return None;
            },
            Some(low) => {
                if low as u64 > max || value > (max - low as u64) / 10 {
                    proof {
                        if number(digits, 10) is Some {
                            number_grows(digits, i - start + 1, 10);
                        }
                    }
                    return None;
                }
                value = value * 10 + low as u64;
            },
        }
        i += 1;
    }
    assert(digits.take(digits.len() as int) == digits);
    Some(value)
}

/// `s` without a final carriage return.
pub open spec fn without_carriage_return(s: Seq<char>) -> Seq<char> {
    if s.len() > 0 && s.last() == '\r' {
        s.drop_last()
    } else {
        s
    }
}

/// The first `n` lines that `pieces` stand for: the last piece has no line feed
/// after it, so it keeps its carriage return, and it is no line if it is empty.
pub open spec fn lines_before(pieces: Seq<Seq<char>>, n: int) -> Seq<Seq<char>>
    decreases n,
{
    if n <= 0 {
        Seq::empty()
    } else if n == pieces.len() {
        if pieces[n - 1].len() == 0 {
            lines_before(pieces, n - 1)
        } else {
            lines_before(pieces, n - 1).push(pieces[n - 1])
        }
    } else {
        lines_before(pieces, n - 1).push(without_carriage_return(pieces[n - 1]))
    }
}

/// The lines of a text.
pub open spec fn lines(s: Seq<char>) -> Seq<Seq<char>> {
    lines_before(split(s, '\n'), split(s, '\n').len() as int)
}

fn without_final_return(text: &str) -> (result: String)
    ensures
        result@ == without_carriage_return(text@),
{
    let all = characters(text);
    let end: usize = if all.len() > 0 && all[all.len() - 1] == '\r' {
        all.len() - 1
    } else {
        all.len()
    };
    let result = text_of(vstd::slice::slice_subrange(all.as_slice(), 0, end));
    assert(result@ =~= without_carriage_return(text@));
    result
}

/// Splits a text into lines.
pub fn text_lines(text: &str) -> (result: Vec<String>)
    ensures
        views(result@) == lines(text@),
{
    let pieces = fields(text, '\n');
    let ghost texts = split(text@, '\n');
    let mut result: Vec<String> = Vec::new();
    let mut n: usize = 0;
    assert(views(result@) =~= lines_before(texts, 0));
    while n < pieces.len()
        invariant
            n <= pieces.len(),
            texts == views(pieces@),
            views(result@) == lines_before(texts, n as int),
        decreases pieces.len() - n,
    {
        let ghost before = views(result@);
        assert(texts[n as int] == pieces@[n as int]@);
        if n + 1 < pieces.len() {
            let line = without_final_return(&pieces[n]);
            let ghost view = line@;
            result.push(line);
            assert(views(result@) =~= before.push(view));
        } else if !pieces[n].as_str().is_empty() {
            result.push(pieces[n].clone());
            assert(views(result@) =~= before.push(texts[n as int]));
        }
        n += 1;
    }
    result
}

/// A failure together with the one that caused it.
pub open spec fn caused(message: Seq<char>, cause: Seq<char>) -> Seq<char> {
    message + ": "@ + cause
}

/// Tells a failure together with the one that caused it.
pub fn with_cause(message: &str, cause: &str) -> (result: String)
    ensures
        result@ == caused(message@, cause@),
{
    let mut result: String = message.to_owned();
    result.append(": ");
    result.append(cause);
    result
}

/// One text after another.
pub fn concat(left: &str, right: &str) -> (result: String)
    ensures
        result@ == left@ + right@,
{
    let mut result: String = left.to_owned();
    result.append(right);
    result
}

/// `s` without the occurrences of `c` at its end.
pub open spec fn without_trailing(s: Seq<char>, c: char) -> Seq<char>
    decreases s.len(),
{
    if s.len() > 0 && s.last() == c {
        without_trailing(s.drop_last(), c)
    } else {
        s
    }
}

/// Cuts the occurrences of a character from the end of a text.
pub fn trim_trailing(text: &str, c: char) -> (result: String)
    ensures
        result@ == without_trailing(text@, c),
{
    let all = characters(text);
    let mut end: usize = all.len();
    assert(all@.take(all@.len() as int) == all@);
    while end > 0 && all[end - 1] == c
        invariant
            end <= all.len(),
            without_trailing(all@, c) == without_trailing(all@.take(end as int), c),
        decreases end,
    {
        assert(all@.take(end as int).drop_last() == all@.take(end - 1));
        end -= 1;
    }
    text_of(vstd::slice::slice_subrange(all.as_slice(), 0, end))
}

/// What follows `prefix` at the beginning of `s`.
pub open spec fn after_prefix(s: Seq<char>, prefix: Seq<char>) -> Option<Seq<char>> {
    if prefix.is_prefix_of(s) {
        Some(s.skip(prefix.len() as int))
    } else {
        None
    }
}

/// What comes before `suffix` at the end of `s`.
pub open spec fn before_suffix(s: Seq<char>, suffix: Seq<char>) -> Option<Seq<char>> {
    if suffix.is_suffix_of(s) {
        Some(s.take(s.len() - suffix.len()))
    } else {
        None
    }
}

/// The view of an optional text.
pub open spec fn optional_view(text: Option<String>) -> Option<Seq<char>> {
    match text {
        Some(text) => Some(text@),
        None => None,
    }
}

/// Cuts a prefix from a text.
pub fn strip_prefix(text: &str, prefix: &str) -> (result: Option<String>)
    ensures
        optional_view(result) == after_prefix(text@, prefix@),
{
    let all = characters(text);
    let cut: usize = characters(prefix).len();
    if !starts_with(text, prefix) {
        return None;
    }
    let rest = text_of(vstd::slice::slice_subrange(all.as_slice(), cut, all.len()));
    assert(rest@ =~= text@.skip(cut as int));
    Some(rest)
}

/// Cuts a suffix from a text.
pub fn strip_suffix(text: &str, suffix: &str) -> (result: Option<String>)
    ensures
        optional_view(result) == before_suffix(text@, suffix@),
{
    let all = characters(text);
    let cut: usize = characters(suffix).len();
    if !ends_with(text, suffix) {
        return None;
    }
    let rest = text_of(vstd::slice::slice_subrange(all.as_slice(), 0, all.len() - cut));
    assert(rest@ =~= text@.take(text@.len() - cut));
    Some(rest)
}

/// The position of the first `c` in `s` at or after `from`.
pub open spec fn position_from(s: Seq<char>, c: char, from: int) -> Option<int>
    decreases s.len() - from,
{
    if from < 0 || from >= s.len() {
        None
    } else if s[from] == c {
        Some(from)
    } else {
        position_from(s, c, from + 1)
    }
}

/// What stands before and after the first `c` in `s`.
pub open spec fn split_first(s: Seq<char>, c: char) -> Option<(Seq<char>, Seq<char>)> {
    match position_from(s, c, 0) {
        Some(at) => Some((s.take(at), s.skip(at + 1))),
        None => None,
    }
}

/// Splits a text at the first occurrence of a character.
pub fn split_once(text: &str, c: char) -> (result: Option<(String, String)>)
    ensures
        match result {
            Some((before, after)) => split_first(text@, c) == Some((before@, after@)),
            None => split_first(text@, c) is None,
        },
{
    let all = characters(text);
    let mut at: usize = 0;
    while at < all.len()
        invariant
            at <= all.len(),
            all@ == text@,
            position_from(text@, c, 0) == position_from(text@, c, at as int),
        decreases all.len() - at,
    {
        if all[at] == c {
            let before = text_of(vstd::slice::slice_subrange(all.as_slice(), 0, at));
            let after = text_of(vstd::slice::slice_subrange(all.as_slice(), at + 1, all.len()));
            assert(position_from(text@, c, at as int) == Some(at as int));
            assert(position_from(text@, c, 0) == Some(at as int));
            assert(before@ =~= text@.take(at as int));
            assert(after@ =~= text@.skip(at + 1));
            return Some((before, after));
        }
        at += 1;
    }
    None
}

/// Lower-case letters of ASCII.
pub open spec fn ascii_lower(c: char) -> bool {
    'a' <= c <= 'z'
}

/// Digits of ASCII.
pub open spec fn ascii_digit(c: char) -> bool {
    '0' <= c <= '9'
}

/// Whether `left` comes before `right`, character by character.
pub open spec fn before(left: Seq<char>, right: Seq<char>) -> bool
    decreases left.len(),
{
    if right.len() == 0 {
        false
    } else if left.len() == 0 {
        true
    } else {
        left[0] < right[0] || (left[0] == right[0] && before(
            left.drop_first(),
            right.drop_first(),
        ))
    }
}

/// Of two different texts one comes before the other, and only one.
pub proof fn before_is_total(left: Seq<char>, right: Seq<char>)
    ensures
        before(left, right) ==> !before(right, left),
        !before(left, right) && !before(right, left) ==> left == right,
    decreases left.len(),
{
    if left.len() > 0 && right.len() > 0 {
        before_is_total(left.drop_first(), right.drop_first());
        if left[0] == right[0] && left.drop_first() == right.drop_first() {
            assert(left =~= seq![left[0]] + left.drop_first());
            assert(right =~= seq![right[0]] + right.drop_first());
        }
    } else if left.len() == 0 && right.len() == 0 {
        assert(left =~= right);
    }
}

/// What comes before a text that comes before another comes before that other.
pub proof fn before_is_transitive(first: Seq<char>, second: Seq<char>, third: Seq<char>)
    requires
        before(first, second),
        before(second, third),
    ensures
        before(first, third),
    decreases first.len(),
{
    if first.len() > 0 && second.len() > 0 && third.len() > 0 {
        if first[0] == second[0] && second[0] == third[0] {
            before_is_transitive(first.drop_first(), second.drop_first(), third.drop_first());
        }
    }
}

/// Whether one text comes before another.
pub fn comes_before(left: &str, right: &str) -> (result: bool)
    ensures
        result == before(left@, right@),
{
    let l = characters(left);
    let r = characters(right);
    let mut i: usize = 0;
    assert(l@.skip(0) == l@);
    assert(r@.skip(0) == r@);
    loop
        invariant
            i <= l.len(),
            i <= r.len(),
            before(left@, right@) == before(l@.skip(i as int), r@.skip(i as int)),
        decreases l.len() - i,
    {
        let ghost a = l@.skip(i as int);
        let ghost b = r@.skip(i as int);
        if i >= r.len() {
            return false;
        }
        if i >= l.len() {
            return true;
        }
        assert(a[0] == l@[i as int] && b[0] == r@[i as int]);
        if l[i] < r[i] {
            return true;
        }
        if l[i] != r[i] {
            return false;
        }
        assert(a.drop_first() =~= l@.skip(i + 1));
        assert(b.drop_first() =~= r@.skip(i + 1));
        i += 1;
    }
}

/// Whether no text comes before the one in front of it.
pub open spec fn in_order(texts: Seq<Seq<char>>) -> bool {
    forall|i: int, j: int| 0 <= i < j < texts.len() ==> !before(#[trigger] texts[j], #[trigger] texts[i])
}

/// Puts a text into a list that is in order.
fn insert_in_order(texts: &mut Vec<String>, text: String)
    requires
        in_order(views(old(texts)@)),
    ensures
        in_order(views(final(texts)@)),
        views(final(texts)@).to_multiset() == views(old(texts)@).to_multiset().insert(text@),
        final(texts).len() == old(texts).len() + 1,
{
    let ghost all = views(texts@);
    let mut i: usize = 0;
    while i < texts.len() && !comes_before(&text, &texts[i])
        invariant
            i <= texts.len(),
            all == views(texts@),
            forall|j: int| 0 <= j < i ==> !before(text@, #[trigger] all[j]),
        decreases texts.len() - i,
    {
        i += 1;
    }
    let ghost t = text@;
    texts.insert(i, text);
    let ghost after = views(texts@);
    proof {
        assert(after =~= all.insert(i as int, t));
        all.to_multiset_ensures();
        assert(all.to_multiset().insert(t) =~= after.to_multiset()) by {
            vstd::seq_lib::to_multiset_insert(all, i as int, t);
        }
        assert forall|a: int, b: int| 0 <= a < b < after.len() implies !before(
            #[trigger] after[b],
            #[trigger] after[a],
        ) by {
            if a < i && b == i {
                assert(after[a] == all[a]);
            } else if a == i {
                assert(after[b] == all[b - 1]);
                assert(i < all.len() && before(t, all[i as int]));
                if before(all[b - 1], t) {
                    before_is_transitive(all[b - 1], t, all[i as int]);
                    if b - 1 == i {
                        before_is_total(all[i as int], all[i as int]);
                    } else {
                        assert(!before(all[b - 1], all[i as int]));
                    }
                }
            } else {
                let x = if a < i {
                    a
                } else {
                    a - 1
                };
                let y = if b < i {
                    b
                } else {
                    b - 1
                };
                assert(after[a] == all[x] && after[b] == all[y]);
            }
        }
    }
}

/// Puts texts in order.
pub fn sort_texts(texts: Vec<String>) -> (result: Vec<String>)
    ensures
        in_order(views(result@)),
        views(result@).to_multiset() == views(texts@).to_multiset(),
        result.len() == texts.len(),
{
    let ghost all = views(texts@);
    let mut result: Vec<String> = Vec::new();
    let mut i: usize = 0;
    assert(views(result@) =~= all.take(0));
    while i < texts.len()
        invariant
            i <= texts.len(),
            all == views(texts@),
            in_order(views(result@)),
            views(result@).to_multiset() == all.take(i as int).to_multiset(),
            result.len() == i,
        decreases texts.len() - i,
    {
        proof {
            let taken = all.take(i as int);
            assert(all.take(i + 1) =~= taken.push(all[i as int]));
            taken.to_multiset_ensures();
        }
        insert_in_order(&mut result, texts[i].clone());
        i += 1;
    }
    assert(all.take(all.len() as int) =~= all);
    result
}

/// The longest pieces of a text without white space, in order.
pub open spec fn words(s: Seq<char>) -> Seq<Seq<char>>
    decreases s.len(),
{
    if s.len() == 0 {
        Seq::empty()
    } else {
        let before = words(s.drop_last());
        if white_space(s.last()) {
            before
        } else if s.len() == 1 || white_space(s[s.len() - 2]) {
            before.push(seq![s.last()])
        } else {
            before.update(before.len() - 1, before.last().push(s.last()))
        }
    }
}

proof fn words_end(s: Seq<char>)
    ensures
        s.len() > 0 && !white_space(s.last()) ==> words(s).len() > 0,
    decreases s.len(),
{
    if s.len() > 1 {
        words_end(s.drop_last());
    }
}

/// Splits a text at white space.
pub fn split_words(text: &str) -> (result: Vec<String>)
    ensures
        views(result@) == words(text@),
{
    let all = characters(text);
    let mut result: Vec<String> = Vec::new();
    let mut i: usize = 0;
    assert(views(result@) =~= words(all@.take(0)));
    while i < all.len()
        invariant
            i <= all.len(),
            views(result@) == words(all@.take(i as int)),
        decreases all.len() - i,
    {
        let ghost before = views(result@);
        let ghost taken = all@.take(i + 1);
        assert(taken.drop_last() =~= all@.take(i as int));
        assert(taken.last() == all@[i as int]);
        let c = all[i];
        if !is_white_space(c) {
            if i == 0 || is_white_space(all[i - 1]) {
                let mut word: String = String::new();
                word.push(c);
                assert(word@ =~= seq![c]);
                result.push(word);
                assert(views(result@) =~= before.push(seq![c]));
            } else {
                proof {
                    words_end(all@.take(i as int));
                    assert(all@.take(i as int).last() == all@[i - 1]);
                    assert(views(result@).len() == result@.len());
                }
                let last: usize = result.len() - 1;
                let mut word: String = result[last].clone();
                word.push(c);
                result.set(last, word);
                assert(views(result@) =~= before.update(
                    before.len() - 1,
                    before.last().push(c),
                ));
            }
        }
        i += 1;
    }
    assert(all@.take(all@.len() as int) =~= all@);
    result
}

/// `s` without the leading characters `c`.
pub open spec fn without_leading(s: Seq<char>, c: char) -> Seq<char>
    decreases s.len(),
{
    if s.len() > 0 && s[0] == c {
        without_leading(s.drop_first(), c)
    } else {
        s
    }
}

/// Drops the leading characters `c` of a text.
pub fn trim_leading(text: &str, c: char) -> (result: String)
    ensures
        result@ == without_leading(text@, c),
{
    let all = characters(text);
    let mut i: usize = 0;
    assert(all@.skip(0) =~= all@);
    while i < all.len() && all[i] == c
        invariant
            i <= all.len(),
            without_leading(all@, c) == without_leading(all@.skip(i as int), c),
        decreases all.len() - i,
    {
        assert(all@.skip(i as int)[0] == c);
        assert(all@.skip(i as int).drop_first() =~= all@.skip(i + 1));
        i += 1;
    }
    let ghost rest = all@.skip(i as int);
    assert(rest.len() > 0 ==> rest[0] == all@[i as int]);
    text_of(vstd::slice::slice_subrange(all.as_slice(), i, all.len()))
}

/// The first characters of a text, at most so many.
pub fn first_characters(text: &str, count: usize) -> (result: String)
    ensures
        result@ == if text@.len() <= count {
            text@
        } else {
            text@.take(count as int)
        },
{
    let all = characters(text);
    if all.len() <= count {
        return text.to_owned();
    }
    let mut result: Vec<char> = Vec::new();
    let mut i: usize = 0;
    while i < count
        invariant
            i <= count <= all.len(),
            result@ == all@.take(i as int),
        decreases count - i,
    {
        result.push(all[i]);
        assert(result@ =~= all@.take(i + 1));
        i += 1;
    }
    text_of(&result)
}

/// Whether a result holds an error with this text, or is fine without one.
pub open spec fn told<T>(result: Result<T, String>, fault: Option<Seq<char>>) -> bool {
    match fault {
        Some(text) => result is Err && result->Err_0@ == text,
        None => result is Ok,
    }
}

/// An error with a text.
pub fn tell<T>(message: &str) -> (result: Result<T, String>)
    ensures
        told(result, Some(message@)),
{
    Err(message.to_owned())
}

/// A trimmed text is the text between white space: only white space is dropped, from
/// the ends and nowhere else, and none is left there.
pub proof fn trimmed_text_is_the_inside(s: Seq<char>)
    ensures
        trim(s).len() > 0 ==> !white_space(trim(s).first()) && !white_space(trim(s).last()),
        exists|from: int, to: int|
            {
                &&& 0 <= from <= to <= s.len()
                &&& trim(s) == #[trigger] s.subrange(from, to)
                &&& forall|i: int| 0 <= i < from ==> white_space(#[trigger] s[i])
                &&& forall|i: int| to <= i < s.len() ==> white_space(#[trigger] s[i])
            },
{
    let start = trim_start(s);
    trimmed_start(s);
    trimmed_end(start);
    let from = s.len() - start.len();
    let to = from + trim(s).len();
    assert(trim(s) =~= s.subrange(from, to));
    assert forall|i: int| to <= i < s.len() implies white_space(#[trigger] s[i]) by {
        assert(start[i - from] == s[i]);
    }
    if trim(s).len() > 0 {
        assert(trim(s).first() == start[0]);
    }
}

proof fn trimmed_start(s: Seq<char>)
    ensures
        trim_start(s).len() <= s.len(),
        trim_start(s) == s.skip(s.len() - trim_start(s).len()),
        forall|i: int| 0 <= i < s.len() - trim_start(s).len() ==> white_space(#[trigger] s[i]),
        trim_start(s).len() > 0 ==> !white_space(trim_start(s).first()),
    decreases s.len(),
{
    if s.len() > 0 && white_space(s.first()) {
        let rest = s.drop_first();
        trimmed_start(rest);
        assert(trim_start(s) =~= s.skip(s.len() - trim_start(s).len()));
        assert forall|i: int| 0 <= i < s.len() - trim_start(s).len() implies white_space(
            #[trigger] s[i],
        ) by {
            if i > 0 {
                assert(rest[i - 1] == s[i]);
            }
        }
    } else {
        assert(s.skip(0) =~= s);
    }
}

proof fn trimmed_end(s: Seq<char>)
    ensures
        trim_end(s).len() <= s.len(),
        trim_end(s) == s.take(trim_end(s).len() as int),
        forall|i: int| trim_end(s).len() <= i < s.len() ==> white_space(#[trigger] s[i]),
        trim_end(s).len() > 0 ==> !white_space(trim_end(s).last()),
    decreases s.len(),
{
    if s.len() > 0 && white_space(s.last()) {
        let front = s.drop_last();
        trimmed_end(front);
        assert(trim_end(s) =~= s.take(trim_end(s).len() as int));
        assert forall|i: int| trim_end(s).len() <= i < s.len() implies white_space(
            #[trigger] s[i],
        ) by {
            if i < s.len() - 1 {
                assert(front[i] == s[i]);
            }
        }
    } else {
        assert(s.take(s.len() as int) =~= s);
    }
}

/// A number is read from the numeral that it is written as, with or without a plus, exactly if it
/// is no greater than it may be.
pub proof fn written_numbers_are_read(value: nat, max: nat)
    ensures
        value <= max ==> unsigned(numeral(value, 10), max) == Some(value),
        value > max ==> unsigned(numeral(value, 10), max) is None,
        value <= max ==> unsigned(seq!['+'] + numeral(value, 10), max) == Some(value),
        unsigned(Seq::empty(), max) is None,
{
    numeral_is_read(value, 10);
    let text = numeral(value, 10);
    assert(plain_digit(text[0]));
    assert((seq!['+'] + text).skip(1) =~= text);
}

/// What is taken off the front or the end of a text is put back by putting it there again.
pub proof fn parts_make_up_the_text(s: Seq<char>, part: Seq<char>)
    ensures
        after_prefix(part + s, part) == Some(s),
        before_suffix(s + part, part) == Some(s),
        after_prefix(s, part) is Some ==> part + after_prefix(s, part)->0 == s,
        before_suffix(s, part) is Some ==> before_suffix(s, part)->0 + part == s,
{
    assert((part + s).skip(part.len() as int) =~= s);
    assert((s + part).take((s + part).len() - part.len()) =~= s);
    assert((s + part).subrange((s + part).len() - part.len(), (s + part).len() as int) =~= part);
    if after_prefix(s, part) is Some {
        assert(part + after_prefix(s, part)->0 =~= s);
    }
    if before_suffix(s, part) is Some {
        assert(before_suffix(s, part)->0 + part =~= s);
    }
}

/// A text is split at the first place where the separator stands, if it stands anywhere.
pub proof fn texts_split_at_the_first_separator(s: Seq<char>, c: char)
    ensures
        split_first(s, c) is Some <==> s.contains(c),
        split_first(s, c) matches Some((front, rest)) ==> front.push(c) + rest == s
            && !front.contains(c),
{
    position_is_first(s, c, 0);
    if let Some(at) = position_from(s, c, 0) {
        assert(s[at] == c);
        assert(s.take(at).push(c) + s.skip(at + 1) =~= s);
    }
}

proof fn position_is_first(s: Seq<char>, c: char, from: int)
    requires
        0 <= from,
    ensures
        match position_from(s, c, from) {
            Some(at) => from <= at < s.len() && s[at] == c && forall|i: int|
                from <= i < at ==> #[trigger] s[i] != c,
            None => forall|i: int| from <= i < s.len() ==> #[trigger] s[i] != c,
        },
    decreases s.len() - from,
{
    if from < s.len() && s[from] != c {
        position_is_first(s, c, from + 1);
    }
}

/// A text without its trailing characters ends in another one, and only those are missing.
pub proof fn only_trailing_characters_are_dropped(s: Seq<char>, c: char)
    ensures
        without_trailing(s, c).len() > 0 ==> without_trailing(s, c).last() != c,
        without_trailing(s, c).len() <= s.len(),
        without_trailing(s, c) == s.take(without_trailing(s, c).len() as int),
        forall|i: int| without_trailing(s, c).len() <= i < s.len() ==> #[trigger] s[i] == c,
    decreases s.len(),
{
    if s.len() > 0 && s.last() == c {
        only_trailing_characters_are_dropped(s.drop_last(), c);
        let kept = without_trailing(s, c);
        assert(kept =~= s.take(kept.len() as int));
        assert forall|i: int| kept.len() <= i < s.len() implies #[trigger] s[i] == c by {
            if i < s.len() - 1 {
                assert(s.drop_last()[i] == s[i]);
            }
        }
    } else {
        assert(s =~= s.take(s.len() as int));
    }
}

/// A word holds no white space and is never empty.
pub proof fn words_hold_no_white_space(s: Seq<char>)
    ensures
        forall|i: int, j: int|
            0 <= i < words(s).len() && 0 <= j < words(s)[i].len() ==> !white_space(
                #[trigger] words(s)[i][j],
            ),
        forall|i: int| 0 <= i < words(s).len() ==> (#[trigger] words(s)[i]).len() > 0,
        s.len() > 0 && !white_space(s.last()) ==> words(s).len() > 0 && words(s).last().last()
            == s.last(),
    decreases s.len(),
{
    if s.len() > 0 {
        let before = words(s.drop_last());
        words_hold_no_white_space(s.drop_last());
        if s.len() > 1 {
            assert(s.drop_last().last() == s[s.len() - 2]);
        }
        assert forall|i: int| 0 <= i < words(s).len() implies (#[trigger] words(s)[i]).len() > 0 by {
            if i < before.len() {
                assert(before[i].len() > 0);
            }
        }
        assert forall|i: int, j: int|
            0 <= i < words(s).len() && 0 <= j < words(s)[i].len() implies !white_space(
            #[trigger] words(s)[i][j],
        ) by {
            if i < before.len() && j < before[i].len() {
                assert(!white_space(before[i][j]));
                assert(words(s)[i][j] == before[i][j]);
            }
        }
    }
}

/// Lowering a letter twice changes nothing more, a lowered letter is no capital, and what is no
/// capital stays as it is.
pub proof fn lowered_letters_are_lower(c: char)
    ensures
        lower_ascii(lower_ascii(c)) == lower_ascii(c),
        !('A' <= lower_ascii(c) <= 'Z'),
        !('A' <= c <= 'Z') ==> lower_ascii(c) == c,
        'A' <= c <= 'Z' ==> 'a' <= lower_ascii(c) <= 'z',
{
}

/// What is told of a failure begins with what failed and ends with why.
pub proof fn causes_follow_what_failed(message: Seq<char>, cause: Seq<char>)
    ensures
        message.is_prefix_of(caused(message, cause)),
        cause.is_suffix_of(caused(message, cause)),
        caused(message, cause).len() == message.len() + 2 + cause.len(),
{
    reveal_strlit(": ");
    let all = caused(message, cause);
    assert(all.subrange(all.len() - cause.len(), all.len() as int) =~= cause);
    assert(all.subrange(0, message.len() as int) =~= message);
}

} // verus!
