//! What the client tells the server of its machine.

use vstd::prelude::*;

use crate::ident::{parse_id, uuid_value};
use crate::text::{
    after_prefix, concat, decimal, first_characters, lines, numeral, parse_unsigned, same_text,
    split_first, split_once, split_words, strip_prefix, text_lines, trim, trim_leading,
    trim_trailing, trimmed, unsigned, views, without_leading, without_trailing, words,
};

verus! {

/// The boot identifier in the kernel's file, if it holds one.
pub open spec fn kernel_boot_id(contents: Seq<char>) -> Option<Seq<char>> {
    if uuid_value(trim(contents)) is Some {
        Some(trim(contents))
    } else {
        None
    }
}

/// Reads the boot identifier from the kernel's file.
pub fn read_boot_id(contents: &str) -> (result: Option<String>)
    ensures
        crate::text::optional_view(result) == kernel_boot_id(contents@),
{
    let value = trimmed(contents);
    if parse_id(&value).is_some() {
        Some(value)
    } else {
        None
    }
}

/// The minute in which a machine started that has been up for `uptime` seconds.
pub open spec fn boot_minute(now: nat, uptime: nat) -> nat {
    (if now > uptime {
        (now - uptime) as nat
    } else {
        0
    }) / 60 * 60
}

/// Names a boot of Windows by the minute at which it began, from the seconds
/// since 1970 and the seconds since the boot, if those are known. Rounding the
/// derived boot epoch to a minute keeps the identifier stable across
/// process/service restarts while avoiding machine-specific data.
pub fn windows_boot_id(now: u64, uptime: u64) -> (result: Option<String>)
    ensures
        match result {
            Some(text) => uptime > 0 && text@ == "windows-boot-"@ + numeral(
                boot_minute(now as nat, uptime as nat),
                10,
            ),
            None => uptime == 0,
        },
{
    if uptime == 0 {
        return None;
    }
    let epoch: u64 = if now > uptime {
        now - uptime
    } else {
        0
    };
    Some(concat("windows-boot-", &decimal(epoch / 60 * 60)))
}

/// The name of the operating system's version among the first lines from `i` on
/// in the file that holds it.
pub open spec fn pretty_name(lines: Seq<Seq<char>>, i: int) -> Option<Seq<char>>
    decreases lines.len() - i,
{
    if i < 0 || i >= lines.len() {
        None
    } else {
        match after_prefix(lines[i], "PRETTY_NAME="@) {
            Some(value) => {
                let name = without_trailing(without_leading(value, '"'), '"');
                Some(
                    if name.len() <= 128 {
                        name
                    } else {
                        name.take(128)
                    },
                )
            },
            None => pretty_name(lines, i + 1),
        }
    }
}

/// Reads the name of the operating system's version from the file that holds it.
pub fn read_os_version(contents: &str) -> (result: Option<String>)
    ensures
        crate::text::optional_view(result) == pretty_name(lines(contents@), 0),
{
    let all = text_lines(contents);
    let ghost texts = lines(contents@);
    let mut i: usize = 0;
    while i < all.len()
        invariant
            i <= all.len(),
            texts == views(all@),
            pretty_name(texts, 0) == pretty_name(texts, i as int),
            texts == lines(contents@),
        decreases all.len() - i,
    {
        assert(texts[i as int] == all@[i as int]@);
        match strip_prefix(&all[i], "PRETTY_NAME=") {
            Some(value) => {
                let name = trim_trailing(&trim_leading(&value, '"'), '"');
                return Some(first_characters(&name, 128));
            },
            None => {},
        }
        i += 1;
    }
    None
}

/// The whole seconds that the machine is up, by the kernel's file: zero where it
/// does not tell.
pub open spec fn uptime_spec(contents: Seq<char>) -> nat {
    let all = words(contents);
    if all.len() == 0 {
        0
    } else {
        let whole = match split_first(all[0], '.') {
            Some((before, _)) => before,
            None => all[0],
        };
        match unsigned(whole, u64::MAX as nat) {
            Some(seconds) => seconds,
            None => 0,
        }
    }
}

/// Reads the whole seconds that the machine is up from the kernel's file.
pub fn read_uptime(contents: &str) -> (result: u64)
    ensures
        result == uptime_spec(contents@),
{
    let all = split_words(contents);
    assert(views(all@).len() == all@.len());
    if all.len() == 0 {
        return 0;
    }
    assert(words(contents@)[0] == all@[0]@);
    let whole = match split_once(&all[0], '.') {
        Some((before, _)) => before,
        None => all[0].clone(),
    };
    match parse_unsigned(&whole, u64::MAX) {
        Some(seconds) => seconds,
        None => 0,
    }
}

/// The number behind a label among the first `n` lines: the last such line
/// counts.
pub open spec fn labelled(lines: Seq<Seq<char>>, label: Seq<char>, n: int) -> Option<nat>
    decreases n,
{
    if n <= 0 {
        None
    } else {
        let fields = words(lines[n - 1]);
        if fields.len() > 0 && fields[0] == label {
            if fields.len() > 1 {
                unsigned(fields[1], u64::MAX as nat)
            } else {
                None
            }
        } else {
            labelled(lines, label, n - 1)
        }
    }
}

pub open spec fn kibibytes(count: nat) -> nat {
    if count * 1024 <= u64::MAX {
        count * 1024
    } else {
        u64::MAX as nat
    }
}

/// The bytes of memory in all and in use, by the kernel's file: zero where it
/// does not tell.
pub open spec fn memory_spec(contents: Seq<char>) -> (nat, nat) {
    let all = lines(contents);
    let total = labelled(all, "MemTotal:"@, all.len() as int);
    let available = labelled(all, "MemAvailable:"@, all.len() as int);
    if total is Some && available is Some {
        let whole = kibibytes(total->0);
        let free = kibibytes(available->0);
        (
            whole,
            if whole > free {
                (whole - free) as nat
            } else {
                0
            },
        )
    } else {
        (0, 0)
    }
}

fn label_value(line: &str, label: &str) -> (result: Option<Option<u64>>)
    ensures
        ({
            let fields = words(line@);
            match result {
                None => fields.len() == 0 || fields[0] != label@,
                Some(value) => {
                    &&& fields.len() > 0
                    &&& fields[0] == label@
                    &&& match value {
                        Some(number) => fields.len() > 1 && unsigned(
                            fields[1],
                            u64::MAX as nat,
                        ) == Some(number as nat),
                        None => fields.len() == 1 || unsigned(
                            fields[1],
                            u64::MAX as nat,
                        ) is None,
                    }
                },
            }
        }),
{
    let fields = split_words(line);
    assert(views(fields@).len() == fields@.len());
    if fields.len() == 0 {
        return None;
    }
    assert(words(line@)[0] == fields@[0]@);
    if !same_text(&fields[0], label) {
        return None;
    }
    if fields.len() == 1 {
        return Some(None);
    }
    assert(words(line@)[1] == fields@[1]@);
    Some(parse_unsigned(&fields[1], u64::MAX))
}

fn saturating_kibibytes(count: u64) -> (result: u64)
    ensures
        result == kibibytes(count as nat),
{
    if count > u64::MAX / 1024 {
        u64::MAX
    } else {
        count * 1024
    }
}

/// Reads the bytes of memory in all and in use from the kernel's file.
pub fn read_memory(contents: &str) -> (result: (u64, u64))
    ensures
        result.0 == memory_spec(contents@).0,
        result.1 == memory_spec(contents@).1,
{
    let all = text_lines(contents);
    let ghost texts = lines(contents@);
    let mut total: Option<u64> = None;
    let mut available: Option<u64> = None;
    let mut n: usize = 0;
    while n < all.len()
        invariant
            n <= all.len(),
            texts == views(all@),
            match total {
                Some(value) => labelled(texts, "MemTotal:"@, n as int) == Some(value as nat),
                None => labelled(texts, "MemTotal:"@, n as int) is None,
            },
            match available {
                Some(value) => labelled(texts, "MemAvailable:"@, n as int) == Some(value as nat),
                None => labelled(texts, "MemAvailable:"@, n as int) is None,
            },
        decreases all.len() - n,
    {
        assert(texts[n as int] == all@[n as int]@);
        match label_value(&all[n], "MemTotal:") {
            Some(value) => {
                total = value;
            },
            None => {},
        }
        match label_value(&all[n], "MemAvailable:") {
            Some(value) => {
                available = value;
            },
            None => {},
        }
        n += 1;
    }
    match (total, available) {
        (Some(total), Some(available)) => {
            let whole = saturating_kibibytes(total);
            let free = saturating_kibibytes(available);
            let used: u64 = if whole > free {
                whole - free
            } else {
                0
            };
            (whole, used)
        },
        _ => (0, 0),
    }
}

/// A machine is known by the same start however long it has been up: the start is not after it,
/// less than a minute before it, and at the beginning of a minute.
pub proof fn boots_are_told_apart_by_the_minute(now: nat, uptime: nat, later: nat)
    requires
        uptime <= now,
    ensures
        boot_minute(now + later, uptime + later) == boot_minute(now, uptime),
        boot_minute(now, uptime) <= now - uptime < boot_minute(now, uptime) + 60,
        boot_minute(now, uptime) % 60 == 0,
{
    assert(now + later - (uptime + later) == now - uptime);
}

/// Of a machine's memory no more is in use than there is, and what is in use and what is available
/// make up the whole.
pub proof fn used_memory_is_what_is_not_available(contents: Seq<char>)
    ensures
        memory_spec(contents).1 <= memory_spec(contents).0,
        ({
            let all = lines(contents);
            let total = labelled(all, "MemTotal:"@, all.len() as int);
            let available = labelled(all, "MemAvailable:"@, all.len() as int);
            total is Some && available is Some && available->0 <= total->0 && total->0 * 1024
                <= u64::MAX ==> {
                &&& memory_spec(contents).0 == total->0 * 1024
                &&& memory_spec(contents).1 + available->0 * 1024 == total->0 * 1024
            }
        }),
        ({
            let all = lines(contents);
            labelled(all, "MemTotal:"@, all.len() as int) is None || labelled(
                all,
                "MemAvailable:"@,
                all.len() as int,
            ) is None ==> memory_spec(contents) == (0nat, 0nat)
        }),
{
}

/// A kernel's identifier is used, without the blanks around it, exactly if it is one.
pub proof fn kernel_identifiers_are_used(contents: Seq<char>)
    ensures
        kernel_boot_id(contents) is Some <==> uuid_value(trim(contents)) is Some,
        kernel_boot_id(contents) is Some ==> kernel_boot_id(contents)->0 == trim(contents),
{
}

} // verus!
