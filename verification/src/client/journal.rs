//! Journals as bytes: lines, torn tails, and the journal of consumed grants.

use vstd::prelude::*;
use vstd::utf8::encode_utf8;

use crate::codec::{
    hex_encode, hex_text, in_order, is_json_string, json_member, json_member_form,
    json_member_text, json_string, json_text_member, member, member_text, object, object_text,
    quote, quoted, text_or_pair, two_members, unescaped, unescaped_text,
};
use crate::common::secure_fs::EntryKind;
use crate::crypto::{sha256, sha256_digest};
use crate::ident::{hyphenated, id_text, json_id_reading, read_json_id};
use crate::instant::{json_moment, moment_character, nameable, read_json_moment, rfc3339, Timestamp};
use crate::text::{concat, decimal, join, numeral, same_text, tell, told, views};

verus! {

/// The end of the last complete line: everything before it ends in a newline,
/// nothing after it holds one.
pub open spec fn is_committed_end(raw: Seq<u8>, end: int) -> bool {
    &&& 0 <= end <= raw.len()
    &&& end == 0 || raw[end - 1] == 10
    &&& forall|i: int| end <= i < raw.len() ==> raw[i] != 10
}

/// Finds where the complete lines of a journal end. What follows is a torn
/// final record, which is preserved elsewhere and cut off.
pub fn committed_length(raw: &[u8]) -> (end: usize)
    ensures
        is_committed_end(raw@, end as int),
{
    let mut end: usize = raw.len();
    while end > 0 && raw[end - 1] != 10
        invariant
            end <= raw.len(),
            forall|i: int| end <= i < raw.len() ==> raw@[i] != 10,
        decreases end,
    {
        end -= 1;
    }
    end
}

/// A journal is split into complete lines and a torn tail.
pub fn split_torn_tail(raw: &[u8]) -> (result: (Vec<u8>, Vec<u8>))
    ensures
        result.0@ + result.1@ == raw@,
        is_committed_end(raw@, result.0@.len() as int),
{
    let end = committed_length(raw);
    let complete = vstd::slice::slice_to_vec(vstd::slice::slice_subrange(raw, 0, end));
    let tail = vstd::slice::slice_to_vec(vstd::slice::slice_subrange(raw, end, raw.len()));
    assert(complete@ + tail@ =~= raw@);
    (complete, tail)
}

/// What is wrong with the file that the broker's ledger is appended to, if anything.
pub open spec fn ledger_file_fault(path: Seq<char>, kind: EntryKind, uid: u32) -> Option<Seq<char>> {
    if !(kind is Regular) {
        Some("broker ledger is not a regular file: "@ + path)
    } else if uid != 0 {
        Some("broker ledger must be root-owned"@)
    } else {
        None
    }
}

/// Checks the file that the broker's ledger is appended to.
pub fn check_ledger_file(path: &str, kind: EntryKind, uid: u32) -> (result: Result<(), String>)
    ensures
        told(result, ledger_file_fault(path@, kind, uid)),
{
    if kind != EntryKind::Regular {
        return tell(&concat("broker ledger is not a regular file: ", path));
    }
    if uid != 0 {
        return tell("broker ledger must be root-owned");
    }
    Ok(())
}

/// The name of the file that keeps a torn final record.
pub fn torn_record_name(id: u128) -> (result: String)
    ensures
        result@ == ".centrald-broker-ledger-torn-"@ + hyphenated(id) + ".bin"@,
{
    let mut name = concat(".centrald-broker-ledger-torn-", &id_text(id));
    name.append(".bin");
    name
}

/// There is one end of the complete lines, and a torn write does not move it.
pub proof fn torn_write_loses_nothing(complete: Seq<u8>, tail: Seq<u8>, end: int)
    requires
        complete.len() == 0 || complete.last() == 10,
        forall|i: int| 0 <= i < tail.len() ==> tail[i] != 10,
        is_committed_end(complete + tail, end),
    ensures
        end == complete.len(),
{
    let raw = complete + tail;
    if end < complete.len() {
        assert(raw[complete.len() - 1] == 10);
    } else if end > complete.len() {
        assert(raw[end - 1] == tail[end - 1 - complete.len()]);
    }
}

/// The pieces of bytes between newlines.
pub open spec fn byte_lines(raw: Seq<u8>) -> Seq<Seq<u8>>
    decreases raw.len(),
{
    if raw.len() == 0 {
        seq![Seq::empty()]
    } else {
        let before = byte_lines(raw.drop_last());
        if raw.last() == 10 {
            before.push(Seq::empty())
        } else {
            before.update(before.len() - 1, before.last().push(raw.last()))
        }
    }
}

/// ASCII white space: tab, line feed, form feed, carriage return and space.
pub open spec fn ascii_white_space(byte: u8) -> bool {
    byte == 9 || byte == 10 || byte == 12 || byte == 13 || byte == 32
}

pub open spec fn blank(line: Seq<u8>) -> bool {
    forall|i: int| 0 <= i < line.len() ==> ascii_white_space(#[trigger] line[i])
}

/// The first `n` lines that are not blank, each with its number.
pub open spec fn numbered(lines: Seq<Seq<u8>>, n: int) -> Seq<(int, Seq<u8>)>
    decreases n,
{
    if n <= 0 {
        Seq::empty()
    } else if blank(lines[n - 1]) {
        numbered(lines, n - 1)
    } else {
        numbered(lines, n - 1).push((n, lines[n - 1]))
    }
}

/// The views of numbered lines.
pub open spec fn numbered_views(lines: Seq<(usize, Vec<u8>)>) -> Seq<(int, Seq<u8>)> {
    lines.map_values(|line: (usize, Vec<u8>)| (line.0 as int, line.1@))
}

fn is_blank(line: &Vec<u8>) -> (result: bool)
    ensures
        result == blank(line@),
{
    let mut i: usize = 0;
    while i < line.len()
        invariant
            i <= line.len(),
            forall|j: int| 0 <= j < i ==> ascii_white_space(#[trigger] line@[j]),
        decreases line.len() - i,
    {
        let byte: u8 = line[i];
        if !(byte == 9 || byte == 10 || byte == 12 || byte == 13 || byte == 32) {
            assert(!ascii_white_space(line@[i as int]));
            return false;
        }
        i += 1;
    }
    true
}

fn split_lines(raw: &[u8]) -> (result: Vec<Vec<u8>>)
    ensures
        result@.map_values(|line: Vec<u8>| line@) == byte_lines(raw@),
{
    let mut done: Vec<Vec<u8>> = Vec::new();
    let mut open: Vec<u8> = Vec::new();
    let mut i: usize = 0;
    let ghost view = |line: Vec<u8>| line@;
    assert(raw@.take(0) == Seq::<u8>::empty());
    assert(done@.map_values(view).push(open@) =~= byte_lines(raw@.take(0)));
    while i < raw.len()
        invariant
            i <= raw.len(),
            view == (|line: Vec<u8>| line@),
            done@.map_values(view).push(open@) == byte_lines(raw@.take(i as int)),
        decreases raw.len() - i,
    {
        let ghost before = done@.map_values(view);
        let ghost text = open@;
        assert(raw@.take(i + 1).drop_last() == raw@.take(i as int));
        if raw[i] == 10 {
            done.push(open);
            open = Vec::new();
            assert(done@.map_values(view) =~= before.push(text));
        } else {
            open.push(raw[i]);
            assert(done@.map_values(view).push(open@) =~= before.push(text).update(
                before.len() as int,
                text.push(raw@[i as int]),
            ));
        }
        i += 1;
    }
    assert(raw@.take(raw@.len() as int) == raw@);
    let ghost before = done@.map_values(view);
    let ghost text = open@;
    done.push(open);
    assert(done@.map_values(view) =~= before.push(text));
    done
}

/// The lines of a journal that hold a record, with their numbers from one on.
pub fn journal_lines(raw: &[u8]) -> (result: Vec<(usize, Vec<u8>)>)
    ensures
        numbered_views(result@) == record_lines(raw@),
{
    let lines = split_lines(raw);
    let ghost texts = byte_lines(raw@);
    let mut result: Vec<(usize, Vec<u8>)> = Vec::new();
    let mut n: usize = 0;
    assert(numbered_views(result@) =~= Seq::empty());
    while n < lines.len()
        invariant
            n <= lines.len(),
            texts == lines@.map_values(|line: Vec<u8>| line@),
            numbered_views(result@) == numbered(texts, n as int),
        decreases lines.len() - n,
    {
        let ghost before = numbered_views(result@);
        assert(texts[n as int] == lines@[n as int]@);
        if !is_blank(&lines[n]) {
            let copy = vstd::slice::slice_to_vec(lines[n].as_slice());
            result.push((n + 1, copy));
            assert(numbered_views(result@) =~= before.push((n + 1, texts[n as int])));
        }
        n += 1;
    }
    result
}

/// The document of a consumed grant: its members in the order of their names.
pub open spec fn consumed_document(grant_id: u128, expires_at: Timestamp) -> Seq<char> {
    object(
        seq![
            member("expires_at"@, quoted(expires_at.text_spec())),
            member("grant_id"@, quoted(hyphenated(grant_id))),
        ],
    )
}

/// The checksum that stands beside a consumed grant.
pub open spec fn consumed_checksum(grant_id: u128, expires_at: Timestamp) -> Seq<char> {
    hex_text(sha256_digest(encode_utf8(consumed_document(grant_id, expires_at))))
}

/// The document of a consumed grant in its envelope.
pub open spec fn consumed_envelope(grant_id: u128, expires_at: Timestamp) -> Seq<char> {
    object(
        seq![
            member("checksum_sha256"@, quoted(consumed_checksum(grant_id, expires_at))),
            member("record"@, consumed_document(grant_id, expires_at)),
        ],
    )
}

/// The line that a consumed grant takes in its journal.
pub open spec fn consumed_line(grant_id: u128, expires_at: Timestamp) -> Seq<u8> {
    encode_utf8(consumed_envelope(grant_id, expires_at)).push(10)
}

/// Whether bytes are the line of a consumed grant without its end, at a moment that
/// has a text of the usual characters.
pub open spec fn written_line(line: Seq<u8>, grant_id: u128, expires_at: Timestamp) -> bool {
    &&& line == encode_utf8(consumed_envelope(grant_id, expires_at))
    &&& nameable(expires_at.seconds_spec() as int, expires_at.nanos_spec() as int)
    &&& forall|i: int|
        0 <= i < expires_at.text_spec().len() ==> moment_character(
            #[trigger] expires_at.text_spec()[i],
        )
}

/// The entry of a consumed grant on a line.
pub open spec fn consumed_model(number: int, grant_id: u128, expires_at: Timestamp) -> EntryModel {
    EntryModel {
        line: number,
        encoded: encode_utf8(consumed_document(grant_id, expires_at)),
        checksum_sha256: consumed_checksum(grant_id, expires_at),
        grant_id,
        expires_at: (expires_at.seconds_spec(), expires_at.nanos_spec()),
    }
}

/// The names and texts of a consumed grant need no escapes.
proof fn consumed_texts(line: Seq<u8>, grant_id: u128, expires_at: Timestamp)
    requires
        written_line(line, grant_id, expires_at),
    ensures
        ({
            let moment = quoted(expires_at.text_spec());
            let id = quoted(hyphenated(grant_id));
            let checksum = consumed_checksum(grant_id, expires_at);
            let document = consumed_document(grant_id, expires_at);
            &&& is_json_string(moment)
            &&& is_json_string(id)
            &&& quoted(checksum) == json_string(checksum)
            &&& in_order("expires_at"@, "grant_id"@)
            &&& in_order("checksum_sha256"@, "record"@)
            &&& document == two_members("expires_at"@, moment, "grant_id"@, id)
            &&& text_or_pair(document)
            &&& text_or_pair(moment)
            &&& text_or_pair(id)
            &&& text_or_pair(quoted(checksum))
            &&& consumed_envelope(grant_id, expires_at) == two_members(
                "checksum_sha256"@,
                json_string(checksum),
                "record"@,
                document,
            )
        }),
{
    reveal_strlit("expires_at");
    reveal_strlit("grant_id");
    reveal_strlit("checksum_sha256");
    reveal_strlit("record");
    let checksum = consumed_checksum(grant_id, expires_at);
    unescaped_text("expires_at"@);
    unescaped_text("grant_id"@);
    unescaped_text("checksum_sha256"@);
    unescaped_text("record"@);
    unescaped_text(expires_at.text_spec());
    assert forall|i: int| 0 <= i < hyphenated(grant_id).len() implies unescaped(
        #[trigger] hyphenated(grant_id)[i],
    ) by {}
    unescaped_text(hyphenated(grant_id));
    assert forall|i: int| 0 <= i < checksum.len() implies unescaped(#[trigger] checksum[i]) by {}
    unescaped_text(checksum);
    let document = two_members(
        "expires_at"@,
        quoted(expires_at.text_spec()),
        "grant_id"@,
        quoted(hyphenated(grant_id)),
    );
    assert(document == consumed_document(grant_id, expires_at));
}

/// A decoded line of the journal of consumed grants: the record's canonical
/// bytes, the checksum that stands beside it, and what the record says.
#[derive(Debug)]
pub struct ConsumedGrantEntry {
    pub line: usize,
    pub encoded: Vec<u8>,
    pub checksum_sha256: String,
    pub grant_id: u128,
    pub expires_at: Timestamp,
}

fn consumed_text(grant_id: u128, expires_at: Timestamp) -> (result: String)
    ensures
        result@ == consumed_document(grant_id, expires_at),
        forall|i: int|
            0 <= i < expires_at.text_spec().len() ==> moment_character(
                #[trigger] expires_at.text_spec()[i],
            ),
{
    let mut members: Vec<String> = Vec::new();
    members.push(member_text("expires_at", &quote(&expires_at.text())));
    members.push(member_text("grant_id", &quote(&id_text(grant_id))));
    let document = object_text(&members);
    assert(views(members@) =~= seq![
        member("expires_at"@, quoted(expires_at.text_spec())),
        member("grant_id"@, quoted(hyphenated(grant_id))),
    ]);
    document
}

/// The bytes that a consumed grant appends to its journal.
pub fn consumed_grant_line(grant_id: u128, expires_at: Timestamp) -> (line: Vec<u8>)
    ensures
        line@ == consumed_line(grant_id, expires_at),
        written_line(line@.drop_last(), grant_id, expires_at),
{
    expires_at.check();
    let document = consumed_text(grant_id, expires_at);
    let checksum = hex_encode(&sha256(document.as_str().as_bytes()));
    let mut envelope: Vec<String> = Vec::new();
    envelope.push(member_text("checksum_sha256", &quote(&checksum)));
    envelope.push(member_text("record", &document));
    let text = object_text(&envelope);
    assert(views(envelope@) =~= seq![
        member(
            "checksum_sha256"@,
            quoted(
                hex_text(sha256_digest(encode_utf8(consumed_document(grant_id, expires_at)))),
            ),
        ),
        member("record"@, consumed_document(grant_id, expires_at)),
    ]);
    let mut line: Vec<u8> = text.as_str().as_bytes_vec();
    let ghost front = line@;
    line.push(10);
    assert(line@.drop_last() =~= front);
    line
}

/// The entry of a consumed grant.
pub fn consumed_grant_entry(line: usize, grant_id: u128, expires_at: Timestamp) -> (result:
    ConsumedGrantEntry)
    ensures
        intact(result),
        result.line == line,
        result.encoded@ == encode_utf8(consumed_document(grant_id, expires_at)),
        result.grant_id == grant_id,
        result.expires_at == expires_at,
{
    let encoded: Vec<u8> = consumed_text(grant_id, expires_at).as_str().as_bytes_vec();
    let checksum_sha256 = hex_encode(&sha256(&encoded));
    ConsumedGrantEntry { line, encoded, checksum_sha256, grant_id, expires_at }
}

/// A line whose checksum is wrong.
#[derive(Debug, Clone, Copy, PartialEq, Eq, Structural)]
pub struct ConsumedGrantFault {
    pub line: usize,
}

impl ConsumedGrantFault {
    pub fn message(&self) -> (result: String)
        ensures
            result@ == "consumed-grant journal checksum mismatch on record "@ + numeral(
                self.line as nat,
                10,
            ),
    {
        let mut result: String = "consumed-grant journal checksum mismatch on record ".to_owned();
        result.append(&decimal(self.line as u64));
        result
    }
}

/// Whether an entry's checksum is that of its record.
pub open spec fn intact(entry: ConsumedGrantEntry) -> bool {
    entry.checksum_sha256@ == hex_text(sha256_digest(entry.encoded@))
}

/// What an entry says: the number of its line, the record's canonical bytes, the
/// checksum beside it, the grant, and the seconds and nanoseconds of its expiry.
pub struct EntryModel {
    pub line: int,
    pub encoded: Seq<u8>,
    pub checksum_sha256: Seq<char>,
    pub grant_id: u128,
    pub expires_at: (i64, u32),
}

impl View for ConsumedGrantEntry {
    type V = EntryModel;

    open spec fn view(&self) -> EntryModel {
        EntryModel {
            line: self.line as int,
            encoded: self.encoded@,
            checksum_sha256: self.checksum_sha256@,
            grant_id: self.grant_id,
            expires_at: (self.expires_at.seconds_spec(), self.expires_at.nanos_spec()),
        }
    }
}

/// What a record of a consumed grant says under one of its members.
pub open spec fn record_member(record: Seq<u8>, name: Seq<char>) -> Option<Seq<u8>> {
    match json_member_form(record, name) {
        Some(Some(form)) => Some(form),
        _ => None,
    }
}

/// What a record of a consumed grant says, or why it cannot be read.
pub open spec fn record_reading(number: int, record: Seq<u8>, checksum: Seq<char>) -> Result<
    EntryModel,
    Seq<char>,
> {
    if checksum != hex_text(sha256_digest(record)) {
        Err("consumed-grant journal checksum mismatch on record "@ + numeral(number as nat, 10))
    } else {
        match record_member(record, "grant_id"@) {
            None => Err("consumed-grant journal record missing grant_id"@),
            Some(id) => match json_id_reading(id) {
                Err(message) => Err(message),
                Ok(grant_id) => match record_member(record, "expires_at"@) {
                    None => Err("consumed-grant journal record missing expires_at"@),
                    Some(moment) => match json_moment(moment) {
                        Err(message) => Err(message),
                        Ok(expires_at) => Ok(
                            EntryModel {
                                line: number,
                                encoded: record,
                                checksum_sha256: checksum,
                                grant_id,
                                expires_at,
                            },
                        ),
                    },
                },
            },
        }
    }
}

/// What a line of the journal of consumed grants says, or why it cannot be read: it
/// is an envelope with a record and the checksum of the record's canonical bytes.
pub open spec fn line_reading(number: int, line: Seq<u8>) -> Result<EntryModel, Seq<char>> {
    match json_member_form(line, "record"@) {
        None => Err("parse consumed-grant journal record "@ + numeral(number as nat, 10)),
        Some(None) => Err("consumed-grant journal record missing payload"@),
        Some(Some(record)) => match json_text_member(line, "checksum_sha256"@) {
            Some(Some(checksum)) => record_reading(number, record, checksum),
            _ => Err("consumed-grant journal record missing checksum"@),
        },
    }
}

fn read_record_member(record: &[u8], name: &str) -> (result: Option<Vec<u8>>)
    ensures
        match result {
            Some(form) => record_member(record@, name@) == Some(form@),
            None => record_member(record@, name@) is None,
        },
        forall|first: Seq<char>, value: Seq<char>, second: Seq<char>, other: Seq<char>|
            record@ == encode_utf8(#[trigger] two_members(first, value, second, other))
                && in_order(first, second) && text_or_pair(value) && text_or_pair(other) && (name@
                == first || name@ == second) ==> record_member(record@, name@) == Some(
                encode_utf8(
                    if name@ == first {
                        value
                    } else {
                        other
                    },
                ),
            ),
{
    match json_member(record, name) {
        Some(form) => form,
        None => None,
    }
}

/// Whether bytes are the record of a consumed grant, at a moment that has a text of
/// the usual characters.
pub open spec fn written_record(record: Seq<u8>, grant_id: u128, expires_at: Timestamp) -> bool {
    &&& record == encode_utf8(consumed_document(grant_id, expires_at))
    &&& written_line(
        encode_utf8(consumed_envelope(grant_id, expires_at)),
        grant_id,
        expires_at,
    )
}

/// Reads a record of a consumed grant against its checksum. One that was written
/// for a grant gives that grant and its expiry back.
pub fn consumed_grant_of_record(number: usize, record: Vec<u8>, checksum: String) -> (result:
    Result<ConsumedGrantEntry, String>)
    ensures
        match record_reading(number as int, record@, checksum@) {
            Ok(entry) => result is Ok && result->Ok_0@ == entry && intact(result->Ok_0),
            Err(message) => result is Err && result->Err_0@ == message,
        },
        forall|grant_id: u128, expires_at: Timestamp| #[trigger]
            written_record(record@, grant_id, expires_at) && checksum@ == consumed_checksum(
                grant_id,
                expires_at,
            ) ==> result is Ok && result->Ok_0@ == consumed_model(
                number as int,
                grant_id,
                expires_at,
            ),
{
    proof {
        assert forall|grant_id: u128, expires_at: Timestamp| #[trigger]
            written_record(record@, grant_id, expires_at) implies record@ == encode_utf8(
            two_members(
                "expires_at"@,
                quoted(expires_at.text_spec()),
                "grant_id"@,
                quoted(hyphenated(grant_id)),
            ),
        ) && in_order("expires_at"@, "grant_id"@) && text_or_pair(quoted(expires_at.text_spec()))
            && text_or_pair(quoted(hyphenated(grant_id))) && "grant_id"@ != "expires_at"@ by {
            consumed_texts(
                encode_utf8(consumed_envelope(grant_id, expires_at)),
                grant_id,
                expires_at,
            );
        }
    }
    if !same_text(&checksum, &hex_encode(&sha256(&record))) {
        return Err(ConsumedGrantFault { line: number }.message());
    }
    let grant_id: u128 = match read_record_member(&record, "grant_id") {
        Some(form) => match read_json_id(&form) {
            Ok(id) => id,
            Err(message) => return Err(message),
        },
        None => return Err("consumed-grant journal record missing grant_id".to_owned()),
    };
    let expires_at = match read_record_member(&record, "expires_at") {
        Some(form) => match read_json_moment(&form) {
            Ok(moment) => moment,
            Err(message) => return Err(message),
        },
        None => return Err("consumed-grant journal record missing expires_at".to_owned()),
    };
    Ok(
        ConsumedGrantEntry {
            line: number,
            encoded: record,
            checksum_sha256: checksum,
            grant_id,
            expires_at,
        },
    )
}

/// Reads a line of the journal of consumed grants. One that was written for a grant
/// gives that grant and its expiry back.
pub fn consumed_grant_of_line(number: usize, line: &[u8]) -> (result: Result<
    ConsumedGrantEntry,
    String,
>)
    ensures
        match line_reading(number as int, line@) {
            Ok(entry) => result is Ok && result->Ok_0@ == entry && intact(result->Ok_0),
            Err(message) => result is Err && result->Err_0@ == message,
        },
        forall|grant_id: u128, expires_at: Timestamp| #[trigger]
            written_line(line@, grant_id, expires_at) ==> result is Ok && result->Ok_0@
                == consumed_model(number as int, grant_id, expires_at),
{
    proof {
        assert forall|grant_id: u128, expires_at: Timestamp| #[trigger]
            written_line(line@, grant_id, expires_at) implies line@ == encode_utf8(
            two_members(
                "checksum_sha256"@,
                json_string(consumed_checksum(grant_id, expires_at)),
                "record"@,
                consumed_document(grant_id, expires_at),
            ),
        ) && in_order("checksum_sha256"@, "record"@) && text_or_pair(
            consumed_document(grant_id, expires_at),
        ) && text_or_pair(json_string(consumed_checksum(grant_id, expires_at))) && written_record(
            encode_utf8(consumed_document(grant_id, expires_at)),
            grant_id,
            expires_at,
        ) by {
            consumed_texts(line@, grant_id, expires_at);
        }
    }
    let record = match json_member(line, "record") {
        Some(Some(record)) => record,
        Some(None) => return Err("consumed-grant journal record missing payload".to_owned()),
        None => {
            let mut message: String = "parse consumed-grant journal record ".to_owned();
            message.append(&decimal(number as u64));
            return Err(message);
        },
    };
    match json_member_text(line, "checksum_sha256") {
        Some(Some(checksum)) => consumed_grant_of_record(number, record, checksum),
        _ => Err("consumed-grant journal record missing checksum".to_owned()),
    }
}

/// What the first `n` numbered lines say, or why the first of them that cannot be
/// read cannot.
pub open spec fn readings(lines: Seq<(int, Seq<u8>)>, n: int) -> Result<Seq<EntryModel>, Seq<char>>
    decreases n,
{
    if n <= 0 {
        Ok(Seq::empty())
    } else {
        match readings(lines, n - 1) {
            Err(message) => Err(message),
            Ok(entries) => match line_reading(lines[n - 1].0, lines[n - 1].1) {
                Ok(entry) => Ok(entries.push(entry)),
                Err(message) => Err(message),
            },
        }
    }
}

/// The lines of a journal that hold a record, with their numbers from one on.
pub open spec fn record_lines(raw: Seq<u8>) -> Seq<(int, Seq<u8>)> {
    numbered(byte_lines(raw), byte_lines(raw).len() as int)
}

/// What a journal of consumed grants says, line by line.
pub open spec fn journal_reading(raw: Seq<u8>) -> Result<Seq<EntryModel>, Seq<char>> {
    readings(record_lines(raw), record_lines(raw).len() as int)
}

/// The views of entries.
pub open spec fn entry_views(entries: Seq<ConsumedGrantEntry>) -> Seq<EntryModel> {
    entries.map_values(|entry: ConsumedGrantEntry| entry@)
}

/// A line that cannot be read decides, whatever follows it.
proof fn failed_reading_stays(lines: Seq<(int, Seq<u8>)>, n: int, m: int)
    requires
        n <= m,
        readings(lines, n) is Err,
    ensures
        readings(lines, m) == readings(lines, n),
    decreases m - n,
{
    if n < m {
        failed_reading_stays(lines, n, m - 1);
    }
}

/// Appending a line to whole lines adds one piece, and leaves the rest as it was.
proof fn appended_piece(raw: Seq<u8>, line: Seq<u8>)
    requires
        raw.len() == 0 || raw.last() == 10,
        forall|i: int| 0 <= i < line.len() ==> line[i] != 10,
    ensures
        byte_lines(raw).len() >= 1,
        byte_lines(raw).last() == Seq::<u8>::empty(),
        byte_lines(raw + line) == byte_lines(raw).drop_last().push(line),
        byte_lines(raw + line.push(10)) == byte_lines(raw).drop_last().push(line).push(
            Seq::empty(),
        ),
    decreases line.len(),
{
    assert(byte_lines(raw).len() >= 1);
    if line.len() == 0 {
        assert(line =~= Seq::empty());
        assert(raw + line =~= raw);
        assert(byte_lines(raw).drop_last().push(line) =~= byte_lines(raw));
    } else {
        let front = line.drop_last();
        appended_piece(raw, front);
        assert((raw + line).drop_last() =~= raw + front);
        assert((raw + line).last() == line.last());
        assert(byte_lines(raw + line) =~= byte_lines(raw).drop_last().push(line)) by {
            assert(front.push(line.last()) =~= line);
        }
    }
    assert((raw + line.push(10)).drop_last() =~= raw + line);
    assert((raw + line.push(10)).last() == 10);
}

/// The numbered lines among the first pieces do not depend on the pieces after them.
proof fn numbered_prefix(lines: Seq<Seq<u8>>, longer: Seq<Seq<u8>>, n: int)
    requires
        0 <= n <= lines.len() <= longer.len(),
        forall|i: int| 0 <= i < n ==> lines[i] == longer[i],
    ensures
        numbered(lines, n) == numbered(longer, n),
    decreases n,
{
    if n > 0 {
        numbered_prefix(lines, longer, n - 1);
    }
}

/// What the first lines say does not depend on the lines after them.
proof fn readings_prefix(lines: Seq<(int, Seq<u8>)>, longer: Seq<(int, Seq<u8>)>, n: int)
    requires
        0 <= n <= lines.len() <= longer.len(),
        forall|i: int| 0 <= i < n ==> lines[i] == longer[i],
    ensures
        readings(lines, n) == readings(longer, n),
    decreases n,
{
    if n > 0 {
        readings_prefix(lines, longer, n - 1);
    }
}

/// A line that is appended to a journal of whole lines is read after what was read
/// before, and changes nothing of it.
pub proof fn appended_line_is_read(raw: Seq<u8>, line: Seq<u8>)
    requires
        raw.len() == 0 || raw.last() == 10,
        forall|i: int| 0 <= i < line.len() ==> line[i] != 10,
        !blank(line),
    ensures
        ({
            let number = byte_lines(raw).len() as int;
            &&& record_lines(raw + line.push(10)) == record_lines(raw).push((number, line))
            &&& journal_reading(raw + line.push(10)) == match journal_reading(raw) {
                Err(message) => Err(message),
                Ok(entries) => match line_reading(number, line) {
                    Ok(entry) => Ok(entries.push(entry)),
                    Err(message) => Err(message),
                },
            }
        }),
{
    let pieces = byte_lines(raw);
    let longer = byte_lines(raw + line.push(10));
    let number = pieces.len() as int;
    appended_piece(raw, line);
    assert(longer.len() == number + 1);
    assert(forall|i: int| 0 <= i < number - 1 ==> pieces[i] == longer[i]);
    numbered_prefix(pieces, longer, number - 1);
    assert(blank(pieces[number - 1]));
    assert(blank(longer[number]));
    assert(longer[number - 1] == line);
    let before = numbered(pieces, number);
    let after = numbered(longer, number + 1);
    assert(before == numbered(pieces, number - 1));
    assert(after == numbered(longer, number));
    assert(after == before.push((number, line)));
    readings_prefix(before, after, before.len() as int);
}

/// A text of printable ASCII.
pub open spec fn printable_ascii(text: Seq<char>) -> bool {
    forall|i: int| 0 <= i < text.len() ==> ' ' <= #[trigger] text[i] <= '~'
}

/// The line of a consumed grant is one line, and not blank.
proof fn written_line_is_one_line(line: Seq<u8>, grant_id: u128, expires_at: Timestamp)
    requires
        written_line(line, grant_id, expires_at),
    ensures
        forall|i: int| 0 <= i < line.len() ==> line[i] != 10,
        !blank(line),
{
    reveal_strlit("expires_at");
    reveal_strlit("grant_id");
    reveal_strlit("checksum_sha256");
    reveal_strlit("record");
    let id = hyphenated(grant_id);
    let checksum = consumed_checksum(grant_id, expires_at);
    assert(printable_ascii(id));
    assert(printable_ascii(checksum));
    let first = member("expires_at"@, quoted(expires_at.text_spec()));
    let second = member("grant_id"@, quoted(id));
    assert(printable_ascii(first));
    assert(printable_ascii(second));
    let document = consumed_document(grant_id, expires_at);
    printable_object(first, second);
    let outer = member("checksum_sha256"@, quoted(checksum));
    let inner = member("record"@, document);
    assert(printable_ascii(outer));
    assert(printable_ascii(inner));
    printable_object(outer, inner);
    let envelope = consumed_envelope(grant_id, expires_at);
    assert(vstd::utf8::is_ascii_chars(envelope));
    vstd::utf8::is_ascii_chars_encode_utf8(envelope);
    assert(envelope[0] == '{');
    assert(line[0] == 123);
    assert(!ascii_white_space(line[0]));
}

proof fn printable_object(first: Seq<char>, second: Seq<char>)
    requires
        printable_ascii(first),
        printable_ascii(second),
    ensures
        printable_ascii(object(seq![first, second])),
{
    reveal_with_fuel(join, 3);
    let members = seq![first, second];
    assert(members.drop_last() =~= seq![first]);
    assert(join(members, ',') =~= first.push(',') + second);
}

/// Whether a journal is another one of whole lines with the line of a consumed grant
/// after it.
pub open spec fn was_appended(
    raw: Seq<u8>,
    before: Seq<u8>,
    grant_id: u128,
    expires_at: Timestamp,
) -> bool {
    let line = encode_utf8(consumed_envelope(grant_id, expires_at));
    &&& before.len() == 0 || before.last() == 10
    &&& raw == before + line.push(10)
    &&& written_line(line, grant_id, expires_at)
}

/// Whether a line that was written for a grant is read as that grant.
spec fn read_back(number: int, line: Seq<u8>) -> bool {
    forall|grant_id: u128, expires_at: Timestamp| #[trigger]
        written_line(line, grant_id, expires_at) ==> line_reading(number, line) == Ok::<
            EntryModel,
            Seq<char>,
        >(consumed_model(number, grant_id, expires_at))
}

/// A journal whose last line was written for a grant ends with that grant.
proof fn appended_grant(raw: Seq<u8>, before: Seq<u8>, grant_id: u128, expires_at: Timestamp)
    requires
        was_appended(raw, before, grant_id, expires_at),
        journal_reading(before) is Ok ==> ({
            let lines = record_lines(raw);
            lines.len() > 0 ==> read_back(lines.last().0, lines.last().1)
        }),
    ensures
        journal_reading(raw) == match journal_reading(before) {
            Ok(entries) => Ok::<Seq<EntryModel>, Seq<char>>(
                entries.push(
                    consumed_model(byte_lines(before).len() as int, grant_id, expires_at),
                ),
            ),
            Err(message) => Err(message),
        },
{
    let line = encode_utf8(consumed_envelope(grant_id, expires_at));
    written_line_is_one_line(line, grant_id, expires_at);
    appended_line_is_read(before, line);
}

/// Reads a journal of consumed grants. Every entry that comes out carries the
/// checksum of its record, and a grant whose line was written last is read last.
pub fn consumed_grants_of(raw: &[u8]) -> (result: Result<Vec<ConsumedGrantEntry>, String>)
    ensures
        match journal_reading(raw@) {
            Ok(entries) => {
                &&& result is Ok
                &&& entry_views(result->Ok_0@) == entries
                &&& forall|i: int| 0 <= i < entries.len() ==> intact(#[trigger] result->Ok_0@[i])
            },
            Err(message) => result is Err && result->Err_0@ == message,
        },
        forall|before: Seq<u8>, grant_id: u128, expires_at: Timestamp| #[trigger]
            was_appended(raw@, before, grant_id, expires_at) ==> match journal_reading(before) {
                Ok(entries) => result is Ok && entry_views(result->Ok_0@) == entries.push(
                    consumed_model(byte_lines(before).len() as int, grant_id, expires_at),
                ),
                Err(message) => result is Err && result->Err_0@ == message,
            },
{
    let lines = journal_lines(raw);
    let ghost texts = numbered_views(lines@);
    let mut entries: Vec<ConsumedGrantEntry> = Vec::new();
    let mut i: usize = 0;
    assert(entry_views(entries@) =~= Seq::empty());
    while i < lines.len()
        invariant
            i <= lines.len(),
            texts == numbered_views(lines@),
            readings(texts, i as int) == Ok::<Seq<EntryModel>, Seq<char>>(entry_views(entries@)),
            entries.len() == i,
            texts == record_lines(raw@),
            forall|j: int| 0 <= j < entries.len() ==> intact(#[trigger] entries@[j]),
            forall|j: int|
                0 <= j < i ==> read_back((#[trigger] texts[j]).0, texts[j].1),
        decreases lines.len() - i,
    {
        let ghost before = entry_views(entries@);
        let line = &lines[i];
        assert(texts[i as int] == (line.0 as int, line.1@));
        match consumed_grant_of_line(line.0, &line.1) {
            Ok(entry) => {
                entries.push(entry);
                assert(entry_views(entries@) =~= before.push(entry@));
            },
            Err(message) => {
                proof {
                    assert(readings(texts, i + 1) == Err::<Seq<EntryModel>, Seq<char>>(message@));
                    failed_reading_stays(texts, i + 1, texts.len() as int);
                    assert forall|earlier: Seq<u8>, grant_id: u128, expires_at: Timestamp|
                        #[trigger] was_appended(
                            raw@,
                            earlier,
                            grant_id,
                            expires_at,
                        ) implies journal_reading(earlier) == Err::<Seq<EntryModel>, Seq<char>>(
                        message@,
                    ) by {
                        let written = encode_utf8(consumed_envelope(grant_id, expires_at));
                        written_line_is_one_line(written, grant_id, expires_at);
                        appended_line_is_read(earlier, written);
                        let n = record_lines(earlier).len() as int;
                        readings_prefix(record_lines(earlier), texts, n);
                        if i < n {
                            failed_reading_stays(texts, i + 1, n);
                        } else {
                            assert(texts[i as int] == (line.0 as int, written));
                            assert(written_line(line.1@, grant_id, expires_at));
                        }
                    }
                }
                return Err(message);
            },
        }
        i += 1;
    }
    proof {
        assert forall|before: Seq<u8>, grant_id: u128, expires_at: Timestamp| #[trigger]
            was_appended(raw@, before, grant_id, expires_at) implies journal_reading(raw@)
            == match journal_reading(before) {
            Ok(entries) => Ok::<Seq<EntryModel>, Seq<char>>(
                entries.push(
                    consumed_model(byte_lines(before).len() as int, grant_id, expires_at),
                ),
            ),
            Err(message) => Err(message),
        } by {
            appended_grant(raw@, before, grant_id, expires_at);
        }
    }
    Ok(entries)
}

/// The grants among the first `n` entries that have not expired.
pub open spec fn unexpired(entries: Seq<ConsumedGrantEntry>, now: int, n: int) -> Seq<
    (u128, Timestamp),
>
    decreases n,
{
    if n <= 0 {
        Seq::empty()
    } else if entries[n - 1].expires_at@ >= now {
        unexpired(entries, now, n - 1).push((entries[n - 1].grant_id, entries[n - 1].expires_at))
    } else {
        unexpired(entries, now, n - 1)
    }
}

/// Whether a fault names the first entry whose checksum is wrong.
pub open spec fn is_first_fault(entries: Seq<ConsumedGrantEntry>, fault: ConsumedGrantFault) -> bool {
    exists|i: int|
        0 <= i < entries.len() && !intact(#[trigger] entries[i]) && fault.line == entries[i].line
            && forall|j: int| 0 <= j < i ==> intact(#[trigger] entries[j])
}

/// A grant is among the unexpired ones exactly when an unexpired entry names it.
pub proof fn unexpired_ones(entries: Seq<ConsumedGrantEntry>, now: int, n: int, grant_id: u128)
    requires
        0 <= n <= entries.len(),
    ensures
        (exists|i: int|
            0 <= i < unexpired(entries, now, n).len() && (#[trigger] unexpired(
                entries,
                now,
                n,
            )[i]).0 == grant_id) <==> exists|i: int|
            0 <= i < n && (#[trigger] entries[i]).grant_id == grant_id && entries[i].expires_at@
                >= now,
    decreases n,
{
    if n > 0 {
        unexpired_ones(entries, now, n - 1, grant_id);
        let before = unexpired(entries, now, n - 1);
        let after = unexpired(entries, now, n);
        if exists|i: int| 0 <= i < before.len() && (#[trigger] before[i]).0 == grant_id {
            let i = choose|i: int| 0 <= i < before.len() && (#[trigger] before[i]).0 == grant_id;
            assert(after[i].0 == grant_id);
        }
        if entries[n - 1].expires_at@ >= now && entries[n - 1].grant_id == grant_id {
            assert(after[before.len() as int].0 == grant_id);
        }
        if exists|i: int| 0 <= i < after.len() && (#[trigger] after[i]).0 == grant_id {
            let i = choose|i: int| 0 <= i < after.len() && (#[trigger] after[i]).0 == grant_id;
            if i < before.len() {
                assert(before[i].0 == grant_id);
            } else {
                assert(entries[n - 1].grant_id == grant_id);
            }
        }
    }
}

/// Reads the unexpired grants; fails at the first entry whose checksum is wrong.
pub fn load_entries(entries: &Vec<ConsumedGrantEntry>, now: Timestamp) -> (result: Result<
    Vec<(u128, Timestamp)>,
    ConsumedGrantFault,
>)
    ensures
        match result {
            Ok(grants) => (forall|i: int|
                0 <= i < entries@.len() ==> intact(#[trigger] entries@[i])) && grants@
                == unexpired(entries@, now@, entries@.len() as int),
            Err(fault) => is_first_fault(entries@, fault),
        },
{
    let mut grants: Vec<(u128, Timestamp)> = Vec::new();
    let mut i: usize = 0;
    while i < entries.len()
        invariant
            i <= entries.len(),
            forall|j: int| 0 <= j < i ==> intact(#[trigger] entries@[j]),
            grants@ == unexpired(entries@, now@, i as int),
        decreases entries.len() - i,
    {
        let entry = &entries[i];
        if !same_text(&entry.checksum_sha256, &hex_encode(&sha256(&entry.encoded))) {
            assert(!intact(entries@[i as int]));
            return Err(ConsumedGrantFault { line: entry.line });
        }
        assert(intact(entries@[i as int]));
        if now.at_or_before(&entry.expires_at) {
            grants.push((entry.grant_id, entry.expires_at));
        }
        i += 1;
    }
    Ok(grants)
}

/// Whether a list of grants holds an identifier.
pub fn lists_grant(grants: &Vec<(u128, Timestamp)>, grant_id: u128) -> (result: bool)
    ensures
        result == exists|i: int| 0 <= i < grants@.len() && (#[trigger] grants@[i]).0 == grant_id,
{
    let mut i: usize = 0;
    while i < grants.len()
        invariant
            i <= grants.len(),
            forall|j: int| 0 <= j < i ==> (#[trigger] grants@[j]).0 != grant_id,
        decreases grants.len() - i,
    {
        if grants[i].0 == grant_id {
            return true;
        }
        i += 1;
    }
    false
}

} // verus!
