//! Durable exactly-once ledger for privileged broker operations.
//!
//! The broker records each job before executing it and appends the result
//! after execution. When the client daemon is destroyed mid-operation (client
//! service restart) or reconnects after a crash, the server re-dispatches the
//! same job and the broker replays the recorded result instead of executing
//! twice. An `Executing` record left by a crashed broker fails closed: the
//! outcome is unknown and the job must be retried as a new job by the
//! operator.
//!
//! The ledger is a checksummed journal with one JSON document on each line.

use vstd::prelude::*;
use vstd::utf8::encode_utf8;

use crate::codec::{
    bool_literal, bool_text, byte_array, byte_array_text, hex_encode, hex_text, member, member_text,
    object, object_text, quote, quoted, signed_decimal, signed_text,
};
use super::journal::{
    consumed_grant_entry, consumed_grant_line, consumed_line, intact, is_first_fault, lists_grant,
    load_entries, unexpired, unexpired_ones, written_line, ConsumedGrantEntry, ConsumedGrantFault,
};
use crate::common::grant::GrantOperation;
use crate::crypto::{sha256, sha256_digest};
use crate::ident::{hyphenated, id_text};
use crate::instant::Timestamp;
use crate::platform::broker::{BrokerResponse, ResponseModel};
use crate::text::{decimal, numeral, same_text, views};

verus! {

pub const LEDGER_VERSION: u32 = 1;

/// Records are retained long enough to cover the maximum job TTL (7 days).
pub const RECORD_RETENTION_SECONDS: u32 = 7 * 86_400;

/// An interrupted execution marker expires after this window; a later request
/// for the same job is then rejected as interrupted rather than re-executed.
/// The window exceeds the 900s command timeout so a legitimately running
/// command is never mislabeled as interrupted.
pub const EXECUTING_MARKER_TTL_SECONDS: u32 = 30 * 60;

pub const MAX_LEDGER_BYTES: u64 = 4 * 1024 * 1024;

/// Interrupted markers are retained for fail-closed semantics; compaction
/// keeps at most this many of the newest markers so the file stays bounded.
pub const MAX_RETAINED_INTERRUPTED_MARKERS: usize = 32;

/// A replayed response is forwarded into a single bounded job event, so the
/// recorded output must respect the job-event limit.
pub const MAX_RECORDED_OUTPUT_BYTES: usize = 64 * 1024;

#[derive(Debug, Clone, Copy, PartialEq, Eq, Structural)]
pub enum LedgerState {
    Executing,
    Completed,
}

#[derive(Debug)]
pub struct LedgerRecord {
    pub job_id: u128,
    pub operation: GrantOperation,
    pub state: LedgerState,
    pub response: Option<BrokerResponse>,
    pub expires_at: Timestamp,
    pub recorded_at: Timestamp,
}

/// A line of the journal: its number, counted from one, and its document.
#[derive(Debug)]
pub struct LedgerEnvelope {
    pub line: usize,
    pub version: u32,
    pub record: LedgerRecord,
    pub checksum_sha256: String,
}

/// What a record says.
pub struct RecordModel {
    pub job_id: u128,
    pub operation: GrantOperation,
    pub state: LedgerState,
    pub response: Option<ResponseModel>,
    pub expires_at: Timestamp,
    pub recorded_at: Timestamp,
}

/// What a line of the journal says.
pub struct EnvelopeModel {
    pub line: usize,
    pub version: u32,
    pub record: RecordModel,
    pub checksum_sha256: Seq<char>,
}

impl View for LedgerRecord {
    type V = RecordModel;

    open spec fn view(&self) -> RecordModel {
        RecordModel {
            job_id: self.job_id,
            operation: self.operation,
            state: self.state,
            response: match self.response {
                Some(response) => Some(response@),
                None => None,
            },
            expires_at: self.expires_at,
            recorded_at: self.recorded_at,
        }
    }
}

impl View for LedgerEnvelope {
    type V = EnvelopeModel;

    open spec fn view(&self) -> EnvelopeModel {
        EnvelopeModel {
            line: self.line,
            version: self.version,
            record: self.record@,
            checksum_sha256: self.checksum_sha256@,
        }
    }
}

impl Clone for LedgerRecord {
    fn clone(&self) -> (result: LedgerRecord)
        ensures
            result@ == self@,
    {
        let response = match &self.response {
            Some(response) => Some(response.clone()),
            None => None,
        };
        LedgerRecord {
            job_id: self.job_id,
            operation: self.operation,
            state: self.state,
            response,
            expires_at: self.expires_at,
            recorded_at: self.recorded_at,
        }
    }
}

#[derive(Debug, Clone, Copy, PartialEq, Eq, Structural)]
pub enum LedgerError {
    UnsupportedVersion { line: usize },
    ChecksumMismatch { line: usize },
    MissingResponse,
    DuplicateRecord,
    MissingMarker,
    OutputTooLarge,
}

impl LedgerError {
    pub open spec fn message_spec(self) -> Seq<char> {
        match self {
            LedgerError::UnsupportedVersion { line } =>
                "unsupported broker ledger version on line "@ + numeral(line as nat, 10),
            LedgerError::ChecksumMismatch { line } =>
                "broker ledger checksum mismatch on record "@ + numeral(line as nat, 10),
            LedgerError::MissingResponse => "completed ledger record is missing its response"@,
            LedgerError::DuplicateRecord => "job already has a broker ledger record"@,
            LedgerError::MissingMarker => "cannot complete a job without an executing marker"@,
            LedgerError::OutputTooLarge => "broker response output exceeds the recorded bound"@,
        }
    }

    pub fn message(&self) -> (result: String)
        ensures
            result@ == self.message_spec(),
    {
        match self {
            LedgerError::UnsupportedVersion { line } => {
                let mut result: String = "unsupported broker ledger version on line ".to_owned();
                result.append(&decimal(*line as u64));
                result
            },
            LedgerError::ChecksumMismatch { line } => {
                let mut result: String = "broker ledger checksum mismatch on record ".to_owned();
                result.append(&decimal(*line as u64));
                result
            },
            LedgerError::MissingResponse =>
                "completed ledger record is missing its response".to_owned(),
            LedgerError::DuplicateRecord => "job already has a broker ledger record".to_owned(),
            LedgerError::MissingMarker =>
                "cannot complete a job without an executing marker".to_owned(),
            LedgerError::OutputTooLarge =>
                "broker response output exceeds the recorded bound".to_owned(),
        }
    }
}

#[derive(Debug)]
pub enum LedgerLookup {
    /// The job was recorded but never completed. `interrupted` is true when
    /// the executing marker has expired, meaning the previous broker process
    /// could not have finished and its outcome is unknown.
    Executing { interrupted: bool },
    Completed(BrokerResponse),
}

/// What a lookup says.
pub enum LookupModel {
    Executing { interrupted: bool },
    Completed(ResponseModel),
}

impl View for LedgerLookup {
    type V = LookupModel;

    open spec fn view(&self) -> LookupModel {
        match self {
            LedgerLookup::Executing { interrupted } => LookupModel::Executing {
                interrupted: *interrupted,
            },
            LedgerLookup::Completed(response) => LookupModel::Completed(response@),
        }
    }
}

impl LedgerState {
    pub open spec fn name_spec(self) -> Seq<char> {
        match self {
            LedgerState::Executing => "executing"@,
            LedgerState::Completed => "completed"@,
        }
    }
}

/// The JSON document of a response.
pub open spec fn response_document(response: ResponseModel) -> Seq<char> {
    object(
        seq![
            member("success"@, bool_literal(response.success)),
            member("output"@, byte_array(response.output)),
            member("exit_code"@, signed_decimal(response.exit_code as int)),
        ],
    )
}

/// The value of a record's response member.
pub open spec fn optional_response(response: Option<ResponseModel>) -> Seq<char> {
    match response {
        Some(response) => response_document(response),
        None => "null"@,
    }
}

/// The JSON document of a record.
pub open spec fn record_document(record: RecordModel) -> Seq<char> {
    object(
        seq![
            member("job_id"@, quoted(hyphenated(record.job_id))),
            member("operation"@, quoted(record.operation.name_spec())),
            member("state"@, quoted(record.state.name_spec())),
            member("response"@, optional_response(record.response)),
            member("expires_at"@, quoted(record.expires_at.text_spec())),
            member("recorded_at"@, quoted(record.recorded_at.text_spec())),
        ],
    )
}

/// The checksum of a record: the digest of its document.
pub open spec fn checksum_of(record: RecordModel) -> Seq<char> {
    hex_text(sha256_digest(encode_utf8(record_document(record))))
}

/// The line that a record takes in the journal, with its final newline.
pub open spec fn line_of(record: RecordModel) -> Seq<u8> {
    encode_utf8(
        object(
            seq![
                member("version"@, numeral(LEDGER_VERSION as nat, 10)),
                member("record"@, record_document(record)),
                member("checksum_sha256"@, quoted(checksum_of(record))),
            ],
        ),
    ).push(10)
}

/// Writes the JSON document of a response.
pub fn response_text(response: &BrokerResponse) -> (result: String)
    ensures
        result@ == response_document(response@),
{
    let mut members: Vec<String> = Vec::new();
    members.push(member_text("success", bool_text(response.success)));
    members.push(member_text("output", &byte_array_text(&response.output)));
    members.push(member_text("exit_code", &signed_text(response.exit_code)));
    let result = object_text(&members);
    assert(views(members@) =~= seq![
        member("success"@, bool_literal(response.success)),
        member("output"@, byte_array(response.output@)),
        member("exit_code"@, signed_decimal(response.exit_code as int)),
    ]);
    result
}

fn record_text(record: &LedgerRecord) -> (result: String)
    ensures
        result@ == record_document(record@),
{
    let mut members: Vec<String> = Vec::new();
    members.push(member_text("job_id", &quote(&id_text(record.job_id))));
    members.push(member_text("operation", &quote(record.operation.name())));
    members.push(
        match record.state {
            LedgerState::Executing => member_text("state", &quote("executing")),
            LedgerState::Completed => member_text("state", &quote("completed")),
        },
    );
    members.push(
        match &record.response {
            Some(response) => member_text("response", &response_text(response)),
            None => member_text("response", "null"),
        },
    );
    members.push(member_text("expires_at", &quote(&record.expires_at.text())));
    members.push(member_text("recorded_at", &quote(&record.recorded_at.text())));
    let result = object_text(&members);
    assert(views(members@) =~= seq![
        member("job_id"@, quoted(hyphenated(record.job_id))),
        member("operation"@, quoted(record.operation.name_spec())),
        member("state"@, quoted(record.state.name_spec())),
        member("response"@, optional_response(record@.response)),
        member("expires_at"@, quoted(record.expires_at.text_spec())),
        member("recorded_at"@, quoted(record.recorded_at.text_spec())),
    ]);
    result
}

/// The checksum that guards a record in the journal.
pub fn record_checksum(record: &LedgerRecord) -> (result: String)
    ensures
        result@ == checksum_of(record@),
{
    let document = record_text(record);
    hex_encode(&sha256(document.as_str().as_bytes()))
}

/// The bytes that a record appends to the journal.
pub fn record_line(record: &LedgerRecord) -> (result: Vec<u8>)
    ensures
        result@ == line_of(record@),
{
    let mut members: Vec<String> = Vec::new();
    members.push(member_text("version", &decimal(LEDGER_VERSION as u64)));
    members.push(member_text("record", &record_text(record)));
    members.push(member_text("checksum_sha256", &quote(&record_checksum(record))));
    let envelope = object_text(&members);
    assert(views(members@) =~= seq![
        member("version"@, numeral(LEDGER_VERSION as nat, 10)),
        member("record"@, record_document(record@)),
        member("checksum_sha256"@, quoted(checksum_of(record@))),
    ]);
    let mut line: Vec<u8> = envelope.as_str().as_bytes_vec();
    line.push(10);
    line
}

/// Why a line cannot be trusted.
pub open spec fn fault_of(envelope: EnvelopeModel) -> Option<LedgerError> {
    if envelope.version != LEDGER_VERSION {
        Some(LedgerError::UnsupportedVersion { line: envelope.line })
    } else if envelope.checksum_sha256 != checksum_of(envelope.record) {
        Some(LedgerError::ChecksumMismatch { line: envelope.line })
    } else {
        None
    }
}

/// The fault of the first line that has one.
pub open spec fn first_fault(journal: Seq<EnvelopeModel>) -> Option<LedgerError>
    decreases journal.len(),
{
    if journal.len() == 0 {
        None
    } else {
        match first_fault(journal.drop_last()) {
            Some(fault) => Some(fault),
            None => fault_of(journal.last()),
        }
    }
}

/// Whether a record still counts. Expired `Executing` markers do, so that a
/// later request reports them as interrupted.
pub open spec fn counts(record: RecordModel, now: int) -> bool {
    record.expires_at@ > now || record.state == LedgerState::Executing
}

/// The records that count, in the order of the journal.
pub open spec fn committed(journal: Seq<EnvelopeModel>, now: int) -> Seq<RecordModel>
    decreases journal.len(),
{
    if journal.len() == 0 {
        Seq::empty()
    } else {
        let before = committed(journal.drop_last(), now);
        if counts(journal.last().record, now) {
            before.push(journal.last().record)
        } else {
            before
        }
    }
}

/// The last record of a job.
pub open spec fn latest(records: Seq<RecordModel>, job_id: u128) -> Option<RecordModel>
    decreases records.len(),
{
    if records.len() == 0 {
        None
    } else if records.last().job_id == job_id {
        Some(records.last())
    } else {
        latest(records.drop_last(), job_id)
    }
}

/// What a job's last record that counts says.
pub open spec fn reading(record: RecordModel, now: int) -> Result<LookupModel, LedgerError> {
    match record.state {
        LedgerState::Executing => Ok(
            LookupModel::Executing { interrupted: record.expires_at@ <= now },
        ),
        LedgerState::Completed => match record.response {
            Some(response) => Ok(LookupModel::Completed(response)),
            None => Err(LedgerError::MissingResponse),
        },
    }
}

/// What the journal says of a job.
pub open spec fn standing(journal: Seq<EnvelopeModel>, job_id: u128, now: int) -> Result<
    Option<LookupModel>,
    LedgerError,
> {
    match first_fault(journal) {
        Some(fault) => Err(fault),
        None => match latest(committed(journal, now), job_id) {
            None => Ok(None),
            Some(record) => match reading(record, now) {
                Ok(lookup) => Ok(Some(lookup)),
                Err(error) => Err(error),
            },
        },
    }
}

/// The view of a lookup's answer.
pub open spec fn answer(result: Result<Option<LedgerLookup>, LedgerError>) -> Result<
    Option<LookupModel>,
    LedgerError,
> {
    match result {
        Ok(Some(lookup)) => Ok(Some(lookup@)),
        Ok(None) => Ok(None),
        Err(error) => Err(error),
    }
}

/// The views of the journal's lines.
pub open spec fn lines_of(journal: Seq<LedgerEnvelope>) -> Seq<EnvelopeModel> {
    journal.map_values(|envelope: LedgerEnvelope| envelope@)
}

/// The views of records.
pub open spec fn records_of(records: Seq<LedgerRecord>) -> Seq<RecordModel> {
    records.map_values(|record: LedgerRecord| record@)
}

/// The line that appending a record adds to a journal.
pub open spec fn appended(journal: Seq<EnvelopeModel>, record: RecordModel) -> Seq<EnvelopeModel> {
    journal.push(
        EnvelopeModel {
            line: next_line(journal),
            version: LEDGER_VERSION,
            record,
            checksum_sha256: checksum_of(record),
        },
    )
}

/// The number of the line after the last one.
pub open spec fn next_line(journal: Seq<EnvelopeModel>) -> usize {
    if journal.len() > 0 && journal.last().line < usize::MAX {
        (journal.last().line + 1) as usize
    } else if journal.len() > 0 {
        usize::MAX
    } else {
        1
    }
}

/// The durable broker ledger for one machine: the lines of its journal. Each
/// change returns the bytes that the journal's file must durably hold before
/// the change counts; when they cannot be written, the ledger is read again.
#[derive(Debug)]
pub struct BrokerLedger {
    journal: Vec<LedgerEnvelope>,
    consumed: Vec<ConsumedGrantEntry>,
}

impl View for BrokerLedger {
    type V = Seq<EnvelopeModel>;

    closed spec fn view(&self) -> Seq<EnvelopeModel> {
        lines_of(self.journal@)
    }
}

impl BrokerLedger {
    /// The entries of the journal of consumed grants.
    pub closed spec fn consumed_entries(self) -> Seq<ConsumedGrantEntry> {
        self.consumed@
    }

    /// The ledger whose journals hold these lines.
    pub fn open(journal: Vec<LedgerEnvelope>, consumed: Vec<ConsumedGrantEntry>) -> (result:
        BrokerLedger)
        ensures
            result@ == lines_of(journal@),
            result.consumed_entries() == consumed@,
    {
        BrokerLedger { journal, consumed }
    }

    /// The lines of both journals.
    pub fn into_journals(self) -> (result: (Vec<LedgerEnvelope>, Vec<ConsumedGrantEntry>))
        ensures
            lines_of(result.0@) == self@,
            result.1@ == self.consumed_entries(),
    {
        (self.journal, self.consumed)
    }

    /// Records a consumed grant identifier until its signed expiry, and returns
    /// the line that the journal of consumed grants must durably hold.
    pub fn record_consumed_grant(&mut self, grant_id: u128, expires_at: Timestamp) -> (line: Vec<
        u8,
    >)
        ensures
            final(self)@ == old(self)@,
            line@ == consumed_line(grant_id, expires_at),
            written_line(line@.drop_last(), grant_id, expires_at),
            final(self).consumed_entries().len() == old(self).consumed_entries().len() + 1,
            final(self).consumed_entries().drop_last() == old(self).consumed_entries(),
            intact(final(self).consumed_entries().last()),
            final(self).consumed_entries().last().grant_id == grant_id,
            final(self).consumed_entries().last().expires_at == expires_at,
    {
        let line = consumed_grant_line(grant_id, expires_at);
        let number: usize = if self.consumed.len() < usize::MAX {
            self.consumed.len() + 1
        } else {
            usize::MAX
        };
        let entry = consumed_grant_entry(number, grant_id, expires_at);
        self.consumed.push(entry);
        assert(self.consumed@.drop_last() =~= old(self).consumed@);
        line
    }

    /// Loads unexpired consumed grant identifiers; fails at the first entry
    /// whose checksum is wrong.
    pub fn load_consumed_grants(&self, now: Timestamp) -> (result: Result<
        Vec<(u128, Timestamp)>,
        ConsumedGrantFault,
    >)
        ensures
            match result {
                Ok(grants) => (forall|i: int|
                    0 <= i < self.consumed_entries().len() ==> intact(
                        #[trigger] self.consumed_entries()[i],
                    )) && grants@ == unexpired(
                    self.consumed_entries(),
                    now@,
                    self.consumed_entries().len() as int,
                ),
                Err(fault) => is_first_fault(self.consumed_entries(), fault),
            },
    {
        load_entries(&self.consumed, now)
    }

    /// Returns whether this grant identifier was already recorded as consumed
    /// and has not expired.
    pub fn grant_was_consumed(&self, grant_id: u128, now: Timestamp) -> (result: Result<
        bool,
        ConsumedGrantFault,
    >)
        ensures
            match result {
                Ok(consumed) => (forall|i: int|
                    0 <= i < self.consumed_entries().len() ==> intact(
                        #[trigger] self.consumed_entries()[i],
                    )) && consumed == exists|i: int|
                    0 <= i < self.consumed_entries().len() && (
                    #[trigger] self.consumed_entries()[i]).grant_id == grant_id
                        && self.consumed_entries()[i].expires_at@ >= now@,
                Err(fault) => is_first_fault(self.consumed_entries(), fault),
            },
    {
        match load_entries(&self.consumed, now) {
            Err(fault) => Err(fault),
            Ok(grants) => {
                proof {
                    unexpired_ones(self.consumed@, now@, self.consumed@.len() as int, grant_id);
                }
                let ghost listed = unexpired(self.consumed@, now@, self.consumed@.len() as int);
                let found = lists_grant(&grants, grant_id);
                assert(found == exists|i: int|
                    0 <= i < listed.len() && (#[trigger] listed[i]).0 == grant_id);
                assert(self.consumed_entries() == self.consumed@);
                assert(found == exists|i: int|
                    0 <= i < self.consumed_entries().len() && (
                    #[trigger] self.consumed_entries()[i]).grant_id == grant_id
                        && self.consumed_entries()[i].expires_at@ >= now@);
                assert(forall|i: int|
                    0 <= i < self.consumed_entries().len() ==> intact(
                        #[trigger] self.consumed_entries()[i],
                    ));
                Ok(found)
            },
        }
    }

    /// Reads the records that count. Every line must have the supported version
    /// and the checksum of its record.
    pub fn read_committed(&self, now: Timestamp) -> (result: Result<Vec<LedgerRecord>, LedgerError>)
        ensures
            match result {
                Ok(records) => first_fault(self@) is None && records_of(records@) == committed(
                    self@,
                    now@,
                ),
                Err(error) => first_fault(self@) == Some(error),
            },
    {
        let mut records: Vec<LedgerRecord> = Vec::new();
        let ghost lines = self@;
        let mut i: usize = 0;
        assert(records_of(records@) =~= committed(lines.take(0), now@));
        while i < self.journal.len()
            invariant
                i <= self.journal.len(),
                lines == lines_of(self.journal@),
                lines == self@,
                first_fault(lines.take(i as int)) is None,
                records_of(records@) == committed(lines.take(i as int), now@),
            decreases self.journal.len() - i,
        {
            let envelope = &self.journal[i];
            assert(lines.take(i + 1).drop_last() == lines.take(i as int));
            assert(lines.take(i + 1).last() == envelope@);
            if envelope.version != LEDGER_VERSION {
                proof {
                    fault_stands(lines, i + 1);
                }
                return Err(LedgerError::UnsupportedVersion { line: envelope.line });
            }
            if !same_text(&envelope.checksum_sha256, &record_checksum(&envelope.record)) {
                proof {
                    fault_stands(lines, i + 1);
                }
                return Err(LedgerError::ChecksumMismatch { line: envelope.line });
            }
            let ghost before = records_of(records@);
            if now.before(&envelope.record.expires_at) || envelope.record.state
                == LedgerState::Executing {
                records.push(envelope.record.clone());
                assert(records_of(records@) =~= before.push(envelope.record@));
            }
            i += 1;
        }
        assert(lines.take(lines.len() as int) == lines);
        Ok(records)
    }

    /// Returns the current ledger record for a job.
    pub fn lookup(&self, job_id: u128, now: Timestamp) -> (result: Result<
        Option<LedgerLookup>,
        LedgerError,
    >)
        ensures
            answer(result) == standing(self@, job_id, now@),
    {
        let records = match self.read_committed(now) {
            Ok(records) => records,
            Err(error) => return Err(error),
        };
        let ghost models = records_of(records@);
        match latest_index(&records, job_id) {
            None => Ok(None),
            Some(index) => {
                let record = &records[index];
                assert(models[index as int] == record@);
                match record.state {
                    LedgerState::Executing => Ok(
                        Some(
                            LedgerLookup::Executing {
                                interrupted: record.expires_at.at_or_before(&now),
                            },
                        ),
                    ),
                    LedgerState::Completed => match &record.response {
                        Some(response) => Ok(Some(LedgerLookup::Completed(response.clone()))),
                        None => Err(LedgerError::MissingResponse),
                    },
                }
            },
        }
    }

    /// The operation of a job's last record that counts.
    pub fn latest_operation(&self, job_id: u128, now: Timestamp) -> (result: Result<
        Option<GrantOperation>,
        LedgerError,
    >)
        ensures
            match result {
                Err(error) => first_fault(self@) == Some(error),
                Ok(None) => first_fault(self@) is None && latest(committed(self@, now@), job_id)
                    is None,
                Ok(Some(operation)) => first_fault(self@) is None && match latest(
                    committed(self@, now@),
                    job_id,
                ) {
                    Some(record) => record.operation == operation,
                    None => false,
                },
            },
    {
        let records = match self.read_committed(now) {
            Ok(records) => records,
            Err(error) => return Err(error),
        };
        match latest_index(&records, job_id) {
            None => Ok(None),
            Some(index) => {
                assert(records_of(records@)[index as int] == records@[index as int]@);
                Ok(Some(records[index].operation))
            },
        }
    }

    fn append(&mut self, record: LedgerRecord) -> (line: Vec<u8>)
        ensures
            final(self)@ == appended(old(self)@, record@),
            final(self).consumed_entries() == old(self).consumed_entries(),
            line@ == line_of(record@),
    {
        let bytes = record_line(&record);
        let checksum_sha256 = record_checksum(&record);
        let count: usize = self.journal.len();
        let line: usize = if count == 0 {
            1
        } else if self.journal[count - 1].line < usize::MAX {
            self.journal[count - 1].line + 1
        } else {
            usize::MAX
        };
        let ghost before = self@;
        assert(count > 0 ==> before.last() == self.journal@[count - 1]@);
        self.journal.push(
            LedgerEnvelope { line, version: LEDGER_VERSION, record, checksum_sha256 },
        );
        assert(self@ =~= appended(before, record@));
        bytes
    }

    /// Appends an `Executing` marker for a job. Fails when a record for the job
    /// already exists (a duplicate dispatch, or an interrupted execution whose
    /// outcome is unknown).
    pub fn mark_executing(&mut self, job_id: u128, operation: GrantOperation, now: Timestamp) -> (
        result: Result<Vec<u8>, LedgerError>)
        requires
            standing(old(self)@, job_id, now@) == Ok::<Option<LookupModel>, LedgerError>(None)
                ==> now.can_add(EXECUTING_MARKER_TTL_SECONDS as int),
        ensures
            final(self).consumed_entries() == old(self).consumed_entries(),
            marked(old(self)@, job_id, operation, now, final(self)@, result),
    {
        match self.lookup(job_id, now) {
            Err(error) => return Err(error),
            Ok(Some(_)) => return Err(LedgerError::DuplicateRecord),
            Ok(None) => {},
        }
        let marker = LedgerRecord {
            job_id,
            operation,
            state: LedgerState::Executing,
            response: None,
            expires_at: now.plus_seconds(EXECUTING_MARKER_TTL_SECONDS),
            recorded_at: now,
        };
        assert(is_marker(marker@, job_id, operation, now));
        Ok(self.append(marker))
    }

    /// Replaces an `Executing` marker with the durable completion record.
    pub fn record_completed(&mut self, job_id: u128, response: &BrokerResponse, now: Timestamp) -> (
        result: Result<Vec<u8>, LedgerError>)
        requires
            response.output@.len() <= MAX_RECORDED_OUTPUT_BYTES && is_recorded(
                standing(old(self)@, job_id, now@),
            ) ==> now.can_add(RECORD_RETENTION_SECONDS as int),
        ensures
            final(self).consumed_entries() == old(self).consumed_entries(),
            recorded(old(self)@, job_id, response@, now, final(self)@, result),
    {
        if response.output.len() > MAX_RECORDED_OUTPUT_BYTES {
            return Err(LedgerError::OutputTooLarge);
        }
        match self.lookup(job_id, now) {
            Err(error) => return Err(error),
            Ok(None) => return Err(LedgerError::MissingMarker),
            Ok(Some(_)) => {},
        }
        let operation = match self.latest_operation(job_id, now) {
            Err(error) => return Err(error),
            Ok(None) => return Err(LedgerError::MissingMarker),
            Ok(Some(operation)) => operation,
        };
        proof {
            latest_is_of_the_job(committed(self@, now@), job_id);
        }
        let completion = LedgerRecord {
            job_id,
            operation,
            state: LedgerState::Completed,
            response: Some(response.clone()),
            expires_at: now.plus_seconds(RECORD_RETENTION_SECONDS),
            recorded_at: now,
        };
        assert(is_completion(
            completion@,
            latest(committed(self@, now@), job_id)->0,
            response@,
            now,
        ));
        Ok(self.append(completion))
    }
}

/// What marking a job as one that runs does to the journal, and what it gives.
pub open spec fn marked(
    before: Seq<EnvelopeModel>,
    job_id: u128,
    operation: GrantOperation,
    now: Timestamp,
    after: Seq<EnvelopeModel>,
    result: Result<Vec<u8>, LedgerError>,
) -> bool {
    match standing(before, job_id, now@) {
        Err(error) => result == Err::<Vec<u8>, LedgerError>(error) && after == before,
        Ok(Some(_)) => result == Err::<Vec<u8>, LedgerError>(LedgerError::DuplicateRecord)
            && after == before,
        Ok(None) => result is Ok && exists|marker: RecordModel| #[trigger]
            is_marker(marker, job_id, operation, now) && result->Ok_0@ == line_of(marker)
                && after == appended(before, marker),
    }
}

/// What recording a job's answer does to the journal, and what it gives.
pub open spec fn recorded(
    before: Seq<EnvelopeModel>,
    job_id: u128,
    response: ResponseModel,
    now: Timestamp,
    after: Seq<EnvelopeModel>,
    result: Result<Vec<u8>, LedgerError>,
) -> bool {
    if response.output.len() > MAX_RECORDED_OUTPUT_BYTES {
        result == Err::<Vec<u8>, LedgerError>(LedgerError::OutputTooLarge) && after
            == before
    } else {
        match standing(before, job_id, now@) {
            Err(error) => result == Err::<Vec<u8>, LedgerError>(error) && after
                == before,
            Ok(None) => result == Err::<Vec<u8>, LedgerError>(LedgerError::MissingMarker)
                && after == before,
            Ok(Some(_)) => result is Ok && exists|completion: RecordModel| #[trigger]
                is_completion(
                    completion,
                    latest(committed(before, now@), job_id)->0,
                    response,
                    now,
                ) && result->Ok_0@ == line_of(completion) && after == appended(
                    before,
                    completion,
                ),
        }
    }
}

/// Whether the ledger has a record of a job.
pub open spec fn is_recorded(said: Result<Option<LookupModel>, LedgerError>) -> bool {
    said is Ok && said->Ok_0 is Some
}

/// Whether a record is the marker that an execution starts with.
pub open spec fn is_marker(
    record: RecordModel,
    job_id: u128,
    operation: GrantOperation,
    now: Timestamp,
) -> bool {
    &&& record.job_id == job_id
    &&& record.operation == operation
    &&& record.state == LedgerState::Executing
    &&& record.response is None
    &&& record.expires_at.seconds_spec() == now.seconds_spec() + EXECUTING_MARKER_TTL_SECONDS
    &&& record.expires_at.nanos_spec() == now.nanos_spec() % 1_000_000_000
    &&& record.expires_at@ > now@
    &&& record.recorded_at == now
}

/// Whether a record completes the job that `earlier` speaks of.
pub open spec fn is_completion(
    record: RecordModel,
    earlier: RecordModel,
    response: ResponseModel,
    now: Timestamp,
) -> bool {
    &&& record.job_id == earlier.job_id
    &&& record.operation == earlier.operation
    &&& record.state == LedgerState::Completed
    &&& record.response == Some(response)
    &&& record.expires_at.seconds_spec() == now.seconds_spec() + RECORD_RETENTION_SECONDS
    &&& record.expires_at.nanos_spec() == now.nanos_spec() % 1_000_000_000
    &&& record.expires_at@ > now@
    &&& record.recorded_at == now
}

/// A fault in the first lines is the journal's first fault.
proof fn fault_stands(lines: Seq<EnvelopeModel>, length: int)
    requires
        0 <= length <= lines.len(),
        first_fault(lines.take(length)) is Some,
    ensures
        first_fault(lines) == first_fault(lines.take(length)),
    decreases lines.len() - length,
{
    if length == lines.len() {
        assert(lines.take(length) == lines);
    } else {
        assert(lines.take(length + 1).drop_last() == lines.take(length));
        fault_stands(lines, length + 1);
    }
}

proof fn latest_is_of_the_job(records: Seq<RecordModel>, job_id: u128)
    ensures
        latest(records, job_id) matches Some(record) ==> record.job_id == job_id,
    decreases records.len(),
{
    if records.len() > 0 {
        latest_is_of_the_job(records.drop_last(), job_id);
    }
}

fn latest_index(records: &Vec<LedgerRecord>, job_id: u128) -> (result: Option<usize>)
    ensures
        match result {
            Some(index) => index < records.len() && latest(records_of(records@), job_id) == Some(
                records@[index as int]@,
            ),
            None => latest(records_of(records@), job_id) is None,
        },
{
    let ghost models = records_of(records@);
    let mut end: usize = records.len();
    assert(models.take(models.len() as int) == models);
    while end > 0
        invariant
            end <= records.len(),
            models == records_of(records@),
            latest(models, job_id) == latest(models.take(end as int), job_id),
        decreases end,
    {
        assert(models.take(end as int).drop_last() == models.take(end - 1));
        assert(models.take(end as int).last() == records@[end - 1]@);
        if records[end - 1].job_id == job_id {
            return Some(end - 1);
        }
        end -= 1;
    }
    None
}

/// Appending a record neither adds nor removes a fault.
pub proof fn appending_adds_no_fault(journal: Seq<EnvelopeModel>, record: RecordModel)
    ensures
        first_fault(appended(journal, record)) == first_fault(journal),
{
    assert(appended(journal, record).drop_last() == journal);
}

/// What is appended last of a job is what the journal says of it, as long as it
/// counts.
pub proof fn appended_record_is_read(
    journal: Seq<EnvelopeModel>,
    record: RecordModel,
    now: int,
)
    requires
        first_fault(journal) is None,
        counts(record, now),
    ensures
        latest(committed(appended(journal, record), now), record.job_id) == Some(record),
        standing(appended(journal, record), record.job_id, now) == match reading(record, now) {
            Ok(lookup) => Ok::<Option<LookupModel>, LedgerError>(Some(lookup)),
            Err(error) => Err(error),
        },
{
    appending_adds_no_fault(journal, record);
    assert(appended(journal, record).drop_last() == journal);
}

/// A job that was marked as executing, and of which nothing was recorded since, is
/// told as executing at every moment however late, interrupted once thirty minutes
/// went by: so it is never marked again.
pub proof fn marker_is_told_however_late(
    journal: Seq<EnvelopeModel>,
    marker: RecordModel,
    marked_at: Timestamp,
    now: int,
)
    requires
        first_fault(journal) is None,
        is_marker(marker, marker.job_id, marker.operation, marked_at),
    ensures
        standing(appended(journal, marker), marker.job_id, now) == Ok::<
            Option<LookupModel>,
            LedgerError,
        >(
            Some(
                LookupModel::Executing {
                    interrupted: now >= (marked_at.seconds_spec() + EXECUTING_MARKER_TTL_SECONDS)
                        * 2_000_000_000 + marked_at.nanos_spec() % 1_000_000_000,
                },
            ),
        ),
{
    appended_record_is_read(journal, marker, now);
}

/// Appending a record changes nothing for other jobs.
pub proof fn other_jobs_are_unaffected(
    journal: Seq<EnvelopeModel>,
    record: RecordModel,
    job_id: u128,
    now: int,
)
    requires
        record.job_id != job_id,
    ensures
        standing(appended(journal, record), job_id, now) == standing(journal, job_id, now),
{
    appending_adds_no_fault(journal, record);
    assert(appended(journal, record).drop_last() == journal);
    if counts(record, now) {
        assert(committed(appended(journal, record), now).drop_last() == committed(journal, now));
    }
}

/// A job that was ever marked as executing is never again an unknown job: the
/// journal has an answer for it at any time, so it is not started a second time.
pub proof fn marked_job_is_never_forgotten(
    journal: Seq<EnvelopeModel>,
    job_id: u128,
    now: int,
    i: int,
)
    requires
        0 <= i < journal.len(),
        journal[i].record.job_id == job_id,
        journal[i].record.state == LedgerState::Executing,
    ensures
        latest(committed(journal, now), job_id) is Some,
        standing(journal, job_id, now) != Ok::<Option<LookupModel>, LedgerError>(None),
    decreases journal.len(),
{
    let before = journal.drop_last();
    if i < journal.len() - 1 {
        assert(before[i] == journal[i]);
        marked_job_is_never_forgotten(before, job_id, now, i);
        if counts(journal.last().record, now) {
            assert(committed(journal, now).drop_last() == committed(before, now));
        }
    }
}

/// A mark of a job that runs lasts half an hour, and what a finished job answered is kept for a
/// week.
pub proof fn records_last_as_long_as_promised(
    record: RecordModel,
    earlier: RecordModel,
    job_id: u128,
    operation: GrantOperation,
    response: ResponseModel,
    now: Timestamp,
)
    ensures
        is_marker(record, job_id, operation, now) ==> {
            &&& record.expires_at.seconds_spec() - now.seconds_spec() == 1800
            &&& record.recorded_at == now
            &&& record.job_id == job_id
            &&& record.operation == operation
            &&& reading(record, now@) == Ok::<LookupModel, LedgerError>(
                (LookupModel::Executing { interrupted: false }),
            )
        },
        is_completion(record, earlier, response, now) ==> {
            &&& record.expires_at.seconds_spec() - now.seconds_spec() == 7 * 24 * 60 * 60
            &&& record.recorded_at == now
            &&& record.job_id == earlier.job_id
            &&& record.operation == earlier.operation
            &&& reading(record, now@) == Ok::<LookupModel, LedgerError>(
                LookupModel::Completed(response),
            )
        },
{
}

/// A record counts until it expires, and the mark of a job that was never finished counts however
/// late it is; a mark is read as interrupted exactly once it has expired.
pub proof fn records_count_until_they_expire(record: RecordModel, now: int)
    ensures
        record.state == LedgerState::Completed ==> (counts(record, now) <==> now
            < record.expires_at@),
        record.state == LedgerState::Executing ==> counts(record, now),
        record.state == LedgerState::Executing ==> reading(record, now) == Ok::<
            LookupModel,
            LedgerError,
        >((LookupModel::Executing { interrupted: now >= record.expires_at@ })),
        record.state == LedgerState::Completed && record.response is Some ==> reading(record, now)
            == Ok::<LookupModel, LedgerError>(LookupModel::Completed(record.response->0)),
        record.state == LedgerState::Completed && record.response is None ==> reading(record, now)
            is Err,
{
}

/// A journal is read exactly if every line is of this version and has the checksum of its record.
pub proof fn sound_journals_are_read(journal: Seq<EnvelopeModel>)
    ensures
        first_fault(journal) is None <==> forall|i: int|
            0 <= i < journal.len() ==> (#[trigger] journal[i]).version == 1
                && journal[i].checksum_sha256 == checksum_of(journal[i].record),
    decreases journal.len(),
{
    if journal.len() > 0 {
        let before = journal.drop_last();
        sound_journals_are_read(before);
        assert(forall|i: int| 0 <= i < before.len() ==> #[trigger] before[i] == journal[i]);
        if first_fault(journal) is None {
            assert forall|i: int| 0 <= i < journal.len() implies (#[trigger] journal[i]).version
                == 1 && journal[i].checksum_sha256 == checksum_of(journal[i].record) by {
                if i < before.len() {
                    assert(before[i] == journal[i]);
                }
            }
        }
        if forall|i: int|
            0 <= i < journal.len() ==> (#[trigger] journal[i]).version == 1
                && journal[i].checksum_sha256 == checksum_of(journal[i].record) {
            assert(fault_of(journal[journal.len() - 1]) is None);
        }
    }
}

/// A job is marked exactly if nothing is known of it; then it is known to run, and any later mark
/// is refused.
pub proof fn jobs_are_marked_once(
    before: Seq<EnvelopeModel>,
    job_id: u128,
    operation: GrantOperation,
    now: Timestamp,
    after: Seq<EnvelopeModel>,
    result: Result<Vec<u8>, LedgerError>,
    later: Timestamp,
    again: Seq<EnvelopeModel>,
    second: Result<Vec<u8>, LedgerError>,
)
    requires
        marked(before, job_id, operation, now, after, result),
        marked(after, job_id, operation, later, again, second),
    ensures
        result is Ok <==> standing(before, job_id, now@) == Ok::<Option<LookupModel>, LedgerError>(
            None,
        ),
        result is Err ==> after == before,
        result is Ok ==> {
            &&& standing(after, job_id, now@) == Ok::<Option<LookupModel>, LedgerError>(
                Some((LookupModel::Executing { interrupted: false })),
            )
            &&& after.drop_last() == before
            &&& result->Ok_0@ == line_of(after.last().record)
            &&& after.last().record.operation == operation
            &&& second is Err
            &&& again == after
        },
{
    if result is Ok {
        let marker = choose|marker: RecordModel| #[trigger]
            is_marker(marker, job_id, operation, now) && result->Ok_0@ == line_of(marker) && after
                == appended(before, marker);
        appended_record_is_read(before, marker, now@);
        appended_record_is_read(before, marker, later@);
        assert(appended(before, marker).drop_last() =~= before);
    }
}

/// An answer is recorded exactly if it is within 64 KiB and its job was marked; then it is what is
/// known of the job.
pub proof fn answers_are_recorded_for_marked_jobs(
    before: Seq<EnvelopeModel>,
    job_id: u128,
    response: ResponseModel,
    now: Timestamp,
    after: Seq<EnvelopeModel>,
    result: Result<Vec<u8>, LedgerError>,
)
    requires
        recorded(before, job_id, response, now, after, result),
    ensures
        result is Ok <==> response.output.len() <= 65_536 && is_recorded(
            standing(before, job_id, now@),
        ),
        result is Err ==> after == before,
        result is Ok ==> {
            &&& standing(after, job_id, now@) == Ok::<Option<LookupModel>, LedgerError>(
                Some(LookupModel::Completed(response)),
            )
            &&& after.drop_last() == before
            &&& result->Ok_0@ == line_of(after.last().record)
        },
{
    if result is Ok {
        let earlier = latest(committed(before, now@), job_id)->0;
        let completion = choose|completion: RecordModel| #[trigger]
            is_completion(completion, earlier, response, now) && result->Ok_0@ == line_of(
                completion,
            ) && after == appended(before, completion);
        latest_is_of_the_job(committed(before, now@), job_id);
        appended_record_is_read(before, completion, now@);
        assert(appended(before, completion).drop_last() =~= before);
    }
}

} // verus!
