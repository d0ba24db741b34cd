use vstd::prelude::*;

verus! {

/// The 128-bit value of the UUID that `s` spells, if it spells one.
pub uninterp spec fn uuid_parsed(s: Seq<char>) -> Option<u128>;

/// Relies on `uuid::Uuid::parse_str`: whether the text is a UUID in one of
/// the forms the crate reads, and which one, depends on the text alone. The
/// value is the UUID's bytes read big-endian (`Uuid::as_u128`).
#[verifier::external_body]
fn parse_uuid(s: &str) -> (r: Option<u128>)
    ensures
        r == uuid_parsed(s@),
{
    match uuid::Uuid::parse_str(s) {
        Ok(u) => Some(u.as_u128()),
        Err(_) => None,
    }
}

/// A user-data record as the store holds it, its identifier as text.
pub struct StoredRecord {
    pub id: String,
    pub key: String,
    pub value: String,
}

/// The answer to a request for one user-data record.
pub enum RecordReply {
    /// The record, its identifier read as a UUID.
    Found { id: u128, key: String, value: String },
    /// The store holds no record under the identifier asked for.
    NotFound,
    /// The stored identifier is not a UUID.
    CorruptId,
}

/// The answer for `row`, whose identifier parses to `parsed`.
pub open spec fn settled(row: StoredRecord, parsed: Option<u128>) -> RecordReply {
    match parsed {
        Some(id) => RecordReply::Found { id, key: row.key, value: row.value },
        None => RecordReply::CorruptId,
    }
}

/// The answer for what the store returned.
pub open spec fn record_reply(row: Option<StoredRecord>) -> RecordReply {
    match row {
        Some(r) => settled(r, uuid_parsed(r.id@)),
        None => RecordReply::NotFound,
    }
}

impl RecordReply {
    /// The HTTP status code: a record that cannot be served reads as absent.
    pub open spec fn spec_status(&self) -> u16 {
        match self {
            RecordReply::Found { .. } => 200,
            _ => 404,
        }
    }

    /// The plain-text body where no record is served.
    pub open spec fn spec_reason(&self) -> Option<Seq<char>> {
        match self {
            RecordReply::Found { .. } => None,
            RecordReply::NotFound => Some("Data not found"@),
            RecordReply::CorruptId => Some("Invalid UUID in DB"@),
        }
    }

    pub fn status(&self) -> (r: u16)
        ensures
            r == self.spec_status(),
    {
        match self {
            RecordReply::Found { .. } => 200,
            _ => 404,
        }
    }

    pub fn reason(&self) -> (r: Option<&'static str>)
        ensures
            match (r, self.spec_reason()) {
                (Some(s), Some(t)) => s@ == t,
                (None, None) => true,
                _ => false,
            },
    {
        match self {
            RecordReply::Found { .. } => None,
            RecordReply::NotFound => Some("Data not found"),
            RecordReply::CorruptId => Some("Invalid UUID in DB"),
        }
    }
}

/// The answer for `row`, given what its identifier parses to.
pub fn settle_record(row: StoredRecord, parsed: Option<u128>) -> (r: RecordReply)
    ensures
        r == settled(row, parsed),
{
    match parsed {
        Some(id) => RecordReply::Found { id, key: row.key, value: row.value },
        None => RecordReply::CorruptId,
    }
}

/// The answer for what the store returned for the identifier asked for:
/// `None` where it holds no such record.
pub fn read_record(row: Option<StoredRecord>) -> (r: RecordReply)
    ensures
        r == record_reply(row),
{
    match row {
        Some(r) => {
            let parsed = parse_uuid(r.id.as_str());
            settle_record(r, parsed)
        },
        None => RecordReply::NotFound,
    }
}

} // verus!
