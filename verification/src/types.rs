//! The shapes of the answers that the service gives.
//!
//! Each type holds the fields of one answer as the service names them. Its
//! view is the same record with texts in place of strings.

use vstd::prelude::*;

verus! {

/// The text of a string that may be missing.
pub open spec fn maybe(value: Option<String>) -> Option<Seq<char>> {
    match value {
        Some(text) => Some(text@),
        None => None,
    }
}

/// A string that may be missing, borrowed.
fn borrowed(value: &Option<String>) -> (text: Option<&str>)
    ensures
        text is Some == value is Some,
        text matches Some(t) ==> Some(t@) == maybe(*value),
{
    match value {
        Some(text) => Some(text.as_str()),
        None => None,
    }
}

/// The status that every answer carries, with the message of a failure.
#[derive(Debug, Clone)]
pub struct Status {
    status: String,
    message: Option<String>,
}

/// What a `Status` holds.
pub struct StatusView {
    /// The status text: `SUCCESS` or `ERROR`.
    pub status: Seq<char>,
    /// The message, where the service gave one.
    pub message: Option<Seq<char>>,
}

impl View for Status {
    type V = StatusView;

    closed spec fn view(&self) -> StatusView {
        StatusView {
            status: self.status@,
            message: maybe(self.message),
        }
    }
}

impl Status {
    /// Puts the fields of an answer together.
    pub fn new(status: String, message: Option<String>) -> (made: Self)
        ensures
            made@.status == status@,
            made@.message == maybe(message),
    {
        Status { status, message }
    }

    /// The status text: `SUCCESS` or `ERROR`.
    pub fn status(&self) -> (text: &str)
        ensures
            text@ == self@.status,
    {
        self.status.as_str()
    }

    /// The message, where the service gave one.
    pub fn message(&self) -> (text: Option<&str>)
        ensures
            text is Some == self@.message is Some,
            text matches Some(t) ==> Some(t@) == self@.message,
    {
        borrowed(&self.message)
    }
}

/// One DNS record, as the service lists it.
#[derive(Debug, Clone)]
pub struct Record {
    id: String,
    name: String,
    record_type: String,
    content: String,
    ttl: String,
    priority: Option<String>,
    notes: Option<String>,
}

/// What a `Record` holds.
pub struct RecordView {
    /// The identifier of the record.
    pub id: Seq<char>,
    /// The full name of the record.
    pub name: Seq<char>,
    /// The tag of the record's type.
    pub record_type: Seq<char>,
    /// The content of the record.
    pub content: Seq<char>,
    /// The time to live, in seconds, as a decimal numeral.
    pub ttl: Seq<char>,
    /// The priority, for the types that have one.
    pub priority: Option<Seq<char>>,
    /// The notes that the owner left on the record.
    pub notes: Option<Seq<char>>,
}

impl View for Record {
    type V = RecordView;

    closed spec fn view(&self) -> RecordView {
        RecordView {
            id: self.id@,
            name: self.name@,
            record_type: self.record_type@,
            content: self.content@,
            ttl: self.ttl@,
            priority: maybe(self.priority),
            notes: maybe(self.notes),
        }
    }
}

impl DeepView for Record {
    type V = RecordView;

    open spec fn deep_view(&self) -> RecordView {
        self@
    }
}

impl Record {
    /// Puts the fields of an answer together.
    pub fn new(id: String, name: String, record_type: String, content: String, ttl: String, priority: Option<String>, notes: Option<String>) -> (made: Self)
        ensures
            made@.id == id@,
            made@.name == name@,
            made@.record_type == record_type@,
            made@.content == content@,
            made@.ttl == ttl@,
            made@.priority == maybe(priority),
            made@.notes == maybe(notes),
    {
        Record { id, name, record_type, content, ttl, priority, notes }
    }

    /// The identifier of the record.
    pub fn id(&self) -> (text: &str)
        ensures
            text@ == self@.id,
    {
        self.id.as_str()
    }

    /// The full name of the record.
    pub fn name(&self) -> (text: &str)
        ensures
            text@ == self@.name,
    {
        self.name.as_str()
    }

    /// The tag of the record's type.
    pub fn record_type(&self) -> (text: &str)
        ensures
            text@ == self@.record_type,
    {
        self.record_type.as_str()
    }

    /// The content of the record.
    pub fn content(&self) -> (text: &str)
        ensures
            text@ == self@.content,
    {
        self.content.as_str()
    }

    /// The time to live, in seconds, as a decimal numeral.
    pub fn ttl(&self) -> (text: &str)
        ensures
            text@ == self@.ttl,
    {
        self.ttl.as_str()
    }

    /// The priority, for the types that have one.
    pub fn priority(&self) -> (text: Option<&str>)
        ensures
            text is Some == self@.priority is Some,
            text matches Some(t) ==> Some(t@) == self@.priority,
    {
        borrowed(&self.priority)
    }

    /// The notes that the owner left on the record.
    pub fn notes(&self) -> (text: Option<&str>)
        ensures
            text is Some == self@.notes is Some,
            text matches Some(t) ==> Some(t@) == self@.notes,
    {
        borrowed(&self.notes)
    }
}

/// The answer to a ping.
#[derive(Debug, Clone)]
pub struct PingResponse {
    your_ip: String,
    status: Status,
}

/// What a `PingResponse` holds.
pub struct PingResponseView {
    /// The address from which the request reached the service.
    pub your_ip: Seq<char>,
    /// The status of the answer.
    pub status: StatusView,
}

impl View for PingResponse {
    type V = PingResponseView;

    closed spec fn view(&self) -> PingResponseView {
        PingResponseView {
            your_ip: self.your_ip@,
            status: self.status@,
        }
    }
}

impl PingResponse {
    /// Puts the fields of an answer together.
    pub fn new(your_ip: String, status: Status) -> (made: Self)
        ensures
            made@.your_ip == your_ip@,
            made@.status == status@,
    {
        PingResponse { your_ip, status }
    }

    /// The address from which the request reached the service.
    pub fn your_ip(&self) -> (text: &str)
        ensures
            text@ == self@.your_ip,
    {
        self.your_ip.as_str()
    }

    /// The status of the answer.
    pub fn status(&self) -> (status: &Status)
        ensures
            status@ == self@.status,
    {
        &self.status
    }
}

/// The answer to the creation of a record.
#[derive(Debug, Clone)]
pub struct CreateResponse {
    id: String,
    status: Status,
}

/// What a `CreateResponse` holds.
pub struct CreateResponseView {
    /// The identifier of the new record.
    pub id: Seq<char>,
    /// The status of the answer.
    pub status: StatusView,
}

impl View for CreateResponse {
    type V = CreateResponseView;

    closed spec fn view(&self) -> CreateResponseView {
        CreateResponseView {
            id: self.id@,
            status: self.status@,
        }
    }
}

impl CreateResponse {
    /// Puts the fields of an answer together.
    pub fn new(id: String, status: Status) -> (made: Self)
        ensures
            made@.id == id@,
            made@.status == status@,
    {
        CreateResponse { id, status }
    }

    /// The identifier of the new record.
    pub fn id(&self) -> (text: &str)
        ensures
            text@ == self@.id,
    {
        self.id.as_str()
    }

    /// The status of the answer.
    pub fn status(&self) -> (status: &Status)
        ensures
            status@ == self@.status,
    {
        &self.status
    }
}

/// The answer to the change of a record.
#[derive(Debug, Clone)]
pub struct EditResponse {
    status: Status,
}

/// What a `EditResponse` holds.
pub struct EditResponseView {
    /// The status of the answer.
    pub status: StatusView,
}

impl View for EditResponse {
    type V = EditResponseView;

    closed spec fn view(&self) -> EditResponseView {
        EditResponseView {
            status: self.status@,
        }
    }
}

impl EditResponse {
    /// Puts the fields of an answer together.
    pub fn new(status: Status) -> (made: Self)
        ensures
            made@.status == status@,
    {
        EditResponse { status }
    }

    /// The status of the answer.
    pub fn status(&self) -> (status: &Status)
        ensures
            status@ == self@.status,
    {
        &self.status
    }
}

/// The answer to the removal of a record.
#[derive(Debug, Clone)]
pub struct DeleteResponse {
    status: Status,
}

/// What a `DeleteResponse` holds.
pub struct DeleteResponseView {
    /// The status of the answer.
    pub status: StatusView,
}

impl View for DeleteResponse {
    type V = DeleteResponseView;

    closed spec fn view(&self) -> DeleteResponseView {
        DeleteResponseView {
            status: self.status@,
        }
    }
}

impl DeleteResponse {
    /// Puts the fields of an answer together.
    pub fn new(status: Status) -> (made: Self)
        ensures
            made@.status == status@,
    {
        DeleteResponse { status }
    }

    /// The status of the answer.
    pub fn status(&self) -> (status: &Status)
        ensures
            status@ == self@.status,
    {
        &self.status
    }
}

/// The answer to a request for the records of a domain.
#[derive(Debug, Clone)]
pub struct RetrieveResponse {
    records: Vec<Record>,
    status: Status,
}

/// What a `RetrieveResponse` holds.
pub struct RetrieveResponseView {
    /// The records of the domain.
    pub records: Seq<RecordView>,
    /// The status of the answer.
    pub status: StatusView,
}

impl View for RetrieveResponse {
    type V = RetrieveResponseView;

    closed spec fn view(&self) -> RetrieveResponseView {
        RetrieveResponseView {
            records: self.records.deep_view(),
            status: self.status@,
        }
    }
}

impl RetrieveResponse {
    /// Puts the fields of an answer together.
    pub fn new(records: Vec<Record>, status: Status) -> (made: Self)
        ensures
            made@.records == records.deep_view(),
            made@.status == status@,
    {
        RetrieveResponse { records, status }
    }

    /// The records of the domain.
    pub fn records(&self) -> (records: &Vec<Record>)
        ensures
            records.deep_view() == self@.records,
    {
        &self.records
    }

    /// The status of the answer.
    pub fn status(&self) -> (status: &Status)
        ensures
            status@ == self@.status,
    {
        &self.status
    }
}

} // verus!
