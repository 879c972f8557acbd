//! What can go wrong in a session, and the two shapes in which a failure is
//! reported to the caller.

use vstd::prelude::*;
use crate::json::{json_members, json_model, json_null, json_object, json_render, json_rendering, json_text, JsonModel};

verus! {

/// A failure of a session operation.
#[derive(Clone, Debug, PartialEq, Eq)]
pub enum SessionError {
    /// The connection string that was given in place of the descriptor could
    /// not be parsed.
    InvalidConnectionString,
    /// The server could not be reached.
    TransportError,
    /// The server was reached and refused the session; the text is the
    /// transport's own.
    HandshakeError(String),
    /// A connect was asked for while a connection is held.
    AlreadyConnected,
    /// An operation needs a connection and none is held.
    NoActiveConnection,
    /// A query was asked for without a statement.
    MissingQuery,
    /// The server failed to run the statement; the text is the transport's own.
    QueryError(String),
    /// A cell of a result has no text: a fixed-precision number was null.
    NormalizationError,
}

/// The two shapes of a reported failure.
#[derive(Clone, Copy, Debug, PartialEq, Eq, Structural)]
pub enum ErrorKind {
    /// A generic failure: a type and a description.
    General,
    /// A missing connection: a type, a description and a comment.
    Connection,
}

/// The description that a missing connection is reported with.
pub open spec fn no_connection_text() -> Seq<char> {
    "No connection has previously been established"@
}

/// The report of a generic failure with the given description.
pub open spec fn general_report(description: Seq<char>) -> JsonModel {
    JsonModel::Object(
        seq![
            ("type"@, JsonModel::Text("GEN"@)),
            ("description"@, JsonModel::Text(description)),
        ],
    )
}

/// The report of a missing connection. A comment that is absent is reported as
/// `null`.
pub open spec fn no_connection_report(comment: Option<Seq<char>>) -> JsonModel {
    JsonModel::Object(
        seq![
            ("type"@, JsonModel::Text("CONN"@)),
            ("description"@, JsonModel::Text(no_connection_text())),
            (
                "comment"@,
                match comment {
                    Some(text) => JsonModel::Text(text),
                    None => JsonModel::Null,
                },
            ),
        ],
    )
}

/// The names of the members of a report differ from each other.
proof fn report_names_differ()
    ensures
        "type"@ != "description"@,
        "type"@ != "comment"@,
        "description"@ != "comment"@,
{
    reveal_strlit("type");
    reveal_strlit("description");
    reveal_strlit("comment");
    assert("type"@.len() == 4);
    assert("description"@.len() == 11);
    assert("comment"@.len() == 7);
}

/// The JSON text that reports a generic failure.
pub fn general(desc: &str) -> (report: String)
    ensures
        report@ == json_rendering(general_report(desc@)),
{
    let mut pairs: Vec<(String, serde_json::Value)> = Vec::new();
    pairs.push(("type".to_owned(), json_text("GEN")));
    pairs.push(("description".to_owned(), json_text(desc)));
    proof {
        report_names_differ();
        assert(json_members(pairs@) =~= seq![
            ("type"@, JsonModel::Text("GEN"@)),
            ("description"@, JsonModel::Text(desc@)),
        ]);
    }
    let document = json_object(pairs);
    json_render(&document)
}

/// The JSON text that reports a missing connection.
pub fn no_active_connection(comment: Option<String>) -> (report: String)
    ensures
        report@ == json_rendering(
            no_connection_report(
                match comment {
                    Some(text) => Some(text@),
                    None => None,
                },
            ),
        ),
{
    let remark = match &comment {
        Some(text) => json_text(text.as_str()),
        None => json_null(),
    };
    let mut pairs: Vec<(String, serde_json::Value)> = Vec::new();
    pairs.push(("type".to_owned(), json_text("CONN")));
    pairs.push(
        ("description".to_owned(), json_text("No connection has previously been established")),
    );
    pairs.push(("comment".to_owned(), remark));
    proof {
        report_names_differ();
        let noted = match comment {
            Some(text) => Some(text@),
            None => None,
        };
        assert(no_connection_report(noted) matches JsonModel::Object(members)
            && members =~= json_members(pairs@));
    }
    let document = json_object(pairs);
    json_render(&document)
}

impl SessionError {
    /// The shape in which the failure is reported: a missing connection has a
    /// shape of its own, every other failure is generic.
    pub open spec fn kind_of(&self) -> ErrorKind {
        match self {
            SessionError::NoActiveConnection => ErrorKind::Connection,
            _ => ErrorKind::General,
        }
    }

    /// The text that describes the failure to a reader.
    pub open spec fn description_text(&self) -> Seq<char> {
        match self {
            SessionError::InvalidConnectionString =>
                "Invalid Input String. This should be formatted to be a a valid JBDC connection string or .NET connection string."@,
            SessionError::TransportError => "TCP Error"@,
            SessionError::HandshakeError(text) => text@,
            SessionError::AlreadyConnected => "A connection has already been established"@,
            SessionError::NoActiveConnection => no_connection_text(),
            SessionError::MissingQuery => "Requires TSQL to be set to run query on database"@,
            SessionError::QueryError(text) => text@,
            SessionError::NormalizationError =>
                "A numeric value is null and has no text"@,
        }
    }

    /// The report of the failure.
    pub open spec fn report(&self) -> JsonModel {
        match self.kind_of() {
            ErrorKind::Connection => no_connection_report(None),
            ErrorKind::General => general_report(self.description_text()),
        }
    }

    pub fn kind(&self) -> (kind: ErrorKind)
        ensures
            kind == self.kind_of(),
    {
        match self {
            SessionError::NoActiveConnection => ErrorKind::Connection,
            _ => ErrorKind::General,
        }
    }

    pub fn description(&self) -> (text: String)
        ensures
            text@ == self.description_text(),
    {
        match self {
            SessionError::InvalidConnectionString =>
                "Invalid Input String. This should be formatted to be a a valid JBDC connection string or .NET connection string.".to_owned(),
            SessionError::TransportError => "TCP Error".to_owned(),
            SessionError::HandshakeError(text) => text.clone(),
            SessionError::AlreadyConnected => "A connection has already been established".to_owned(),
            SessionError::NoActiveConnection =>
                "No connection has previously been established".to_owned(),
            SessionError::MissingQuery => "Requires TSQL to be set to run query on database".to_owned(),
            SessionError::QueryError(text) => text.clone(),
            SessionError::NormalizationError => "A numeric value is null and has no text".to_owned(),
        }
    }

    /// The JSON text that reports the failure to the caller.
    pub fn payload(&self) -> (report: String)
        ensures
            report@ == json_rendering(self.report()),
    {
        match self.kind() {
            ErrorKind::Connection => no_active_connection(None),
            ErrorKind::General => {
                let text = self.description();
                general(text.as_str())
            },
        }
    }
}

} // verus!
