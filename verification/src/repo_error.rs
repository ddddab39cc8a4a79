use crate::client::{client_text, Client};
use crate::connector::ConnectorError;
use crate::row::{field_name, Field};
use crate::text::{append_origin, origin_text};
use vstd::prelude::*;
use vstd::string::StringExecFns;

verus! {

/// Why an operation on the stored clients failed. Every failure carries the
/// file and the line of the library at which it was raised.
#[derive(Debug)]
#[allow(inconsistent_fields)]
pub enum RepoError {
    /// No connection to the store could be had.
    ConnectorError { source: ConnectorError, file: &'static str, line: u32 },
    /// The store accepted the statement `query` and failed while running it.
    RusqliteError { source: rusqlite::Error, query: String, file: &'static str, line: u32 },
    /// The store did not accept the statement `query`.
    SqlExecutionError { source: rusqlite::Error, query: String, file: &'static str, line: u32 },
    /// The statement `query` counts rows and returned no row at all.
    RowShouldReturned { query: String, file: &'static str, line: u32 },
    /// The record has no identifier, or the store holds no row for it.
    ItemShouldExists { source: Client, file: &'static str, line: u32 },
    /// A row does not hold what a client needs in the column `source`.
    FromRowError { source: Field, file: &'static str, line: u32 },
    /// The page could not be written as JSON.
    SerdeError { source: serde_json::Error, file: &'static str, line: u32 },
    /// The page size is zero.
    PageCountError { file: &'static str, line: u32 },
}

/// The file in which a failure was raised.
pub open spec fn raised_in(failure: RepoError) -> Seq<char> {
    match failure {
        RepoError::ConnectorError { file, .. } => file@,
        RepoError::RusqliteError { file, .. } => file@,
        RepoError::SqlExecutionError { file, .. } => file@,
        RepoError::RowShouldReturned { file, .. } => file@,
        RepoError::ItemShouldExists { file, .. } => file@,
        RepoError::FromRowError { file, .. } => file@,
        RepoError::SerdeError { file, .. } => file@,
        RepoError::PageCountError { file, .. } => file@,
    }
}

/// The line at which a failure was raised.
pub open spec fn raised_at(failure: RepoError) -> u32 {
    match failure {
        RepoError::ConnectorError { line, .. } => line,
        RepoError::RusqliteError { line, .. } => line,
        RepoError::SqlExecutionError { line, .. } => line,
        RepoError::RowShouldReturned { line, .. } => line,
        RepoError::ItemShouldExists { line, .. } => line,
        RepoError::FromRowError { line, .. } => line,
        RepoError::SerdeError { line, .. } => line,
        RepoError::PageCountError { line, .. } => line,
    }
}

/// What the message of a failure says before it names the place, where that
/// is made of plain values alone.
pub open spec fn plain_account(failure: RepoError) -> Option<Seq<char>> {
    match failure {
        RepoError::RowShouldReturned { query, .. } => Some(
            "RowShouldReturned: "@ + "Un SELECT COUNT() deberia devolver al menos una fila"@
                + " Query: "@ + query@,
        ),
        RepoError::ItemShouldExists { source, .. } => Some(
            "ItemShouldExists: "@ + "el item "@ + client_text(source@) + " no se encontró"@,
        ),
        RepoError::FromRowError { source, .. } => Some(
            "FromRowError: "@ + "no se pudo obtener un dato de la fila "@ + field_name(source),
        ),
        RepoError::PageCountError { .. } => Some(
            "PageCountError: "@ + "Page size must be non-zero"@,
        ),
        _ => None,
    }
}

/// The message of a failure, where it is made of plain values alone: what
/// failed, then the place at which the failure was raised.
pub open spec fn plain_message(failure: RepoError) -> Option<Seq<char>> {
    match plain_account(failure) {
        Some(account) => Some(account + origin_text(raised_in(failure), raised_at(failure))),
        None => None,
    }
}

/// How the message of a failure begins: with its kind.
pub open spec fn message_head(failure: RepoError) -> Seq<char> {
    match failure {
        RepoError::ConnectorError { .. } => "ConnectorError: "@,
        RepoError::RusqliteError { .. } => "RusqliteError: "@,
        RepoError::SqlExecutionError { .. } => "RusqliteError: "@,
        RepoError::RowShouldReturned { .. } => "RowShouldReturned: "@,
        RepoError::ItemShouldExists { .. } => "ItemShouldExists: "@,
        RepoError::FromRowError { .. } => "FromRowError: "@,
        RepoError::SerdeError { .. } => "SerdeError: "@,
        RepoError::PageCountError { .. } => "PageCountError: "@,
    }
}

/// The statement that a failure names: a failure of a statement names its
/// text before the place.
pub open spec fn statement_named(failure: RepoError) -> Seq<char> {
    match failure {
        RepoError::RusqliteError { query, .. } => " Query: "@ + query@,
        RepoError::SqlExecutionError { query, .. } => " Query: "@ + query@,
        RepoError::RowShouldReturned { query, .. } => " Query: "@ + query@,
        _ => Seq::empty(),
    }
}

/// How the message of a failure ends: with the text of the statement, where
/// a statement failed, and then with the place at which the failure was
/// raised.
pub open spec fn message_tail(failure: RepoError) -> Seq<char> {
    statement_named(failure) + origin_text(raised_in(failure), raised_at(failure))
}

impl RepoError {
    /// The file in which the failure was raised.
    pub fn file(&self) -> (file: &'static str)
        ensures
            file@ == raised_in(*self),
    {
        match self {
            RepoError::ConnectorError { file, .. } => *file,
            RepoError::RusqliteError { file, .. } => *file,
            RepoError::SqlExecutionError { file, .. } => *file,
            RepoError::RowShouldReturned { file, .. } => *file,
            RepoError::ItemShouldExists { file, .. } => *file,
            RepoError::FromRowError { file, .. } => *file,
            RepoError::SerdeError { file, .. } => *file,
            RepoError::PageCountError { file, .. } => *file,
        }
    }

    /// The line at which the failure was raised.
    pub fn line(&self) -> (line: u32)
        ensures
            line == raised_at(*self),
    {
        match self {
            RepoError::ConnectorError { line, .. } => *line,
            RepoError::RusqliteError { line, .. } => *line,
            RepoError::SqlExecutionError { line, .. } => *line,
            RepoError::RowShouldReturned { line, .. } => *line,
            RepoError::ItemShouldExists { line, .. } => *line,
            RepoError::FromRowError { line, .. } => *line,
            RepoError::SerdeError { line, .. } => *line,
            RepoError::PageCountError { line, .. } => *line,
        }
    }

    /// What failed, in words, without the place: the kind of the failure,
    /// what is known of it and, where a statement failed, its text.
    fn account(&self) -> (text: String)
        ensures
            message_head(*self).is_prefix_of(text@),
            statement_named(*self).is_suffix_of(text@),
            plain_account(*self) matches Some(account) ==> text@ == account,
    {
        match self {
            RepoError::ConnectorError { source, .. } => {
                let mut text = String::from_str("ConnectorError: ");
                let said = source.message();
                text.append(said.as_str());
                assert(text@.subrange(0, "ConnectorError: "@.len() as int)
                    =~= "ConnectorError: "@);
                assert(text@.subrange(text@.len() as int, text@.len() as int) =~= Seq::empty());
                text
            },
            RepoError::RusqliteError { source, query, .. } => {
                let mut text = String::from_str("RusqliteError: ");
                let said = source.to_string();
                text.append(said.as_str());
                text.append(" Query: ");
                text.append(query.as_str());
                proof {
                    let tail = " Query: "@ + query@;
                    assert(text@.subrange(0, "RusqliteError: "@.len() as int)
                        =~= "RusqliteError: "@);
                    assert(text@.subrange(text@.len() - tail.len(), text@.len() as int) =~= tail);
                }
                text
            },
            RepoError::SqlExecutionError { source, query, .. } => {
                let mut text = String::from_str("RusqliteError: ");
                let said = source.to_string();
                text.append(said.as_str());
                text.append(" Query: ");
                text.append(query.as_str());
                proof {
                    let tail = " Query: "@ + query@;
                    assert(text@.subrange(0, "RusqliteError: "@.len() as int)
                        =~= "RusqliteError: "@);
                    assert(text@.subrange(text@.len() - tail.len(), text@.len() as int) =~= tail);
                }
                text
            },
            RepoError::RowShouldReturned { query, .. } => {
                let mut text = String::from_str("RowShouldReturned: ");
                text.append("Un SELECT COUNT() deberia devolver al menos una fila");
                text.append(" Query: ");
                text.append(query.as_str());
                proof {
                    let tail = " Query: "@ + query@;
                    assert(text@.subrange(0, "RowShouldReturned: "@.len() as int)
                        =~= "RowShouldReturned: "@);
                    assert(text@.subrange(text@.len() - tail.len(), text@.len() as int) =~= tail);
                }
                text
            },
            RepoError::ItemShouldExists { source, .. } => {
                let mut text = String::from_str("ItemShouldExists: ");
                text.append("el item ");
                let described = source.to_text();
                text.append(described.as_str());
                text.append(" no se encontró");
                assert(text@.subrange(0, "ItemShouldExists: "@.len() as int)
                    =~= "ItemShouldExists: "@);
                assert(text@.subrange(text@.len() as int, text@.len() as int) =~= Seq::empty());
                text
            },
            RepoError::FromRowError { source, .. } => {
                let mut text = String::from_str("FromRowError: ");
                text.append("no se pudo obtener un dato de la fila ");
                text.append(source.name());
                assert(text@.subrange(0, "FromRowError: "@.len() as int) =~= "FromRowError: "@);
                assert(text@.subrange(text@.len() as int, text@.len() as int) =~= Seq::empty());
                text
            },
            RepoError::SerdeError { source, .. } => {
                let mut text = String::from_str("SerdeError: ");
                let said = source.to_string();
                text.append(said.as_str());
                assert(text@.subrange(0, "SerdeError: "@.len() as int) =~= "SerdeError: "@);
                assert(text@.subrange(text@.len() as int, text@.len() as int) =~= Seq::empty());
                text
            },
            RepoError::PageCountError { .. } => {
                let mut text = String::from_str("PageCountError: ");
                text.append("Page size must be non-zero");
                assert(text@.subrange(0, "PageCountError: "@.len() as int)
                    =~= "PageCountError: "@);
                assert(text@.subrange(text@.len() as int, text@.len() as int) =~= Seq::empty());
                text
            },
        }
    }

    /// The failure in words. A message begins with the kind of the failure
    /// and ends with the place at which it was raised, as in
    /// `PageCountError: Page size must be non-zero (on a.rs: 7)`; where a
    /// statement failed, its text stands before the place.
    pub fn message(&self) -> (text: String)
        ensures
            message_head(*self).is_prefix_of(text@),
            message_tail(*self).is_suffix_of(text@),
            plain_message(*self) matches Some(message) ==> text@ == message,
    {
        let mut text = self.account();
        let ghost account = text@;
        append_origin(&mut text, self.file(), self.line());
        proof {
            let head = message_head(*self);
            let named = statement_named(*self);
            let origin = origin_text(raised_in(*self), raised_at(*self));
            assert(text@ == account + origin);
            assert(text@.subrange(0, head.len() as int) =~= account.subrange(
                0,
                head.len() as int,
            ));
            assert(text@.subrange(text@.len() - (named + origin).len(), text@.len() as int)
                =~= account.subrange(account.len() - named.len(), account.len() as int)
                + origin);
        }
        text
    }
}

} // verus!
