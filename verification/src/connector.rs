use crate::store::open;
use crate::text::{append_origin, origin_text};
use vstd::prelude::*;
use vstd::std_specs::cmp::PartialEqSpecImpl;
use vstd::string::StringExecFns;

verus! {

/// Why no connection to the store could be had. The failure carries the
/// file and the line of the library at which it was raised.
#[derive(Debug)]
pub enum ConnectorError {
    /// The store refused to open the database at `location`.
    RusqliteError { source: rusqlite::Error, location: String, file: &'static str, line: u32 },
}

/// How the message of a refusal ends: with the database that was asked for
/// and the place at which the failure was raised.
pub open spec fn refusal_tail(location: Seq<char>, file: Seq<char>, line: u32) -> Seq<char> {
    " Database: "@ + location + origin_text(file, line)
}

impl ConnectorError {
    /// The failure in words: its kind, what the store said, the database
    /// that it was asked to open, and the place at which the failure was
    /// raised.
    pub fn message(&self) -> (text: String)
        ensures
            self matches ConnectorError::RusqliteError { location, file, line, .. } ==> {
                &&& "RusqliteError: "@.is_prefix_of(text@)
                &&& refusal_tail(location@, file@, *line).is_suffix_of(text@)
            },
    {
        match self {
            ConnectorError::RusqliteError { source, location, file, line } => {
                let mut text = String::from_str("RusqliteError: ");
                let said = source.to_string();
                text.append(said.as_str());
                let ghost head = text@;
                text.append(" Database: ");
                text.append(location.as_str());
                append_origin(&mut text, *file, *line);
                proof {
                    let tail = refusal_tail(location@, file@, *line);
                    assert(text@ =~= head + tail);
                    assert(text@.subrange(0, "RusqliteError: "@.len() as int)
                        =~= "RusqliteError: "@);
                    assert(text@.subrange(text@.len() - tail.len(), text@.len() as int) =~= tail);
                }
                text
            },
        }
    }
}

/// Where the database is. Every operation on the store opens a connection of
/// its own through the connector and gives it up when it is done.
#[derive(Debug)]
pub struct Connector {
    location: String,
}

impl View for Connector {
    type V = Seq<char>;

    closed spec fn view(&self) -> Seq<char> {
        self.location@
    }
}

impl Connector {
    /// A connector for the database at `location`: a path, or a URI that
    /// SQLite understands.
    pub fn new(location: String) -> (connector: Connector)
        ensures
            connector@ == location@,
    {
        Connector { location }
    }

    /// The location of the database.
    pub fn location(&self) -> (location: &String)
        ensures
            location@ == self@,
    {
        &self.location
    }

    /// What opening the database amounts to, given the answer of the store:
    /// the connection, or the refusal of the store together with the
    /// location that it was asked to open.
    pub fn opened(&self, answer: Result<rusqlite::Connection, rusqlite::Error>) -> (opened:
        Result<rusqlite::Connection, ConnectorError>)
        ensures
            match answer {
                Ok(given) => opened matches Ok(same) && same == given,
                Err(cause) => opened matches Err(
                    ConnectorError::RusqliteError { source, location, file, .. },
                ) && source == cause && location@ == self@ && file@ == "src/connector.rs"@,
            },
    {
        match answer {
            Ok(connection) => Ok(connection),
            Err(source) => Err(
                ConnectorError::RusqliteError {
                    source,
                    location: self.location.clone(),
                    file: "src/connector.rs", line: 108,
                },
            ),
        }
    }

    /// Opens a connection to the database. Whether one can be had is the
    /// store's answer; a refusal names the location that was asked for.
    pub fn get_connection(&self) -> (opened: Result<rusqlite::Connection, ConnectorError>)
        ensures
            opened matches Err(ConnectorError::RusqliteError { location, file, .. }) ==> location@
                == self@ && file@ == "src/connector.rs"@,
    {
        self.opened(open(self.location.as_str()))
    }
}

impl Clone for Connector {
    fn clone(&self) -> (copy: Connector)
        ensures
            copy@ == self@,
    {
        Connector { location: self.location.clone() }
    }
}

impl PartialEq for Connector {
    fn eq(&self, other: &Connector) -> (equal: bool) {
        self.location == other.location
    }
}

impl PartialEqSpecImpl for Connector {
    open spec fn obeys_eq_spec() -> bool {
        true
    }

    open spec fn eq_spec(&self, other: &Connector) -> bool {
        self@ == other@
    }
}

} // verus!
