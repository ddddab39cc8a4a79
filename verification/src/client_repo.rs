use crate::client::{Client, ClientView};
use crate::connector::{Connector, ConnectorError};
use crate::criteria::{SearchCriteria, SearchCriteriaView};
use crate::data_management::{Finder, LastSearch, LastSearchView, Repository};
use crate::json::{encode_page, page_json};
use crate::paging::{ceil_div, count_pages, effective_page};
use crate::query::{count_command, count_statement, page_command, page_statement};
use crate::repo_error::{raised_in, RepoError};
use crate::row::{
    decode_client, decode_count, decoded_client, decoded_count, Field, RowValues, SqlValue,
};
use crate::sql::{
    deactivate_command, deactivate_statement, delete_command, delete_statement, insert_command,
    insert_statement, select_by_id_command, select_by_id_statement, SqlCommand,
};
use crate::store::{column, execute, next_row, prepare, query};
use crate::update::{update_plan, update_statement, UpdatePlan, UpdatePlanView};
use vstd::prelude::*;
use vstd::std_specs::cmp::PartialEqSpecImpl;

verus! {

/// The clients of one database, read and written a page at a time.
#[derive(Debug)]
pub struct ClientRepo {
    page_size: u64,
    connector: Connector,
}

/// The mathematical value of a [`ClientRepo`].
pub struct ClientRepoView {
    pub page_size: u64,
    pub location: Seq<char>,
}

impl View for ClientRepo {
    type V = ClientRepoView;

    closed spec fn view(&self) -> ClientRepoView {
        ClientRepoView { page_size: self.page_size, location: self.connector@ }
    }
}

/// Whether a failure was raised by the repository: it then carries the
/// file of the repository and one of its lines.
pub open spec fn raised_here(failure: RepoError) -> bool {
    raised_in(failure) == "src/client_repo.rs"@
}

/// Whether a failure is one of the store on the statement `sql`, asked
/// through a connection to `location`, and raised by the repository: no
/// connection, a statement that was not accepted, or a statement that
/// failed while it ran.
pub open spec fn store_failed(failure: RepoError, location: Seq<char>, sql: Seq<char>) -> bool {
    raised_here(failure) && match failure {
        RepoError::ConnectorError { source, .. } => source matches ConnectorError::RusqliteError {
            location: asked,
            ..
        } && asked@ == location,
        RepoError::SqlExecutionError { query, .. } => query@ == sql,
        RepoError::RusqliteError { query, .. } => query@ == sql,
        _ => false,
    }
}

/// Whether a failure is one of reading the rows of the statement `sql`:
/// the statement failed while it ran, or a row does not hold what a client
/// needs in one of its columns.
pub open spec fn read_failed(failure: RepoError, sql: Seq<char>) -> bool {
    raised_here(failure) && match failure {
        RepoError::RusqliteError { query, .. } => query@ == sql,
        RepoError::FromRowError { source, .. } => client_fields().contains(source),
        _ => false,
    }
}

/// The columns of a client, in the order in which a statement reads them.
pub open spec fn client_fields() -> Seq<Field> {
    seq![Field::IdClient, Field::ClientActive, Field::ClientName]
}

/// The page that a search returns, given what the store answered: the number
/// of rows that meet the criteria, and the rows of the page as JSON.
pub open spec fn search_result(
    criteria: SearchCriteriaView,
    page_number: u64,
    page_size: u64,
    total_registers: u64,
    result: Seq<char>,
) -> LastSearchView
    recommends
        page_size > 0,
{
    LastSearchView {
        total_pages: ceil_div(total_registers as nat, page_size as nat) as u64,
        page: effective_page(page_number),
        criteria,
        result,
    }
}

/// What a diff-based update decides, given the record that the store holds
/// under the identifier: a failure where there is no identifier or no
/// record, nothing to do where no writable column differs, else the
/// statement for the columns that differ.
pub open spec fn modify_decision(item: ClientView, persisted: Option<ClientView>) -> Result<
    Option<UpdatePlanView>,
    ClientView,
> {
    match (item.id_client, persisted) {
        (Some(id), Some(persisted)) => Ok(update_plan(id, persisted, item)),
        _ => Err(item),
    }
}

/// What opening a connection amounts to for an operation, given the answer
/// of the connector: the connection, or the failure of the connector as the
/// failure of the operation, raised at the given place.
fn connect(
    opened: Result<rusqlite::Connection, ConnectorError>,
    file: &'static str,
    line: u32,
) -> (connection: Result<rusqlite::Connection, RepoError>)
    ensures
        match opened {
            Ok(given) => connection matches Ok(same) && same == given,
            Err(cause) => connection matches Err(
                RepoError::ConnectorError { source, file: raised_in, line: raised_at },
            ) && source == cause && raised_in@ == file@ && raised_at == line,
        },
{
    match opened {
        Ok(connection) => Ok(connection),
        Err(source) => Err(RepoError::ConnectorError { source, file, line }),
    }
}

/// What handing a statement to the store amounts to, given the answer of
/// the store: the prepared statement, or the failure of the store together
/// with the text that it did not accept, raised at the given place.
fn prepared<'c>(
    answer: Result<rusqlite::Statement<'c>, rusqlite::Error>,
    command: &SqlCommand,
    file: &'static str,
    line: u32,
) -> (statement: Result<rusqlite::Statement<'c>, RepoError>)
    ensures
        match answer {
            Ok(given) => statement matches Ok(same) && same == given,
            Err(cause) => statement matches Err(
                RepoError::SqlExecutionError { source, query, file: raised_in, line: raised_at },
            ) && source == cause && query@ == command@.sql && raised_in@ == file@ && raised_at
                == line,
        },
{
    match answer {
        Ok(statement) => Ok(statement),
        Err(source) => Err(
            RepoError::SqlExecutionError { source, query: command.sql.clone(), file, line },
        ),
    }
}

/// What starting a statement that returns rows amounts to, given the answer
/// of the store: the rows, or the failure of the store together with the
/// text of the statement, raised at the given place.
fn started<'s>(
    answer: Result<rusqlite::Rows<'s>, rusqlite::Error>,
    command: &SqlCommand,
    file: &'static str,
    line: u32,
) -> (rows: Result<rusqlite::Rows<'s>, RepoError>)
    ensures
        match answer {
            Ok(given) => rows matches Ok(same) && same == given,
            Err(cause) => rows matches Err(
                RepoError::RusqliteError { source, query, file: raised_in, line: raised_at },
            ) && source == cause && query@ == command@.sql && raised_in@ == file@ && raised_at
                == line,
        },
{
    match answer {
        Ok(rows) => Ok(rows),
        Err(source) => Err(
            RepoError::RusqliteError { source, query: command.sql.clone(), file, line },
        ),
    }
}

/// What running a statement that changes rows amounts to, given the answer
/// of the store: the number of rows that it changed, or the failure of the
/// store together with the text of the statement, raised at the given place.
fn executed(
    answer: Result<usize, rusqlite::Error>,
    command: &SqlCommand,
    file: &'static str,
    line: u32,
) -> (changed: Result<usize, RepoError>)
    ensures
        match answer {
            Ok(given) => changed matches Ok(same) && same == given,
            Err(cause) => changed matches Err(
                RepoError::RusqliteError { source, query, file: raised_in, line: raised_at },
            ) && source == cause && query@ == command@.sql && raised_in@ == file@ && raised_at
                == line,
        },
{
    match answer {
        Ok(changed) => Ok(changed),
        Err(source) => Err(
            RepoError::RusqliteError { source, query: command.sql.clone(), file, line },
        ),
    }
}

/// Reads the first `width` columns of the current row, one after the other,
/// as far as they can be read: the values end before the first column that
/// cannot be read. Such a column is then missing from the values, and
/// decoding them names it, unless a column before it fails first.
fn read_values(row: &rusqlite::Row<'_>, width: usize) -> (values: RowValues)
    ensures
        values@.len() <= width,
{
    let mut columns: Vec<SqlValue> = Vec::new();
    let mut k: usize = 0;
    while k < width
        invariant
            k <= width,
            columns@.len() == k,
        decreases width - k,
    {
        match column(row, k) {
            Ok(value) => {
                columns.push(value);
            },
            Err(_) => {
                return RowValues { columns };
            },
        }
        k = k + 1;
    }
    RowValues { columns }
}

/// What advancing to the next row amounts to, given the answer of the
/// store: where there is a next row, its first `width` columns as far as
/// they can be read; where the rows are used up, none; where the store
/// failed, its failure together with the text of the statement, raised at
/// the given place.
fn next_values(
    answer: Result<Option<&rusqlite::Row<'_>>, rusqlite::Error>,
    command: &SqlCommand,
    width: usize,
    file: &'static str,
    line: u32,
) -> (values: Result<Option<RowValues>, RepoError>)
    ensures
        match answer {
            Ok(Some(_)) => values matches Ok(Some(read)) && read@.len() <= width,
            Ok(None) => values matches Ok(None),
            Err(cause) => values matches Err(
                RepoError::RusqliteError { source, query, file: raised_in, line: raised_at },
            ) && source == cause && query@ == command@.sql && raised_in@ == file@ && raised_at
                == line,
        },
{
    match answer {
        Ok(Some(row)) => Ok(Some(read_values(row, width))),
        Ok(None) => Ok(None),
        Err(source) => Err(
            RepoError::RusqliteError { source, query: command.sql.clone(), file, line },
        ),
    }
}

/// Runs a statement that changes rows, on a connection of its own, and
/// returns the number of rows that it changed.
fn run(connector: &Connector, command: &SqlCommand) -> (changed: Result<usize, RepoError>)
    ensures
        changed matches Err(failure) ==> store_failed(failure, connector@, command@.sql),
{
    let connection = match connect(connector.get_connection(), "src/client_repo.rs", 282) {
        Ok(connection) => connection,
        Err(failure) => {
            return Err(failure);
        },
    };
    let answer = prepare(&connection, command.sql.as_str());
    let mut statement = match prepared(answer, command, "src/client_repo.rs", 289) {
        Ok(statement) => statement,
        Err(failure) => {
            return Err(failure);
        },
    };
    executed(execute(&mut statement, &command.params), command, "src/client_repo.rs", 295)
}

/// What a statement that changes rows amounts to, given the answer of the
/// store: success whenever the store ran it, whatever the number of rows
/// that it changed.
pub open spec fn settled(changed: Result<usize, RepoError>) -> Result<(), RepoError> {
    match changed {
        Ok(_) => Ok(()),
        Err(failure) => Err(failure),
    }
}

/// Whether `done` is what the statement `sql` amounts to for some answer of
/// the store, asked through a connection to `location`.
pub open spec fn is_settled(done: Result<(), RepoError>, location: Seq<char>, sql: Seq<char>) -> bool {
    exists|answer: Result<usize, RepoError>|
        done == #[trigger] settled(answer) && (answer matches Err(failure) ==> store_failed(
            failure,
            location,
            sql,
        ))
}

/// Removing a client twice succeeds twice, as far as the store runs the two
/// statements: a removal that found no row to remove, as the second one
/// does, is a success like one that removed a row.
pub proof fn lemma_removal_of_no_row_succeeds(first: usize)
    ensures
        settled(Ok(first)) is Ok,
        settled(Ok(0)) is Ok,
{
}

/// The value of an optional client.
pub open spec fn client_option_view(client: Option<Client>) -> Option<ClientView> {
    match client {
        Some(client) => Some(client@),
        None => None,
    }
}

/// Whether a search can have failed in this way: a page size of zero, the
/// store on one of the two statements of the search, a count without a row,
/// a row that lacks a column, or a page that JSON cannot hold.
pub open spec fn search_failed(
    failure: RepoError,
    repo: ClientRepoView,
    criteria: SearchCriteriaView,
    page_number: u64,
) -> bool {
    let count_sql = count_command(criteria).sql;
    let page_sql = page_command(criteria, page_number, repo.page_size).sql;
    raised_here(failure) && match failure {
        RepoError::PageCountError { .. } => repo.page_size == 0,
        RepoError::RowShouldReturned { query, .. } => repo.page_size > 0 && query@ == count_sql,
        RepoError::FromRowError { source, .. } => repo.page_size > 0 && (source == Field::Total
            || client_fields().contains(source)),
        RepoError::SerdeError { .. } => false,
        RepoError::ItemShouldExists { .. } => false,
        _ => repo.page_size > 0 && (store_failed(failure, repo.location, count_sql)
            || store_failed(failure, repo.location, page_sql)),
    }
}

/// Whether a page is what a search for `criteria` and `page_number` returns
/// for some answer of the store: a count, and at most a page of clients.
pub open spec fn is_search_result(
    found: LastSearchView,
    criteria: SearchCriteriaView,
    page_number: u64,
    page_size: u64,
) -> bool {
    exists|total: u64, clients: Seq<ClientView>|
        clients.len() <= page_size && found == #[trigger] search_result(
            criteria,
            page_number,
            page_size,
            total,
            page_json(clients),
        )
}

/// Whether a lookup by identifier can have failed in this way: the store on
/// the statement of the lookup, or a row that lacks a column.
pub open spec fn lookup_failed(failure: RepoError, location: Seq<char>, id: u32) -> bool {
    store_failed(failure, location, select_by_id_command(id).sql) || (
    failure matches RepoError::FromRowError { source, .. } && client_fields().contains(source)
        && raised_here(failure))
}

/// Whether an update can have failed in this way: a record without an
/// identifier or without a row, the lookup of the persisted record, or the
/// store on the statement for the columns that differ from some persisted
/// record.
pub open spec fn modify_failed(failure: RepoError, location: Seq<char>, item: ClientView) -> bool {
    raised_here(failure) && match failure {
        RepoError::ItemShouldExists { source, .. } => source@ == item,
        _ => item.id_client matches Some(id) && (lookup_failed(failure, location, id) || exists|
            persisted: ClientView,
        |
            #[trigger] update_plan(id, persisted, item) matches Some(plan) && store_failed(
                failure,
                location,
                plan.command.sql,
            )),
    }
}

impl ClientRepo {
    /// A repository of the clients in the database that `connector` leads
    /// to, which reads `page_size` rows to a page.
    pub fn new(page_size: u64, connector: Connector) -> (repo: ClientRepo)
        ensures
            repo@ == (ClientRepoView { page_size, location: connector@ }),
    {
        ClientRepo { page_size, connector }
    }

    /// What a statement that changes rows amounts to: it succeeded whenever
    /// the store ran it, however many rows it changed. A statement that
    /// found no row to change, as a second removal of the same row, is no
    /// failure.
    pub fn settle(changed: Result<usize, RepoError>) -> (done: Result<(), RepoError>)
        ensures
            done == settled(changed),
    {
        match changed {
            Ok(_) => Ok(()),
            Err(failure) => Err(failure),
        }
    }

    /// Decides what an update has to do, given the record that the store
    /// holds under the identifier of `item`.
    pub fn plan_modify(item: &Client, persisted: &Option<Client>) -> (plan: Result<
        Option<UpdatePlan>,
        RepoError,
    >)
        ensures
            match modify_decision(item@, client_option_view(*persisted)) {
                Ok(None) => plan matches Ok(None),
                Ok(Some(wanted)) => plan matches Ok(Some(found)) && found@ == wanted,
                Err(source) => plan matches Err(
                    RepoError::ItemShouldExists { source: named, file, .. },
                ) && named@ == source && file@ == "src/client_repo.rs"@,
            },
    {
        match (item.id_client, persisted) {
            (Some(id), Some(persisted)) => Ok(update_statement(id, persisted, item)),
            _ => Err(
                RepoError::ItemShouldExists {
                    source: item.clone(),
                    file: "src/client_repo.rs", line: 448,
                },
            ),
        }
    }

    /// What a lookup by identifier amounts to, given the row that the store
    /// returned: without a row there is no such client, which is an answer
    /// and no failure; a row is decoded in full, or fails with the column
    /// that does not hold what a client needs.
    pub fn client_found(row: &Option<RowValues>) -> (found: Result<Option<Client>, RepoError>)
        ensures
            found matches Err(failure) ==> raised_here(failure),
            match *row {
                None => found matches Ok(None),
                Some(values) => match decoded_client(values@) {
                    Ok(wanted) => found matches Ok(Some(client)) && client@ == wanted,
                    Err(field) => found matches Err(RepoError::FromRowError { source, .. })
                        && source
                        == field,
                },
            },
    {
        match row {
            None => Ok(None),
            Some(values) => match Self::from_row(values) {
                Ok(client) => Ok(Some(client)),
                Err(failure) => Err(failure),
            },
        }
    }

    /// Reads the number of rows from what the counting statement returned.
    /// A count always has one row: none at all is a failure of its own.
    pub fn count_found(row: &Option<RowValues>, command: &SqlCommand) -> (total: Result<
        u64,
        RepoError,
    >)
        ensures
            total matches Err(failure) ==> raised_here(failure),
            match *row {
                None => total matches Err(RepoError::RowShouldReturned { query, .. })
                    && query@
                    == command@.sql,
                Some(values) => match decoded_count(values@) {
                    Some(count) => total matches Ok(found) && found == count,
                    None => total matches Err(
                        RepoError::FromRowError { source: Field::Total, .. },
                    ),
                },
            },
    {
        match row {
            None => Err(
                RepoError::RowShouldReturned {
                    query: command.sql.clone(),
                    file: "src/client_repo.rs", line: 504,
                },
            ),
            Some(values) => match decode_count(values) {
                Some(count) => Ok(count),
                None => Err(
                    RepoError::FromRowError {
                        source: Field::Total,
                        file: "src/client_repo.rs", line: 512,
                    },
                ),
            },
        }
    }

    /// Puts the page of a search together from what the store answered.
    pub fn page_found(
        criteria: &SearchCriteria,
        page_number: u64,
        page_size: u64,
        total_registers: u64,
        result: String,
    ) -> (found: Result<LastSearch<SearchCriteria>, RepoError>)
        ensures
            found matches Err(failure) ==> raised_here(failure),
            page_size == 0 ==> found matches Err(RepoError::PageCountError { .. }),
            page_size > 0 ==> (found matches Ok(page) && page@ == search_result(
                criteria@,
                page_number,
                page_size,
                total_registers,
                result@,
            )),
    {
        if page_size == 0 {
            return Err(RepoError::PageCountError { file: "src/client_repo.rs", line: 539 });
        }
        let page: u64 = if page_number == 0 {
            1
        } else {
            page_number
        };
        let total_pages = count_pages(total_registers, page_size);
        Ok(LastSearch::new(page, total_pages, criteria.clone(), result))
    }

    /// Runs the counting statement of a search and reads the count.
    fn count_rows(connection: &rusqlite::Connection, command: &SqlCommand) -> (total: Result<
        u64,
        RepoError,
    >)
        ensures
            total matches Err(failure) ==> raised_here(failure),
            total matches Err(failure) ==> match failure {
                RepoError::SqlExecutionError { query, .. } => query@ == command@.sql,
                RepoError::RusqliteError { query, .. } => query@ == command@.sql,
                RepoError::RowShouldReturned { query, .. } => query@ == command@.sql,
                RepoError::FromRowError { source, .. } => source == Field::Total,
                _ => false,
            },
    {
        let answer = prepare(connection, command.sql.as_str());
        let mut statement = match prepared(answer, command, "src/client_repo.rs", 566) {
            Ok(statement) => statement,
            Err(failure) => {
                return Err(failure);
            },
        };
        let answer = query(&mut statement, &command.params);
        let mut rows = match started(answer, command, "src/client_repo.rs", 573) {
            Ok(rows) => rows,
            Err(failure) => {
                return Err(failure);
            },
        };
        let row = match next_values(next_row(&mut rows), command, 1, "src/client_repo.rs", 579) {
            Ok(row) => row,
            Err(failure) => {
                return Err(failure);
            },
        };
        Self::count_found(&row, command)
    }

    /// Runs the statement for a page and reads its clients.
    fn read_page(connection: &rusqlite::Connection, command: &SqlCommand, limit: u64) -> (clients:
        Result<Vec<Client>, RepoError>)
        ensures
            clients matches Err(failure) ==> raised_here(failure),
            clients matches Ok(clients) ==> clients@.len() <= limit,
            clients matches Err(failure) ==> match failure {
                RepoError::SqlExecutionError { query, .. } => query@ == command@.sql,
                RepoError::RusqliteError { query, .. } => query@ == command@.sql,
                RepoError::FromRowError { source, .. } => client_fields().contains(source),
                _ => false,
            },
    {
        let answer = prepare(connection, command.sql.as_str());
        let mut statement = match prepared(answer, command, "src/client_repo.rs", 602) {
            Ok(statement) => statement,
            Err(failure) => {
                return Err(failure);
            },
        };
        let answer = query(&mut statement, &command.params);
        let mut rows = match started(answer, command, "src/client_repo.rs", 609) {
            Ok(rows) => rows,
            Err(failure) => {
                return Err(failure);
            },
        };
        Self::read_clients(&mut rows, command, limit)
    }

    /// Reads at most `limit` clients from the rows of a statement.
    fn read_clients(rows: &mut rusqlite::Rows<'_>, command: &SqlCommand, limit: u64) -> (clients:
        Result<Vec<Client>, RepoError>)
        ensures
            clients matches Ok(clients) ==> clients@.len() <= limit,
            clients matches Err(failure) ==> read_failed(failure, command@.sql),
    {
        let mut clients: Vec<Client> = Vec::new();
        let mut read: u64 = 0;
        while read < limit
            invariant
                read <= limit,
                clients@.len() == read,
            decreases limit - read,
        {
            match next_values(next_row(rows), command, 3, "src/client_repo.rs", 633) {
                Ok(Some(values)) => match Self::from_row(&values) {
                    Ok(client) => {
                        clients.push(client);
                        read = read + 1;
                    },
                    Err(failure) => {
                        return Err(failure);
                    },
                },
                Ok(None) => {
                    return Ok(clients);
                },
                Err(failure) => {
                    return Err(failure);
                },
            }
        }
        Ok(clients)
    }
}

impl Clone for ClientRepo {
    fn clone(&self) -> (copy: ClientRepo)
        ensures
            copy@ == self@,
    {
        ClientRepo { page_size: self.page_size, connector: self.connector.clone() }
    }
}

impl PartialEq for ClientRepo {
    fn eq(&self, other: &ClientRepo) -> (equal: bool) {
        self.page_size == other.page_size && self.connector == other.connector
    }
}

impl PartialEqSpecImpl for ClientRepo {
    open spec fn obeys_eq_spec() -> bool {
        true
    }

    open spec fn eq_spec(&self, other: &ClientRepo) -> bool {
        self@ == other@
    }
}

impl Repository<Client, RepoError> for ClientRepo {
    /// Stores a new client: every field but the identifier, which the store
    /// assigns. The record in memory is not given the identifier.
    fn add(&mut self, item: &Client) -> (done: Result<(), RepoError>)
        ensures
            final(self)@ == old(self)@,
            is_settled(done, old(self)@.location, insert_command(item@).sql),
            done matches Err(failure) ==> store_failed(
                failure,
                old(self)@.location,
                insert_command(item@).sql,
            ),
    {
        let command = insert_statement(item);
        let answer = run(&self.connector, &command);
        Self::settle(answer)
    }

    /// Marks the client as inactive in the store and then in `item`. A
    /// record without an identifier addresses no row: it fails and stays as
    /// it was, as it does where the store fails.
    fn drop(&mut self, item: &mut Client) -> (done: Result<(), RepoError>)
        ensures
            final(self)@ == old(self)@,
            done is Ok ==> final(item)@ == (ClientView { client_active: false, ..old(item)@ }),
            done is Err ==> final(item)@ == old(item)@,
            done matches Err(failure) ==> raised_here(failure),
            old(item).id_client is None ==> (done matches Err(
                RepoError::ItemShouldExists { source, .. },
            ) && source@ == old(item)@),
            old(item).id_client matches Some(id) ==> (done matches Err(failure) ==> store_failed(
                failure,
                old(self)@.location,
                deactivate_command(id).sql,
            )),
    {
        let id = match item.id_client {
            Some(id) => id,
            None => {
                return Err(
                    RepoError::ItemShouldExists {
                        source: item.clone(),
                        file: "src/client_repo.rs", line: 722,
                    },
                );
            },
        };
        let command = deactivate_statement(id);
        match run(&self.connector, &command) {
            Ok(_) => {
                item.client_active = false;
                Ok(())
            },
            Err(failure) => Err(failure),
        }
    }

    /// Removes the row of the client. Removing a row that is not there is
    /// no failure.
    fn delete(&mut self, item: &Client) -> (done: Result<(), RepoError>)
        ensures
            final(self)@ == old(self)@,
            is_settled(done, old(self)@.location, delete_command(item.id_client).sql),
            done matches Err(failure) ==> store_failed(
                failure,
                old(self)@.location,
                delete_command(item.id_client).sql,
            ),
    {
        let command = delete_statement(item.id_client);
        let answer = run(&self.connector, &command);
        Self::settle(answer)
    }

    /// Writes the columns in which `item` differs from the record that the
    /// store holds under its identifier, and only those. Where nothing
    /// differs the store is not written to.
    fn modify(&mut self, item: &Client) -> (done: Result<(), RepoError>)
        ensures
            final(self)@ == old(self)@,
            item.id_client is None ==> (done matches Err(
                RepoError::ItemShouldExists { source, .. },
            )
                && source@ == item@),
            done matches Err(failure) ==> modify_failed(failure, old(self)@.location, item@),
    {
        let id = match item.id_client {
            Some(id) => id,
            None => {
                return Err(
                    RepoError::ItemShouldExists {
                        source: item.clone(),
                        file: "src/client_repo.rs", line: 772,
                    },
                );
            },
        };
        let persisted = match self.search_by_id(id) {
            Ok(persisted) => persisted,
            Err(failure) => {
                return Err(failure);
            },
        };
        match Self::plan_modify(item, &persisted) {
            Ok(Some(plan)) => {
                Self::settle(run(&self.connector, &plan.command))
            },
            Ok(None) => Ok(()),
            Err(failure) => Err(failure),
        }
    }
}

impl Finder<Client, SearchCriteria, RepoError> for ClientRepo {
    /// Decodes a client from a row: identifier, active flag and name, in
    /// that order. The result is a whole client, or the failure that names
    /// the first column that does not hold what a client needs.
    fn from_row(row: &RowValues) -> (client: Result<Client, RepoError>)
        ensures
            client matches Err(failure) ==> raised_here(failure),
            match decoded_client(row@) {
                Ok(wanted) => client matches Ok(found) && found@ == wanted,
                Err(field) => client matches Err(RepoError::FromRowError { source, .. })
                    && source
                    == field,
            },
    {
        match decode_client(row) {
            Ok(client) => Ok(client),
            Err(source) => Err(RepoError::FromRowError {
                source,
                file: "src/client_repo.rs", line: 811,
            }),
        }
    }

    /// The number of rows on a page.
    fn page_size(&self) -> (size: u64)
        ensures
            size == self@.page_size,
    {
        self.page_size
    }

    /// The client with the given identifier. That the store holds none is
    /// an answer, not a failure.
    fn search_by_id(&self, id: u32) -> (found: Result<Option<Client>, RepoError>)
        ensures
            found matches Err(failure) ==> lookup_failed(failure, self@.location, id),
    {
        let command = select_by_id_statement(id);
        let connection = match connect(self.connector.get_connection(), "src/client_repo.rs", 831) {
            Ok(connection) => connection,
            Err(failure) => {
                return Err(failure);
            },
        };
        let answer = prepare(&connection, command.sql.as_str());
        let mut statement = match prepared(answer, &command, "src/client_repo.rs", 838) {
            Ok(statement) => statement,
            Err(failure) => {
                return Err(failure);
            },
        };
        let answer = query(&mut statement, &command.params);
        let mut rows = match started(answer, &command, "src/client_repo.rs", 845) {
            Ok(rows) => rows,
            Err(failure) => {
                return Err(failure);
            },
        };
        match next_values(next_row(&mut rows), &command, 3, "src/client_repo.rs", 851) {
            Ok(row) => Self::client_found(&row),
            Err(failure) => Err(failure),
        }
    }

    /// One page of the clients that meet the criteria, in the order of
    /// their names: the count of all that meet them, then the rows of the
    /// page, each decoded in full, then the page as JSON. Page 0 is answered
    /// with the first page; a page beyond the last is empty. A page size of
    /// zero fails before the store is asked.
    fn search_by(&mut self, criteria: &SearchCriteria, page_number: u64) -> (found: Result<
        LastSearch<SearchCriteria>,
        RepoError,
    >)
        ensures
            final(self)@ == old(self)@,
            old(self)@.page_size == 0 ==> found matches Err(RepoError::PageCountError { .. }),
            found matches Ok(page) ==> is_search_result(
                page@,
                criteria@,
                page_number,
                old(self)@.page_size,
            ),
            found matches Err(failure) ==> search_failed(
                failure,
                old(self)@,
                criteria@,
                page_number,
            ),
    {
        if self.page_size == 0 {
            return Err(RepoError::PageCountError { file: "src/client_repo.rs", line: 883 });
        }
        let count_command = count_statement(criteria);
        let page_command = page_statement(criteria, page_number, self.page_size);
        let connection = match connect(self.connector.get_connection(), "src/client_repo.rs", 887) {
            Ok(connection) => connection,
            Err(failure) => {
                return Err(failure);
            },
        };
        let total_registers = match Self::count_rows(&connection, &count_command) {
            Ok(total) => total,
            Err(failure) => {
                return Err(failure);
            },
        };
        let clients = match Self::read_page(&connection, &page_command, self.page_size) {
            Ok(clients) => clients,
            Err(failure) => {
                return Err(failure);
            },
        };
        let result = match encode_page(&clients) {
            Ok(result) => result,
            Err(source) => {
                return Err(RepoError::SerdeError { source, file: "src/client_repo.rs", line: 908 });
            },
        };
        Self::page_found(criteria, page_number, self.page_size, total_registers, result)
    }
}

} // verus!
