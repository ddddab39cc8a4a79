use crate::client::{Client, ClientView};
use vstd::prelude::*;
use vstd::string::StringExecFns;

verus! {

/// A value bound to a `?` placeholder of a statement.
#[derive(Debug)]
pub enum SqlParam {
    Null,
    Integer(i64),
    Text(String),
}

/// The mathematical value of a [`SqlParam`].
pub enum SqlParamView {
    Null,
    Integer(i64),
    Text(Seq<char>),
}

impl View for SqlParam {
    type V = SqlParamView;

    open spec fn view(&self) -> SqlParamView {
        match self {
            SqlParam::Null => SqlParamView::Null,
            SqlParam::Integer(i) => SqlParamView::Integer(*i),
            SqlParam::Text(text) => SqlParamView::Text(text@),
        }
    }
}

/// A parameterized statement: its text, and one value for each placeholder in
/// the order in which the placeholders occur.
#[derive(Debug)]
pub struct SqlCommand {
    pub sql: String,
    pub params: Vec<SqlParam>,
}

/// The mathematical value of a [`SqlCommand`].
pub struct SqlCommandView {
    pub sql: Seq<char>,
    pub params: Seq<SqlParamView>,
}

/// The values of a list of parameters.
pub open spec fn params_view(params: Seq<SqlParam>) -> Seq<SqlParamView> {
    params.map_values(|p: SqlParam| p@)
}

impl View for SqlCommand {
    type V = SqlCommandView;

    open spec fn view(&self) -> SqlCommandView {
        SqlCommandView { sql: self.sql@, params: params_view(self.params@) }
    }
}

/// How a truth value is stored: 1 for true, 0 for false.
pub open spec fn flag_param(flag: bool) -> SqlParamView {
    SqlParamView::Integer(
        if flag {
            1
        } else {
            0
        },
    )
}

/// How an identifier is bound: its number, or NULL where there is none.
pub open spec fn identifier_param(id: Option<u32>) -> SqlParamView {
    match id {
        Some(id) => SqlParamView::Integer(id as i64),
        None => SqlParamView::Null,
    }
}

/// Binds a truth value.
pub fn bind_flag(flag: bool) -> (param: SqlParam)
    ensures
        param@ == flag_param(flag),
{
    if flag {
        SqlParam::Integer(1)
    } else {
        SqlParam::Integer(0)
    }
}

/// Binds an identifier, or NULL where there is none.
pub fn bind_identifier(id: Option<u32>) -> (param: SqlParam)
    ensures
        param@ == identifier_param(id),
{
    match id {
        Some(id) => SqlParam::Integer(id as i64),
        None => SqlParam::Null,
    }
}

/// Binds a text.
pub fn bind_text(text: &String) -> (param: SqlParam)
    ensures
        param@ == SqlParamView::Text(text@),
{
    SqlParam::Text(text.clone())
}

/// The statement that stores a new client. The store assigns the identifier,
/// so the statement names every other column.
pub open spec fn insert_command(client: ClientView) -> SqlCommandView {
    SqlCommandView {
        sql: "INSERT INTO Client (client_active, client_name) VALUES (?,?)"@,
        params: seq![flag_param(client.client_active), SqlParamView::Text(client.client_name)],
    }
}

/// The statement that marks the client with the given identifier as inactive.
pub open spec fn deactivate_command(id: u32) -> SqlCommandView {
    SqlCommandView {
        sql: "UPDATE Client SET client_active = 0 WHERE id_client = ?"@,
        params: seq![SqlParamView::Integer(id as i64)],
    }
}

/// The statement that removes the row with the given identifier. Without an
/// identifier it binds NULL, which no row equals.
pub open spec fn delete_command(id: Option<u32>) -> SqlCommandView {
    SqlCommandView {
        sql: "DELETE FROM Client WHERE id_client = ?"@,
        params: seq![identifier_param(id)],
    }
}

/// The statement that reads the row with the given identifier.
pub open spec fn select_by_id_command(id: u32) -> SqlCommandView {
    SqlCommandView {
        sql: "SELECT id_client, client_active, client_name FROM Client WHERE id_client = ?"@,
        params: seq![SqlParamView::Integer(id as i64)],
    }
}

/// Builds [`insert_command`].
pub fn insert_statement(client: &Client) -> (command: SqlCommand)
    ensures
        command@ == insert_command(client@),
{
    let mut params: Vec<SqlParam> = Vec::new();
    params.push(bind_flag(client.client_active));
    params.push(bind_text(&client.client_name));
    let command = SqlCommand {
        sql: String::from_str("INSERT INTO Client (client_active, client_name) VALUES (?,?)"),
        params,
    };
    assert(command@.params =~= insert_command(client@).params);
    command
}

/// Builds [`deactivate_command`].
pub fn deactivate_statement(id: u32) -> (command: SqlCommand)
    ensures
        command@ == deactivate_command(id),
{
    let mut params: Vec<SqlParam> = Vec::new();
    params.push(SqlParam::Integer(id as i64));
    let command = SqlCommand {
        sql: String::from_str("UPDATE Client SET client_active = 0 WHERE id_client = ?"),
        params,
    };
    assert(command@.params =~= deactivate_command(id).params);
    command
}

/// Builds [`delete_command`].
pub fn delete_statement(id: Option<u32>) -> (command: SqlCommand)
    ensures
        command@ == delete_command(id),
{
    let mut params: Vec<SqlParam> = Vec::new();
    params.push(bind_identifier(id));
    let command = SqlCommand {
        sql: String::from_str("DELETE FROM Client WHERE id_client = ?"),
        params,
    };
    assert(command@.params =~= delete_command(id).params);
    command
}

/// Builds [`select_by_id_command`].
pub fn select_by_id_statement(id: u32) -> (command: SqlCommand)
    ensures
        command@ == select_by_id_command(id),
{
    let mut params: Vec<SqlParam> = Vec::new();
    params.push(SqlParam::Integer(id as i64));
    let command = SqlCommand {
        sql: String::from_str(
            "SELECT id_client, client_active, client_name FROM Client WHERE id_client = ?",
        ),
        params,
    };
    assert(command@.params =~= select_by_id_command(id).params);
    command
}

} // verus!
