use crate::client::{Client, ClientView};
use vstd::prelude::*;

verus! {

/// A value that the store holds in one column of one row.
#[derive(Debug)]
pub enum SqlValue {
    Null,
    Integer(i64),
    /// A number with a fraction. No column of a client holds one, so its
    /// value is not kept.
    Real,
    Text(String),
    Blob(Vec<u8>),
}

/// The mathematical value of a [`SqlValue`].
pub enum SqlValueView {
    Null,
    Integer(i64),
    Real,
    Text(Seq<char>),
    Blob(Seq<u8>),
}

impl View for SqlValue {
    type V = SqlValueView;

    open spec fn view(&self) -> SqlValueView {
        match self {
            SqlValue::Null => SqlValueView::Null,
            SqlValue::Integer(i) => SqlValueView::Integer(*i),
            SqlValue::Real => SqlValueView::Real,
            SqlValue::Text(text) => SqlValueView::Text(text@),
            SqlValue::Blob(bytes) => SqlValueView::Blob(bytes@),
        }
    }
}

/// One row of a result: the values of its columns, in the order in which the
/// statement names them.
#[derive(Debug)]
pub struct RowValues {
    pub columns: Vec<SqlValue>,
}

impl View for RowValues {
    type V = Seq<SqlValueView>;

    open spec fn view(&self) -> Seq<SqlValueView> {
        self.columns@.map_values(|value: SqlValue| value@)
    }
}

/// A column that a row is decoded from.
#[derive(Clone, Copy, Debug, PartialEq, Eq, Structural)]
pub enum Field {
    IdClient,
    ClientActive,
    ClientName,
    /// The single column of a count.
    Total,
}

/// The name of a column.
pub open spec fn field_name(field: Field) -> Seq<char> {
    match field {
        Field::IdClient => "id_client"@,
        Field::ClientActive => "client_active"@,
        Field::ClientName => "client_name"@,
        Field::Total => "COUNT(*)"@,
    }
}

impl Field {
    /// The name of the column.
    pub fn name(&self) -> (name: &'static str)
        ensures
            name@ == field_name(*self),
    {
        match self {
            Field::IdClient => "id_client",
            Field::ClientActive => "client_active",
            Field::ClientName => "client_name",
            Field::Total => "COUNT(*)",
        }
    }
}

/// The identifier that a column value stands for: none for NULL, the number
/// for an integer that an identifier can hold. Any other value is no
/// identifier.
pub open spec fn decoded_identifier(value: SqlValueView) -> Option<Option<u32>> {
    match value {
        SqlValueView::Null => Some(None),
        SqlValueView::Integer(i) => if 0 <= i <= u32::MAX {
            Some(Some(i as u32))
        } else {
            None
        },
        _ => None,
    }
}

/// The truth value that a column value stands for: false for the integer 0,
/// true for any other integer. Any other value is no truth value.
pub open spec fn decoded_flag(value: SqlValueView) -> Option<bool> {
    match value {
        SqlValueView::Integer(i) => Some(i != 0),
        _ => None,
    }
}

/// The text that a column value stands for. Only a text is one.
pub open spec fn decoded_text(value: SqlValueView) -> Option<Seq<char>> {
    match value {
        SqlValueView::Text(text) => Some(text),
        _ => None,
    }
}

/// The count that a column value stands for: an integer that is not negative.
pub open spec fn decoded_total(value: SqlValueView) -> Option<u64> {
    match value {
        SqlValueView::Integer(i) => if i >= 0 {
            Some(i as u64)
        } else {
            None
        },
        _ => None,
    }
}

/// The client that a row stands for, or the first column that does not hold
/// what a client needs. The columns are read in a fixed order: identifier,
/// active flag, name. A row that is too short fails at the first column that
/// it lacks; columns beyond the third are not read.
pub open spec fn decoded_client(row: Seq<SqlValueView>) -> Result<ClientView, Field> {
    if row.len() < 1 || decoded_identifier(row[0]) is None {
        Err(Field::IdClient)
    } else if row.len() < 2 || decoded_flag(row[1]) is None {
        Err(Field::ClientActive)
    } else if row.len() < 3 || decoded_text(row[2]) is None {
        Err(Field::ClientName)
    } else {
        Ok(
            ClientView {
                id_client: decoded_identifier(row[0])->0,
                client_active: decoded_flag(row[1])->0,
                client_name: decoded_text(row[2])->0,
            },
        )
    }
}

/// The count that the row of a `COUNT(*)` stands for.
pub open spec fn decoded_count(row: Seq<SqlValueView>) -> Option<u64> {
    if row.len() < 1 {
        None
    } else {
        decoded_total(row[0])
    }
}

/// Reads an identifier from a column value.
pub fn decode_identifier(value: &SqlValue) -> (id: Option<Option<u32>>)
    ensures
        id == decoded_identifier(value@),
{
    match value {
        SqlValue::Null => Some(None),
        SqlValue::Integer(i) => {
            if 0 <= *i && *i <= 0xffff_ffff {
                Some(Some(*i as u32))
            } else {
                None
            }
        },
        _ => None,
    }
}

/// Reads a truth value from a column value.
pub fn decode_flag(value: &SqlValue) -> (flag: Option<bool>)
    ensures
        flag == decoded_flag(value@),
{
    match value {
        SqlValue::Integer(i) => Some(*i != 0),
        _ => None,
    }
}

/// Reads a text from a column value.
pub fn decode_text(value: &SqlValue) -> (text: Option<String>)
    ensures
        text is Some <==> decoded_text(value@) is Some,
        text matches Some(text) ==> Some(text@) == decoded_text(value@),
{
    match value {
        SqlValue::Text(text) => Some(text.clone()),
        _ => None,
    }
}

/// Reads the count from the row of a `COUNT(*)`.
pub fn decode_count(row: &RowValues) -> (total: Option<u64>)
    ensures
        total == decoded_count(row@),
{
    if row.columns.len() < 1 {
        return None;
    }
    match &row.columns[0] {
        SqlValue::Integer(i) => {
            if *i >= 0 {
                Some(*i as u64)
            } else {
                None
            }
        },
        _ => None,
    }
}

/// Reads a client from a row, column by column. The result is a whole client
/// or the first column that failed, never a client with some fields missing.
pub fn decode_client(row: &RowValues) -> (client: Result<Client, Field>)
    ensures
        client is Ok <==> decoded_client(row@) is Ok,
        client matches Ok(client) ==> Ok::<ClientView, Field>(client@) == decoded_client(row@),
        client matches Err(field) ==> Err::<ClientView, Field>(field) == decoded_client(row@),
{
    if row.columns.len() < 1 {
        return Err(Field::IdClient);
    }
    let id_client = match decode_identifier(&row.columns[0]) {
        Some(id) => id,
        None => {
            return Err(Field::IdClient);
        },
    };
    if row.columns.len() < 2 {
        return Err(Field::ClientActive);
    }
    let client_active = match decode_flag(&row.columns[1]) {
        Some(flag) => flag,
        None => {
            return Err(Field::ClientActive);
        },
    };
    if row.columns.len() < 3 {
        return Err(Field::ClientName);
    }
    let client_name = match decode_text(&row.columns[2]) {
        Some(text) => text,
        None => {
            return Err(Field::ClientName);
        },
    };
    Ok(Client { id_client, client_active, client_name })
}

} // verus!
