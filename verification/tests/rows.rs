use client_records::client::Client;
use client_records::client_manager::{ClientManager, ManagerError};
use client_records::client_repo::ClientRepo;
use client_records::data_management::Finder;
use client_records::repo_error::RepoError;
use client_records::row::{
    decode_client, decode_count, decode_flag, decode_identifier, decode_text, Field, RowValues,
    SqlValue,
};
use client_records::sql::SqlCommand;

fn row(columns: Vec<SqlValue>) -> RowValues {
    RowValues { columns }
}

fn text(value: &str) -> SqlValue {
    SqlValue::Text(value.to_string())
}

#[test]
fn a_row_is_decoded_in_column_order() {
    let decoded = ClientRepo::from_row(&row(vec![SqlValue::Integer(7), SqlValue::Integer(1), text("Ada")]));
    assert_eq!(
        decoded.unwrap(),
        Client { id_client: Some(7), client_active: true, client_name: "Ada".to_string() }
    );
    let decoded = decode_client(&row(vec![SqlValue::Null, SqlValue::Integer(0), text("")]));
    assert_eq!(
        decoded.unwrap(),
        Client { id_client: None, client_active: false, client_name: String::new() }
    );
}

#[test]
fn columns_beyond_the_third_are_not_read() {
    let decoded = decode_client(&row(vec![
        SqlValue::Integer(1),
        SqlValue::Integer(5),
        text("Ada"),
        SqlValue::Real,
    ]));
    assert_eq!(
        decoded.unwrap(),
        Client { id_client: Some(1), client_active: true, client_name: "Ada".to_string() }
    );
}

#[test]
fn the_first_column_that_fails_is_named() {
    let cases: Vec<(Vec<SqlValue>, Field)> = vec![
        (vec![], Field::IdClient),
        (vec![text("1"), SqlValue::Integer(1), text("Ada")], Field::IdClient),
        (vec![SqlValue::Integer(-1), SqlValue::Integer(1), text("Ada")], Field::IdClient),
        (vec![SqlValue::Integer(4294967296), SqlValue::Integer(1), text("Ada")], Field::IdClient),
        (vec![SqlValue::Real, text("x"), SqlValue::Null], Field::IdClient),
        (vec![SqlValue::Integer(1)], Field::ClientActive),
        (vec![SqlValue::Integer(1), SqlValue::Null, text("Ada")], Field::ClientActive),
        (vec![SqlValue::Integer(1), text("true"), SqlValue::Null], Field::ClientActive),
        (vec![SqlValue::Integer(1), SqlValue::Integer(1)], Field::ClientName),
        (vec![SqlValue::Integer(1), SqlValue::Integer(1), SqlValue::Null], Field::ClientName),
        (vec![SqlValue::Integer(1), SqlValue::Integer(1), SqlValue::Integer(3)], Field::ClientName),
        (
            vec![SqlValue::Integer(1), SqlValue::Integer(1), SqlValue::Blob(vec![65])],
            Field::ClientName,
        ),
    ];
    for (columns, field) in cases {
        let values = row(columns);
        assert_eq!(decode_client(&values).unwrap_err(), field);
        match ClientRepo::from_row(&values) {
            Err(RepoError::FromRowError { source, .. }) => assert_eq!(source, field),
            other => panic!("unexpected: {:?}", other),
        }
        match ClientManager::from_row(&values) {
            Err(ManagerError::RepoError(RepoError::FromRowError { source, .. })) => {
                assert_eq!(source, field)
            }
            other => panic!("unexpected: {:?}", other),
        }
    }
}

#[test]
fn identifiers_span_the_whole_range_of_their_type() {
    assert_eq!(decode_identifier(&SqlValue::Integer(0)), Some(Some(0)));
    assert_eq!(decode_identifier(&SqlValue::Integer(4294967295)), Some(Some(4294967295)));
    assert_eq!(decode_identifier(&SqlValue::Integer(4294967296)), None);
    assert_eq!(decode_identifier(&SqlValue::Integer(-1)), None);
    assert_eq!(decode_identifier(&SqlValue::Null), Some(None));
    assert_eq!(decode_identifier(&SqlValue::Real), None);
}

#[test]
fn any_integer_but_zero_is_true() {
    assert_eq!(decode_flag(&SqlValue::Integer(0)), Some(false));
    assert_eq!(decode_flag(&SqlValue::Integer(1)), Some(true));
    assert_eq!(decode_flag(&SqlValue::Integer(-3)), Some(true));
    assert_eq!(decode_flag(&SqlValue::Null), None);
    assert_eq!(decode_flag(&text("1")), None);
}

#[test]
fn only_a_text_is_a_text() {
    assert_eq!(decode_text(&text("Ada")), Some("Ada".to_string()));
    assert_eq!(decode_text(&SqlValue::Integer(1)), None);
    assert_eq!(decode_text(&SqlValue::Blob(vec![65, 100, 97])), None);
}

#[test]
fn a_count_is_an_integer_that_is_not_negative() {
    assert_eq!(decode_count(&row(vec![SqlValue::Integer(5)])), Some(5));
    assert_eq!(decode_count(&row(vec![SqlValue::Integer(0)])), Some(0));
    assert_eq!(decode_count(&row(vec![SqlValue::Integer(i64::MAX)])), Some(i64::MAX as u64));
    assert_eq!(decode_count(&row(vec![SqlValue::Integer(-1)])), None);
    assert_eq!(decode_count(&row(vec![SqlValue::Null])), None);
    assert_eq!(decode_count(&row(vec![])), None);
}

#[test]
fn a_count_without_a_row_is_a_failure_of_its_own() {
    let command = SqlCommand { sql: "SELECT COUNT(*) FROM Client".to_string(), params: vec![] };
    match ClientRepo::count_found(&None, &command) {
        Err(RepoError::RowShouldReturned { query, .. }) => {
            assert_eq!(query, "SELECT COUNT(*) FROM Client")
        }
        other => panic!("unexpected: {:?}", other),
    }
    assert_eq!(
        ClientRepo::count_found(&Some(row(vec![SqlValue::Integer(5)])), &command).unwrap(),
        5
    );
    match ClientRepo::count_found(&Some(row(vec![text("5")])), &command) {
        Err(RepoError::FromRowError { source, .. }) => assert_eq!(source, Field::Total),
        other => panic!("unexpected: {:?}", other),
    }
}

#[test]
fn columns_have_the_names_of_the_schema() {
    assert_eq!(Field::IdClient.name(), "id_client");
    assert_eq!(Field::ClientActive.name(), "client_active");
    assert_eq!(Field::ClientName.name(), "client_name");
    assert_eq!(Field::Total.name(), "COUNT(*)");
}

#[test]
fn a_lookup_without_a_row_finds_no_client() {
    assert_eq!(ClientRepo::client_found(&None).unwrap(), None);
    let found = ClientRepo::client_found(&Some(row(vec![
        SqlValue::Integer(7),
        SqlValue::Integer(0),
        text("Ada"),
    ])));
    assert_eq!(
        found.unwrap(),
        Some(Client { id_client: Some(7), client_active: false, client_name: "Ada".to_string() })
    );
    match ClientRepo::client_found(&Some(row(vec![SqlValue::Integer(7), SqlValue::Integer(0)]))) {
        Err(RepoError::FromRowError { source, .. }) => assert_eq!(source, Field::ClientName),
        other => panic!("unexpected: {:?}", other),
    }
}

#[test]
fn the_manager_hands_on_what_a_lookup_found() {
    let ada = Client { id_client: Some(7), client_active: true, client_name: "Ada".to_string() };
    assert_eq!(ClientManager::lookup_found(Ok(Some(ada.clone()))).unwrap(), Some(ada));
    assert_eq!(ClientManager::lookup_found(Ok(None)).unwrap(), None);
    match ClientManager::lookup_found(Err(RepoError::FromRowError {
        source: Field::IdClient,
        file: "a.rs",
        line: 9,
    })) {
        Err(ManagerError::RepoError(RepoError::FromRowError { source, .. })) => {
            assert_eq!(source, Field::IdClient)
        }
        other => panic!("unexpected: {:?}", other),
    }
}
