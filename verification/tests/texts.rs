use client_records::client::Client;
use client_records::client_manager::ManagerError;
use client_records::client_repo::ClientRepo;
use client_records::connector::Connector;
use client_records::criteria::SearchCriteria;
use client_records::data_management::LastSearch;
use client_records::json::{encode_client, encode_page, write_client};
use client_records::repo_error::RepoError;
use client_records::row::Field;
use client_records::text::{boolean_text, decimal_text};

fn client(id: Option<u32>, active: bool, name: &str) -> Client {
    Client { id_client: id, client_active: active, client_name: name.to_string() }
}

#[test]
fn numbers_are_written_in_decimal() {
    assert_eq!(decimal_text(0), "0");
    assert_eq!(decimal_text(7), "7");
    assert_eq!(decimal_text(10), "10");
    assert_eq!(decimal_text(4294967295), "4294967295");
    assert_eq!(decimal_text(u64::MAX), "18446744073709551615");
    assert_eq!(boolean_text(true), "true");
    assert_eq!(boolean_text(false), "false");
}

#[test]
fn a_client_is_described_on_one_line() {
    assert_eq!(client(Some(7), true, "Ada").to_text(), "{ id: 7, active: true, name: Ada }");
    assert_eq!(client(None, false, "").to_text(), "{ id: None, active: false, name:  }");
}

#[test]
fn the_default_client_is_new_inactive_and_unnamed() {
    assert_eq!(Client::default(), client(None, false, ""));
    assert_eq!(client(Some(1), true, "a").clone(), client(Some(1), true, "a"));
    assert_ne!(client(Some(1), true, "a"), client(Some(2), true, "a"));
    assert_ne!(client(Some(1), true, "a"), client(Some(1), false, "a"));
    assert_ne!(client(Some(1), true, "a"), client(Some(1), true, "b"));
}

#[test]
fn default_criteria_constrain_nothing() {
    let criteria = SearchCriteria::default();
    assert_eq!(criteria.id_client, None);
    assert_eq!(criteria.client_active, None);
    assert_eq!(criteria.client_name, None);
    let named =
        SearchCriteria { id_client: Some(1), client_active: None, client_name: Some("a".into()) };
    assert_eq!(named.clone(), named);
    assert_ne!(named, criteria);
}

#[test]
fn a_client_is_written_as_a_json_object() {
    assert_eq!(
        encode_client(&client(Some(7), true, "Ada")).unwrap(),
        "{\"id_client\":7,\"client_active\":true,\"client_name\":\"Ada\"}"
    );
    assert_eq!(
        encode_client(&client(None, false, "tab\there")).unwrap(),
        "{\"id_client\":null,\"client_active\":false,\"client_name\":\"tab\\there\"}"
    );
    assert_eq!(
        write_client(&client(Some(1), true, "ignored"), "\"x\""),
        "{\"id_client\":1,\"client_active\":true,\"client_name\":\"x\"}"
    );
}

#[test]
fn a_page_is_written_as_a_json_array_in_its_order() {
    assert_eq!(encode_page(&vec![]).unwrap(), "[]");
    let page = vec![client(Some(2), true, "B"), client(Some(1), false, "A")];
    let text = encode_page(&page).unwrap();
    assert_eq!(
        text,
        "[{\"id_client\":2,\"client_active\":true,\"client_name\":\"B\"},\
         {\"id_client\":1,\"client_active\":false,\"client_name\":\"A\"}]"
    );
    let parsed: serde_json::Value = serde_json::from_str(&text).unwrap();
    assert_eq!(parsed.as_array().unwrap().len(), 2);
    assert_eq!(parsed[1]["client_name"].as_str(), Some("A"));
}

#[test]
fn a_page_is_put_together_from_the_answers_of_the_store() {
    let criteria = SearchCriteria { id_client: None, client_active: Some(true), client_name: None };
    let found = ClientRepo::page_found(&criteria, 3, 2, 5, "[]".to_string()).unwrap();
    assert_eq!(found, LastSearch::new(3, 3, criteria.clone(), "[]".to_string()));
    let found = ClientRepo::page_found(&criteria, 0, 2, 4, "[]".to_string()).unwrap();
    assert_eq!((found.page, found.total_pages), (1, 2));
    assert!(matches!(
        ClientRepo::page_found(&criteria, 1, 0, 4, "[]".to_string()),
        Err(RepoError::PageCountError { .. })
    ));
}

#[test]
fn failures_are_told_in_words() {
    assert_eq!(
        RepoError::PageCountError { file: "a.rs", line: 7 }.message(),
        "PageCountError: Page size must be non-zero (on a.rs: 7)"
    );
    assert_eq!(
        RepoError::FromRowError { source: Field::ClientName, file: "a.rs", line: 9 }.message(),
        "FromRowError: no se pudo obtener un dato de la fila client_name (on a.rs: 9)"
    );
    assert_eq!(
        RepoError::ItemShouldExists {
            source: client(Some(7), true, "Ada"),
            file: "src/lib.rs",
            line: 120,
        }
        .message(),
        "ItemShouldExists: el item { id: 7, active: true, name: Ada } no se encontró \
         (on src/lib.rs: 120)"
    );
    assert_eq!(
        RepoError::RowShouldReturned {
            query: "SELECT COUNT(*) FROM Client".to_string(),
            file: "b.rs",
            line: 4294967295,
        }
        .message(),
        "RowShouldReturned: Un SELECT COUNT() deberia devolver al menos una fila \
         Query: SELECT COUNT(*) FROM Client (on b.rs: 4294967295)"
    );
    assert_eq!(
        ManagerError::InvalidField { source: "El nombre".to_string(), file: "m.rs", line: 0 }
            .message(),
        "InvalidField: El nombre (on m.rs: 0)"
    );
    assert_eq!(
        ManagerError::RepoError(RepoError::PageCountError { file: "a.rs", line: 7 }).message(),
        "PageCountError: Page size must be non-zero (on a.rs: 7)"
    );
    assert_eq!(
        ManagerError::ReplayError(RepoError::PageCountError { file: "a.rs", line: 7 }).message(),
        "ReplayError: PageCountError: Page size must be non-zero (on a.rs: 7)"
    );
}

#[test]
fn failures_carry_the_place_at_which_they_were_raised() {
    let failure = RepoError::FromRowError { source: Field::Total, file: "a.rs", line: 9 };
    assert_eq!((failure.file(), failure.line()), ("a.rs", 9));
    let raised = ClientRepo::page_found(&SearchCriteria::default(), 1, 0, 4, "[]".to_string())
        .unwrap_err();
    assert_eq!(raised.file(), "src/client_repo.rs");
    assert!(raised.line() > 0);
    assert_eq!(
        raised.message(),
        format!("PageCountError: Page size must be non-zero (on src/client_repo.rs: {})", raised.line())
    );
}

#[test]
fn failures_of_the_store_are_told_with_the_statement() {
    let location = "file:texts_no_schema?mode=memory&cache=shared".to_string();
    let _keeper = rusqlite::Connection::open(&location).unwrap();
    let connector = Connector::new(location.clone());
    assert_eq!(connector.location(), &location);
    assert!(connector.get_connection().is_ok());
    let refused = || rusqlite::Connection::open(&location).unwrap().prepare("SELECT nothing").unwrap_err();
    let said = refused().to_string();
    let text = RepoError::SqlExecutionError {
        source: refused(),
        query: "SELECT nothing".to_string(),
        file: "a.rs",
        line: 1,
    }
    .message();
    assert_eq!(text, format!("RusqliteError: {} Query: SELECT nothing (on a.rs: 1)", said));
    let text = RepoError::RusqliteError {
        source: refused(),
        query: "SELECT 1".to_string(),
        file: "a.rs",
        line: 2,
    }
    .message();
    assert_eq!(text, format!("RusqliteError: {} Query: SELECT 1 (on a.rs: 2)", said));
    let source = serde_json::from_str::<serde_json::Value>("{").unwrap_err();
    let said = source.to_string();
    assert_eq!(
        RepoError::SerdeError { source, file: "a.rs", line: 3 }.message(),
        format!("SerdeError: {} (on a.rs: 3)", said)
    );
    let failure =
        Connector::new("/no/such/directory/clients.db".to_string()).get_connection().unwrap_err();
    let inner = failure.message();
    assert!(inner.starts_with("RusqliteError: "));
    assert!(inner.contains(" Database: /no/such/directory/clients.db (on src/connector.rs: "));
    assert!(inner.ends_with(")"));
    let text = RepoError::ConnectorError { source: failure, file: "a.rs", line: 4 }.message();
    assert_eq!(text, format!("ConnectorError: {} (on a.rs: 4)", inner));
}

#[test]
fn the_connector_names_its_location_in_a_refusal() {
    let connector = Connector::new("file:texts_opened?mode=memory&cache=shared".to_string());
    let answer = rusqlite::Connection::open("file:texts_opened?mode=memory&cache=shared");
    assert!(connector.opened(answer).is_ok());
    let refusal = rusqlite::Connection::open("/no/such/directory/clients.db");
    let said = refusal.as_ref().unwrap_err().to_string();
    match connector.opened(refusal) {
        Err(client_records::connector::ConnectorError::RusqliteError {
            source,
            location,
            file,
            line,
        }) => {
            assert_eq!(source.to_string(), said);
            assert_eq!(location, "file:texts_opened?mode=memory&cache=shared");
            assert_eq!(file, "src/connector.rs");
            assert!(line > 0);
        }
        other => panic!("unexpected: {:?}", other.map(|_| ())),
    }
}

#[test]
fn every_client_of_a_page_is_written() {
    let page = vec![client(None, true, "é\u{1}"), client(Some(0), false, "\"")];
    assert_eq!(
        encode_page(&page).unwrap(),
        "[{\"id_client\":null,\"client_active\":true,\"client_name\":\"é\\u0001\"},\
         {\"id_client\":0,\"client_active\":false,\"client_name\":\"\\\"\"}]"
    );
    let one = vec![client(Some(3), true, "")];
    assert_eq!(
        encode_page(&one).unwrap(),
        "[{\"id_client\":3,\"client_active\":true,\"client_name\":\"\"}]"
    );
}
