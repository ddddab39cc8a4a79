use client_records::client::Client;
use client_records::client_repo::ClientRepo;
use client_records::criteria::SearchCriteria;
use client_records::data_management::Repository;
use client_records::paging::count_pages;
use client_records::query::{bind_count, bind_offset, count_statement, page_statement, search_filter};
use client_records::repo_error::RepoError;
use client_records::sql::{
    bind_flag, bind_identifier, bind_text, deactivate_statement, delete_statement,
    insert_statement, select_by_id_statement, SqlParam,
};
use client_records::update::{differs_in, mutable_column_list, update_statement, Column};

fn client(id: Option<u32>, active: bool, name: &str) -> Client {
    Client { id_client: id, client_active: active, client_name: name.to_string() }
}

fn integers_and_texts(params: &[SqlParam]) -> Vec<String> {
    params
        .iter()
        .map(|param| match param {
            SqlParam::Null => "NULL".to_string(),
            SqlParam::Integer(i) => format!("{}", i),
            SqlParam::Text(text) => format!("'{}'", text),
        })
        .collect()
}

#[test]
fn total_pages_rounds_up() {
    assert_eq!(count_pages(0, 2), 0);
    assert_eq!(count_pages(1, 2), 1);
    assert_eq!(count_pages(4, 2), 2);
    assert_eq!(count_pages(5, 2), 3);
    assert_eq!(count_pages(5, 5), 1);
    assert_eq!(count_pages(5, 6), 1);
    assert_eq!(count_pages(u64::MAX, 1), u64::MAX);
    assert_eq!(count_pages(u64::MAX, 2), 1 << 63);
    assert_eq!(count_pages(u64::MAX, u64::MAX), 1);
    assert_eq!(<ClientRepo as Repository<Client, RepoError>>::total_pages(5, 2), 3);
    assert_eq!(<ClientRepo as Repository<Client, RepoError>>::total_pages(6, 2), 3);
}

#[test]
fn booleans_identifiers_and_texts_are_bound_as_the_store_holds_them() {
    assert_eq!(integers_and_texts(&[bind_flag(true), bind_flag(false)]), vec!["1", "0"]);
    assert_eq!(
        integers_and_texts(&[bind_identifier(Some(4294967295)), bind_identifier(None)]),
        vec!["4294967295", "NULL"]
    );
    assert_eq!(integers_and_texts(&[bind_text(&"it's".to_string())]), vec!["'it's'"]);
}

#[test]
fn insert_names_every_column_but_the_identifier() {
    let command = insert_statement(&client(Some(7), true, "Ada"));
    assert_eq!(command.sql, "INSERT INTO Client (client_active, client_name) VALUES (?,?)");
    assert_eq!(integers_and_texts(&command.params), vec!["1", "'Ada'"]);
    let command = insert_statement(&client(None, false, ""));
    assert_eq!(integers_and_texts(&command.params), vec!["0", "''"]);
}

#[test]
fn statements_by_identifier_bind_the_identifier() {
    let command = deactivate_statement(12);
    assert_eq!(command.sql, "UPDATE Client SET client_active = 0 WHERE id_client = ?");
    assert_eq!(integers_and_texts(&command.params), vec!["12"]);
    let command = delete_statement(Some(12));
    assert_eq!(command.sql, "DELETE FROM Client WHERE id_client = ?");
    assert_eq!(integers_and_texts(&command.params), vec!["12"]);
    assert_eq!(integers_and_texts(&delete_statement(None).params), vec!["NULL"]);
    let command = select_by_id_statement(12);
    assert_eq!(
        command.sql,
        "SELECT id_client, client_active, client_name FROM Client WHERE id_client = ?"
    );
    assert_eq!(integers_and_texts(&command.params), vec!["12"]);
}

#[test]
fn update_sets_only_the_name_when_only_the_name_differs() {
    let plan = update_statement(5, &client(Some(5), true, "Old"), &client(Some(5), true, "New"))
        .unwrap();
    assert_eq!(plan.columns, vec![Column::ClientName]);
    assert_eq!(plan.command.sql, "UPDATE Client SET client_name = ? WHERE id_client = ?");
    assert_eq!(integers_and_texts(&plan.command.params), vec!["'New'", "5"]);
}

#[test]
fn update_sets_only_the_flag_when_only_the_flag_differs() {
    let plan = update_statement(5, &client(Some(5), true, "Ada"), &client(Some(5), false, "Ada"))
        .unwrap();
    assert_eq!(plan.columns, vec![Column::ClientActive]);
    assert_eq!(plan.command.sql, "UPDATE Client SET client_active = ? WHERE id_client = ?");
    assert_eq!(integers_and_texts(&plan.command.params), vec!["0", "5"]);
}

#[test]
fn update_sets_both_columns_when_both_differ() {
    let plan = update_statement(5, &client(Some(5), false, "Old"), &client(Some(5), true, "New"))
        .unwrap();
    assert_eq!(plan.columns, vec![Column::ClientName, Column::ClientActive]);
    assert_eq!(
        plan.command.sql,
        "UPDATE Client SET client_name = ?, client_active = ? WHERE id_client = ?"
    );
    assert_eq!(integers_and_texts(&plan.command.params), vec!["'New'", "1", "5"]);
}

#[test]
fn update_of_equal_records_is_no_statement() {
    assert!(update_statement(5, &client(Some(5), true, "Ada"), &client(Some(5), true, "Ada"))
        .is_none());
    assert!(update_statement(5, &client(Some(6), true, "Ada"), &client(Some(5), true, "Ada"))
        .is_none());
}

#[test]
fn every_writable_column_is_compared() {
    assert_eq!(mutable_column_list(), vec![Column::ClientName, Column::ClientActive]);
    let old = client(Some(1), true, "a");
    assert!(differs_in(Column::ClientName, &old, &client(Some(1), true, "b")));
    assert!(!differs_in(Column::ClientName, &old, &client(Some(2), false, "a")));
    assert!(differs_in(Column::ClientActive, &old, &client(Some(1), false, "a")));
    assert!(!differs_in(Column::ClientActive, &old, &client(Some(2), true, "b")));
}

#[test]
fn plan_modify_needs_an_identifier_and_a_stored_record() {
    let item = client(None, true, "New");
    match ClientRepo::plan_modify(&item, &Some(client(Some(1), true, "Old"))) {
        Err(RepoError::ItemShouldExists { source, .. }) => assert_eq!(source, item),
        other => panic!("unexpected: {:?}", other),
    }
    let item = client(Some(1), true, "New");
    match ClientRepo::plan_modify(&item, &None) {
        Err(RepoError::ItemShouldExists { source, .. }) => assert_eq!(source, item),
        other => panic!("unexpected: {:?}", other),
    }
    let plan = ClientRepo::plan_modify(&item, &Some(client(Some(1), true, "Old"))).unwrap().unwrap();
    assert_eq!(plan.command.sql, "UPDATE Client SET client_name = ? WHERE id_client = ?");
    assert!(ClientRepo::plan_modify(&item, &Some(client(Some(1), true, "New"))).unwrap().is_none());
}

#[test]
fn criteria_without_matchers_have_no_where_clause() {
    let (clause, params) = search_filter(&SearchCriteria::default());
    assert_eq!(clause, "");
    assert!(params.is_empty());
    let command = count_statement(&SearchCriteria::default());
    assert_eq!(command.sql, "SELECT COUNT(*) FROM Client");
    assert!(command.params.is_empty());
    let command = page_statement(&SearchCriteria::default(), 3, 2);
    assert_eq!(
        command.sql,
        "SELECT id_client, client_active, client_name FROM Client \
         ORDER BY client_name, id_client LIMIT ? OFFSET ?"
    );
    assert_eq!(integers_and_texts(&command.params), vec!["2", "4"]);
}

#[test]
fn every_matcher_adds_a_condition_joined_by_and() {
    let criteria = SearchCriteria {
        id_client: Some(3),
        client_active: Some(false),
        client_name: Some("nn".to_string()),
    };
    let command = count_statement(&criteria);
    assert_eq!(
        command.sql,
        "SELECT COUNT(*) FROM Client WHERE id_client = ? AND client_active = ? \
         AND instr(client_name, ?) > 0"
    );
    assert_eq!(integers_and_texts(&command.params), vec!["3", "0", "'nn'"]);
    let command = page_statement(&criteria, 2, 10);
    assert_eq!(
        command.sql,
        "SELECT id_client, client_active, client_name FROM Client WHERE id_client = ? \
         AND client_active = ? AND instr(client_name, ?) > 0 \
         ORDER BY client_name, id_client LIMIT ? OFFSET ?"
    );
    assert_eq!(integers_and_texts(&command.params), vec!["3", "0", "'nn'", "10", "10"]);
    let only_name =
        SearchCriteria { id_client: None, client_active: None, client_name: Some("x".to_string()) };
    assert_eq!(
        count_statement(&only_name).sql,
        "SELECT COUNT(*) FROM Client WHERE instr(client_name, ?) > 0"
    );
    let only_flag = SearchCriteria { id_client: None, client_active: Some(true), client_name: None };
    assert_eq!(
        count_statement(&only_flag).sql,
        "SELECT COUNT(*) FROM Client WHERE client_active = ?"
    );
    assert_eq!(integers_and_texts(&count_statement(&only_flag).params), vec!["1"]);
}

#[test]
fn limit_and_offset_are_the_page_size_and_the_rows_before_the_page() {
    assert_eq!(integers_and_texts(&[bind_offset(1, 50)]), vec!["0"]);
    assert_eq!(integers_and_texts(&[bind_offset(0, 50)]), vec!["0"]);
    assert_eq!(integers_and_texts(&[bind_offset(3, 50)]), vec!["100"]);
    assert_eq!(integers_and_texts(&[bind_offset(7, 0)]), vec!["0"]);
    assert_eq!(integers_and_texts(&[bind_count(50)]), vec!["50"]);
    assert_eq!(integers_and_texts(&[bind_count(0)]), vec!["0"]);
}

#[test]
fn counts_beyond_what_a_statement_can_bind_are_bound_as_the_largest() {
    let largest = i64::MAX.to_string();
    assert_eq!(integers_and_texts(&[bind_count(u64::MAX)]), vec![largest.clone()]);
    assert_eq!(integers_and_texts(&[bind_count(i64::MAX as u64)]), vec![largest.clone()]);
    assert_eq!(integers_and_texts(&[bind_count(i64::MAX as u64 + 1)]), vec![largest.clone()]);
    assert_eq!(integers_and_texts(&[bind_offset(u64::MAX, u64::MAX)]), vec![largest.clone()]);
    assert_eq!(integers_and_texts(&[bind_offset(3, 1 << 62)]), vec![largest.clone()]);
    assert_eq!(integers_and_texts(&[bind_offset(2, 1 << 62)]), vec![(1u64 << 62).to_string()]);
    assert_eq!(
        integers_and_texts(&[bind_offset(i64::MAX as u64 + 1, 1)]),
        vec![largest.clone()]
    );
}
