use client_records::navigation::{
    criteria_choice, first_row_number, menu_choice, page_choice, turn_page, CriteriaChoice,
    MenuChoice, PageChoice,
};

#[test]
fn answers_stand_for_choices() {
    assert_eq!(page_choice(1), PageChoice::Previous);
    assert_eq!(page_choice(2), PageChoice::Next);
    assert_eq!(page_choice(3), PageChoice::Exit);
    assert_eq!(page_choice(0), PageChoice::Unknown);
    assert_eq!(page_choice(4), PageChoice::Unknown);
    assert_eq!(menu_choice(1), MenuChoice::ListClients);
    assert_eq!(menu_choice(2), MenuChoice::AddClient);
    assert_eq!(menu_choice(6), MenuChoice::SearchClient);
    assert_eq!(menu_choice(7), MenuChoice::Exit);
    for unused in [0u8, 3, 4, 5, 8, 255] {
        assert_eq!(menu_choice(unused), MenuChoice::Unknown);
    }
    assert_eq!(criteria_choice(1), CriteriaChoice::SetIdentifier);
    assert_eq!(criteria_choice(2), CriteriaChoice::SetActive);
    assert_eq!(criteria_choice(3), CriteriaChoice::SetName);
    assert_eq!(criteria_choice(4), CriteriaChoice::Continue);
    assert_eq!(criteria_choice(5), CriteriaChoice::Unknown);
}

#[test]
fn pages_turn_between_the_first_and_the_last() {
    assert_eq!(turn_page(1, 3, PageChoice::Previous), Some(1));
    assert_eq!(turn_page(2, 3, PageChoice::Previous), Some(1));
    assert_eq!(turn_page(2, 3, PageChoice::Next), Some(3));
    assert_eq!(turn_page(3, 3, PageChoice::Next), Some(3));
    assert_eq!(turn_page(1, 0, PageChoice::Next), Some(1));
    assert_eq!(turn_page(2, 3, PageChoice::Unknown), Some(2));
    assert_eq!(turn_page(2, 3, PageChoice::Exit), None);
    assert_eq!(turn_page(u64::MAX, u64::MAX, PageChoice::Next), Some(u64::MAX));
}

#[test]
fn rows_are_numbered_through_all_pages() {
    assert_eq!(first_row_number(1, 50), Some(1));
    assert_eq!(first_row_number(3, 50), Some(101));
    assert_eq!(first_row_number(3, 0), Some(1));
    assert_eq!(first_row_number(0, 50), None);
    assert_eq!(first_row_number(2, u64::MAX), None);
    assert_eq!(first_row_number(2, u64::MAX - 1), Some(u64::MAX));
    assert_eq!(first_row_number(u64::MAX, 2), None);
}
