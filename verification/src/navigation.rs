use vstd::prelude::*;

verus! {

/// What a reader of a page may ask for next.
#[derive(Clone, Copy, Debug, PartialEq, Eq, Structural)]
pub enum PageChoice {
    Previous,
    Next,
    Exit,
    /// An answer that is none of the three.
    Unknown,
}

/// What the main menu offers.
#[derive(Clone, Copy, Debug, PartialEq, Eq, Structural)]
pub enum MenuChoice {
    ListClients,
    AddClient,
    SearchClient,
    Exit,
    /// An answer that no entry of the menu stands behind.
    Unknown,
}

/// What the menu of the criteria offers.
#[derive(Clone, Copy, Debug, PartialEq, Eq, Structural)]
pub enum CriteriaChoice {
    SetIdentifier,
    SetActive,
    SetName,
    Continue,
    /// An answer that no entry of the menu stands behind.
    Unknown,
}

/// The choice behind an answer to "previous, next or exit".
pub fn page_choice(answer: u8) -> (choice: PageChoice)
    ensures
        choice == match answer {
            1 => PageChoice::Previous,
            2 => PageChoice::Next,
            3 => PageChoice::Exit,
            _ => PageChoice::Unknown,
        },
{
    if answer == 1 {
        PageChoice::Previous
    } else if answer == 2 {
        PageChoice::Next
    } else if answer == 3 {
        PageChoice::Exit
    } else {
        PageChoice::Unknown
    }
}

/// The entry of the main menu behind an answer. The menu shows entries for
/// changing and removing clients as well; nothing stands behind them yet.
pub fn menu_choice(answer: u8) -> (choice: MenuChoice)
    ensures
        choice == match answer {
            1 => MenuChoice::ListClients,
            2 => MenuChoice::AddClient,
            6 => MenuChoice::SearchClient,
            7 => MenuChoice::Exit,
            _ => MenuChoice::Unknown,
        },
{
    if answer == 1 {
        MenuChoice::ListClients
    } else if answer == 2 {
        MenuChoice::AddClient
    } else if answer == 6 {
        MenuChoice::SearchClient
    } else if answer == 7 {
        MenuChoice::Exit
    } else {
        MenuChoice::Unknown
    }
}

/// The entry of the menu of the criteria behind an answer.
pub fn criteria_choice(answer: u8) -> (choice: CriteriaChoice)
    ensures
        choice == match answer {
            1 => CriteriaChoice::SetIdentifier,
            2 => CriteriaChoice::SetActive,
            3 => CriteriaChoice::SetName,
            4 => CriteriaChoice::Continue,
            _ => CriteriaChoice::Unknown,
        },
{
    if answer == 1 {
        CriteriaChoice::SetIdentifier
    } else if answer == 2 {
        CriteriaChoice::SetActive
    } else if answer == 3 {
        CriteriaChoice::SetName
    } else if answer == 4 {
        CriteriaChoice::Continue
    } else {
        CriteriaChoice::Unknown
    }
}

/// The page that is shown after a choice, or none where the reader leaves.
/// There is no page before the first and none after the last: there the
/// page stays.
pub open spec fn turned(page: u64, total_pages: u64, choice: PageChoice) -> Option<u64> {
    match choice {
        PageChoice::Previous => Some(
            if page > 1 {
                (page - 1) as u64
            } else {
                page
            },
        ),
        PageChoice::Next => Some(
            if page < total_pages {
                (page + 1) as u64
            } else {
                page
            },
        ),
        PageChoice::Exit => None,
        PageChoice::Unknown => Some(page),
    }
}

/// Turns the page as the reader chose.
pub fn turn_page(page: u64, total_pages: u64, choice: PageChoice) -> (next: Option<u64>)
    ensures
        next == turned(page, total_pages, choice),
{
    match choice {
        PageChoice::Previous => {
            if page > 1 {
                Some(page - 1)
            } else {
                Some(page)
            }
        },
        PageChoice::Next => {
            if page < total_pages {
                Some(page + 1)
            } else {
                Some(page)
            }
        },
        PageChoice::Exit => None,
        PageChoice::Unknown => Some(page),
    }
}

/// Turning pages never leaves the pages that there are: from a page between
/// the first and the last, every choice leads to such a page or out.
pub proof fn lemma_turning_stays_within_the_pages(page: u64, total_pages: u64, choice: PageChoice)
    requires
        1 <= page <= total_pages,
    ensures
        turned(page, total_pages, choice) matches Some(next) ==> 1 <= next <= total_pages,
{
}

/// The number under which the first row of a page is listed: rows are
/// numbered from 1 through all pages. There is none where the number does
/// not fit.
pub fn first_row_number(page: u64, page_size: u64) -> (number: Option<u64>)
    ensures
        number == (if page >= 1 && (page - 1) * page_size + 1 <= u64::MAX {
            Some(((page - 1) * page_size + 1) as u64)
        } else {
            None
        }),
{
    if page == 0 {
        return None;
    }
    let before: u64 = page - 1;
    if page_size == 0 || before == 0 {
        assert(before * page_size == 0) by (nonlinear_arith)
            requires
                page_size == 0 || before == 0,
        ;
        return Some(1);
    }
    let largest: u64 = 0xffff_ffff_ffff_fffe;
    if before > largest / page_size {
        assert(before * page_size > largest) by (nonlinear_arith)
            requires
                before > largest / page_size,
                page_size > 0,
        ;
        None
    } else {
        assert(before * page_size <= largest) by (nonlinear_arith)
            requires
                before <= largest / page_size,
                page_size > 0,
        ;
        Some(before * page_size + 1)
    }
}

} // verus!
