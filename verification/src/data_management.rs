use crate::criteria::{SearchCriteria, SearchCriteriaView};
use crate::paging::{ceil_div, count_pages};
use crate::row::RowValues;
use vstd::prelude::*;
use vstd::std_specs::cmp::PartialEqSpecImpl;

verus! {

/// The operations that change what the store holds of one kind of record.
pub trait Repository<Model, Failure> {
    /// Stores a new record.
    fn add(&mut self, item: &Model) -> Result<(), Failure>;

    /// Marks a record as inactive, in the store and in `item`.
    fn drop(&mut self, item: &mut Model) -> Result<(), Failure>;

    /// Removes a record from the store.
    fn delete(&mut self, item: &Model) -> Result<(), Failure>;

    /// Writes the fields of a record that differ from what the store holds.
    fn modify(&mut self, item: &Model) -> Result<(), Failure>;

    /// The number of pages that `total_registers` rows fill: the quotient by
    /// the page size, rounded up. A page size of zero is a mistake in the
    /// configuration and has no number of pages.
    fn total_pages(total_registers: u64, page_size: u64) -> (pages: u64)
        requires
            page_size > 0,
        ensures
            pages == ceil_div(total_registers as nat, page_size as nat),
    {
        count_pages(total_registers, page_size)
    }
}

/// What a manager keeps between calls: the last search and the last record
/// that was chosen.
pub trait Manager<Model, Criteria, Failure> {
    /// Checks a record against the rules for new records.
    fn valid_item(&self, item: &Model) -> Result<(), Failure>;

    /// The last search, if there was one.
    fn last_search(&self) -> Option<LastSearch<Criteria>>;

    /// Replaces the last search.
    fn set_last_search(&mut self, search: LastSearch<Criteria>);

    /// The record that was chosen last, if any was.
    fn last_selected(&self) -> Option<Model>;

    /// Remembers the record that was chosen.
    fn set_last_selected(&mut self, item: Model);
}

/// The operations that read records from the store.
pub trait Finder<Model, Criteria, Failure> {
    /// Decodes one row of a result.
    fn from_row(row: &RowValues) -> Result<Model, Failure>;

    /// The number of rows on a page.
    fn page_size(&self) -> u64;

    /// The record with the given identifier, if the store holds one.
    fn search_by_id(&self, id: u32) -> Result<Option<Model>, Failure>;

    /// One page of the records that meet the criteria.
    fn search_by(&mut self, criteria: &Criteria, page_number: u64) -> Result<
        LastSearch<Criteria>,
        Failure,
    >;
}

/// One page of a search: which page it is, how many pages there are, what
/// was searched for, and the records of the page as a JSON array.
#[derive(Debug)]
pub struct LastSearch<Criteria> {
    pub total_pages: u64,
    pub page: u64,
    pub criteria: Criteria,
    pub result: String,
}

/// The mathematical value of a [`LastSearch`] over [`SearchCriteria`].
pub struct LastSearchView {
    pub total_pages: u64,
    pub page: u64,
    pub criteria: SearchCriteriaView,
    pub result: Seq<char>,
}

impl View for LastSearch<SearchCriteria> {
    type V = LastSearchView;

    open spec fn view(&self) -> LastSearchView {
        LastSearchView {
            total_pages: self.total_pages,
            page: self.page,
            criteria: self.criteria@,
            result: self.result@,
        }
    }
}

impl LastSearch<SearchCriteria> {
    /// Puts the parts of a page together.
    pub fn new(page: u64, total_pages: u64, criteria: SearchCriteria, result: String) -> (search:
        LastSearch<SearchCriteria>)
        ensures
            search@ == (LastSearchView {
                total_pages,
                page,
                criteria: criteria@,
                result: result@,
            }),
    {
        LastSearch { total_pages, page, criteria, result }
    }
}

impl Clone for LastSearch<SearchCriteria> {
    fn clone(&self) -> (copy: LastSearch<SearchCriteria>)
        ensures
            copy@ == self@,
    {
        LastSearch {
            total_pages: self.total_pages,
            page: self.page,
            criteria: self.criteria.clone(),
            result: self.result.clone(),
        }
    }
}

impl PartialEq for LastSearch<SearchCriteria> {
    fn eq(&self, other: &LastSearch<SearchCriteria>) -> (equal: bool) {
        self.total_pages == other.total_pages && self.page == other.page && self.criteria
            == other.criteria && self.result == other.result
    }
}

impl PartialEqSpecImpl for LastSearch<SearchCriteria> {
    open spec fn obeys_eq_spec() -> bool {
        true
    }

    open spec fn eq_spec(&self, other: &LastSearch<SearchCriteria>) -> bool {
        self@ == other@
    }
}

/// The value of an optional search.
pub open spec fn search_view(search: Option<LastSearch<SearchCriteria>>) -> Option<
    LastSearchView,
> {
    match search {
        Some(search) => Some(search@),
        None => None,
    }
}

} // verus!
