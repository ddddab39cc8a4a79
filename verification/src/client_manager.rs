use crate::client::{Client, ClientView};
use crate::client_repo::{
    client_option_view, is_search_result, lookup_failed, modify_failed, search_failed,
    search_result, store_failed, ClientRepo, ClientRepoView,
};
use crate::connector::Connector;
use crate::criteria::{SearchCriteria, SearchCriteriaView};
use crate::data_management::{search_view, Finder, LastSearch, LastSearchView, Manager, Repository};
use crate::query::{count_command, page_command};
use crate::repo_error::{message_head, message_tail, plain_message, RepoError};
use crate::row::{decoded_client, RowValues};
use crate::sql::{deactivate_command, delete_command, insert_command};
use crate::text::{append_origin, origin_text};
use crate::validation::{
    change_violations, check_change, check_creation, creation_violations, violation_message,
    write_message, Violation,
};
use vstd::prelude::*;
use vstd::string::StringExecFns;

verus! {

/// Why an operation of the manager failed.
#[derive(Debug)]
#[allow(inconsistent_fields)]
pub enum ManagerError {
    /// The repository failed; nothing was changed.
    RepoError(RepoError),
    /// The record breaks the rules that `source` names; nothing was changed.
    /// The failure carries the file and the line at which it was raised.
    InvalidField { source: String, file: &'static str, line: u32 },
    /// The change was made, but the last search could not be brought up to
    /// date: it still shows what the store held before the change.
    ReplayError(RepoError),
}

impl ManagerError {
    /// The failure in words. A failure of the repository is told in the
    /// repository's words; a failed replay in the same words after
    /// `ReplayError: `. Every message ends with the place at which the
    /// failure was raised.
    pub fn message(&self) -> (text: String)
        ensures
            match *self {
                ManagerError::RepoError(failure) => {
                    &&& message_head(failure).is_prefix_of(text@)
                    &&& message_tail(failure).is_suffix_of(text@)
                    &&& plain_message(failure) matches Some(message) ==> text@ == message
                },
                ManagerError::InvalidField { source, file, line } => text@ == "InvalidField: "@
                    + source@ + origin_text(file@, line),
                ManagerError::ReplayError(failure) => {
                    &&& "ReplayError: "@.is_prefix_of(text@)
                    &&& message_tail(failure).is_suffix_of(text@)
                    &&& plain_message(failure) matches Some(message) ==> text@
                        == "ReplayError: "@ + message
                },
            },
    {
        match self {
            ManagerError::RepoError(failure) => failure.message(),
            ManagerError::InvalidField { source, file, line } => {
                let mut text = String::from_str("InvalidField: ");
                text.append(source.as_str());
                append_origin(&mut text, *file, *line);
                text
            },
            ManagerError::ReplayError(failure) => {
                let mut text = String::from_str("ReplayError: ");
                let said = failure.message();
                text.append(said.as_str());
                proof {
                    let tail = message_tail(*failure);
                    assert(text@.subrange(0, "ReplayError: "@.len() as int) =~= "ReplayError: "@);
                    assert(said@.subrange(said@.len() - tail.len(), said@.len() as int) == tail);
                    assert(text@.subrange(text@.len() - tail.len(), text@.len() as int)
                        =~= said@.subrange(said@.len() - tail.len(), said@.len() as int));
                }
                text
            },
        }
    }
}

/// Validates records, hands them to the repository, and keeps the last
/// search up to date: after every change that the store accepted, it runs the
/// last search again and keeps the fresh page in its place.
#[derive(Debug)]
pub struct ClientManager {
    repository: ClientRepo,
    last_search: Option<LastSearch<SearchCriteria>>,
    last_selected: Option<Client>,
}

/// The mathematical value of a [`ClientManager`].
pub struct ClientManagerView {
    pub repository: ClientRepoView,
    pub last_search: Option<LastSearchView>,
    pub last_selected: Option<ClientView>,
}

impl View for ClientManager {
    type V = ClientManagerView;

    closed spec fn view(&self) -> ClientManagerView {
        ClientManagerView {
            repository: self.repository@,
            last_search: search_view(self.last_search),
            last_selected: client_option_view(self.last_selected),
        }
    }
}

/// The last search after the repository answered a search: the page that it
/// found takes the place of whatever was kept, an empty page too; after a
/// failure what was kept stays.
pub open spec fn search_kept(
    kept: Option<LastSearchView>,
    answer: Result<LastSearchView, RepoError>,
) -> Option<LastSearchView> {
    match answer {
        Ok(found) => Some(found),
        Err(_) => kept,
    }
}

/// How a manager stands after a change that passed validation. Where the
/// repository failed, nothing has changed. Where it succeeded and no search
/// was kept, none is kept. Where one was kept, it is either replaced by a
/// fresh page of the same search, or, where the search failed, left as it
/// was and reported as out of date. A search that is kept is never lost.
pub open spec fn changed(
    before: ClientManagerView,
    after: ClientManagerView,
    done: Result<(), ManagerError>,
) -> bool {
    &&& after.repository == before.repository
    &&& after.last_selected == before.last_selected
    &&& match done {
        Ok(_) => match before.last_search {
            None => after.last_search is None,
            Some(kept) => after.last_search matches Some(fresh) && is_search_result(
                fresh,
                kept.criteria,
                kept.page,
                before.repository.page_size,
            ),
        },
        Err(ManagerError::RepoError(_)) => after.last_search == before.last_search,
        Err(ManagerError::ReplayError(failure)) => {
            &&& after.last_search == before.last_search
            &&& before.last_search matches Some(kept) && search_failed(
                failure,
                before.repository,
                kept.criteria,
                kept.page,
            )
        },
        Err(ManagerError::InvalidField { .. }) => false,
    }
}

/// Running the last search again repeats the search that was kept: it hands
/// the store the same two statements as the search itself, and from the same
/// answer of the store it makes the same page, which then is the last
/// search. So after a change the last search is what a search with the same
/// criteria for the same page returns from what the store then holds.
pub proof fn lemma_replay_repeats_the_search(
    criteria: SearchCriteriaView,
    page_number: u64,
    page_size: u64,
    total: u64,
    result: Seq<char>,
    fresh_total: u64,
    fresh_result: Seq<char>,
)
    requires
        page_size > 0,
    ensures
        ({
            let kept = search_result(criteria, page_number, page_size, total, result);
            let fresh = search_result(
                kept.criteria,
                kept.page,
                page_size,
                fresh_total,
                fresh_result,
            );
            &&& count_command(kept.criteria) == count_command(criteria)
            &&& page_command(kept.criteria, kept.page, page_size) == page_command(
                criteria,
                page_number,
                page_size,
            )
            &&& fresh == search_result(criteria, page_number, page_size, fresh_total, fresh_result)
            &&& search_kept(Some(kept), Ok(fresh)) == Some(fresh)
            &&& search_kept(None, Ok(fresh)) == Some(fresh)
        }),
{
}

/// A last search is never lost: once a manager keeps one, it keeps one after
/// every search and after every change, whether they succeed or fail.
pub proof fn lemma_last_search_is_never_lost(
    before: ClientManagerView,
    after: ClientManagerView,
    done: Result<(), ManagerError>,
    answer: Result<LastSearchView, RepoError>,
)
    requires
        before.last_search is Some,
    ensures
        search_kept(before.last_search, answer) is Some,
        changed(before, after, done) ==> after.last_search is Some,
{
}

impl ClientManager {
    /// A manager of the clients in the database that `connector` leads to,
    /// with `page_size` rows to a page, no last search and no chosen record.
    pub fn new(page_size: u64, connector: Connector) -> (manager: ClientManager)
        ensures
            manager@ == (ClientManagerView {
                repository: ClientRepoView { page_size, location: connector@ },
                last_search: None,
                last_selected: None,
            }),
    {
        ClientManager {
            repository: ClientRepo::new(page_size, connector),
            last_search: None,
            last_selected: None,
        }
    }

    /// Reports the violations of a record as one failure that names them
    /// all, or finds that there are none.
    pub fn report(violations: &Vec<Violation>) -> (checked: Result<(), ManagerError>)
        ensures
            violations@.len() == 0 <==> checked is Ok,
            checked matches Err(failure) ==> failure matches ManagerError::InvalidField {
                source,
                file,
                ..
            } && source@ == violation_message(violations@) && file@
                == "src/client_manager.rs"@,
    {
        if violations.len() == 0 {
            Ok(())
        } else {
            Err(
                ManagerError::InvalidField {
                    source: write_message(violations),
                    file: "src/client_manager.rs", line: 254,
                },
            )
        }
    }

    /// Checks the new state of a stored record: it has to keep a name.
    pub fn valid_change(&self, item: &Client) -> (checked: Result<(), ManagerError>)
        ensures
            change_violations(item@).len() == 0 <==> checked is Ok,
            checked matches Err(failure) ==> failure matches ManagerError::InvalidField {
                source,
                file,
                ..
            } && source@ == violation_message(change_violations(item@)) && file@
                == "src/client_manager.rs"@,
    {
        Self::report(&check_change(item))
    }

    /// What a lookup by identifier amounts to, given the answer of the
    /// repository: the client that it found, or that it found none, or its
    /// failure as the failure of the manager.
    pub fn lookup_found(answer: Result<Option<Client>, RepoError>) -> (found: Result<
        Option<Client>,
        ManagerError,
    >)
        ensures
            match answer {
                Ok(given) => found matches Ok(same) && same == given,
                Err(cause) => found matches Err(ManagerError::RepoError(same)) && same == cause,
            },
    {
        match answer {
            Ok(found) => Ok(found),
            Err(failure) => Err(ManagerError::RepoError(failure)),
        }
    }

    /// Takes in what the repository answered to a search: a page takes the
    /// place of the last search, a failure leaves the last search as it was.
    pub fn record_search(&mut self, answer: Result<LastSearch<SearchCriteria>, RepoError>) -> (found:
        Result<LastSearch<SearchCriteria>, ManagerError>)
        ensures
            final(self)@.repository == old(self)@.repository,
            final(self)@.last_selected == old(self)@.last_selected,
            match answer {
                Ok(page) => {
                    &&& found matches Ok(same) && same@ == page@
                    &&& final(self)@.last_search == Some(page@)
                },
                Err(failure) => {
                    &&& found matches Err(ManagerError::RepoError(same)) && same == failure
                    &&& final(self)@.last_search == old(self)@.last_search
                },
            },
    {
        match answer {
            Ok(page) => {
                self.last_search = Some(page.clone());
                Ok(page)
            },
            Err(failure) => Err(ManagerError::RepoError(failure)),
        }
    }

    /// Takes in what the repository answered when the last search was run
    /// again after a change: a page takes the place of the last search; a
    /// failure leaves it as it was and is reported as such, apart from the
    /// failures of the change itself.
    pub fn record_replay(&mut self, answer: Result<LastSearch<SearchCriteria>, RepoError>) -> (done:
        Result<(), ManagerError>)
        ensures
            final(self)@.repository == old(self)@.repository,
            final(self)@.last_selected == old(self)@.last_selected,
            match answer {
                Ok(page) => done is Ok && final(self)@.last_search == Some(page@),
                Err(failure) => {
                    &&& done matches Err(ManagerError::ReplayError(same)) && same == failure
                    &&& final(self)@.last_search == old(self)@.last_search
                },
            },
    {
        match answer {
            Ok(page) => {
                self.last_search = Some(page);
                Ok(())
            },
            Err(failure) => Err(ManagerError::ReplayError(failure)),
        }
    }

    /// Runs the last search again, with the same criteria and for the same
    /// page, and keeps the fresh page in its place. Without a last search
    /// there is nothing to do.
    pub fn update_last_search(&mut self) -> (done: Result<(), ManagerError>)
        ensures
            changed(old(self)@, final(self)@, done),
            done matches Err(failure) ==> failure is ReplayError,
    {
        let (criteria, page) = match &self.last_search {
            None => {
                return Ok(());
            },
            Some(kept) => (kept.criteria.clone(), kept.page),
        };
        let answer = self.repository.search_by(&criteria, page);
        self.record_replay(answer)
    }

    /// Finishes a change: where the repository made it, the last search is
    /// run again; where it failed, its failure is handed on.
    fn finish(&mut self, made: Result<(), RepoError>) -> (done: Result<(), ManagerError>)
        ensures
            changed(old(self)@, final(self)@, done),
            made matches Err(failure) ==> (done matches Err(ManagerError::RepoError(same)) && same
                == failure),
            made is Ok ==> !(done matches Err(ManagerError::RepoError(_))),
    {
        match made {
            Ok(_) => self.update_last_search(),
            Err(failure) => Err(ManagerError::RepoError(failure)),
        }
    }
}

impl Manager<Client, SearchCriteria, ManagerError> for ClientManager {
    /// Checks a record against the rules for new records: no identifier
    /// yet, active, and a name. A record that breaks several rules fails
    /// once, with a message that names every one of them.
    fn valid_item(&self, item: &Client) -> (checked: Result<(), ManagerError>)
        ensures
            creation_violations(item@).len() == 0 <==> checked is Ok,
            checked matches Err(failure) ==> failure matches ManagerError::InvalidField {
                source,
                file,
                ..
            } && source@ == violation_message(creation_violations(item@)) && file@
                == "src/client_manager.rs"@,
    {
        Self::report(&check_creation(item))
    }

    /// The last search, if there was one.
    fn last_search(&self) -> (kept: Option<LastSearch<SearchCriteria>>)
        ensures
            search_view(kept) == self@.last_search,
    {
        match &self.last_search {
            Some(kept) => Some(kept.clone()),
            None => None,
        }
    }

    /// Replaces the last search.
    fn set_last_search(&mut self, search: LastSearch<SearchCriteria>)
        ensures
            final(self)@ == (ClientManagerView { last_search: Some(search@), ..old(self)@ }),
    {
        self.last_search = Some(search)
    }

    /// The record that was chosen last, if any was.
    fn last_selected(&self) -> (chosen: Option<Client>)
        ensures
            client_option_view(chosen) == self@.last_selected,
    {
        match &self.last_selected {
            Some(chosen) => Some(chosen.clone()),
            None => None,
        }
    }

    /// Remembers the record that was chosen. It is kept in memory only.
    fn set_last_selected(&mut self, item: Client)
        ensures
            final(self)@ == (ClientManagerView { last_selected: Some(item@), ..old(self)@ }),
    {
        self.last_selected = Some(item)
    }
}

impl Repository<Client, ManagerError> for ClientManager {
    /// Stores a new client, if it meets the rules for new records, and
    /// brings the last search up to date.
    fn add(&mut self, item: &Client) -> (done: Result<(), ManagerError>)
        ensures
            creation_violations(item@).len() > 0 ==> {
                &&& final(self)@ == old(self)@
                &&& done matches Err(ManagerError::InvalidField { source, file, .. }) && source@
                    == violation_message(creation_violations(item@)) && file@
                    == "src/client_manager.rs"@
            },
            creation_violations(item@).len() == 0 ==> changed(old(self)@, final(self)@, done),
            done matches Err(ManagerError::RepoError(failure)) ==> store_failed(
                failure,
                old(self)@.repository.location,
                insert_command(item@).sql,
            ),
    {
        match self.valid_item(item) {
            Ok(_) => {},
            Err(failure) => {
                return Err(failure);
            },
        }
        let made = self.repository.add(item);
        self.finish(made)
    }

    /// Marks a client as inactive, in the store and in `item`, and brings
    /// the last search up to date. `item` is changed exactly when the store
    /// was.
    fn drop(&mut self, item: &mut Client) -> (done: Result<(), ManagerError>)
        ensures
            changed(old(self)@, final(self)@, done),
            done matches Err(ManagerError::RepoError(_)) ==> final(item)@ == old(item)@,
            !(done matches Err(ManagerError::RepoError(_))) ==> final(item)@ == (ClientView {
                client_active: false,
                ..old(item)@
            }),
            old(item).id_client is None ==> (done matches Err(
                ManagerError::RepoError(RepoError::ItemShouldExists { source, .. }),
            ) && source@ == old(item)@),
            old(item).id_client matches Some(id) ==> (done matches Err(
                ManagerError::RepoError(failure),
            ) ==> store_failed(
                failure,
                old(self)@.repository.location,
                deactivate_command(id).sql,
            )),
    {
        let made = self.repository.drop(item);
        self.finish(made)
    }

    /// Removes a client from the store and brings the last search up to
    /// date. Removing a client that is not there is no failure.
    fn delete(&mut self, item: &Client) -> (done: Result<(), ManagerError>)
        ensures
            changed(old(self)@, final(self)@, done),
            done matches Err(ManagerError::RepoError(failure)) ==> store_failed(
                failure,
                old(self)@.repository.location,
                delete_command(item.id_client).sql,
            ),
    {
        let made = self.repository.delete(item);
        self.finish(made)
    }

    /// Writes the fields of a client that differ from what the store holds,
    /// if its new state keeps a name, and brings the last search up to
    /// date.
    fn modify(&mut self, item: &Client) -> (done: Result<(), ManagerError>)
        ensures
            change_violations(item@).len() > 0 ==> {
                &&& final(self)@ == old(self)@
                &&& done matches Err(ManagerError::InvalidField { source, file, .. }) && source@
                    == violation_message(change_violations(item@)) && file@
                    == "src/client_manager.rs"@
            },
            change_violations(item@).len() == 0 ==> changed(old(self)@, final(self)@, done),
            change_violations(item@).len() == 0 && item.id_client is None ==> (done matches Err(
                ManagerError::RepoError(RepoError::ItemShouldExists { source, .. }),
            ) && source@ == item@),
            done matches Err(ManagerError::RepoError(failure)) ==> modify_failed(
                failure,
                old(self)@.repository.location,
                item@,
            ),
    {
        match self.valid_change(item) {
            Ok(_) => {},
            Err(failure) => {
                return Err(failure);
            },
        }
        let made = self.repository.modify(item);
        self.finish(made)
    }
}

impl Finder<Client, SearchCriteria, ManagerError> for ClientManager {
    /// Decodes a client from a row, as the repository does.
    fn from_row(row: &RowValues) -> (client: Result<Client, ManagerError>)
        ensures
            match decoded_client(row@) {
                Ok(wanted) => client matches Ok(found) && found@ == wanted,
                Err(field) => client matches Err(
                    ManagerError::RepoError(RepoError::FromRowError { source, .. }),
                ) && source == field,
            },
    {
        match ClientRepo::from_row(row) {
            Ok(client) => Ok(client),
            Err(failure) => Err(ManagerError::RepoError(failure)),
        }
    }

    /// The number of rows on a page.
    fn page_size(&self) -> (size: u64)
        ensures
            size == self@.repository.page_size,
    {
        self.repository.page_size()
    }

    /// One page of the clients that meet the criteria. The page that was
    /// found becomes the last search, whatever was kept before and also
    /// where the page is empty; after a failure the last search stays.
    fn search_by(&mut self, criteria: &SearchCriteria, page_number: u64) -> (found: Result<
        LastSearch<SearchCriteria>,
        ManagerError,
    >)
        ensures
            final(self)@.repository == old(self)@.repository,
            final(self)@.last_selected == old(self)@.last_selected,
            old(self)@.repository.page_size == 0 ==> found matches Err(
                ManagerError::RepoError(RepoError::PageCountError { .. }),
            ),
            found matches Ok(page) ==> {
                &&& final(self)@.last_search == Some(page@)
                &&& is_search_result(
                    page@,
                    criteria@,
                    page_number,
                    old(self)@.repository.page_size,
                )
            },
            found matches Err(failure) ==> {
                &&& final(self)@.last_search == old(self)@.last_search
                &&& failure matches ManagerError::RepoError(cause) && search_failed(
                    cause,
                    old(self)@.repository,
                    criteria@,
                    page_number,
                )
            },
    {
        let answer = self.repository.search_by(criteria, page_number);
        self.record_search(answer)
    }

    /// The client with the given identifier, if the store holds one.
    fn search_by_id(&self, id: u32) -> (found: Result<Option<Client>, ManagerError>)
        ensures
            found matches Err(failure) ==> failure matches ManagerError::RepoError(cause)
                && lookup_failed(cause, self@.repository.location, id),
    {
        Self::lookup_found(self.repository.search_by_id(id))
    }
}

} // verus!
