use vstd::prelude::*;
use vstd::std_specs::cmp::PartialEqSpecImpl;

verus! {

/// What a search asks of each field. A field without a matcher is not
/// constrained; the matchers that are present must all hold.
#[derive(Debug)]
pub struct SearchCriteria {
    pub id_client: Option<u32>,
    pub client_active: Option<bool>,
    pub client_name: Option<String>,
}

/// The mathematical value of a [`SearchCriteria`].
pub struct SearchCriteriaView {
    pub id_client: Option<u32>,
    pub client_active: Option<bool>,
    pub client_name: Option<Seq<char>>,
}

impl View for SearchCriteria {
    type V = SearchCriteriaView;

    open spec fn view(&self) -> SearchCriteriaView {
        SearchCriteriaView {
            id_client: self.id_client,
            client_active: self.client_active,
            client_name: match self.client_name {
                Some(name) => Some(name@),
                None => None,
            },
        }
    }
}

impl SearchCriteriaView {
    /// The criteria that constrain nothing.
    pub open spec fn unconstrained() -> SearchCriteriaView {
        SearchCriteriaView { id_client: None, client_active: None, client_name: None }
    }
}

impl Default for SearchCriteria {
    /// The criteria that every record meets.
    fn default() -> (criteria: SearchCriteria)
        ensures
            criteria@ == SearchCriteriaView::unconstrained(),
    {
        SearchCriteria { id_client: None, client_active: None, client_name: None }
    }
}

impl Clone for SearchCriteria {
    fn clone(&self) -> (copy: SearchCriteria)
        ensures
            copy@ == self@,
    {
        SearchCriteria {
            id_client: self.id_client,
            client_active: self.client_active,
            client_name: match &self.client_name {
                Some(name) => Some(name.clone()),
                None => None,
            },
        }
    }
}

impl PartialEq for SearchCriteria {
    fn eq(&self, other: &SearchCriteria) -> (equal: bool) {
        let same_name = match (&self.client_name, &other.client_name) {
            (Some(a), Some(b)) => *a == *b,
            (None, None) => true,
            _ => false,
        };
        self.id_client == other.id_client && self.client_active == other.client_active && same_name
    }
}

impl PartialEqSpecImpl for SearchCriteria {
    open spec fn obeys_eq_spec() -> bool {
        true
    }

    open spec fn eq_spec(&self, other: &SearchCriteria) -> bool {
        self@ == other@
    }
}

} // verus!
