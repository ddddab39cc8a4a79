use crate::criteria::{SearchCriteria, SearchCriteriaView};
use crate::paging::{bound_count, sql_limit, sql_offset};
use crate::sql::{
    bind_flag, bind_text, flag_param, params_view, SqlCommand, SqlCommandView, SqlParam,
    SqlParamView,
};
use vstd::prelude::*;
use vstd::string::StringExecFns;

verus! {

/// One condition of a search: the identifier and the active flag are matched
/// exactly, the name by a text that it has to contain.
pub enum Matcher {
    Identifier(u32),
    Active(bool),
    NameContains(Seq<char>),
}

/// The conditions that the criteria ask for, in the order of the fields. A
/// field without a matcher adds none.
pub open spec fn matchers(criteria: SearchCriteriaView) -> Seq<Matcher> {
    let by_id = match criteria.id_client {
        Some(id) => seq![Matcher::Identifier(id)],
        None => Seq::empty(),
    };
    let by_active = match criteria.client_active {
        Some(active) => seq![Matcher::Active(active)],
        None => Seq::empty(),
    };
    let by_name = match criteria.client_name {
        Some(name) => seq![Matcher::NameContains(name)],
        None => Seq::empty(),
    };
    by_id + by_active + by_name
}

/// The text of one condition.
pub open spec fn condition(matcher: Matcher) -> Seq<char> {
    match matcher {
        Matcher::Identifier(_) => "id_client = ?"@,
        Matcher::Active(_) => "client_active = ?"@,
        Matcher::NameContains(_) => "instr(client_name, ?) > 0"@,
    }
}

/// The value that one condition binds.
pub open spec fn matcher_param(matcher: Matcher) -> SqlParamView {
    match matcher {
        Matcher::Identifier(id) => SqlParamView::Integer(id as i64),
        Matcher::Active(active) => flag_param(active),
        Matcher::NameContains(name) => SqlParamView::Text(name),
    }
}

/// The conditions joined by `AND`: a row is kept where all of them hold.
pub open spec fn conjunction(matchers: Seq<Matcher>) -> Seq<char>
    decreases matchers.len(),
{
    if matchers.len() == 0 {
        Seq::empty()
    } else if matchers.len() == 1 {
        condition(matchers[0])
    } else {
        conjunction(matchers.drop_last()) + " AND "@ + condition(matchers.last())
    }
}

/// The `WHERE` clause for the conditions; without conditions there is no
/// clause, and every row is kept.
pub open spec fn where_clause(matchers: Seq<Matcher>) -> Seq<char> {
    if matchers.len() == 0 {
        Seq::empty()
    } else {
        " WHERE "@ + conjunction(matchers)
    }
}

/// The values that the conditions bind, in their order.
pub open spec fn matcher_params(matchers: Seq<Matcher>) -> Seq<SqlParamView> {
    matchers.map_values(|matcher: Matcher| matcher_param(matcher))
}

/// The statement that counts the rows that meet the criteria.
pub open spec fn count_command(criteria: SearchCriteriaView) -> SqlCommandView {
    SqlCommandView {
        sql: "SELECT COUNT(*) FROM Client"@ + where_clause(matchers(criteria)),
        params: matcher_params(matchers(criteria)),
    }
}

/// The statement that reads one page of the rows that meet the criteria, in
/// the order of their names; rows of one name come in the order of their
/// identifiers, so that the order is the same in every call.
pub open spec fn page_command(criteria: SearchCriteriaView, page: u64, page_size: u64) -> SqlCommandView {
    SqlCommandView {
        sql: "SELECT id_client, client_active, client_name FROM Client"@ + where_clause(
            matchers(criteria),
        ) + " ORDER BY client_name, id_client LIMIT ? OFFSET ?"@,
        params: matcher_params(matchers(criteria)).push(
            SqlParamView::Integer(sql_limit(page_size)),
        ).push(SqlParamView::Integer(sql_offset(page, page_size))),
    }
}

/// Criteria without a matcher give statements without a `WHERE` clause and
/// without a bound condition: they keep every row.
pub proof fn lemma_unconstrained_search_keeps_every_row(page: u64, page_size: u64)
    ensures
        count_command(SearchCriteriaView::unconstrained()).sql == "SELECT COUNT(*) FROM Client"@,
        count_command(SearchCriteriaView::unconstrained()).params.len() == 0,
        page_command(SearchCriteriaView::unconstrained(), page, page_size).sql
            == "SELECT id_client, client_active, client_name FROM Client"@
            + " ORDER BY client_name, id_client LIMIT ? OFFSET ?"@,
        page_command(SearchCriteriaView::unconstrained(), page, page_size).params.len() == 2,
{
    let none = matchers(SearchCriteriaView::unconstrained());
    assert(none =~= Seq::<Matcher>::empty());
    assert("SELECT COUNT(*) FROM Client"@ + where_clause(none) =~= "SELECT COUNT(*) FROM Client"@);
    assert("SELECT id_client, client_active, client_name FROM Client"@ + where_clause(none)
        =~= "SELECT id_client, client_active, client_name FROM Client"@);
}

/// Every matcher of the criteria adds one condition and one bound value, and
/// nothing else does.
pub proof fn lemma_one_condition_for_each_matcher(criteria: SearchCriteriaView)
    ensures
        matchers(criteria).len() == (if criteria.id_client is Some {
            1nat
        } else {
            0nat
        }) + (if criteria.client_active is Some {
            1nat
        } else {
            0nat
        }) + (if criteria.client_name is Some {
            1nat
        } else {
            0nat
        }),
        count_command(criteria).params.len() == matchers(criteria).len(),
        page_command(criteria, 1, 1).params.len() == matchers(criteria).len() + 2,
{
}

/// A count as a statement binds it.
pub fn bind_count(count: u64) -> (param: SqlParam)
    ensures
        param@ == SqlParamView::Integer(bound_count(count as nat)),
{
    if count > 0x7fff_ffff_ffff_ffff {
        SqlParam::Integer(0x7fff_ffff_ffff_ffff)
    } else {
        SqlParam::Integer(count as i64)
    }
}

/// The number of rows that come before the first row of a page, as a
/// statement binds it.
pub fn bind_offset(page: u64, page_size: u64) -> (param: SqlParam)
    ensures
        param@ == SqlParamView::Integer(sql_offset(page, page_size)),
{
    let before: u64 = if page == 0 {
        0
    } else {
        page - 1
    };
    let largest: u64 = 0x7fff_ffff_ffff_ffff;
    if page_size == 0 || before == 0 {
        assert(before * page_size == 0) by (nonlinear_arith)
            requires
                page_size == 0 || before == 0,
        ;
        SqlParam::Integer(0)
    } else if before > largest / page_size {
        assert(before * page_size > largest) by (nonlinear_arith)
            requires
                before > largest / page_size,
                page_size > 0,
        ;
        SqlParam::Integer(0x7fff_ffff_ffff_ffff)
    } else {
        assert(before * page_size <= largest) by (nonlinear_arith)
            requires
                before <= largest / page_size,
                page_size > 0,
        ;
        let rows: u64 = before * page_size;
        SqlParam::Integer(rows as i64)
    }
}

fn push_condition(
    clause: &mut String,
    params: &mut Vec<SqlParam>,
    text: &str,
    param: SqlParam,
    Ghost(earlier): Ghost<Seq<Matcher>>,
    Ghost(matcher): Ghost<Matcher>,
)
    requires
        old(clause)@ == where_clause(earlier),
        params_view(old(params)@) == matcher_params(earlier),
        text@ == condition(matcher),
        param@ == matcher_param(matcher),
    ensures
        final(clause)@ == where_clause(earlier.push(matcher)),
        params_view(final(params)@) == matcher_params(earlier.push(matcher)),
{
    let ghost longer = earlier.push(matcher);
    let ghost earlier_params = params@;
    proof {
        assert(longer.drop_last() =~= earlier);
        assert(params_view(earlier_params).len() == earlier.len());
    }
    if params.len() == 0 {
        clause.append(" WHERE ");
    } else {
        clause.append(" AND ");
    }
    clause.append(text);
    params.push(param);
    proof {
        assert(clause@ =~= where_clause(longer));
        assert(params_view(params@) =~= matcher_params(longer)) by {
            assert forall|i: int| 0 <= i < params@.len() implies params_view(params@)[i]
                == matcher_params(longer)[i] by {
                if i < earlier_params.len() {
                    assert(params_view(earlier_params)[i] == matcher_params(earlier)[i]);
                }
            }
        }
    }
}

/// Builds the `WHERE` clause for the criteria and the values that it binds.
pub fn search_filter(criteria: &SearchCriteria) -> (filter: (String, Vec<SqlParam>))
    ensures
        filter.0@ == where_clause(matchers(criteria@)),
        params_view(filter.1@) == matcher_params(matchers(criteria@)),
{
    let mut clause = String::new();
    let mut params: Vec<SqlParam> = Vec::new();
    let ghost mut found: Seq<Matcher> = Seq::empty();
    proof {
        assert(params_view(params@) =~= matcher_params(found));
    }
    match criteria.id_client {
        Some(id) => {
            push_condition(
                &mut clause,
                &mut params,
                "id_client = ?",
                SqlParam::Integer(id as i64),
                Ghost(found),
                Ghost(Matcher::Identifier(id)),
            );
            proof {
                found = found.push(Matcher::Identifier(id));
            }
        },
        None => {},
    }
    match criteria.client_active {
        Some(active) => {
            push_condition(
                &mut clause,
                &mut params,
                "client_active = ?",
                bind_flag(active),
                Ghost(found),
                Ghost(Matcher::Active(active)),
            );
            proof {
                found = found.push(Matcher::Active(active));
            }
        },
        None => {},
    }
    match &criteria.client_name {
        Some(name) => {
            push_condition(
                &mut clause,
                &mut params,
                "instr(client_name, ?) > 0",
                bind_text(name),
                Ghost(found),
                Ghost(Matcher::NameContains(name@)),
            );
            proof {
                found = found.push(Matcher::NameContains(name@));
            }
        },
        None => {},
    }
    assert(found =~= matchers(criteria@));
    (clause, params)
}

/// Builds [`count_command`].
pub fn count_statement(criteria: &SearchCriteria) -> (command: SqlCommand)
    ensures
        command@ == count_command(criteria@),
{
    let (clause, params) = search_filter(criteria);
    let mut sql = String::from_str("SELECT COUNT(*) FROM Client");
    sql.append(clause.as_str());
    SqlCommand { sql, params }
}

/// Builds [`page_command`].
pub fn page_statement(criteria: &SearchCriteria, page: u64, page_size: u64) -> (command: SqlCommand)
    ensures
        command@ == page_command(criteria@, page, page_size),
{
    let (clause, mut params) = search_filter(criteria);
    let ghost filter_params = params@;
    let mut sql = String::from_str("SELECT id_client, client_active, client_name FROM Client");
    sql.append(clause.as_str());
    sql.append(" ORDER BY client_name, id_client LIMIT ? OFFSET ?");
    params.push(bind_count(page_size));
    params.push(bind_offset(page, page_size));
    let command = SqlCommand { sql, params };
    assert(command@.params =~= page_command(criteria@, page, page_size).params) by {
        let wanted = page_command(criteria@, page, page_size).params;
        assert(params_view(filter_params).len() == filter_params.len());
        assert forall|i: int| 0 <= i < command@.params.len() implies command@.params[i]
            == wanted[i] by {
            if i < filter_params.len() {
                assert(params_view(filter_params)[i] == matcher_params(matchers(criteria@))[i]);
            }
        }
    }
    command
}

} // verus!
