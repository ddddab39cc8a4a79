use crate::client::{Client, ClientView};
use crate::sql::{
    bind_flag, bind_text, flag_param, params_view, SqlCommand, SqlCommandView, SqlParam,
    SqlParamView,
};
use vstd::prelude::*;
use vstd::string::StringExecFns;

verus! {

/// A column that an update may write. The identifier is not among them: it
/// addresses the row and never changes.
#[derive(Clone, Copy, Debug, PartialEq, Eq, Structural)]
pub enum Column {
    ClientName,
    ClientActive,
}

/// Every column that an update may write, in the order in which a statement
/// names them.
pub open spec fn mutable_columns() -> Seq<Column> {
    seq![Column::ClientName, Column::ClientActive]
}

/// Whether the two records hold different values in the given column.
pub open spec fn differs(column: Column, persisted: ClientView, incoming: ClientView) -> bool {
    match column {
        Column::ClientName => persisted.client_name != incoming.client_name,
        Column::ClientActive => persisted.client_active != incoming.client_active,
    }
}

/// Those of `columns` in which the two records differ, in the same order.
pub open spec fn changed_among(
    columns: Seq<Column>,
    persisted: ClientView,
    incoming: ClientView,
) -> Seq<Column> {
    columns.filter(|column: Column| differs(column, persisted, incoming))
}

/// The columns that an update of `persisted` to `incoming` has to write.
pub open spec fn changed_columns(persisted: ClientView, incoming: ClientView) -> Seq<Column> {
    changed_among(mutable_columns(), persisted, incoming)
}

/// The assignment that writes one column.
pub open spec fn assignment(column: Column) -> Seq<char> {
    match column {
        Column::ClientName => " client_name = ?"@,
        Column::ClientActive => " client_active = ?"@,
    }
}

/// The assignments for the given columns, separated by commas.
pub open spec fn assignments(columns: Seq<Column>) -> Seq<char>
    decreases columns.len(),
{
    if columns.len() == 0 {
        Seq::empty()
    } else if columns.len() == 1 {
        assignment(columns[0])
    } else {
        assignments(columns.drop_last()) + ","@ + assignment(columns.last())
    }
}

/// The value that an update binds for one column: the incoming record's.
pub open spec fn new_value(column: Column, incoming: ClientView) -> SqlParamView {
    match column {
        Column::ClientName => SqlParamView::Text(incoming.client_name),
        Column::ClientActive => flag_param(incoming.client_active),
    }
}

/// The values that an update binds for the given columns, in their order.
pub open spec fn new_values(columns: Seq<Column>, incoming: ClientView) -> Seq<SqlParamView> {
    columns.map_values(|column: Column| new_value(column, incoming))
}

/// The statement that writes the given columns of the row with the given
/// identifier: one assignment and one bound value for each column, then the
/// identifier.
pub open spec fn update_command(id: u32, columns: Seq<Column>, incoming: ClientView) -> SqlCommandView {
    SqlCommandView {
        sql: "UPDATE Client SET"@ + assignments(columns) + " WHERE id_client = ?"@,
        params: new_values(columns, incoming).push(SqlParamView::Integer(id as i64)),
    }
}

/// An update that writes at least one column.
#[derive(Debug)]
pub struct UpdatePlan {
    pub columns: Vec<Column>,
    pub command: SqlCommand,
}

/// The mathematical value of an [`UpdatePlan`].
pub struct UpdatePlanView {
    pub columns: Seq<Column>,
    pub command: SqlCommandView,
}

impl View for UpdatePlan {
    type V = UpdatePlanView;

    open spec fn view(&self) -> UpdatePlanView {
        UpdatePlanView { columns: self.columns@, command: self.command@ }
    }
}

/// What a diff-based update does with a persisted record and an incoming one:
/// nothing where no writable column differs, else one statement for exactly
/// the columns that differ.
pub open spec fn update_plan(id: u32, persisted: ClientView, incoming: ClientView) -> Option<
    UpdatePlanView,
> {
    let columns = changed_columns(persisted, incoming);
    if columns.len() == 0 {
        None
    } else {
        Some(UpdatePlanView { columns, command: update_command(id, columns, incoming) })
    }
}

/// Appending a column to the candidates keeps it exactly when the records
/// differ in it.
pub proof fn lemma_changed_among_push(
    columns: Seq<Column>,
    column: Column,
    persisted: ClientView,
    incoming: ClientView,
)
    ensures
        changed_among(columns.push(column), persisted, incoming) == if differs(
            column,
            persisted,
            incoming,
        ) {
            changed_among(columns, persisted, incoming).push(column)
        } else {
            changed_among(columns, persisted, incoming)
        },
{
    reveal(Seq::filter);
    assert(columns.push(column).drop_last() =~= columns);
}

/// A column is among the changed ones exactly when the records differ in it.
pub proof fn lemma_changed_among_contains(
    columns: Seq<Column>,
    persisted: ClientView,
    incoming: ClientView,
    column: Column,
)
    ensures
        changed_among(columns, persisted, incoming).contains(column) <==> (columns.contains(column)
            && differs(column, persisted, incoming)),
    decreases columns.len(),
{
    reveal(Seq::filter);
    let kept = changed_among(columns, persisted, incoming);
    if columns.len() == 0 {
        assert(!kept.contains(column));
        assert(!columns.contains(column));
    } else {
        let front = columns.drop_last();
        let last = columns.last();
        lemma_changed_among_contains(front, persisted, incoming, column);
        let kept_front = changed_among(front, persisted, incoming);
        assert(columns =~= front.push(last));
        if columns.contains(column) {
            let i = choose|i: int| 0 <= i < columns.len() && columns[i] == column;
            if i < front.len() {
                assert(front[i] == column);
            }
        }
        if front.contains(column) {
            let i = choose|i: int| 0 <= i < front.len() && front[i] == column;
            assert(columns[i] == column);
        }
        assert(columns.contains(column) <==> (front.contains(column) || last == column)) by {
            if last == column {
                assert(columns[columns.len() - 1] == column);
            }
        }
        if differs(last, persisted, incoming) {
            assert(kept == kept_front.push(last));
            if kept.contains(column) {
                let i = choose|i: int| 0 <= i < kept.len() && kept[i] == column;
                if i < kept_front.len() {
                    assert(kept_front[i] == column);
                }
            }
            if kept_front.contains(column) {
                let i = choose|i: int| 0 <= i < kept_front.len() && kept_front[i] == column;
                assert(kept[i] == column);
            }
            if last == column {
                assert(kept[kept.len() - 1] == column);
            }
        } else {
            assert(kept == kept_front);
        }
    }
}

/// Extending a list of columns by one extends its assignments by one, after a
/// comma where the list was not empty.
pub proof fn lemma_assignments_push(columns: Seq<Column>, column: Column)
    ensures
        assignments(columns.push(column)) == if columns.len() == 0 {
            assignment(column)
        } else {
            assignments(columns) + ","@ + assignment(column)
        },
{
    let longer = columns.push(column);
    assert(longer.drop_last() =~= columns);
    assert(longer.last() == column);
    if columns.len() == 0 {
        assert(longer[0] == column);
    }
}

/// The difference is minimal: the statement of an update names a column
/// exactly when the two records differ in it, names no column twice, and there
/// is no statement at all exactly when they differ in no writable column.
pub proof fn lemma_update_writes_exactly_the_difference(
    id: u32,
    persisted: ClientView,
    incoming: ClientView,
    fields: Set<Column>,
)
    requires
        forall|column: Column| fields.contains(column) <==> differs(column, persisted, incoming),
    ensures
        update_plan(id, persisted, incoming) is None <==> fields =~= Set::<Column>::empty(),
        update_plan(id, persisted, incoming) matches Some(plan) ==> {
            &&& plan.columns.to_set() =~= fields
            &&& plan.columns.no_duplicates()
            &&& plan.command == update_command(id, plan.columns, incoming)
            &&& plan.command.params.len() == plan.columns.len() + 1
        },
{
    let changed = changed_columns(persisted, incoming);
    let all = mutable_columns();
    assert forall|column: Column| changed.contains(column) <==> fields.contains(column) by {
        lemma_changed_among_contains(all, persisted, incoming, column);
        match column {
            Column::ClientName => {
                assert(all[0] == column);
            },
            Column::ClientActive => {
                assert(all[1] == column);
            },
        }
    }
    assert(changed.to_set() =~= fields);
    if changed.len() == 0 {
        assert forall|column: Column| !fields.contains(column) by {
            if fields.contains(column) {
                assert(changed.contains(column));
            }
        }
    } else {
        assert(changed.contains(changed[0]));
        assert(fields.contains(changed[0]));
    }
    assert(changed.no_duplicates()) by {
        lemma_changed_among_push(Seq::empty(), Column::ClientName, persisted, incoming);
        lemma_changed_among_push(
            seq![Column::ClientName],
            Column::ClientActive,
            persisted,
            incoming,
        );
        reveal(Seq::filter);
        assert(Seq::<Column>::empty().push(Column::ClientName) =~= seq![Column::ClientName]);
        assert(seq![Column::ClientName].push(Column::ClientActive) =~= all);
        assert(changed_among(Seq::empty(), persisted, incoming) =~= Seq::<Column>::empty());
    }
}

/// Whether the two records hold different values in the given column.
pub fn differs_in(column: Column, persisted: &Client, incoming: &Client) -> (different: bool)
    ensures
        different == differs(column, persisted@, incoming@),
{
    match column {
        Column::ClientName => persisted.client_name != incoming.client_name,
        Column::ClientActive => persisted.client_active != incoming.client_active,
    }
}

/// Every column that an update may write: the list that a diff walks.
pub fn mutable_column_list() -> (columns: Vec<Column>)
    ensures
        columns@ == mutable_columns(),
{
    let mut columns: Vec<Column> = Vec::new();
    columns.push(Column::ClientName);
    columns.push(Column::ClientActive);
    assert(columns@ =~= mutable_columns());
    columns
}

fn assignment_text(column: Column) -> (text: &'static str)
    ensures
        text@ == assignment(column),
{
    match column {
        Column::ClientName => " client_name = ?",
        Column::ClientActive => " client_active = ?",
    }
}

fn bind_new_value(column: Column, incoming: &Client) -> (param: SqlParam)
    ensures
        param@ == new_value(column, incoming@),
{
    match column {
        Column::ClientName => bind_text(&incoming.client_name),
        Column::ClientActive => bind_flag(incoming.client_active),
    }
}

/// Compares the incoming record with the persisted one, column by column, and
/// builds the statement that writes the columns in which they differ. Where
/// they differ in none, there is nothing to write and no statement.
pub fn update_statement(id: u32, persisted: &Client, incoming: &Client) -> (plan: Option<
    UpdatePlan,
>)
    ensures
        plan is Some <==> update_plan(id, persisted@, incoming@) is Some,
        plan matches Some(plan) ==> Some(plan@) == update_plan(id, persisted@, incoming@),
{
    let candidates = mutable_column_list();
    let mut columns: Vec<Column> = Vec::new();
    let mut params: Vec<SqlParam> = Vec::new();
    let mut sql = String::from_str("UPDATE Client SET");
    let mut k: usize = 0;
    proof {
        reveal(Seq::filter);
        assert(candidates@.take(0) =~= Seq::<Column>::empty());
        assert(sql@ =~= "UPDATE Client SET"@ + assignments(columns@));
        assert(params_view(params@) =~= new_values(columns@, incoming@));
    }
    while k < candidates.len()
        invariant
            k <= candidates.len(),
            candidates@ == mutable_columns(),
            columns@ == changed_among(candidates@.take(k as int), persisted@, incoming@),
            sql@ == "UPDATE Client SET"@ + assignments(columns@),
            params_view(params@) == new_values(columns@, incoming@),
        decreases candidates.len() - k,
    {
        let column = candidates[k];
        proof {
            lemma_changed_among_push(candidates@.take(k as int), column, persisted@, incoming@);
            assert(candidates@.take(k as int).push(column) =~= candidates@.take(k + 1));
        }
        if differs_in(column, persisted, incoming) {
            proof {
                lemma_assignments_push(columns@, column);
            }
            let ghost earlier_columns = columns@;
            let ghost earlier_params = params@;
            if columns.len() > 0 {
                sql.append(",");
            }
            sql.append(assignment_text(column));
            columns.push(column);
            params.push(bind_new_value(column, incoming));
            assert(sql@ =~= "UPDATE Client SET"@ + assignments(columns@));
            assert(params_view(params@) =~= new_values(columns@, incoming@)) by {
                assert(params_view(earlier_params).len() == earlier_columns.len());
                assert forall|i: int| 0 <= i < params@.len() implies params_view(params@)[i]
                    == new_values(columns@, incoming@)[i] by {
                    if i < earlier_params.len() {
                        assert(params_view(earlier_params)[i] == new_values(
                            earlier_columns,
                            incoming@,
                        )[i]);
                    }
                }
            }
        }
        k = k + 1;
    }
    assert(candidates@.take(k as int) =~= candidates@);
    if columns.len() == 0 {
        None
    } else {
        sql.append(" WHERE id_client = ?");
        params.push(SqlParam::Integer(id as i64));
        let plan = UpdatePlan { columns, command: SqlCommand { sql, params } };
        assert(plan@.command.params =~= update_command(id, plan@.columns, incoming@).params);
        assert(plan@.command.sql =~= update_command(id, plan@.columns, incoming@).sql);
        Some(plan)
    }
}

} // verus!
