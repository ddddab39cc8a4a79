use crate::client::{Client, ClientView};
use vstd::prelude::*;
use vstd::string::StringExecFns;

verus! {

/// A rule that a record does not meet.
#[derive(Clone, Copy, Debug, PartialEq, Eq, Structural)]
pub enum Violation {
    /// A new record already carries an identifier.
    ExistingItem,
    /// A new record is not active.
    Inactive,
    /// The name is empty.
    EmptyName,
}

/// The rules that a new record does not meet, in the order of the rules: it
/// has to come without an identifier, active, and with a name.
pub open spec fn creation_violations(item: ClientView) -> Seq<Violation> {
    (if item.id_client is Some {
        seq![Violation::ExistingItem]
    } else {
        Seq::empty()
    }) + (if !item.client_active {
        seq![Violation::Inactive]
    } else {
        Seq::empty()
    }) + (if item.client_name.len() == 0 {
        seq![Violation::EmptyName]
    } else {
        Seq::empty()
    })
}

/// The rules that the new state of a stored record does not meet: it has to
/// keep a name. Its identifier addresses it and its active flag may change.
pub open spec fn change_violations(item: ClientView) -> Seq<Violation> {
    if item.client_name.len() == 0 {
        seq![Violation::EmptyName]
    } else {
        Seq::empty()
    }
}

/// What a violation is called in the middle of a message.
pub open spec fn violation_text(violation: Violation) -> Seq<char> {
    match violation {
        Violation::ExistingItem => "se intenta agregar un elemento existente"@,
        Violation::Inactive => "el campo client_active debe ser true"@,
        Violation::EmptyName => "el nombre del cliente no puede estar vacío"@,
    }
}

/// What a violation is called at the start of a message: the same words,
/// with a capital.
pub open spec fn violation_heading(violation: Violation) -> Seq<char> {
    match violation {
        Violation::ExistingItem => "Se intenta agregar un elemento existente"@,
        Violation::Inactive => "El campo client_active debe ser true"@,
        Violation::EmptyName => "El nombre del cliente no puede estar vacío"@,
    }
}

/// The one message that names every violation, in their order, separated by
/// commas.
pub open spec fn violation_message(violations: Seq<Violation>) -> Seq<char>
    decreases violations.len(),
{
    if violations.len() == 0 {
        Seq::empty()
    } else if violations.len() == 1 {
        violation_heading(violations[0])
    } else {
        violation_message(violations.drop_last()) + ", "@ + violation_text(violations.last())
    }
}

/// Whether `part` occurs in `whole` from position `at` on.
pub open spec fn occurs_at(whole: Seq<char>, part: Seq<char>, at: int) -> bool {
    0 <= at && at + part.len() <= whole.len() && whole.subrange(at, at + part.len()) == part
}

/// The words by which a message names a violation that stands at `position`
/// of a list.
pub open spec fn naming(violations: Seq<Violation>, position: int) -> Seq<char> {
    if position == 0 {
        violation_heading(violations[position])
    } else {
        violation_text(violations[position])
    }
}

/// Extending a list of violations by one extends its message by one, after
/// a comma where the list was not empty.
pub proof fn lemma_violation_message_push(violations: Seq<Violation>, violation: Violation)
    ensures
        violation_message(violations.push(violation)) == if violations.len() == 0 {
            violation_heading(violation)
        } else {
            violation_message(violations) + ", "@ + violation_text(violation)
        },
{
    let longer = violations.push(violation);
    assert(longer.drop_last() =~= violations);
    assert(longer.last() == violation);
    if violations.len() == 0 {
        assert(longer[0] == violation);
    }
}

/// The message names every violation of the list, not only the first: the
/// words for each of them occur in it.
pub proof fn lemma_message_names_every_violation(violations: Seq<Violation>, position: int)
    requires
        0 <= position < violations.len(),
    ensures
        exists|at: int| occurs_at(violation_message(violations), naming(violations, position), at),
    decreases violations.len(),
{
    let message = violation_message(violations);
    if violations.len() == 1 {
        assert(message.subrange(0, message.len() as int) =~= message);
        assert(occurs_at(message, naming(violations, position), 0));
    } else {
        let front = violations.drop_last();
        let before = violation_message(front) + ", "@;
        let last = violation_text(violations.last());
        if position == violations.len() - 1 {
            assert(message.subrange(before.len() as int, (before.len() + last.len()) as int) =~= last);
            assert(occurs_at(message, naming(violations, position), before.len() as int));
        } else {
            lemma_message_names_every_violation(front, position);
            let part = naming(front, position);
            assert(naming(violations, position) == part);
            let at = choose|at: int| occurs_at(violation_message(front), part, at);
            assert(message.subrange(at, at + part.len()) =~= violation_message(front).subrange(
                at,
                at + part.len(),
            ));
            assert(occurs_at(message, part, at));
        }
    }
}

/// A record that breaks a rule for new records is reported with that rule,
/// whatever other rules it breaks; a record that breaks none is reported
/// with none.
pub proof fn lemma_every_broken_rule_is_reported(item: ClientView)
    ensures
        creation_violations(item).contains(Violation::ExistingItem) <==> item.id_client is Some,
        creation_violations(item).contains(Violation::Inactive) <==> !item.client_active,
        creation_violations(item).contains(Violation::EmptyName) <==> item.client_name.len() == 0,
        creation_violations(item).no_duplicates(),
        change_violations(item).contains(Violation::EmptyName) <==> item.client_name.len() == 0,
        change_violations(item).len() <= 1,
{
    let a: Seq<Violation> = if item.id_client is Some {
        seq![Violation::ExistingItem]
    } else {
        Seq::empty()
    };
    let b: Seq<Violation> = if !item.client_active {
        seq![Violation::Inactive]
    } else {
        Seq::empty()
    };
    let c: Seq<Violation> = if item.client_name.len() == 0 {
        seq![Violation::EmptyName]
    } else {
        Seq::empty()
    };
    let all = creation_violations(item);
    assert(all == a + b + c);
    assert(all.len() == a.len() + b.len() + c.len());
    if item.id_client is Some {
        assert(all[0] == Violation::ExistingItem);
    }
    if !item.client_active {
        assert(all[a.len() as int] == Violation::Inactive);
    }
    if item.client_name.len() == 0 {
        assert(all[(a.len() + b.len()) as int] == Violation::EmptyName);
        assert(change_violations(item)[0] == Violation::EmptyName);
    }
    assert forall|i: int| 0 <= i < all.len() implies (all[i] == Violation::ExistingItem ==> i < a.len())
        && (all[i] == Violation::Inactive ==> a.len() <= i < a.len() + b.len()) && (all[i]
        == Violation::EmptyName ==> a.len() + b.len() <= i) by {
        if i < a.len() {
            assert(all[i] == a[i]);
        } else if i < a.len() + b.len() {
            assert(all[i] == b[i - a.len()]);
        } else {
            assert(all[i] == c[i - a.len() - b.len()]);
        }
    }
}

/// Checks a record against the rules for new records and lists every rule
/// that it does not meet.
pub fn check_creation(item: &Client) -> (violations: Vec<Violation>)
    ensures
        violations@ == creation_violations(item@),
{
    let mut violations: Vec<Violation> = Vec::new();
    if item.id_client.is_some() {
        violations.push(Violation::ExistingItem);
    }
    if !item.client_active {
        violations.push(Violation::Inactive);
    }
    if item.client_name.as_str().is_empty() {
        violations.push(Violation::EmptyName);
    }
    assert(violations@ =~= creation_violations(item@));
    violations
}

/// Checks the new state of a stored record and lists every rule that it
/// does not meet.
pub fn check_change(item: &Client) -> (violations: Vec<Violation>)
    ensures
        violations@ == change_violations(item@),
{
    let mut violations: Vec<Violation> = Vec::new();
    if item.client_name.as_str().is_empty() {
        violations.push(Violation::EmptyName);
    }
    assert(violations@ =~= change_violations(item@));
    violations
}

fn text_of(violation: Violation) -> (text: &'static str)
    ensures
        text@ == violation_text(violation),
{
    match violation {
        Violation::ExistingItem => "se intenta agregar un elemento existente",
        Violation::Inactive => "el campo client_active debe ser true",
        Violation::EmptyName => "el nombre del cliente no puede estar vacío",
    }
}

fn heading_of(violation: Violation) -> (text: &'static str)
    ensures
        text@ == violation_heading(violation),
{
    match violation {
        Violation::ExistingItem => "Se intenta agregar un elemento existente",
        Violation::Inactive => "El campo client_active debe ser true",
        Violation::EmptyName => "El nombre del cliente no puede estar vacío",
    }
}

/// Writes the one message that names every violation of the list.
pub fn write_message(violations: &Vec<Violation>) -> (message: String)
    ensures
        message@ == violation_message(violations@),
{
    let mut message = String::new();
    let mut k: usize = 0;
    proof {
        assert(violations@.take(0) =~= Seq::<Violation>::empty());
    }
    while k < violations.len()
        invariant
            k <= violations.len(),
            message@ == violation_message(violations@.take(k as int)),
        decreases violations.len() - k,
    {
        let violation = violations[k];
        proof {
            lemma_violation_message_push(violations@.take(k as int), violation);
            assert(violations@.take(k as int).push(violation) =~= violations@.take(k + 1));
        }
        if k == 0 {
            message.append(heading_of(violation));
        } else {
            message.append(", ");
            message.append(text_of(violation));
        }
        k = k + 1;
        assert(message@ =~= violation_message(violations@.take(k as int)));
    }
    assert(violations@.take(k as int) =~= violations@);
    message
}

} // verus!
