use vstd::prelude::*;
use crate::controller::{next_generation, FetchController};
use crate::display::{labels, project_spec, record_rows_spec, RowView, ROW_COUNT};
use crate::record::{is_success_status, response_outcome, CountryRecord, LookupError};

verus! {

/// Typing the same non-empty text a second time leaves the shown rows as
/// they were: at once, while the repeated lookup is pending, and after it
/// resolves with the same outcome as the first.
pub proof fn lemma_repeated_query_keeps_rows(
    c: FetchController,
    s: String,
    outcome: Result<CountryRecord, LookupError>,
)
    requires
        s@.len() > 0,
    ensures
        ({
            let first = c.after_input(s);
            let settled = first.after_resolve(first.generation, outcome);
            let again = settled.after_input(s);
            let replayed = again.after_resolve(again.generation, outcome);
            &&& project_spec(again.shown) == project_spec(settled.shown)
            &&& project_spec(replayed.shown) == project_spec(settled.shown)
            &&& replayed.query == settled.query
        }),
{
}

/// Every country is shown with the same labels in the same order, whichever
/// of its optional fields are present.
pub proof fn lemma_row_order_fixed(a: CountryRecord, b: CountryRecord)
    ensures
        record_rows_spec(a).len() == ROW_COUNT,
        labels(record_rows_spec(a)) == labels(record_rows_spec(b)),
{
    assert(labels(record_rows_spec(a)) =~= labels(record_rows_spec(b)));
}

/// Absent borders are shown as `None`, an empty list of borders as nothing,
/// and the two texts differ.
pub proof fn lemma_absent_and_empty_borders(r: CountryRecord)
    ensures
        r.borders is None ==> record_rows_spec(r)[9].1 == "None"@,
        r.borders is Some && r.borders->0@.len() == 0 ==> record_rows_spec(r)[9].1 == Seq::<
            char,
        >::empty(),
        "None"@ != Seq::<char>::empty(),
{
    reveal_strlit("None");
    assert("None"@.len() == 4);
}

/// A lookup that was superseded never decides what is shown: after the
/// input changes from `a` to `b`, and both lookups resolve in either order,
/// the outcome of the lookup of `b` is shown.
pub proof fn lemma_superseded_lookup_dropped(
    c: FetchController,
    a: String,
    b: String,
    outcome_a: Result<CountryRecord, LookupError>,
    outcome_b: Result<CountryRecord, LookupError>,
)
    requires
        a@.len() > 0,
        b@.len() > 0,
    ensures
        ({
            let on_a = c.after_input(a);
            let on_b = on_a.after_input(b);
            let late_a = on_b.after_resolve(on_b.generation, outcome_b).after_resolve(
                on_a.generation,
                outcome_a,
            );
            let early_a = on_b.after_resolve(on_a.generation, outcome_a).after_resolve(
                on_b.generation,
                outcome_b,
            );
            &&& late_a.shown == Some(outcome_b)
            &&& early_a.shown == Some(outcome_b)
            &&& late_a.query == b
            &&& early_a.query == b
        }),
{
    let g = c.generation;
    assert(next_generation(g) != next_generation(next_generation(g)));
}

/// A response whose body is an empty array shows nothing: resolving the
/// pending lookup with it leaves the rows of a controller that has looked up
/// nothing yet.
pub proof fn lemma_empty_body_shows_nothing(c: FetchController, status: u16, body: Vec<CountryRecord>)
    requires
        c.pending,
        is_success_status(status),
        body@.len() == 0,
    ensures
        ({
            let outcome = response_outcome(Some(status), Some(body));
            let after = c.after_resolve(c.generation, outcome);
            &&& outcome == Err::<CountryRecord, LookupError>(LookupError::NoMatch)
            &&& project_spec(after.shown) == project_spec(None)
            &&& project_spec(after.shown) == Seq::<RowView>::empty()
        }),
{
}

} // verus!
