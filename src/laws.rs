//! Properties of the protocol that hold across calls: one non-empty chunk per
//! scan, chunks that match the declared columns, release of the argument copy
//! exactly once, and the argument read back unchanged.
use crate::schema::{cell, row_count, schema, value_type, Layout, ValueView};
use crate::vtab::{chunk_holds, emitted_rows, Chunk};
use vstd::prelude::*;

verus! {

/// Row counts of `n` successive execute calls on a scan whose `done` flag
/// starts at `done`; each call leaves the flag set.
pub open spec fn scan_lengths(layout: Layout, done: bool, n: nat) -> Seq<nat>
    decreases n,
{
    if n == 0 {
        Seq::empty()
    } else {
        seq![emitted_rows(layout, done)] + scan_lengths(layout, true, (n - 1) as nat)
    }
}

proof fn lemma_finished_scan_is_empty(layout: Layout, n: nat)
    ensures
        scan_lengths(layout, true, n).len() == n,
        forall|i: int| 0 <= i < n ==> scan_lengths(layout, true, n)[i] == 0,
    decreases n,
{
    if n > 0 {
        lemma_finished_scan_is_empty(layout, (n - 1) as nat);
    }
}

/// Over any number of execute calls on a fresh scan, the first emits all the
/// rows of the call and every later one emits an empty chunk.
pub proof fn lemma_single_nonempty_chunk(layout: Layout, n: nat)
    ensures
        scan_lengths(layout, false, n).len() == n,
        forall|i: int|
            0 <= i < n ==> scan_lengths(layout, false, n)[i] == if i == 0 {
                row_count(layout)
            } else {
                0
            },
{
    if n > 0 {
        lemma_finished_scan_is_empty(layout, (n - 1) as nat);
    }
}

/// The logical type of every cell is that of the column declared for it.
pub proof fn lemma_cell_types(layout: Layout, arg: Seq<char>, row: nat, col: nat)
    requires
        col < schema(layout).len(),
    ensures
        value_type(cell(layout, arg, row, col)) == schema(layout)[col as int].ty,
{
}

/// A chunk of a scan has one vector per declared column, and every value in
/// a vector has the logical type declared for its column.
pub proof fn lemma_schema_consistency(layout: Layout, arg: Seq<char>, c: Chunk, rows: nat)
    requires
        chunk_holds(c, layout, arg, rows),
    ensures
        c.vectors@.len() == schema(layout).len(),
        forall|j: int, i: int|
            0 <= j < c.vectors@.len() && 0 <= i < c.vectors@[j]@.len() ==> value_type(
                (#[trigger] c.vectors@[j]@[i])@,
            ) == schema(layout)[j].ty,
{
    assert forall|j: int, i: int|
        0 <= j < c.vectors@.len() && 0 <= i < c.vectors@[j]@.len() implies value_type(
            (#[trigger] c.vectors@[j]@[i])@,
        ) == schema(layout)[j].ty by {
        lemma_cell_types(layout, arg, i as nat, j as nat);
    }
}

/// Argument copies released by `n` successive release calls on bind data
/// holding `text`; each call leaves nothing held.
pub open spec fn releases(text: Option<Seq<char>>, n: nat) -> nat
    decreases n,
{
    if n == 0 {
        0
    } else {
        (if text is Some {
            1nat
        } else {
            0nat
        }) + releases(None, (n - 1) as nat)
    }
}

proof fn lemma_nothing_left_to_release(n: nat)
    ensures
        releases(None, n) == 0,
    decreases n,
{
    if n > 0 {
        lemma_nothing_left_to_release((n - 1) as nat);
    }
}

/// However many times the release hook runs on the data of a bound call, at
/// least once, the argument copy is released exactly once.
pub proof fn lemma_release_exactly_once(arg: Seq<char>, n: nat)
    requires
        n >= 1,
    ensures
        releases(Some(arg), n) == 1,
{
    lemma_nothing_left_to_release((n - 1) as nat);
}

/// The column whose text a scan derives from the argument.
pub open spec fn argument_column(layout: Layout) -> nat {
    match layout {
        Layout::Greeting => 0,
        _ => 1,
    }
}

/// Where a scan reads the argument (the greeting and product layouts), the
/// text it writes is a six-character prefix followed by the argument,
/// character for character: the argument comes back unchanged.
pub proof fn lemma_argument_round_trip(layout: Layout, arg: Seq<char>, row: nat)
    requires
        layout != Layout::Listing,
    ensures
        cell(layout, arg, row, argument_column(layout)) matches ValueView::Text(t) && t.subrange(
            6,
            t.len() as int,
        ) == arg,
{
    reveal_strlit("Hello ");
    reveal_strlit("title ");
    match cell(layout, arg, row, argument_column(layout)) {
        ValueView::Text(t) => {
            assert(t.subrange(6, t.len() as int) =~= arg);
        },
        _ => {},
    }
}

} // verus!
