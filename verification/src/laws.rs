//! Laws of the store model: how marking, removing and looking up rows
//! interact. Each is stated over the row sequences that the store
//! operations' contracts speak of.

use vstd::prelude::*;

use crate::store::{find_row, has_id, remove_rows, set_completed_rows, RowModel};

verus! {

/// Marking a task done (or not done) and then looking it up by id finds
/// it with exactly that flag; ids that were absent stay absent.
pub proof fn lemma_set_completed_then_find(rows: Seq<RowModel>, id: int, done: bool)
    ensures
        has_id(rows, id) ==> (find_row(set_completed_rows(rows, id, done), id) matches Some(r)
            && r.id == id && r.completed == done),
        !has_id(rows, id) ==> find_row(set_completed_rows(rows, id, done), id) is None,
    decreases rows.len(),
{
    let mapped = set_completed_rows(rows, id, done);
    if rows.len() == 0 {
        assert(!has_id(rows, id));
    } else {
        if rows[0].id == id {
            assert(has_id(rows, id));
            assert(mapped[0].id == id && mapped[0].completed == done);
        } else {
            assert(mapped.drop_first() =~= set_completed_rows(rows.drop_first(), id, done));
            lemma_set_completed_then_find(rows.drop_first(), id, done);
            if has_id(rows, id) {
                let i = choose|i: int| 0 <= i < rows.len() && #[trigger] rows[i].id == id;
                assert(rows.drop_first()[i - 1].id == id);
                assert(has_id(rows.drop_first(), id));
            }
            if has_id(rows.drop_first(), id) {
                let i = choose|i: int|
                    0 <= i < rows.drop_first().len() && #[trigger] rows.drop_first()[i].id == id;
                assert(rows[i + 1].id == id);
            }
        }
    }
}

/// Marking a task done twice is the same as marking it once: the second
/// call changes nothing.
pub proof fn lemma_set_completed_idempotent(rows: Seq<RowModel>, id: int, done: bool)
    ensures
        set_completed_rows(set_completed_rows(rows, id, done), id, done) == set_completed_rows(
            rows,
            id,
            done,
        ),
{
    let once = set_completed_rows(rows, id, done);
    let twice = set_completed_rows(once, id, done);
    assert forall|i: int| 0 <= i < rows.len() implies twice[i] == once[i] by {}
    assert(twice =~= once);
}

/// Removing an id removes every row carrying it, and removing an absent
/// id leaves the rows exactly as they were.
pub proof fn lemma_remove_row(rows: Seq<RowModel>, id: int)
    ensures
        !has_id(remove_rows(rows, id), id),
        !has_id(rows, id) ==> remove_rows(rows, id) == rows,
    decreases rows.len(),
{
    reveal_with_fuel(Seq::filter, 2);
    let kept = remove_rows(rows, id);
    if rows.len() == 0 {
        assert(kept =~= Seq::<RowModel>::empty());
    } else {
        lemma_remove_row(rows.drop_last(), id);
        let prefix = remove_rows(rows.drop_last(), id);
        if rows.last().id != id {
            assert(kept == prefix.push(rows.last()));
            assert forall|i: int| 0 <= i < kept.len() implies #[trigger] kept[i].id != id by {
                if i < prefix.len() {
                    assert(kept[i] == prefix[i]);
                    assert(prefix[i].id != id);
                } else {
                    assert(kept[i] == rows.last());
                }
            }
        } else {
            assert(kept == prefix);
            assert(has_id(rows, id)) by {
                assert(rows[rows.len() - 1].id == id);
            }
        }
        if !has_id(rows, id) {
            assert(!has_id(rows.drop_last(), id)) by {
                if has_id(rows.drop_last(), id) {
                    let i = choose|i: int|
                        0 <= i < rows.drop_last().len() && #[trigger] rows.drop_last()[i].id == id;
                    assert(rows[i].id == id);
                }
            }
            assert(rows.last().id != id) by {
                assert(rows[rows.len() - 1].id != id);
            }
            assert(kept == prefix.push(rows.last()));
            assert(prefix == rows.drop_last());
            assert(kept =~= rows);
        }
    }
}

} // verus!
