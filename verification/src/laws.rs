//! What holds of every table and every session, stated over the values that
//! the operations' contracts speak of.

use crate::data::SessionState;
use crate::session::counted;
use crate::session::on_entry;
use crate::session::stored;
use crate::store::opened;
use vstd::prelude::*;

verus! {

/// The table after a session has been opened under each of `ids`, in order.
pub open spec fn opened_all(table: Map<u128, SessionState>, ids: Seq<u128>) -> Map<
    u128,
    SessionState,
>
    decreases ids.len(),
{
    if ids.len() == 0 {
        table
    } else {
        opened(opened_all(table, ids.drop_last()), ids.last())
    }
}

/// Whether each of `ids` was free at its turn: the table, with sessions
/// opened under the identifiers before it, had no entry for it.
pub open spec fn issued_fresh(table: Map<u128, SessionState>, ids: Seq<u128>) -> bool {
    forall|i: int|
        0 <= i < ids.len() ==> !opened_all(table, ids.take(i)).contains_key(#[trigger] ids[i])
}

/// Opening sessions adds their identifiers to the table and takes none away.
pub proof fn lemma_opened_all_domain(table: Map<u128, SessionState>, ids: Seq<u128>)
    ensures
        forall|id: u128| #[trigger]
            opened_all(table, ids).contains_key(id) <==> table.contains_key(id) || ids.contains(
                id,
            ),
    decreases ids.len(),
{
    if ids.len() > 0 {
        let before = ids.drop_last();
        lemma_opened_all_domain(table, before);
        assert forall|id: u128| #[trigger]
            opened_all(table, ids).contains_key(id) <==> table.contains_key(id) || ids.contains(
                id,
            ) by {
            assert(opened_all(table, ids).contains_key(id) <==> opened_all(
                table,
                before,
            ).contains_key(id) || id == ids.last());
            if before.contains(id) {
                let i = choose|i: int| 0 <= i < before.len() && before[i] == id;
                assert(ids[i] == id);
            }
            if ids.contains(id) && id != ids.last() {
                let i = choose|i: int| 0 <= i < ids.len() && ids[i] == id;
                assert(before[i] == id);
            }
            assert(ids[ids.len() - 1] == ids.last());
        }
    } else {
        assert forall|id: u128| !ids.contains(id) by {}
    }
}

/// Uniqueness: identifiers that were each free at their turn are pairwise
/// different, none of them names a session that the table held before, and
/// the table has grown by exactly their number.
pub proof fn lemma_fresh_identifiers_are_distinct(table: Map<u128, SessionState>, ids: Seq<u128>)
    requires
        issued_fresh(table, ids),
    ensures
        forall|i: int, j: int| 0 <= i < j < ids.len() ==> ids[i] != ids[j],
        forall|i: int| 0 <= i < ids.len() ==> !table.contains_key(#[trigger] ids[i]),
        table.dom().finite() ==> opened_all(table, ids).dom().finite() && opened_all(
            table,
            ids,
        ).len() == table.len() + ids.len(),
    decreases ids.len(),
{
    assert forall|i: int, j: int| 0 <= i < j < ids.len() implies ids[i] != ids[j] by {
        lemma_opened_all_domain(table, ids.take(j));
        assert(ids.take(j)[i] == ids[i]);
        assert(ids.take(j).contains(ids[i]));
        assert(!opened_all(table, ids.take(j)).contains_key(ids[j]));
    }
    assert forall|i: int| 0 <= i < ids.len() implies !table.contains_key(#[trigger] ids[i]) by {
        lemma_opened_all_domain(table, ids.take(i));
        assert(!opened_all(table, ids.take(i)).contains_key(ids[i]));
    }
    if ids.len() > 0 {
        let before = ids.drop_last();
        assert forall|i: int| 0 <= i < before.len() implies !opened_all(
            table,
            before.take(i),
        ).contains_key(#[trigger] before[i]) by {
            assert(before.take(i) =~= ids.take(i));
            assert(before[i] == ids[i]);
        }
        lemma_fresh_identifiers_are_distinct(table, before);
        assert(ids.take(ids.len() - 1) =~= before);
        assert(!opened_all(table, before).contains_key(ids[ids.len() - 1]));
    }
}

/// Serial writers: of two writes to one key of one session, the later one is
/// what a read then finds, whichever of the two came first. So each order
/// leaves one of the two texts, whole.
pub proof fn lemma_later_write_wins(
    table: Map<u128, SessionState>,
    id: u128,
    key: Seq<char>,
    one: Seq<char>,
    other: Seq<char>,
)
    requires
        table.contains_key(id),
    ensures
        ({
            let first = on_entry(table, id, table[id].set(key, one));
            let second = on_entry(first, id, first[id].set(key, other));
            stored(second, id, key) == Some(other)
        }),
        ({
            let first = on_entry(table, id, table[id].set(key, other));
            let second = on_entry(first, id, first[id].set(key, one));
            stored(second, id, key) == Some(one)
        }),
{
}

/// Round trip: a read after a write finds the text that was written, and
/// every other key of the session holds what it held.
pub proof fn lemma_read_after_write(
    table: Map<u128, SessionState>,
    id: u128,
    key: Seq<char>,
    text: Seq<char>,
)
    requires
        table.contains_key(id),
    ensures
        stored(on_entry(table, id, table[id].set(key, text)), id, key) == Some(text),
        forall|other: Seq<char>|
            other != key ==> stored(on_entry(table, id, table[id].set(key, text)), id, other)
                == stored(table, id, other),
{
}

/// Writing what is already stored changes nothing: the table after the write
/// is the table before it.
pub proof fn lemma_same_write_is_no_change(
    table: Map<u128, SessionState>,
    id: u128,
    key: Seq<char>,
    text: Seq<char>,
)
    requires
        stored(table, id, key) == Some(text),
    ensures
        on_entry(table, id, table[id].set(key, text)) == table,
{
    assert(table[id].data.insert(key, text) =~= table[id].data);
    assert(table[id].set(key, text) =~= table[id]);
    assert(on_entry(table, id, table[id].set(key, text)) =~= table);
}

/// An identifier that the table does not hold names an empty session: no
/// key has a value under it, before the session has an entry and when it has
/// just been opened, and an entry that has just been opened has none of its
/// flags raised.
pub proof fn lemma_new_session_is_empty(table: Map<u128, SessionState>, id: u128)
    requires
        !table.contains_key(id),
    ensures
        forall|key: Seq<char>| stored(table, id, key) is None,
        opened(table, id).contains_key(id),
        opened(table, id)[id] == SessionState::fresh(),
        forall|key: Seq<char>| stored(opened(table, id), id, key) is None,
{
}

/// Marking a session for deletion raises its flag and removes nothing: the
/// table holds the same sessions as before, this one among them.
pub proof fn lemma_destroy_keeps_the_entry(table: Map<u128, SessionState>, id: u128)
    requires
        table.contains_key(id),
    ensures
        on_entry(table, id, table[id].with_destroy())[id].destroy,
        on_entry(table, id, table[id].with_destroy())[id].data == table[id].data,
        on_entry(table, id, table[id].with_destroy()).dom() == table.dom(),
{
    assert(on_entry(table, id, table[id].with_destroy()).dom() =~= table.dom());
}

/// The two ways to count: without a durable backend the count is the number
/// of sessions resident in memory, whatever a backend might have replied;
/// with one it is the backend's reply, and 0 where the backend failed.
pub proof fn lemma_count_modes<E>(resident: nat, reply: Option<Result<i64, E>>)
    requires
        resident <= i64::MAX,
    ensures
        counted(resident, false, reply) == resident,
        reply matches Some(Ok(count)) ==> counted(resident, true, reply) == count,
        reply matches Some(Err(_)) ==> counted(resident, true, reply) == 0,
{
}

} // verus!
