//! The in-memory variant of the todo store: the reference model of what the
//! persistence layer's operations mean. Its state machine is fully verified,
//! and the CRUD laws — fresh ids on save, exact lookup results, idempotent
//! deletes, empty store after delete-all — are proved of it.

use vstd::prelude::*;
use vstd::string::StringExecFns;

use crate::domain::Todo;
use crate::domain::TodoView;
use crate::persistence::CrudAction;
use crate::persistence::Response;

verus! {

/// The mathematical state of a store: the rows in storage order, and the
/// next identifier to assign.
#[verifier::ext_equal]
pub ghost struct StoreView {
    pub rows: Seq<TodoView>,
    pub next_id: int,
}

/// A stored row is well formed for a given next id: it has an id below that
/// bound and is owned by the default user.
pub open spec fn row_ok(t: TodoView, next: int) -> bool {
    &&& t.id matches Some(k) && 1 <= k < next
    &&& t.user_name == Some("Root"@)
}

/// Store invariant: the next id is valid and above every assigned id, every
/// row is well formed, and ids are unique.
pub open spec fn store_wf(s: StoreView) -> bool {
    &&& 1 <= s.next_id <= i64::MAX
    &&& (forall|i: int| 0 <= i < s.rows.len() ==> #[trigger] row_ok(s.rows[i], s.next_id))
    &&& (forall|i: int, j: int|
        0 <= i < j < s.rows.len() ==> (#[trigger] s.rows[i].id) != (#[trigger] s.rows[j].id))
}

/// The row a save appends: the next id, the given texts, the default user.
pub open spec fn saved_row(s: StoreView, title: Seq<char>, content: Seq<char>) -> TodoView {
    TodoView { id: Some(s.next_id as i64), title, content, user_name: Some("Root"@) }
}

/// Saving appends the new row and moves the id counter on.
pub open spec fn save_transition(s: StoreView, title: Seq<char>, content: Seq<char>) -> StoreView {
    StoreView { rows: s.rows.push(saved_row(s, title, content)), next_id: s.next_id + 1 }
}

/// Fetching all rows yields them in storage order.
pub open spec fn find_all_rows(s: StoreView) -> Seq<TodoView> {
    s.rows
}

/// The mathematical reading of a sequence of records.
pub open spec fn todo_views(rows: Seq<Todo>) -> Seq<TodoView> {
    rows.map_values(|t: Todo| t@)
}

/// The row a fetch-by-id yields: of the rows whose id matches, the last one
/// seen wins; none when no row matches.
pub open spec fn find_row(rows: Seq<TodoView>, id: i64) -> Option<TodoView>
    decreases rows.len(),
{
    if rows.len() == 0 {
        None
    } else if rows.last().id == Some(id) {
        Some(rows.last())
    } else {
        find_row(rows.drop_last(), id)
    }
}

/// The rows left after deleting an id: every row but those carrying it.
pub open spec fn remove_rows(rows: Seq<TodoView>, id: i64) -> Seq<TodoView>
    decreases rows.len(),
{
    if rows.len() == 0 {
        Seq::empty()
    } else {
        let rest = remove_rows(rows.drop_last(), id);
        if rows.last().id == Some(id) {
            rest
        } else {
            rest.push(rows.last())
        }
    }
}

/// Deleting one id keeps everything else, including the id counter.
pub open spec fn remove_transition(s: StoreView, id: i64) -> StoreView {
    StoreView { rows: remove_rows(s.rows, id), next_id: s.next_id }
}

/// Deleting everything empties the rows; the id counter stays.
pub open spec fn clear_transition(s: StoreView) -> StoreView {
    StoreView { rows: Seq::empty(), next_id: s.next_id }
}

/// An in-memory todo store, the verified counterpart of the on-disk one.
pub struct MemStore {
    rows: Vec<Todo>,
    next_id: i64,
}

impl View for MemStore {
    type V = StoreView;

    closed spec fn view(&self) -> StoreView {
        StoreView { rows: todo_views(self.rows@), next_id: self.next_id as int }
    }
}

impl MemStore {
    /// The invariant every operation preserves.
    pub open spec fn wf(&self) -> bool {
        store_wf(self@)
    }

    /// An empty store; ids start at one, as the on-disk store assigns them.
    pub fn new() -> (r: Self)
        ensures
            r.wf(),
            r@.rows == Seq::<TodoView>::empty(),
            r@.next_id == 1,
    {
        let r = MemStore { rows: Vec::new(), next_id: 1 };
        proof {
            assert(r@.rows =~= Seq::<TodoView>::empty());
        }
        r
    }

    /// Saves a record: a fresh id is assigned, the given title and content
    /// are stored, and the record is owned by the default user. The record's
    /// own id and owner fields are ignored, as the insert ignores them.
    pub fn save(&mut self, todo: Todo) -> (r: i64)
        requires
            old(self).wf(),
            old(self)@.next_id < i64::MAX,
        ensures
            final(self).wf(),
            final(self)@ == save_transition(old(self)@, todo.title@, todo.content@),
            r == old(self)@.next_id,
    {
        let id = self.next_id;
        let Todo { id: _, title, content, user_name: _ } = todo;
        let ghost title_view = title@;
        let ghost content_view = content@;
        self.rows.push(
            Todo { id: Some(id), title, content, user_name: Some(String::from_str("Root")) },
        );
        self.next_id = self.next_id + 1;
        proof {
            let s0 = old(self)@;
            let t = saved_row(s0, title_view, content_view);
            assert(self@.rows =~= s0.rows.push(t));
            assert(self@ =~= save_transition(s0, title_view, content_view));
            assert forall|i: int| 0 <= i < self@.rows.len() implies #[trigger] row_ok(
                self@.rows[i],
                self@.next_id,
            ) by {
                if i < s0.rows.len() {
                    assert(row_ok(s0.rows[i], s0.next_id));
                }
            }
            assert forall|i: int, j: int| 0 <= i < j < self@.rows.len() implies (
            #[trigger] self@.rows[i].id) != (#[trigger] self@.rows[j].id) by {
                assert(row_ok(s0.rows[i], s0.next_id));
                if j < s0.rows.len() {
                    assert(row_ok(s0.rows[j], s0.next_id));
                }
            }
        }
        id
    }

    /// Every stored record, in storage order.
    pub fn find_all(&self) -> (r: Vec<Todo>)
        ensures
            todo_views(r@) == find_all_rows(self@),
    {
        let mut out: Vec<Todo> = Vec::new();
        let n = self.rows.len();
        let mut i: usize = 0;
        proof {
            assert(todo_views(out@) =~= todo_views(self.rows@).take(0));
        }
        while i < n
            invariant
                i <= n,
                n == self.rows@.len(),
                todo_views(out@) == todo_views(self.rows@).take(i as int),
            decreases n - i,
        {
            let item = self.rows[i].duplicate();
            let ghost out0 = out@;
            out.push(item);
            proof {
                assert(item@ == self.rows@[i as int]@);
                assert(todo_views(out@).len() == out@.len());
                assert(out@.len() == out0.len() + 1);
                assert(todo_views(out0).len() == out0.len());
                assert(todo_views(out0).len() == i as int);
                assert forall|j: int| 0 <= j < i + 1 implies todo_views(out@)[j] == todo_views(
                    self.rows@,
                ).take(i + 1)[j] by {
                    if j < i {
                        assert(out@[j] == out0[j]);
                        assert(todo_views(out0)[j] == todo_views(self.rows@).take(i as int)[j]);
                    } else {
                        assert(out@[j] == item);
                    }
                }
                assert(todo_views(out@) =~= todo_views(self.rows@).take(i + 1));
            }
            i = i + 1;
        }
        proof {
            assert(todo_views(self.rows@).take(n as int) =~= find_all_rows(self@));
        }
        out
    }

    /// The record with the given id, when one is stored; of several matches
    /// the last-seen row wins, and under the invariant there is at most one.
    pub fn find_by_id(&self, id: i64) -> (r: Option<Todo>)
        ensures
            match r {
                Some(t) => find_row(self@.rows, id) == Some(t@),
                None => find_row(self@.rows, id) is None,
            },
    {
        let mut result: Option<Todo> = None;
        let n = self.rows.len();
        let mut i: usize = 0;
        proof {
            assert(self@.rows.take(0) =~= Seq::<TodoView>::empty());
        }
        while i < n
            invariant
                i <= n,
                n == self.rows@.len(),
                match result {
                    Some(t) => find_row(self@.rows.take(i as int), id) == Some(t@),
                    None => find_row(self@.rows.take(i as int), id) is None,
                },
            decreases n - i,
        {
            let hit = match self.rows[i].id {
                Some(k) => k == id,
                None => false,
            };
            if hit {
                result = Some(self.rows[i].duplicate());
            }
            proof {
                let taken = self@.rows.take(i + 1);
                assert(taken.drop_last() =~= self@.rows.take(i as int));
                assert(taken.last() == self@.rows[i as int]);
            }
            i = i + 1;
        }
        proof {
            assert(self@.rows.take(n as int) =~= self@.rows);
        }
        result
    }

    /// Deletes the record with the given id, when one is stored; deleting an
    /// absent id succeeds and changes nothing.
    pub fn remove_by_id(&mut self, id: i64)
        requires
            old(self).wf(),
        ensures
            final(self).wf(),
            final(self)@ == remove_transition(old(self)@, id),
    {
        let mut kept: Vec<Todo> = Vec::new();
        let n = self.rows.len();
        let mut i: usize = 0;
        proof {
            assert(todo_views(self.rows@).take(0) =~= Seq::<TodoView>::empty());
            assert(todo_views(kept@) =~= Seq::<TodoView>::empty());
        }
        while i < n
            invariant
                i <= n,
                n == self.rows@.len(),
                todo_views(kept@) == remove_rows(todo_views(self.rows@).take(i as int), id),
            decreases n - i,
        {
            let hit = match self.rows[i].id {
                Some(k) => k == id,
                None => false,
            };
            if !hit {
                kept.push(self.rows[i].duplicate());
            }
            proof {
                let all = todo_views(self.rows@);
                let taken = all.take(i + 1);
                assert(taken.drop_last() =~= all.take(i as int));
                assert(taken.last() == all[i as int]);
                if !hit {
                    assert(todo_views(kept@) =~= remove_rows(all.take(i as int), id).push(
                        all[i as int],
                    ));
                }
            }
            i = i + 1;
        }
        proof {
            assert(todo_views(self.rows@).take(n as int) =~= self@.rows);
        }
        self.rows = kept;
        proof {
            let s0 = old(self)@;
            assert(self@ =~= remove_transition(s0, id));
            lemma_remove_rows_wf(s0.rows, id, s0.next_id);
        }
    }

    /// Deletes every record.
    pub fn remove_all(&mut self)
        requires
            old(self).wf(),
        ensures
            final(self).wf(),
            final(self)@ == clear_transition(old(self)@),
    {
        self.rows = Vec::new();
        proof {
            assert(self@ =~= clear_transition(old(self)@));
        }
    }

    /// Runs one storage operation against the in-memory store, with the same
    /// request and response vocabulary as the on-disk store.
    pub fn apply(&mut self, action: CrudAction) -> (r: Response)
        requires
            old(self).wf(),
            action is Save ==> old(self)@.next_id < i64::MAX,
        ensures
            final(self).wf(),
            match action {
                CrudAction::Save(todo) => final(self)@ == save_transition(
                    old(self)@,
                    todo.title@,
                    todo.content@,
                ) && r is Success,
                CrudAction::Find(id) => final(self)@ == old(self)@ && (r matches Response::One(o)
                    && (match o {
                    Some(t) => find_row(old(self)@.rows, id) == Some(t@),
                    None => find_row(old(self)@.rows, id) is None,
                })),
                CrudAction::FindAll => final(self)@ == old(self)@ && (r matches Response::List(v)
                    && todo_views(v@) == find_all_rows(old(self)@)),
                CrudAction::Remove(id) => final(self)@ == remove_transition(old(self)@, id)
                    && r is Success,
                CrudAction::RemoveAll => final(self)@ == clear_transition(old(self)@)
                    && r is Success,
                CrudAction::HealthCheck => final(self)@ == old(self)@ && r is Success,
            },
    {
        match action {
            CrudAction::Save(todo) => {
                let _ = self.save(todo);
                Response::Success
            },
            CrudAction::Find(id) => Response::One(self.find_by_id(id)),
            CrudAction::FindAll => Response::List(self.find_all()),
            CrudAction::Remove(id) => {
                self.remove_by_id(id);
                Response::Success
            },
            CrudAction::RemoveAll => {
                self.remove_all();
                Response::Success
            },
            CrudAction::HealthCheck => Response::Success,
        }
    }
}

/// Removing an id preserves the store invariant's row conditions.
proof fn lemma_remove_rows_wf(rows: Seq<TodoView>, id: i64, next: int)
    requires
        forall|i: int| 0 <= i < rows.len() ==> #[trigger] row_ok(rows[i], next),
        forall|i: int, j: int|
            0 <= i < j < rows.len() ==> (#[trigger] rows[i].id) != (#[trigger] rows[j].id),
    ensures
        forall|i: int| 0 <= i < remove_rows(rows, id).len() ==> #[trigger] row_ok(
            remove_rows(rows, id)[i],
            next,
        ),
        forall|i: int, j: int|
            0 <= i < j < remove_rows(rows, id).len() ==> (#[trigger] remove_rows(rows, id)[i].id)
                != (#[trigger] remove_rows(rows, id)[j].id),
    decreases rows.len(),
{
    if rows.len() > 0 {
        let prefix = rows.drop_last();
        assert forall|i: int| 0 <= i < prefix.len() implies #[trigger] row_ok(prefix[i], next) by {
            assert(row_ok(rows[i], next));
        }
        assert forall|i: int, j: int| 0 <= i < j < prefix.len() implies (
        #[trigger] prefix[i].id) != (#[trigger] prefix[j].id) by {
            assert(rows[i].id != rows[j].id);
        }
        lemma_remove_rows_wf(prefix, id, next);
        if rows.last().id != Some(id) {
            let rest = remove_rows(prefix, id);
            lemma_remove_rows_sub(prefix, id);
            assert forall|i: int, j: int|
                0 <= i < j < remove_rows(rows, id).len() implies (#[trigger] remove_rows(
                rows,
                id,
            )[i].id) != (#[trigger] remove_rows(rows, id)[j].id) by {
                if j == rest.len() {
                    let k = choose|k: int| 0 <= k < prefix.len() && prefix[k] == rest[i];
                    assert(rows[k].id != rows[rows.len() - 1].id);
                }
            }
        }
    }
}

/// Every row kept by a removal already stood among the rows.
proof fn lemma_remove_rows_sub(rows: Seq<TodoView>, id: i64)
    ensures
        forall|i: int| 0 <= i < remove_rows(rows, id).len() ==> exists|k: int|
            0 <= k < rows.len() && rows[k] == #[trigger] remove_rows(rows, id)[i],
    decreases rows.len(),
{
    if rows.len() > 0 {
        let prefix = rows.drop_last();
        lemma_remove_rows_sub(prefix, id);
        assert forall|i: int| 0 <= i < remove_rows(rows, id).len() implies exists|k: int|
            0 <= k < rows.len() && rows[k] == #[trigger] remove_rows(rows, id)[i] by {
            let rest = remove_rows(prefix, id);
            if i < rest.len() {
                let k = choose|k: int| 0 <= k < prefix.len() && prefix[k] == rest[i];
                assert(rows[k] == remove_rows(rows, id)[i]);
            } else {
                assert(remove_rows(rows, id)[i] == rows.last());
                assert(rows[rows.len() - 1] == remove_rows(rows, id)[i]);
            }
        }
    }
}

/// Law: saving appends exactly one new record — carrying the given title and
/// content and a previously unused id — and keeps every other record.
pub proof fn lemma_save_then_find_all(s: StoreView, title: Seq<char>, content: Seq<char>)
    requires
        store_wf(s),
    ensures
        find_all_rows(save_transition(s, title, content)) == find_all_rows(s).push(
            saved_row(s, title, content),
        ),
        saved_row(s, title, content).title == title,
        saved_row(s, title, content).content == content,
        forall|i: int|
            0 <= i < s.rows.len() ==> (#[trigger] s.rows[i].id) != saved_row(s, title, content).id,
        forall|i: int|
            0 <= i < find_all_rows(save_transition(s, title, content)).len() ==> ((
            #[trigger] find_all_rows(save_transition(s, title, content))[i].id) == saved_row(
                s,
                title,
                content,
            ).id <==> i == s.rows.len()),
{
    let t = saved_row(s, title, content);
    assert forall|i: int| 0 <= i < s.rows.len() implies (#[trigger] s.rows[i].id) != t.id by {
        assert(row_ok(s.rows[i], s.next_id));
    }
    let rows2 = find_all_rows(save_transition(s, title, content));
    assert forall|i: int| 0 <= i < rows2.len() implies ((#[trigger] rows2[i].id) == t.id <==> i
        == s.rows.len()) by {
        if i < s.rows.len() {
            assert(row_ok(s.rows[i], s.next_id));
            assert(rows2[i] == s.rows[i]);
        }
    }
}

/// Law: fetching the id a save assigned yields exactly the saved record.
pub proof fn lemma_find_saved(s: StoreView, title: Seq<char>, content: Seq<char>)
    requires
        store_wf(s),
    ensures
        find_row(save_transition(s, title, content).rows, s.next_id as i64) == Some(
            saved_row(s, title, content),
        ),
{
}

/// Law: fetching an id the store never assigned yields no record — and, by
/// `find_by_id`'s contract, an empty result rather than an error.
pub proof fn lemma_find_unassigned(s: StoreView, id: i64)
    requires
        store_wf(s),
        !(1 <= id < s.next_id),
    ensures
        find_row(s.rows, id) is None,
{
    assert forall|i: int| 0 <= i < s.rows.len() implies (#[trigger] s.rows[i].id) != Some(id) by {
        assert(row_ok(s.rows[i], s.next_id));
    }
    lemma_find_row_absent(s.rows, id);
}

proof fn lemma_find_row_absent(rows: Seq<TodoView>, id: i64)
    requires
        forall|i: int| 0 <= i < rows.len() ==> (#[trigger] rows[i].id) != Some(id),
    ensures
        find_row(rows, id) is None,
    decreases rows.len(),
{
    if rows.len() > 0 {
        assert(rows[rows.len() - 1].id != Some(id));
        let prefix = rows.drop_last();
        assert forall|i: int| 0 <= i < prefix.len() implies (#[trigger] prefix[i].id) != Some(
            id,
        ) by {
            assert(rows[i].id != Some(id));
        }
        lemma_find_row_absent(prefix, id);
    }
}

proof fn lemma_find_row_none_absent(rows: Seq<TodoView>, id: i64)
    requires
        find_row(rows, id) is None,
    ensures
        forall|i: int| 0 <= i < rows.len() ==> (#[trigger] rows[i].id) != Some(id),
    decreases rows.len(),
{
    if rows.len() > 0 {
        lemma_find_row_none_absent(rows.drop_last(), id);
        assert forall|i: int| 0 <= i < rows.len() implies (#[trigger] rows[i].id) != Some(id) by {
            if i < rows.len() - 1 {
                assert(rows.drop_last()[i].id != Some(id));
            }
        }
    }
}

proof fn lemma_remove_rows_all_kept(rows: Seq<TodoView>, id: i64)
    requires
        forall|i: int| 0 <= i < rows.len() ==> (#[trigger] rows[i].id) != Some(id),
    ensures
        remove_rows(rows, id) == rows,
    decreases rows.len(),
{
    if rows.len() > 0 {
        let prefix = rows.drop_last();
        assert forall|i: int| 0 <= i < prefix.len() implies (#[trigger] prefix[i].id) != Some(
            id,
        ) by {
            assert(rows[i].id != Some(id));
        }
        lemma_remove_rows_all_kept(prefix, id);
        assert(rows[rows.len() - 1].id != Some(id));
        assert(remove_rows(rows, id) =~= rows);
    }
}

/// Law: deleting an id that no record carries succeeds and changes nothing.
pub proof fn lemma_delete_absent(s: StoreView, id: i64)
    requires
        store_wf(s),
        find_row(s.rows, id) is None,
    ensures
        remove_transition(s, id) == s,
{
    lemma_find_row_none_absent(s.rows, id);
    lemma_remove_rows_all_kept(s.rows, id);
    assert(remove_transition(s, id) =~= s);
}

/// Law: deleting one id leaves every other id's lookup unchanged.
pub proof fn lemma_delete_preserves_others(s: StoreView, id: i64, other: i64)
    requires
        other != id,
    ensures
        find_row(remove_transition(s, id).rows, other) == find_row(s.rows, other),
{
    lemma_find_row_after_remove(s.rows, id, other);
}

proof fn lemma_find_row_after_remove(rows: Seq<TodoView>, id: i64, other: i64)
    requires
        other != id,
    ensures
        find_row(remove_rows(rows, id), other) == find_row(rows, other),
    decreases rows.len(),
{
    if rows.len() > 0 {
        let prefix = rows.drop_last();
        lemma_find_row_after_remove(prefix, id, other);
        if rows.last().id == Some(id) {
            assert(rows.last().id != Some(other));
        } else {
            let rest = remove_rows(prefix, id);
            assert(remove_rows(rows, id) == rest.push(rows.last()));
            assert(rest.push(rows.last()).last() == rows.last());
            assert(rest.push(rows.last()).drop_last() =~= rest);
        }
    }
}

/// Law: after deleting everything, fetching all yields the empty list.
pub proof fn lemma_delete_all_empty(s: StoreView)
    ensures
        find_all_rows(clear_transition(s)) == Seq::<TodoView>::empty(),
{
}

proof fn lemma_remove_rows_removes(rows: Seq<TodoView>, id: i64)
    ensures
        forall|i: int|
            0 <= i < remove_rows(rows, id).len() ==> (#[trigger] remove_rows(rows, id)[i].id)
                != Some(id),
    decreases rows.len(),
{
    if rows.len() > 0 {
        lemma_remove_rows_removes(rows.drop_last(), id);
        let rest = remove_rows(rows.drop_last(), id);
        if rows.last().id != Some(id) {
            assert forall|i: int| 0 <= i < remove_rows(rows, id).len() implies (
            #[trigger] remove_rows(rows, id)[i].id) != Some(id) by {
                if i < rest.len() {
                    assert(rest[i].id != Some(id));
                } else {
                    assert(remove_rows(rows, id)[i] == rows.last());
                }
            }
        }
    }
}

/// Law: deleting an id twice leaves the same store as deleting it once.
pub proof fn lemma_delete_idempotent(s: StoreView, id: i64)
    ensures
        remove_transition(remove_transition(s, id), id) == remove_transition(s, id),
{
    lemma_remove_rows_removes(s.rows, id);
    lemma_remove_rows_all_kept(remove_rows(s.rows, id), id);
    assert(remove_transition(remove_transition(s, id), id) =~= remove_transition(s, id));
}

} // verus!
