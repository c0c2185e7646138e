//! The list repository: list items of every user, in the order created,
//! with lookup by id or by (owner, title), partial update, and paged,
//! case-insensitive title search.

use vstd::prelude::*;
use crate::errors::ApiError;
use crate::models::{ListModel, UpdateListSchema, is_valid_importance, valid_importance};
use crate::text::{contains_seq, lower_of, title_matches};

verus! {

/// No two items share an id.
pub open spec fn list_ids_unique(s: Seq<ListModel>) -> bool {
    forall|i: int, j: int|
        0 <= i < s.len() && 0 <= j < s.len() && i != j ==> #[trigger] s[i].id != #[trigger] s[j].id
}

/// No owner has two items with the same title.
pub open spec fn titles_unique(s: Seq<ListModel>) -> bool {
    forall|i: int, j: int|
        0 <= i < s.len() && 0 <= j < s.len() && i != j && s[i].user_id == s[j].user_id
            ==> #[trigger] s[i].title@ != #[trigger] s[j].title@
}

/// Every item's importance is `high`, `medium` or `low`.
pub open spec fn importances_valid(s: Seq<ListModel>) -> bool {
    forall|i: int| 0 <= i < s.len() ==> valid_importance(#[trigger] s[i].importance@)
}

/// Some item has the id `id`.
pub open spec fn has_list_id(s: Seq<ListModel>, id: u128) -> bool {
    exists|i: int| 0 <= i < s.len() && #[trigger] s[i].id == id
}

/// The item with id `id`, if any.
pub open spec fn find_list(s: Seq<ListModel>, id: u128) -> Option<ListModel> {
    if has_list_id(s, id) {
        Some(s[choose|i: int| 0 <= i < s.len() && #[trigger] s[i].id == id])
    } else {
        None
    }
}

/// The item is owned by `owner` and titled `title`.
pub open spec fn owned_with_title(l: ListModel, owner: u128, title: Seq<char>) -> bool {
    l.user_id == owner && l.title@ == title
}

/// `owner` already has an item titled `title`.
pub open spec fn has_title(s: Seq<ListModel>, owner: u128, title: Seq<char>) -> bool {
    exists|i: int| 0 <= i < s.len() && #[trigger] owned_with_title(s[i], owner, title)
}

/// The earliest item of `owner` titled `title`.
pub open spec fn first_with_title(s: Seq<ListModel>, owner: u128, title: Seq<char>) -> Option<
    ListModel,
>
    decreases s.len(),
{
    if s.len() == 0 {
        None
    } else if owned_with_title(s[0], owner, title) {
        Some(s[0])
    } else {
        first_with_title(s.drop_first(), owner, title)
    }
}

/// The item is owned by `owner` and either `search` is empty or the title
/// contains it, both folded to lower case.
pub open spec fn list_matches(l: ListModel, owner: u128, search: Seq<char>) -> bool {
    l.user_id == owner && (search.len() == 0 || contains_seq(lower_of(l.title@), lower_of(search)))
}

/// The items of `owner` that match `search`, in stored order.
pub open spec fn matching(s: Seq<ListModel>, owner: u128, search: Seq<char>) -> Seq<ListModel>
    decreases s.len(),
{
    if s.len() == 0 {
        Seq::empty()
    } else {
        let m = matching(s.drop_last(), owner, search);
        if list_matches(s.last(), owner, search) {
            m.push(s.last())
        } else {
            m
        }
    }
}

/// The window of `m` that starts at `offset` and holds at most `limit` items.
pub open spec fn window(m: Seq<ListModel>, offset: int, limit: int) -> Seq<ListModel> {
    if offset >= m.len() {
        Seq::empty()
    } else if offset + limit <= m.len() {
        m.subrange(offset, offset + limit)
    } else {
        m.subrange(offset, m.len() as int)
    }
}

/// `l` after the partial update `patch` at time `now`: supplied fields
/// replace stored ones, absent fields keep them.
pub open spec fn apply_update(l: ListModel, patch: UpdateListSchema, now: u64) -> ListModel {
    ListModel {
        title: match patch.title {
            Some(t) => t,
            None => l.title,
        },
        descr: match patch.descr {
            Some(d) => Some(d),
            None => l.descr,
        },
        body: match patch.body {
            Some(b) => Some(b),
            None => l.body,
        },
        importance: match patch.importance {
            Some(i) => i,
            None => l.importance,
        },
        updated_at: Some(now),
        ..l
    }
}

/// What inserting `row` answers: an importance outside the three values is
/// invalid, a title its owner already has a conflict, a duplicate id a
/// storage failure.
pub open spec fn list_insert_outcome(s: Seq<ListModel>, row: ListModel) -> Result<(), ApiError> {
    if !valid_importance(row.importance@) {
        Err(ApiError::InvalidImportance)
    } else if has_title(s, row.user_id, row.title@) {
        Err(ApiError::TitleTaken)
    } else if has_list_id(s, row.id) {
        Err(ApiError::StorageFailure)
    } else {
        Ok(())
    }
}

/// Another item than `l` of `l`'s owner is titled `t`.
pub open spec fn title_clash(s: Seq<ListModel>, l: ListModel, t: Seq<char>) -> bool {
    exists|i: int| 0 <= i < s.len() && s[i].id != l.id && #[trigger] owned_with_title(s[i], l.user_id, t)
}

/// What applying `patch` at time `now` answers: the updated item, or why
/// it is refused.
pub open spec fn update_outcome(s: Seq<ListModel>, patch: UpdateListSchema, now: u64) -> Result<
    ListModel,
    ApiError,
> {
    match find_list(s, patch.id) {
        None => Err(ApiError::ListToUpdateNotFound),
        Some(l) => if (patch.importance matches Some(i) && !valid_importance(i@)) {
            Err(ApiError::InvalidImportance)
        } else if (patch.title matches Some(t) && title_clash(s, l, t@)) {
            Err(ApiError::TitleTaken)
        } else {
            Ok(apply_update(l, patch, now))
        },
    }
}

/// The items after updating the one with id `patch.id`.
pub open spec fn update_items(s: Seq<ListModel>, patch: UpdateListSchema, now: u64) -> Seq<
    ListModel,
> {
    Seq::new(
        s.len(),
        |i: int| if s[i].id == patch.id { apply_update(s[i], patch, now) } else { s[i] },
    )
}

/// A uniquely keyed item is the one `find_list` names.
pub proof fn lemma_find_list_at(s: Seq<ListModel>, k: int)
    requires
        list_ids_unique(s),
        0 <= k < s.len(),
    ensures
        find_list(s, s[k].id) == Some(s[k]),
{
    assert(has_list_id(s, s[k].id));
}

/// `first_with_title` finds an item exactly when one exists.
pub proof fn lemma_first_with_title(s: Seq<ListModel>, owner: u128, title: Seq<char>)
    ensures
        first_with_title(s, owner, title) is Some <==> has_title(s, owner, title),
        first_with_title(s, owner, title) matches Some(l) ==> owned_with_title(l, owner, title),
    decreases s.len(),
{
    if s.len() > 0 {
        lemma_first_with_title(s.drop_first(), owner, title);
        if has_title(s.drop_first(), owner, title) {
            let i = choose|i: int|
                0 <= i < s.drop_first().len() && #[trigger] owned_with_title(
                    s.drop_first()[i],
                    owner,
                    title,
                );
            assert(owned_with_title(s[i + 1], owner, title));
        }
        if has_title(s, owner, title) && !owned_with_title(s[0], owner, title) {
            let i = choose|i: int| 0 <= i < s.len() && #[trigger] owned_with_title(s[i], owner, title);
            assert(owned_with_title(s.drop_first()[i - 1], owner, title));
        }
    }
}

/// Once an item has been created for its owner, creating its title again
/// for the same owner is a conflict, while whether another owner may create
/// that title is exactly as before.
pub proof fn lemma_title_conflict_is_per_owner(s: Seq<ListModel>, row: ListModel, other: u128, title: Seq<char>)
    requires
        other != row.user_id,
    ensures
        has_title(s.push(row), row.user_id, row.title@),
        has_title(s.push(row), other, title) == has_title(s, other, title),
{
    let t = s.push(row);
    assert(owned_with_title(t[s.len() as int], row.user_id, row.title@));
    if has_title(s, other, title) {
        let i = choose|i: int| 0 <= i < s.len() && #[trigger] owned_with_title(s[i], other, title);
        assert(owned_with_title(t[i], other, title));
    }
    if has_title(t, other, title) {
        let i = choose|i: int| 0 <= i < t.len() && #[trigger] owned_with_title(t[i], other, title);
        assert(owned_with_title(s[i], other, title));
    }
}

/// An update that supplies only a title replaces the title and stamps the
/// update time with `now`, later than any earlier stamp; description, body,
/// importance, owner, id and creation time stay as they were.
pub proof fn lemma_title_only_update(l: ListModel, patch: UpdateListSchema, now: u64)
    requires
        patch.title is Some,
        patch.descr is None,
        patch.body is None,
        patch.importance is None,
    ensures
        apply_update(l, patch, now).title == patch.title->0,
        apply_update(l, patch, now).descr == l.descr,
        apply_update(l, patch, now).body == l.body,
        apply_update(l, patch, now).importance == l.importance,
        apply_update(l, patch, now).id == l.id,
        apply_update(l, patch, now).user_id == l.user_id,
        apply_update(l, patch, now).created_at == l.created_at,
        apply_update(l, patch, now).updated_at == Some(now),
        forall|t: u64| l.updated_at == Some(t) && t < now ==> apply_update(l, patch, now).updated_at->0 > t,
{
}

/// The list items of all users.
pub struct ListRepository {
    rows: Vec<ListModel>,
}

impl View for ListRepository {
    type V = Seq<ListModel>;

    closed spec fn view(&self) -> Seq<ListModel> {
        self.rows@
    }
}

impl ListRepository {
    pub open spec fn wf(&self) -> bool {
        list_ids_unique(self@) && titles_unique(self@) && importances_valid(self@)
    }

    /// An empty repository.
    pub fn new() -> (r: Self)
        ensures
            r@ == Seq::<ListModel>::empty(),
            r.wf(),
    {
        ListRepository { rows: Vec::new() }
    }

    /// The number of items of all users.
    pub fn len(&self) -> (r: usize)
        ensures
            r == self@.len(),
    {
        self.rows.len()
    }

    fn index_of_id(&self, id: u128) -> (r: Option<usize>)
        ensures
            match r {
                Some(k) => k < self@.len() && self@[k as int].id == id,
                None => !has_list_id(self@, id),
            },
    {
        let mut i: usize = 0;
        while i < self.rows.len()
            invariant
                i <= self.rows@.len(),
                forall|j: int| 0 <= j < i ==> self.rows@[j].id != id,
            decreases self.rows@.len() - i,
        {
            if self.rows[i].id == id {
                return Some(i);
            }
            i = i + 1;
        }
        None
    }

    /// The item with this id, whoever owns it.
    pub fn find_by_id(&self, id: u128) -> (r: Option<ListModel>)
        requires
            self.wf(),
        ensures
            r == find_list(self@, id),
    {
        match self.index_of_id(id) {
            Some(k) => {
                proof {
                    lemma_find_list_at(self@, k as int);
                }
                Some(self.rows[k].duplicate())
            },
            None => None,
        }
    }

    /// The earliest item of `user_id` titled exactly `title`.
    pub fn find_by_title(&self, title: &str, user_id: u128) -> (r: Option<ListModel>)
        ensures
            r == first_with_title(self@, user_id, title@),
    {
        let t = title.to_string();
        let mut i: usize = 0;
        proof {
            assert(self.rows@.subrange(0, self.rows@.len() as int) =~= self.rows@);
        }
        while i < self.rows.len()
            invariant
                i <= self.rows@.len(),
                t@ == title@,
                first_with_title(self.rows@.subrange(i as int, self.rows@.len() as int), user_id, title@)
                    == first_with_title(self.rows@, user_id, title@),
            decreases self.rows@.len() - i,
        {
            let ghost rest = self.rows@.subrange(i as int, self.rows@.len() as int);
            assert(rest.drop_first() =~= self.rows@.subrange(i + 1, self.rows@.len() as int));
            assert(rest[0] == self.rows@[i as int]);
            if self.rows[i].user_id == user_id && self.rows[i].title == t {
                return Some(self.rows[i].duplicate());
            }
            i = i + 1;
        }
        None
    }

    fn title_taken_by_other(&self, owner: u128, title: &String, id: u128) -> (r: bool)
        ensures
            r == exists|i: int|
                0 <= i < self@.len() && self@[i].id != id && #[trigger] owned_with_title(
                    self@[i],
                    owner,
                    title@,
                ),
    {
        let mut i: usize = 0;
        while i < self.rows.len()
            invariant
                i <= self.rows@.len(),
                forall|j: int|
                    0 <= j < i ==> !(self.rows@[j].id != id && #[trigger] owned_with_title(
                        self.rows@[j],
                        owner,
                        title@,
                    )),
            decreases self.rows@.len() - i,
        {
            if self.rows[i].id != id && self.rows[i].user_id == owner && self.rows[i].title
                == *title {
                assert(owned_with_title(self.rows@[i as int], owner, title@));
                return true;
            }
            i = i + 1;
        }
        false
    }

    /// Adds `row` unless its importance is invalid, its owner already has its
    /// title, or its id is taken; on failure nothing changes.
    pub fn insert(&mut self, row: ListModel) -> (r: Result<(), ApiError>)
        requires
            old(self).wf(),
        ensures
            final(self).wf(),
            r == list_insert_outcome(old(self)@, row),
            r is Ok ==> final(self)@ == old(self)@.push(row),
            r is Err ==> final(self)@ == old(self)@,
    {
        if !is_valid_importance(row.importance.as_str()) {
            return Err(ApiError::InvalidImportance);
        }
        let existing = self.find_by_title(row.title.as_str(), row.user_id);
        proof {
            lemma_first_with_title(self@, row.user_id, row.title@);
        }
        if existing.is_some() {
            return Err(ApiError::TitleTaken);
        }
        if self.index_of_id(row.id).is_some() {
            return Err(ApiError::StorageFailure);
        }
        self.rows.push(row);
        proof {
            let s = self.rows@;
            let o = old(self)@;
            assert forall|i: int, j: int|
                0 <= i < s.len() && 0 <= j < s.len() && i != j implies #[trigger] s[i].id
                != #[trigger] s[j].id by {
                if i == s.len() - 1 {
                    assert(!(o[j].id == row.id));
                } else if j == s.len() - 1 {
                    assert(!(o[i].id == row.id));
                }
            }
            assert forall|i: int, j: int|
                0 <= i < s.len() && 0 <= j < s.len() && i != j && s[i].user_id == s[j].user_id
                    implies #[trigger] s[i].title@ != #[trigger] s[j].title@ by {
                if i == s.len() - 1 {
                    assert(!owned_with_title(o[j], row.user_id, row.title@));
                } else if j == s.len() - 1 {
                    assert(!owned_with_title(o[i], row.user_id, row.title@));
                }
            }
            assert forall|i: int| 0 <= i < s.len() implies valid_importance(
                #[trigger] s[i].importance@,
            ) by {
                if i < o.len() {
                    assert(s[i] == o[i]);
                }
            }
        }
        Ok(())
    }

    /// Applies `patch` to the item with id `patch.id` at time `now` and
    /// returns the updated item. A missing item, an invalid importance, or a
    /// title another item of the same owner has is refused, with nothing
    /// changed.
    pub fn update(&mut self, patch: UpdateListSchema, now: u64) -> (r: Result<ListModel, ApiError>)
        requires
            old(self).wf(),
        ensures
            final(self).wf(),
            r == update_outcome(old(self)@, patch, now),
            r is Ok ==> final(self)@ == update_items(old(self)@, patch, now),
            r is Err ==> final(self)@ == old(self)@,
    {
        let ghost p = patch;
        let k = match self.index_of_id(patch.id) {
            None => {
                return Err(ApiError::ListToUpdateNotFound);
            },
            Some(k) => k,
        };
        proof {
            lemma_find_list_at(self@, k as int);
        }
        let l = self.rows[k].duplicate();
        let importance = match patch.importance {
            Some(i) => {
                if !is_valid_importance(i.as_str()) {
                    return Err(ApiError::InvalidImportance);
                }
                i
            },
            None => l.importance,
        };
        let title = match patch.title {
            Some(t) => {
                if self.title_taken_by_other(l.user_id, &t, l.id) {
                    return Err(ApiError::TitleTaken);
                }
                t
            },
            None => l.title,
        };
        let descr = match patch.descr {
            Some(d) => Some(d),
            None => l.descr,
        };
        let body = match patch.body {
            Some(b) => Some(b),
            None => l.body,
        };
        let updated = ListModel {
            id: l.id,
            title,
            user_id: l.user_id,
            descr,
            body,
            importance,
            created_at: l.created_at,
            updated_at: Some(now),
        };
        let result = updated.duplicate();
        self.rows.set(k, updated);
        proof {
            let s = old(self)@;
            let t = self@;
            assert(t[k as int] == apply_update(l, p, now));
            assert forall|i: int| 0 <= i < s.len() && i != k implies s[i].id != p.id by {
                assert(s[i].id != s[k as int].id);
            }
            assert(t =~= update_items(s, p, now));
            assert forall|i: int, j: int|
                0 <= i < t.len() && 0 <= j < t.len() && i != j implies #[trigger] t[i].id
                != #[trigger] t[j].id by {
                assert(s[i].id != s[j].id);
            }
            assert forall|i: int, j: int|
                0 <= i < t.len() && 0 <= j < t.len() && i != j && t[i].user_id == t[j].user_id
                    implies #[trigger] t[i].title@ != #[trigger] t[j].title@ by {
                if i == k {
                    assert(s[j].id != l.id);
                    if p.title is Some {
                        assert(!owned_with_title(s[j], l.user_id, p.title->0@));
                    } else {
                        assert(s[i].title@ != s[j].title@);
                    }
                } else if j == k {
                    assert(s[i].id != l.id);
                    if p.title is Some {
                        assert(!owned_with_title(s[i], l.user_id, p.title->0@));
                    } else {
                        assert(s[i].title@ != s[j].title@);
                    }
                } else {
                    assert(s[i].title@ != s[j].title@);
                }
            }
            assert forall|i: int| 0 <= i < t.len() implies valid_importance(
                #[trigger] t[i].importance@,
            ) by {
                if i != k {
                    assert(t[i] == s[i]);
                } else {
                    assert(valid_importance(s[k as int].importance@));
                }
            }
        }
        Ok(result)
    }

    /// Deletes the item with this id, whoever owns it; `false`, with nothing
    /// changed, when there is no such item.
    pub fn remove(&mut self, id: u128) -> (r: bool)
        requires
            old(self).wf(),
        ensures
            final(self).wf(),
            r == has_list_id(old(self)@, id),
            !r ==> final(self)@ == old(self)@,
            r ==> exists|k: int|
                0 <= k < old(self)@.len() && #[trigger] old(self)@[k].id == id && final(self)@
                    == old(self)@.remove(k),
    {
        match self.index_of_id(id) {
            None => false,
            Some(k) => {
                let _ = self.rows.remove(k);
                proof {
                    let s = old(self)@;
                    let t = self@;
                    assert(t =~= s.remove(k as int));
                    assert forall|i: int, j: int|
                        0 <= i < t.len() && 0 <= j < t.len() && i != j implies #[trigger] t[i].id
                        != #[trigger] t[j].id by {
                        let si = if i < k { i } else { i + 1 };
                        let sj = if j < k { j } else { j + 1 };
                        assert(t[i] == s[si]);
                        assert(t[j] == s[sj]);
                    }
                    assert forall|i: int, j: int|
                        0 <= i < t.len() && 0 <= j < t.len() && i != j && t[i].user_id
                            == t[j].user_id implies #[trigger] t[i].title@ != #[trigger] t[j].title@ by {
                        let si = if i < k { i } else { i + 1 };
                        let sj = if j < k { j } else { j + 1 };
                        assert(t[i] == s[si]);
                        assert(t[j] == s[sj]);
                    }
                    assert forall|i: int| 0 <= i < t.len() implies valid_importance(
                        #[trigger] t[i].importance@,
                    ) by {
                        let si = if i < k { i } else { i + 1 };
                        assert(t[i] == s[si]);
                    }
                    assert(s[k as int].id == id);
                }
                true
            },
        }
    }

    /// The items of `owner` whose titles contain `search` (ignoring case),
    /// in stored order: the window starting at `offset` of at most `limit`
    /// of them, and how many there are in all.
    pub fn search_page(&self, owner: u128, search: &str, offset: usize, limit: usize) -> (r: (
        Vec<ListModel>,
        usize,
    ))
        ensures
            r.0@ == window(matching(self@, owner, search@), offset as int, limit as int),
            r.1 == matching(self@, owner, search@).len(),
    {
        let mut found: Vec<ListModel> = Vec::new();
        let mut i: usize = 0;
        while i < self.rows.len()
            invariant
                i <= self.rows@.len(),
                found@ == matching(self.rows@.subrange(0, i as int), owner, search@),
                found@.len() <= i,
            decreases self.rows@.len() - i,
        {
            let ghost prefix = self.rows@.subrange(0, i + 1);
            assert(prefix.drop_last() =~= self.rows@.subrange(0, i as int));
            assert(prefix.last() == self.rows@[i as int]);
            if self.rows[i].user_id == owner && title_matches(self.rows[i].title.as_str(), search) {
                found.push(self.rows[i].duplicate());
            }
            i = i + 1;
        }
        proof {
            assert(self.rows@.subrange(0, self.rows@.len() as int) =~= self.rows@);
        }
        let total = found.len();
        let mut page: Vec<ListModel> = Vec::new();
        if offset < total {
            let end = if limit <= total - offset {
                offset + limit
            } else {
                total
            };
            let mut j: usize = offset;
            while j < end
                invariant
                    offset <= j <= end <= found@.len(),
                    page@ == found@.subrange(offset as int, j as int),
                decreases end - j,
            {
                page.push(found[j].duplicate());
                j = j + 1;
                proof {
                    assert(page@ =~= found@.subrange(offset as int, j as int));
                }
            }
        }
        proof {
            let m = matching(self@, owner, search@);
            if offset >= m.len() {
                assert(page@ =~= window(m, offset as int, limit as int));
            }
        }
        (page, total)
    }
}

} // verus!
