//! The list-item operations of an authenticated user: create, page through,
//! fetch, update and delete.

use vstd::prelude::*;
use crate::auth::{new_record_id, AppState};
use crate::errors::ApiError;
use crate::lists::{
    find_list, first_with_title, has_list_id, has_title, matching, update_items,
    update_outcome, window, ListRepository,
};
use crate::models::{
    CreateListSchema, ListModel, ListResponse, PaginationSchema, UpdateListSchema, UserModel,
    list_response_of, valid_importance,
};

verus! {

/// The page returned when none is asked for.
pub const DEFAULT_PAGE: usize = 1;

/// The page size used when none is asked for.
pub const DEFAULT_PAGE_SIZE: usize = 10;

/// The earliest item of `user_id` titled exactly `title`.
pub fn get_list_by_title(title: &str, user_id: u128, lists: &ListRepository) -> (r: Option<
    ListModel,
>)
    ensures
        r == first_with_title(lists@, user_id, title@),
{
    lists.find_by_title(title, user_id)
}

/// `l` is the item that creating `body` for `owner` at time `now` stores: an
/// absent description or body is stored as the empty string.
pub open spec fn created_item(l: ListModel, owner: u128, body: CreateListSchema, now: u64) -> bool {
    &&& l.title@ == body.title@
    &&& l.user_id == owner
    &&& match body.descr {
        Some(d) => l.descr matches Some(x) && x@ == d@,
        None => l.descr matches Some(x) && x@.len() == 0,
    }
    &&& match body.body {
        Some(b) => l.body matches Some(x) && x@ == b@,
        None => l.body matches Some(x) && x@.len() == 0,
    }
    &&& l.importance@ == body.importance@
    &&& l.created_at == Some(now)
    &&& l.updated_at == Some(now)
}

fn text_or_empty(o: Option<String>) -> (r: String)
    ensures
        match o {
            Some(s) => r@ == s@,
            None => r@.len() == 0,
        },
{
    match o {
        Some(s) => s,
        None => String::new(),
    }
}

/// What creating `body` for `owner` with id `id` answers: an importance
/// other than `high`, `medium` or `low` is invalid, a title the owner already
/// has a conflict, a taken id a storage failure.
pub open spec fn create_outcome(
    lists: Seq<ListModel>,
    owner: u128,
    body: CreateListSchema,
    id: u128,
) -> Result<(), ApiError> {
    if !valid_importance(body.importance@) {
        Err(ApiError::InvalidImportance)
    } else if has_title(lists, owner, body.title@) {
        Err(ApiError::TitleTaken)
    } else if has_list_id(lists, id) {
        Err(ApiError::StorageFailure)
    } else {
        Ok(())
    }
}

/// Creates the list item `body` for `current_user` with id `id` at time
/// `now`; a failure changes nothing.
pub fn create_list_item(
    state: &mut AppState,
    current_user: &UserModel,
    body: CreateListSchema,
    id: u128,
    now: u64,
) -> (r: Result<ListModel, ApiError>)
    requires
        old(state).wf(),
    ensures
        final(state).wf(),
        final(state).users@ == old(state).users@,
        final(state).otps@ == old(state).otps@,
        final(state).jwt_secret@ == old(state).jwt_secret@,
        match create_outcome(old(state).lists@, current_user.id, body, id) {
            Err(e) => r == Err::<ListModel, ApiError>(e) && final(state).lists@ == old(
                state,
            ).lists@,
            Ok(()) => r matches Ok(l) && l.id == id && created_item(l, current_user.id, body, now)
                && final(state).lists@ == old(state).lists@.push(l),
        },
{
    let row = ListModel {
        id,
        title: body.title,
        user_id: current_user.id,
        descr: Some(text_or_empty(body.descr)),
        body: Some(text_or_empty(body.body)),
        importance: body.importance,
        created_at: Some(now),
        updated_at: Some(now),
    };
    let result = row.duplicate();
    match state.lists.insert(row) {
        Ok(()) => Ok(result),
        Err(e) => Err(e),
    }
}

/// Creates a list item for `current_user` at time `now` under a fresh random
/// id. An importance other than `high`, `medium` or `low` is invalid; a title
/// the user already has is a conflict, while other users' titles do not
/// matter. Storing fails only when the random id collides, which needs an
/// existing item. A failure changes nothing.
pub fn add_list_handler(
    state: &mut AppState,
    current_user: &UserModel,
    body: CreateListSchema,
    now: u64,
) -> (r: Result<ListModel, ApiError>)
    requires
        old(state).wf(),
    ensures
        final(state).wf(),
        final(state).users@ == old(state).users@,
        final(state).otps@ == old(state).otps@,
        final(state).jwt_secret@ == old(state).jwt_secret@,
        !valid_importance(body.importance@) ==> r == Err::<ListModel, ApiError>(
            ApiError::InvalidImportance,
        ),
        valid_importance(body.importance@) && has_title(
            old(state).lists@,
            current_user.id,
            body.title@,
        ) ==> r == Err::<ListModel, ApiError>(ApiError::TitleTaken),
        valid_importance(body.importance@) && !has_title(
            old(state).lists@,
            current_user.id,
            body.title@,
        ) ==> r is Ok || r == Err::<ListModel, ApiError>(ApiError::StorageFailure),
        r == Err::<ListModel, ApiError>(ApiError::StorageFailure) ==> old(state).lists@.len() > 0,
        r is Err ==> final(state).lists@ == old(state).lists@,
        r matches Ok(l) ==> final(state).lists@ == old(state).lists@.push(l) && created_item(
            l,
            current_user.id,
            body,
            now,
        ),
{
    let id = new_record_id();
    create_list_item(state, current_user, body, id, now)
}

/// The item with this id, whoever owns it: reads are not restricted to the
/// owner.
pub fn get_list_by_id_handler(state: &AppState, id: u128) -> (r: Result<ListModel, ApiError>)
    requires
        state.wf(),
    ensures
        match find_list(state.lists@, id) {
            Some(l) => r == Ok::<ListModel, ApiError>(l),
            None => r == Err::<ListModel, ApiError>(ApiError::ListToReadNotFound),
        },
{
    match state.lists.find_by_id(id) {
        Some(l) => Ok(l),
        None => Err(ApiError::ListToReadNotFound),
    }
}

/// One page of a user's items and where it stands among all of them.
#[derive(Debug)]
pub struct ListPage {
    pub lists: Vec<ListModel>,
    pub has_more: bool,
    pub next_page: Option<usize>,
    pub prev_page: Option<usize>,
    pub total_count: usize,
}

/// The requested page number, 1 when absent.
pub open spec fn page_number(p: PaginationSchema) -> int {
    match p.page {
        Some(n) => n as int,
        None => DEFAULT_PAGE as int,
    }
}

/// The requested page size, 10 when absent.
pub open spec fn page_size(p: PaginationSchema) -> int {
    match p.page_size {
        Some(n) => n as int,
        None => DEFAULT_PAGE_SIZE as int,
    }
}

/// The requested title filter, empty (matching every title) when absent.
pub open spec fn search_text(p: PaginationSchema) -> Seq<char> {
    match p.search_title {
        Some(s) => s@,
        None => Seq::empty(),
    }
}

/// How many items precede the requested page.
pub open spec fn page_offset(p: PaginationSchema) -> int {
    (page_number(p) - 1) * page_size(p)
}

/// Pages are numbered from 1, the number of the next page fits a `usize`,
/// and so does the offset of the page.
pub open spec fn valid_pagination(p: PaginationSchema) -> bool {
    1 <= page_number(p) < usize::MAX && page_offset(p) <= usize::MAX
}

/// The page described by `p` of `owner`'s items among `lists`.
pub open spec fn page_of(lists: Seq<ListModel>, owner: u128, p: PaginationSchema) -> Seq<ListModel> {
    window(matching(lists, owner, search_text(p)), page_offset(p), page_size(p))
}

/// Whether items follow the page described by `p`, given `total` in all.
pub open spec fn more_after(total: int, p: PaginationSchema) -> bool {
    total > page_offset(p) + page_size(p)
}

/// Returns the requested page of `current_user`'s items whose titles contain
/// the search text, ignoring case (all of them for an empty search), with
/// the total count and the neighbouring page numbers. A page size of zero
/// gives an empty page with the counts.
pub fn get_users_lists_handler(
    state: &AppState,
    current_user: &UserModel,
    pagination: PaginationSchema,
) -> (r: Result<ListPage, ApiError>)
    requires
        state.wf(),
    ensures
        !valid_pagination(pagination) ==> r == Err::<ListPage, ApiError>(
            ApiError::InvalidPagination,
        ),
        valid_pagination(pagination) ==> r is Ok,
        r matches Ok(pg) ==> {
            let total = matching(state.lists@, current_user.id, search_text(pagination)).len();
            &&& pg.lists@ == page_of(state.lists@, current_user.id, pagination)
            &&& pg.total_count == total
            &&& pg.has_more == more_after(total as int, pagination)
            &&& pg.next_page == if pg.has_more {
                Some((page_number(pagination) + 1) as usize)
            } else {
                None::<usize>
            }
            &&& pg.prev_page == if page_number(pagination) > 1 {
                Some((page_number(pagination) - 1) as usize)
            } else {
                None::<usize>
            }
        },
{
    let ghost p = pagination;
    let page = match pagination.page {
        Some(n) => n,
        None => DEFAULT_PAGE,
    };
    let size = match pagination.page_size {
        Some(n) => n,
        None => DEFAULT_PAGE_SIZE,
    };
    if page == 0 || page == usize::MAX {
        return Err(ApiError::InvalidPagination);
    }
    let offset = match (page - 1).checked_mul(size) {
        Some(o) => o,
        None => {
            return Err(ApiError::InvalidPagination);
        },
    };
    let search = match pagination.search_title {
        Some(s) => s,
        None => String::new(),
    };
    let (lists, total) = state.lists.search_page(current_user.id, search.as_str(), offset, size);
    let has_more = total > offset && total - offset > size;
    let next_page = if has_more {
        Some(page + 1)
    } else {
        None
    };
    let prev_page = if page > 1 {
        Some(page - 1)
    } else {
        None
    };
    Ok(ListPage { lists, has_more, next_page, prev_page, total_count: total })
}

/// Applies a partial update at time `now` to the item `body.id`, whoever
/// owns it: supplied fields replace stored ones, absent fields keep them. An
/// invalid importance, or a title another item of the same owner has, is
/// refused with nothing changed.
pub fn update_list_handler(state: &mut AppState, body: UpdateListSchema, now: u64) -> (r: Result<
    ListResponse,
    ApiError,
>)
    requires
        old(state).wf(),
    ensures
        final(state).wf(),
        final(state).users@ == old(state).users@,
        final(state).otps@ == old(state).otps@,
        final(state).jwt_secret@ == old(state).jwt_secret@,
        match update_outcome(old(state).lists@, body, now) {
            Ok(l) => r == Ok::<ListResponse, ApiError>(list_response_of(l)) && final(state).lists@
                == update_items(old(state).lists@, body, now),
            Err(e) => r == Err::<ListResponse, ApiError>(e) && final(state).lists@ == old(
                state,
            ).lists@,
        },
{
    match state.lists.update(body, now) {
        Ok(l) => Ok(ListResponse::from(l)),
        Err(e) => Err(e),
    }
}

/// Deletes the item with this id, whoever owns it.
pub fn delete_list_handler(state: &mut AppState, id: u128) -> (r: Result<(), ApiError>)
    requires
        old(state).wf(),
    ensures
        final(state).wf(),
        final(state).users@ == old(state).users@,
        final(state).otps@ == old(state).otps@,
        final(state).jwt_secret@ == old(state).jwt_secret@,
        has_list_id(old(state).lists@, id) <==> r is Ok,
        r is Err ==> r == Err::<(), ApiError>(ApiError::ListNotFound) && final(state).lists@ == old(
            state,
        ).lists@,
        r is Ok ==> exists|k: int|
            0 <= k < old(state).lists@.len() && #[trigger] old(state).lists@[k].id == id
                && final(state).lists@ == old(state).lists@.remove(k),
{
    if state.lists.remove(id) {
        Ok(())
    } else {
        Err(ApiError::ListNotFound)
    }
}

} // verus!
