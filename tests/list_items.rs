use todo_api::auth::{create_user_handler, get_user_by_email, AppState};
use todo_api::errors::{ApiError, ErrorClass};
use todo_api::list_api::{
    add_list_handler, create_list_item, delete_list_handler, get_list_by_id_handler, get_list_by_title,
    get_users_lists_handler, update_list_handler,
};
use todo_api::models::{
    CreateListSchema, CreateUserSchema, ListResponse, PaginationSchema, UpdateListSchema, UserModel,
};

const NOW: u64 = 1_700_000_000;

fn user(st: &mut AppState, name: &str, email: &str) -> UserModel {
    let body = CreateUserSchema {
        username: name.to_string(),
        email: email.to_string(),
        password: "pw".to_string(),
    };
    create_user_handler(st, body, NOW).unwrap();
    get_user_by_email(email, &st.users).unwrap()
}

fn item(title: &str) -> CreateListSchema {
    CreateListSchema {
        title: title.to_string(),
        descr: Some("weekly".to_string()),
        body: None,
        importance: "high".to_string(),
    }
}

fn pages(page: Option<usize>, page_size: Option<usize>, search: Option<&str>) -> PaginationSchema {
    PaginationSchema { page, page_size, search_title: search.map(|s| s.to_string()) }
}

#[test]
fn duplicate_title_conflicts_only_for_same_owner() {
    let mut st = AppState::new(b"k".to_vec());
    let u = user(&mut st, "u", "u@x.com");
    let u2 = user(&mut st, "u2", "u2@x.com");
    let first = add_list_handler(&mut st, &u, item("Groceries"), NOW).unwrap();
    assert_eq!(first.title, "Groceries");
    assert_eq!(first.user_id, u.id);
    assert_eq!(first.descr.as_deref(), Some("weekly"));
    assert_eq!(first.body.as_deref(), Some(""));
    let err = add_list_handler(&mut st, &u, item("Groceries"), NOW + 1).unwrap_err();
    assert_eq!(err, ApiError::TitleTaken);
    assert_eq!(err.class(), ErrorClass::Conflict);
    assert_eq!(err.status_code(), 406);
    let other = add_list_handler(&mut st, &u2, item("Groceries"), NOW + 2).unwrap();
    assert_eq!(other.user_id, u2.id);
    assert_eq!(st.lists.len(), 2);
    let found = get_list_by_title("Groceries", u2.id, &st.lists).unwrap();
    assert_eq!(found.id, other.id);
    assert!(get_list_by_title("groceries", u.id, &st.lists).is_none());
}

#[test]
fn pagination_of_fifteen_items() {
    let mut st = AppState::new(b"k".to_vec());
    let u = user(&mut st, "u", "u@x.com");
    for i in 1..=15 {
        add_list_handler(&mut st, &u, item(&format!("item {}", i)), NOW + i).unwrap();
    }
    let second_page = get_users_lists_handler(&st, &u, pages(Some(2), Some(10), None)).unwrap();
    let titles: Vec<String> = second_page.lists.iter().map(|l| l.title.clone()).collect();
    let expected: Vec<String> = (11..=15).map(|i| format!("item {}", i)).collect();
    assert_eq!(titles, expected);
    assert!(!second_page.has_more);
    assert_eq!(second_page.prev_page, Some(1));
    assert_eq!(second_page.next_page, None);
    assert_eq!(second_page.total_count, 15);
    let first_page = get_users_lists_handler(&st, &u, pages(Some(1), Some(10), None)).unwrap();
    let titles: Vec<String> = first_page.lists.iter().map(|l| l.title.clone()).collect();
    let expected: Vec<String> = (1..=10).map(|i| format!("item {}", i)).collect();
    assert_eq!(titles, expected);
    assert!(first_page.has_more);
    assert_eq!(first_page.next_page, Some(2));
    assert_eq!(first_page.prev_page, None);
    let defaults = get_users_lists_handler(&st, &u, pages(None, None, None)).unwrap();
    assert_eq!(defaults.lists.len(), 10);
    let beyond = get_users_lists_handler(&st, &u, pages(Some(3), Some(10), None)).unwrap();
    assert!(beyond.lists.is_empty());
    assert_eq!(beyond.total_count, 15);
    assert_eq!(beyond.prev_page, Some(2));
}

#[test]
fn pagination_rejects_page_zero_and_overflow() {
    let mut st = AppState::new(b"k".to_vec());
    let u = user(&mut st, "u", "u@x.com");
    let e = get_users_lists_handler(&st, &u, pages(Some(0), None, None)).unwrap_err();
    assert_eq!(e, ApiError::InvalidPagination);
    assert_eq!(e.class(), ErrorClass::Validation);
    let e = get_users_lists_handler(&st, &u, pages(Some(usize::MAX), Some(0), None)).unwrap_err();
    assert_eq!(e, ApiError::InvalidPagination);
    let e = get_users_lists_handler(&st, &u, pages(Some(usize::MAX), Some(2), None)).unwrap_err();
    assert_eq!(e, ApiError::InvalidPagination);
}

#[test]
fn search_is_case_insensitive_and_scoped_to_owner() {
    let mut st = AppState::new(b"k".to_vec());
    let u = user(&mut st, "u", "u@x.com");
    let v = user(&mut st, "v", "v@x.com");
    add_list_handler(&mut st, &u, item("Weekly GROCERIES"), NOW).unwrap();
    add_list_handler(&mut st, &u, item("Taxes"), NOW).unwrap();
    add_list_handler(&mut st, &v, item("groceries too"), NOW).unwrap();
    let found = get_users_lists_handler(&st, &u, pages(None, None, Some("groc"))).unwrap();
    assert_eq!(found.total_count, 1);
    assert_eq!(found.lists[0].title, "Weekly GROCERIES");
    let none = get_users_lists_handler(&st, &u, pages(None, None, Some("zzz"))).unwrap();
    assert_eq!(none.total_count, 0);
    assert!(!none.has_more);
}

#[test]
fn title_only_update_keeps_other_fields() {
    let mut st = AppState::new(b"k".to_vec());
    let u = user(&mut st, "u", "u@x.com");
    let created = add_list_handler(&mut st, &u, item("Groceries"), NOW).unwrap();
    let patch = UpdateListSchema {
        title: Some("Shopping".to_string()),
        descr: None,
        body: None,
        importance: None,
        id: created.id,
    };
    let updated: ListResponse = update_list_handler(&mut st, patch, NOW + 60).unwrap();
    assert_eq!(updated.title, "Shopping");
    assert_eq!(updated.descr, created.descr);
    assert_eq!(updated.body, created.body);
    assert_eq!(updated.importance, created.importance);
    assert_eq!(updated.created_at, created.created_at);
    assert_eq!(updated.updated_at, Some(NOW + 60));
    assert!(updated.updated_at > created.updated_at);
    let stored = get_list_by_id_handler(&st, created.id).unwrap();
    assert_eq!(stored.title, "Shopping");
}

#[test]
fn update_with_empty_text_overwrites() {
    let mut st = AppState::new(b"k".to_vec());
    let u = user(&mut st, "u", "u@x.com");
    let created = add_list_handler(&mut st, &u, item("Groceries"), NOW).unwrap();
    let patch = UpdateListSchema {
        title: None,
        descr: Some(String::new()),
        body: Some("milk".to_string()),
        importance: Some("low".to_string()),
        id: created.id,
    };
    let updated = update_list_handler(&mut st, patch, NOW + 1).unwrap();
    assert_eq!(updated.title, "Groceries");
    assert_eq!(updated.descr.as_deref(), Some(""));
    assert_eq!(updated.body.as_deref(), Some("milk"));
    assert_eq!(updated.importance, "low");
}

#[test]
fn missing_items_are_not_found() {
    let mut st = AppState::new(b"k".to_vec());
    let e = get_list_by_id_handler(&st, 42).unwrap_err();
    assert_eq!(e, ApiError::ListToReadNotFound);
    assert_eq!(e.status_code(), 404);
    assert_eq!(e.message(), "Cannot retrieve this list item");
    let patch = UpdateListSchema { title: None, descr: None, body: None, importance: None, id: 42 };
    let e = update_list_handler(&mut st, patch, NOW).unwrap_err();
    assert_eq!(e, ApiError::ListToUpdateNotFound);
    assert_eq!(e.status_code(), 404);
    assert_eq!(e.message(), "Cannot find this list");
    let e = delete_list_handler(&mut st, 42).unwrap_err();
    assert_eq!(e, ApiError::ListNotFound);
    assert_eq!(e.status_code(), 404);
    assert_eq!(e.message(), "List not found");
}

#[test]
fn delete_removes_exactly_one_item() {
    let mut st = AppState::new(b"k".to_vec());
    let u = user(&mut st, "u", "u@x.com");
    let a = add_list_handler(&mut st, &u, item("a"), NOW).unwrap();
    let b = add_list_handler(&mut st, &u, item("b"), NOW).unwrap();
    assert_eq!(delete_list_handler(&mut st, a.id), Ok(()));
    assert_eq!(st.lists.len(), 1);
    assert_eq!(get_list_by_id_handler(&st, a.id).unwrap_err(), ApiError::ListToReadNotFound);
    assert_eq!(get_list_by_id_handler(&st, b.id).unwrap().title, "b");
    assert_eq!(delete_list_handler(&mut st, a.id), Err(ApiError::ListNotFound));
}

#[test]
fn page_size_zero_gives_empty_page_with_counts() {
    let mut st = AppState::new(b"k".to_vec());
    let u = user(&mut st, "u", "u@x.com");
    for i in 1..=3 {
        add_list_handler(&mut st, &u, item(&format!("item {}", i)), NOW).unwrap();
    }
    let first = get_users_lists_handler(&st, &u, pages(Some(1), Some(0), None)).unwrap();
    assert!(first.lists.is_empty());
    assert_eq!(first.total_count, 3);
    assert!(first.has_more);
    assert_eq!(first.next_page, Some(2));
    assert_eq!(first.prev_page, None);
}

#[test]
fn importance_outside_three_values_is_refused() {
    let mut st = AppState::new(b"k".to_vec());
    let u = user(&mut st, "u", "u@x.com");
    let mut bad = item("Groceries");
    bad.importance = "urgent".to_string();
    let e = add_list_handler(&mut st, &u, bad, NOW).unwrap_err();
    assert_eq!(e, ApiError::InvalidImportance);
    assert_eq!(e.class(), ErrorClass::Validation);
    assert_eq!(e.status_code(), 400);
    assert_eq!(st.lists.len(), 0);
    let mut medium = item("Groceries");
    medium.importance = "medium".to_string();
    let created = add_list_handler(&mut st, &u, medium, NOW).unwrap();
    let patch = UpdateListSchema {
        title: Some("Shopping".to_string()),
        descr: None,
        body: None,
        importance: Some("High".to_string()),
        id: created.id,
    };
    assert_eq!(update_list_handler(&mut st, patch, NOW + 1).unwrap_err(), ApiError::InvalidImportance);
    let stored = get_list_by_id_handler(&st, created.id).unwrap();
    assert_eq!(stored, created);
}

#[test]
fn update_to_a_title_the_owner_has_conflicts() {
    let mut st = AppState::new(b"k".to_vec());
    let u = user(&mut st, "u", "u@x.com");
    let v = user(&mut st, "v", "v@x.com");
    let a = add_list_handler(&mut st, &u, item("Groceries"), NOW).unwrap();
    let b = add_list_handler(&mut st, &u, item("Taxes"), NOW).unwrap();
    let c = add_list_handler(&mut st, &v, item("Chores"), NOW).unwrap();
    let to_groceries = |id| UpdateListSchema {
        title: Some("Groceries".to_string()),
        descr: None,
        body: None,
        importance: None,
        id,
    };
    let e = update_list_handler(&mut st, to_groceries(b.id), NOW + 1).unwrap_err();
    assert_eq!(e, ApiError::TitleTaken);
    assert_eq!(get_list_by_id_handler(&st, b.id).unwrap(), b);
    // keeping one's own title, or taking another owner's, is fine
    assert_eq!(update_list_handler(&mut st, to_groceries(a.id), NOW + 2).unwrap().title, "Groceries");
    assert_eq!(update_list_handler(&mut st, to_groceries(c.id), NOW + 3).unwrap().title, "Groceries");
}

#[test]
fn create_with_given_id_is_exact() {
    let mut st = AppState::new(b"k".to_vec());
    let u = user(&mut st, "u", "u@x.com");
    let v = user(&mut st, "v", "v@x.com");
    let a = create_list_item(&mut st, &u, item("Groceries"), 7, NOW).unwrap();
    assert_eq!(a.id, 7);
    assert_eq!(a.user_id, u.id);
    assert_eq!(a.created_at, Some(NOW));
    assert_eq!(a.updated_at, Some(NOW));
    let e = create_list_item(&mut st, &v, item("Taxes"), 7, NOW).unwrap_err();
    assert_eq!(e, ApiError::StorageFailure);
    assert_eq!(e.class(), ErrorClass::Internal);
    assert_eq!(st.lists.len(), 1);
    let e = create_list_item(&mut st, &u, item("Groceries"), 8, NOW).unwrap_err();
    assert_eq!(e, ApiError::TitleTaken);
    let b = create_list_item(&mut st, &v, item("Groceries"), 8, NOW).unwrap();
    assert_eq!(b.user_id, v.id);
    assert_eq!(st.lists.len(), 2);
}
