use resource_core::auth::{authenticate, AccessError, AuthContext};
use resource_core::ceil_div;
use resource_core::filter::{plan_page_authorized, Filter};
use resource_core::page::{assemble_page, get_page_authorized, OwnedRecord, PageResult};
use resource_core::user::UserRole;

fn user_ctx(id: &str) -> AuthContext {
    AuthContext { user_id: id.to_string(), role: UserRole::User, application_scoped: false }
}

fn admin_ctx(id: &str) -> AuthContext {
    AuthContext { user_id: id.to_string(), role: UserRole::Admin, application_scoped: false }
}

fn store(spec: &[(&str, &str)]) -> Vec<OwnedRecord<String>> {
    spec.iter()
        .map(|(owner, name)| OwnedRecord {
            owner_id: owner.to_string(),
            record: name.to_string(),
        })
        .collect()
}

fn names(p: &PageResult<OwnedRecord<String>>) -> Vec<String> {
    p.items.iter().map(|e| e.record.clone()).collect()
}

fn twelve() -> Vec<OwnedRecord<String>> {
    let rows: Vec<(String, String)> =
        (0..12).map(|i| ("u1".to_string(), format!("r{}", i))).collect();
    rows.into_iter()
        .map(|(owner, name)| OwnedRecord { owner_id: owner, record: name })
        .collect()
}

#[test]
fn role_order_is_the_defined_total_order() {
    assert!(UserRole::User.satisfies(UserRole::User));
    assert!(!UserRole::User.satisfies(UserRole::Admin));
    assert!(UserRole::Admin.satisfies(UserRole::User));
    assert!(UserRole::Admin.satisfies(UserRole::Admin));
    assert!(user_ctx("u1").satisfies(UserRole::User));
    assert!(!user_ctx("u1").satisfies(UserRole::Admin));
    assert!(admin_ctx("a").satisfies(UserRole::Admin));
}

#[test]
fn elevation_needs_admin_without_owner_scoped_token() {
    assert!(!user_ctx("u1").is_elevated());
    assert!(admin_ctx("a").is_elevated());
    let scoped = AuthContext {
        user_id: "a".to_string(),
        role: UserRole::Admin,
        application_scoped: true,
    };
    assert!(!scoped.is_elevated());
}

#[test]
fn missing_credentials_are_an_authentication_error() {
    assert_eq!(authenticate(None).unwrap_err(), AccessError::Authentication);
    let ctx = authenticate(Some(user_ctx("u1"))).unwrap();
    assert_eq!(ctx.user_id, "u1");
}

#[test]
fn capability_gate_passes_at_or_above_the_minimum_role() {
    assert!(user_ctx("u1").require_role(UserRole::User).is_ok());
    assert_eq!(
        user_ctx("u1").require_role(UserRole::Admin).unwrap_err(),
        AccessError::Authorization
    );
    assert!(admin_ctx("a").require_role(UserRole::User).is_ok());
    assert!(admin_ctx("a").require_role(UserRole::Admin).is_ok());
}

#[test]
fn owner_resolution_enforces_ownership() {
    let me = "@me".to_string();
    let u1 = user_ctx("u1");
    assert_eq!(u1.resolve_owner(&me).unwrap(), "u1");
    assert_eq!(u1.effective_owner_id().as_str(), "u1");
    // A caller naming its own literal id is treated exactly like the
    // sentinel.
    assert_eq!(u1.resolve_owner(&"u1".to_string()).unwrap(), "u1");
    assert_eq!(
        u1.resolve_owner(&"u2".to_string()),
        Err(AccessError::Authorization)
    );
    let admin = admin_ctx("a");
    assert_eq!(admin.resolve_owner(&"u2".to_string()).unwrap(), "u2");
    let scoped = AuthContext {
        user_id: "a".to_string(),
        role: UserRole::Admin,
        application_scoped: true,
    };
    assert_eq!(
        scoped.resolve_owner(&"u2".to_string()),
        Err(AccessError::Authorization)
    );
}

#[test]
fn empty_store_gives_an_empty_first_page() {
    let p = get_page_authorized(1, 5, store(&[]), &"@me".to_string(), &user_ctx("u1")).unwrap();
    assert!(p.items.is_empty());
    assert_eq!(p.page, 1);
    assert_eq!(p.total_pages, 0);
    assert_eq!(p.total_items, 0);
}

#[test]
fn twelve_items_paginate_as_five_five_two() {
    let me = "@me".to_string();
    let ctx = user_ctx("u1");

    let p1 = get_page_authorized(1, 5, twelve(), &me, &ctx).unwrap();
    assert_eq!(names(&p1), ["r0", "r1", "r2", "r3", "r4"]);
    assert_eq!((p1.total_items, p1.total_pages, p1.page), (12, 3, 1));

    let p2 = get_page_authorized(2, 5, twelve(), &me, &ctx).unwrap();
    assert_eq!(names(&p2), ["r5", "r6", "r7", "r8", "r9"]);

    let p3 = get_page_authorized(3, 5, twelve(), &me, &ctx).unwrap();
    assert_eq!(names(&p3), ["r10", "r11"]);

    // A page past the end is empty with the computed totals, not an error.
    let p4 = get_page_authorized(4, 5, twelve(), &me, &ctx).unwrap();
    assert!(p4.items.is_empty());
    assert_eq!((p4.total_items, p4.total_pages, p4.page), (12, 3, 4));
}

#[test]
fn zero_page_number_or_size_is_a_validation_error() {
    let me = "@me".to_string();
    let ctx = user_ctx("u1");
    assert_eq!(
        get_page_authorized(0, 5, twelve(), &me, &ctx).unwrap_err(),
        AccessError::Validation
    );
    assert_eq!(
        get_page_authorized(1, 0, twelve(), &me, &ctx).unwrap_err(),
        AccessError::Validation
    );
}

#[test]
fn ownership_is_enforced_and_elevation_bypasses_it() {
    let rows = [
        ("u1", "a"),
        ("u2", "x"),
        ("u1", "b"),
        ("u2", "y"),
        ("u1", "c"),
    ];

    // A non-elevated caller sees its own records through the sentinel.
    let own = get_page_authorized(1, 5, store(&rows), &"@me".to_string(), &user_ctx("u1"))
        .unwrap();
    assert_eq!(names(&own), ["a", "b", "c"]);

    // Naming another user's literal id fails explicitly.
    assert_eq!(
        get_page_authorized(1, 5, store(&rows), &"u2".to_string(), &user_ctx("u1"))
            .unwrap_err(),
        AccessError::Authorization
    );

    // An elevated caller gets exactly the named user's records.
    let others = get_page_authorized(1, 5, store(&rows), &"u2".to_string(), &admin_ctx("a"))
        .unwrap();
    assert_eq!(names(&others), ["x", "y"]);
    assert_eq!(others.total_items, 2);
}

#[test]
fn ceil_div_matches_page_counts() {
    assert_eq!(ceil_div(0, 5), 0);
    assert_eq!(ceil_div(1, 5), 1);
    assert_eq!(ceil_div(10, 5), 2);
    assert_eq!(ceil_div(12, 5), 3);
}

#[test]
fn assemble_page_checks_the_store_answers() {
    let five: Vec<u32> = vec![1, 2, 3, 4, 5];
    let p = assemble_page(five, 12, 1, 5).unwrap();
    assert_eq!((p.total_items, p.total_pages, p.page), (12, 3, 1));
    assert_eq!(p.items, [1, 2, 3, 4, 5]);

    let beyond: Vec<u32> = vec![];
    let p4 = assemble_page(beyond, 12, 4, 5).unwrap();
    assert!(p4.items.is_empty());
    assert_eq!(p4.total_pages, 3);

    // Answers that break the pagination invariant are a store failure.
    let too_many: Vec<u32> = vec![1, 2, 3, 4, 5, 6];
    assert_eq!(assemble_page(too_many, 12, 1, 5).unwrap_err(), AccessError::Store);
    let phantom: Vec<u32> = vec![9];
    assert_eq!(assemble_page(phantom, 12, 4, 5).unwrap_err(), AccessError::Store);

    let nothing: Vec<u32> = vec![];
    assert_eq!(assemble_page(nothing, 12, 0, 5).unwrap_err(), AccessError::Validation);
}

#[test]
fn query_plans_window_and_narrow() {
    let ctx = user_ctx("u1");
    let plan = plan_page_authorized(3, 5, None, &"@me".to_string(), &ctx).unwrap();
    assert_eq!(plan.offset, 10);
    assert_eq!(plan.limit, 5);
    match &plan.filter {
        Filter::Eq(col, val) => {
            assert_eq!(col, "user_id");
            assert_eq!(val, "u1");
        }
        _ => panic!("expected a bare ownership filter"),
    }

    let extra = Filter::Eq("album_id".to_string(), "al".to_string());
    let narrowed = plan_page_authorized(1, 5, Some(extra), &"@me".to_string(), &ctx).unwrap();
    assert!(matches!(narrowed.filter, Filter::All(_, _)));

    assert_eq!(
        plan_page_authorized(0, 5, None, &"@me".to_string(), &ctx).unwrap_err(),
        AccessError::Validation
    );
    assert_eq!(
        plan_page_authorized(1, 5, None, &"u2".to_string(), &ctx).unwrap_err(),
        AccessError::Authorization
    );

    // An offset past the 64-bit range saturates.
    let far = plan_page_authorized(u64::MAX, u64::MAX, None, &"@me".to_string(), &ctx).unwrap();
    assert_eq!(far.offset, u64::MAX);
}
