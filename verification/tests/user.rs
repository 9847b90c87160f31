use cargo_registry::user::routes::{
    crate_names, github_access_token, github_authorize, github_code_exchanged,
    github_user_fetched, github_user_stored, me, updates, version_crate_names, AccessTokenStep,
    GithubUser,
};
use cargo_registry::user::{
    CreateOrUpdate, EncodableUser, FindOrInsert, NewUser, User, UserError,
};

fn user(id: i32, login: &str) -> User {
    User {
        id,
        email: Some(format!("{}@example.org", login)),
        gh_access_token: format!("gho_{}", login),
        api_token: format!("api_{}", login),
        gh_login: login.to_string(),
        name: Some(login.to_uppercase()),
        avatar: None,
        gh_id: id + 1000,
    }
}

fn alphanumeric(s: &str) -> bool {
    s.chars().all(|c| c.is_ascii_alphanumeric())
}

#[test]
fn new_user_keeps_its_fields() {
    let n = NewUser::new(7, "foo", Some("f@x"), None, Some("av"), "tok", "api");
    assert_eq!(n.gh_id, 7);
    assert_eq!(n.gh_login, "foo");
    assert_eq!(n.email, Some("f@x"));
    assert_eq!(n.name, None);
    assert_eq!(n.gh_avatar, Some("av"));
    assert_eq!(n.gh_access_token, "tok");
    assert_eq!(n.api_token, "api");
}

#[test]
fn create_or_update_returns_inserted_row() {
    let n = NewUser::new(7, "foo", None, None, None, "tok", "api");
    match n.create_or_update(Some(user(1, "foo"))) {
        CreateOrUpdate::Inserted(u) => assert_eq!(u, user(1, "foo")),
        other => panic!("unexpected {:?}", other),
    }
}

#[test]
fn create_or_update_updates_on_conflict() {
    let n = NewUser::new(7, "foo", None, None, None, "tok", "api");
    match n.create_or_update(None) {
        CreateOrUpdate::UpdateWhereGhId(id) => assert_eq!(id, 7),
        other => panic!("unexpected {:?}", other),
    }
}

#[test]
fn find_by_login_takes_first_row() {
    assert_eq!(User::find_by_login(vec![user(1, "a"), user(2, "b")]), Ok(user(1, "a")));
    assert_eq!(User::find_by_login(vec![]), Err(UserError::NotFound));
}

#[test]
fn find_by_api_token_takes_first_row() {
    assert_eq!(User::find_by_api_token(vec![user(3, "c")]), Ok(user(3, "c")));
    assert_eq!(User::find_by_api_token(vec![]), Err(UserError::NotFound));
}

#[test]
fn find_or_insert_uses_updated_row_or_inserts() {
    match User::find_or_insert(vec![user(4, "d")]) {
        FindOrInsert::Found(u) => assert_eq!(u, user(4, "d")),
        other => panic!("unexpected {:?}", other),
    }
    assert!(matches!(User::find_or_insert(vec![]), FindOrInsert::Insert));
}

#[test]
fn find_or_insert_without_inserted_row_is_internal_error() {
    assert_eq!(User::find_or_insert_inserted(vec![user(5, "e")]), Ok(user(5, "e")));
    assert_eq!(
        User::find_or_insert_inserted(vec![]),
        Err(UserError::Internal("no user with email we just found".to_string()))
    );
}

#[test]
fn new_api_token_is_32_alphanumerics() {
    let t = User::new_api_token();
    assert_eq!(t.len(), 32);
    assert!(alphanumeric(&t));
    assert_ne!(t, User::new_api_token());
}

#[test]
fn encodable_hides_tokens() {
    let e = user(9, "nine").encodable();
    assert_eq!(
        e,
        EncodableUser {
            email: Some("nine@example.org".to_string()),
            name: Some("NINE".to_string()),
            login: "nine".to_string(),
            avatar: None,
            url: None,
        }
    );
}

#[test]
fn authorize_state_is_16_alphanumerics() {
    let s = github_authorize();
    assert_eq!(s.len(), 16);
    assert!(alphanumeric(&s));
}

#[test]
fn access_token_exchanges_code_when_state_matches() {
    match github_access_token(Some("c0de".into()), Some("st".into()), Some("st".into())) {
        AccessTokenStep::ExchangeCode(c) => assert_eq!(c, "c0de"),
        other => panic!("unexpected {:?}", other),
    }
    match github_access_token(None, None, Some(String::new())) {
        AccessTokenStep::ExchangeCode(c) => assert_eq!(c, ""),
        other => panic!("unexpected {:?}", other),
    }
}

#[test]
fn access_token_refuses_wrong_or_missing_state() {
    let invalid = UserError::Human("invalid state parameter".to_string());
    for (state, session) in [
        (Some("a"), Some("b")),
        (Some("a"), None),
        (None, None),
        (None, Some("x")),
    ] {
        match github_access_token(
            Some("c".into()),
            state.map(String::from),
            session.map(String::from),
        ) {
            AccessTokenStep::Fail(e) => assert_eq!(e, invalid),
            other => panic!("unexpected {:?}", other),
        }
    }
}

#[test]
fn code_exchange_result_decides_next_step() {
    match github_code_exchanged(Ok("gho_x".into())) {
        AccessTokenStep::FetchGithubUser(t) => assert_eq!(t, "gho_x"),
        other => panic!("unexpected {:?}", other),
    }
    match github_code_exchanged(Err("bad_verification_code".into())) {
        AccessTokenStep::Fail(e) => {
            assert_eq!(e, UserError::Human("bad_verification_code".to_string()))
        }
        other => panic!("unexpected {:?}", other),
    }
}

#[test]
fn fetched_account_is_stored_with_new_token() {
    let gh = GithubUser {
        email: Some("foo@bar.org".into()),
        name: Some("Foo Bar".into()),
        login: "foobar".into(),
        id: 1234,
        avatar_url: Some("https://avatars.githubusercontent.com/u/1234".into()),
    };
    match github_user_fetched(Ok(gh), "gho_tok".into()) {
        AccessTokenStep::StoreUser(p) => {
            assert_eq!(p.gh_id, 1234);
            assert_eq!(p.login, "foobar");
            assert_eq!(p.email.as_deref(), Some("foo@bar.org"));
            assert_eq!(p.name.as_deref(), Some("Foo Bar"));
            assert_eq!(
                p.avatar.as_deref(),
                Some("https://avatars.githubusercontent.com/u/1234")
            );
            assert_eq!(p.access_token, "gho_tok");
            assert_eq!(p.api_token.len(), 32);
            assert!(alphanumeric(&p.api_token));
        }
        other => panic!("unexpected {:?}", other),
    }
    match github_user_fetched(Err(UserError::Upstream("down".into())), "t".into()) {
        AccessTokenStep::Fail(e) => assert_eq!(e, UserError::Upstream("down".into())),
        other => panic!("unexpected {:?}", other),
    }
}

#[test]
fn stored_user_is_signed_in_by_decimal_id() {
    match github_user_stored(Ok(user(42, "x"))) {
        AccessTokenStep::SignIn { session_user_id, user: u } => {
            assert_eq!(session_user_id, "42");
            assert_eq!(u, user(42, "x"));
        }
        other => panic!("unexpected {:?}", other),
    }
    match github_user_stored(Err(UserError::NotFound)) {
        AccessTokenStep::Fail(e) => assert_eq!(e, UserError::NotFound),
        other => panic!("unexpected {:?}", other),
    }
}

#[test]
fn me_shows_user_and_api_token() {
    let u = user(3, "three");
    let body = me(&u);
    assert_eq!(body.api_token, "api_three");
    assert_eq!(body.user, u.clone().encodable());
    assert_eq!(body.user.login, "three");
    assert_eq!(body.user.email.as_deref(), Some("three@example.org"));
    assert_eq!(body.user.url, None);
}

#[test]
fn updates_plans_crate_load_and_next_page() {
    let plan = updates(20, 10, vec![5, 6, 5]);
    assert_eq!(plan.load_crates, Some(vec![5, 6, 5]));
    assert_eq!(plan.more_offset, 30);
    assert_eq!(plan.more_limit, 10);
    let plan = updates(0, 100, vec![]);
    assert_eq!(plan.load_crates, None);
    assert_eq!(plan.more_offset, 100);
}

#[test]
fn crate_names_later_row_wins() {
    let names = crate_names(&vec![(1, "a".to_string()), (2, "b".to_string()), (1, "c".to_string())]);
    assert_eq!(names.len(), 2);
    assert_eq!(names[&1], "c");
    assert_eq!(names[&2], "b");
}

#[test]
fn versions_get_their_crate_names_in_order() {
    let names = crate_names(&vec![(5, "serde".to_string()), (6, "rand".to_string())]);
    assert_eq!(
        version_crate_names(&vec![6, 5, 6], &names),
        vec!["rand".to_string(), "serde".to_string(), "rand".to_string()]
    );
    assert!(version_crate_names(&vec![], &names).is_empty());
}
