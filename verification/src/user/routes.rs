use std::collections::HashMap;
use vstd::prelude::*;

use super::{
    encodable_of, is_alphanumeric_text, random_alphanumeric, EncodableUser, User, UserError,
};
use crate::text::{clone_option, decimal, to_decimal};

verus! {

/// The account that GitHub's `/user` endpoint describes.
#[derive(Clone, Debug, PartialEq, Eq)]
pub struct GithubUser {
    pub email: Option<String>,
    pub name: Option<String>,
    pub login: String,
    pub id: i32,
    pub avatar_url: Option<String>,
}

/// The values with which a signing-in user is found or inserted.
#[derive(Clone, Debug, PartialEq, Eq)]
pub struct UserProfile {
    pub gh_id: i32,
    pub login: String,
    pub email: Option<String>,
    pub name: Option<String>,
    pub avatar: Option<String>,
    pub access_token: String,
    pub api_token: String,
}

/// The next thing that `GET /authorize` does.
#[derive(Debug)]
pub enum AccessTokenStep {
    /// Exchange the temporary code for an access token at GitHub.
    ExchangeCode(String),
    /// Fetch the account from GitHub's `/user` endpoint with the access token.
    FetchGithubUser(String),
    /// Find or insert the user with these values.
    StoreUser(UserProfile),
    /// Sign the user in: keep the decimal user id in the session under
    /// `user_id`, attach the user to the request and answer as `GET /me` does.
    SignIn { session_user_id: String, user: User },
    /// Answer with this error.
    Fail(UserError),
}

/// The body of `GET /me` (and of a successful `GET /authorize`): the user's
/// public part, in the documented form, and API token.
#[derive(Clone, Debug, PartialEq, Eq)]
pub struct MeBody {
    pub user: EncodableUser,
    pub api_token: String,
}

/// The queries of `GET /me/updates` once the page of versions is loaded.
#[derive(Clone, Debug, PartialEq, Eq)]
pub struct UpdatesPlan {
    /// The crates of the versions, to load by id; `None` where the page holds
    /// no version.
    pub load_crates: Option<Vec<i32>>,
    /// The offset of the next page, at which the query for more begins.
    pub more_offset: i64,
    /// The page size, the limit of the query for more.
    pub more_limit: i64,
}

/// The `code` and `state` of the query, each the empty string where missing.
pub open spec fn or_empty(o: Option<String>) -> Seq<char> {
    match o {
        Some(s) => s@,
        None => Seq::empty(),
    }
}

/// The crate names by id that a list of crate rows gives, a later row for an
/// id replacing an earlier one.
pub open spec fn names_by_id(crates: Seq<(i32, String)>) -> Map<i32, String>
    decreases crates.len(),
{
    if crates.len() == 0 {
        Map::empty()
    } else {
        names_by_id(crates.drop_last()).insert(crates.last().0, crates.last().1)
    }
}

/// A value given in the query is taken as it is; a missing one is empty.
pub proof fn lemma_or_empty(o: Option<String>)
    ensures
        o matches Some(s) ==> or_empty(o) == s@,
        o is None ==> or_empty(o).len() == 0,
{
}

fn string_or_empty(o: Option<String>) -> (s: String)
    ensures
        s@ == or_empty(o),
{
    match o {
        Some(s) => s,
        None => String::new(),
    }
}

/// Starts the GitHub OAuth flow: the random `state` secret, 16 ASCII letters
/// and digits, to keep in the session and hand to GitHub.
pub fn github_authorize() -> (state: String)
    ensures
        is_alphanumeric_text(state@, 16),
{
    random_alphanumeric(16)
}

/// Handles `GET /authorize` from its query and the OAuth state taken out of
/// the session: the code is exchanged when the query's `state` (empty where
/// missing) is the one in the session; otherwise the request fails.
pub fn github_access_token(
    code: Option<String>,
    state: Option<String>,
    session_state: Option<String>,
) -> (step: AccessTokenStep)
    ensures
        (session_state matches Some(s) && s@ == or_empty(state)) ==> (step matches AccessTokenStep::ExchangeCode(c)
            && c@ == or_empty(code)),
        !(session_state matches Some(s) && s@ == or_empty(state)) ==> (step matches AccessTokenStep::Fail(UserError::Human(m))
            && m@ == "invalid state parameter"@),
        (code is Some && session_state is Some && state is Some && session_state.unwrap()@
            == state.unwrap()@) ==> (step matches AccessTokenStep::ExchangeCode(x) && x@
            == code.unwrap()@),
        (code is None && session_state is Some && state is Some && session_state.unwrap()@
            == state.unwrap()@) ==> (step matches AccessTokenStep::ExchangeCode(x) && x@.len() == 0),
{
    let code = string_or_empty(code);
    let state = string_or_empty(state);
    let matches = match &session_state {
        Some(s) => *s == state,
        None => false,
    };
    if matches {
        AccessTokenStep::ExchangeCode(code)
    } else {
        AccessTokenStep::Fail(UserError::Human(String::from_str("invalid state parameter")))
    }
}

/// Continues `GET /authorize` once GitHub answered the code exchange: with the
/// access token, the account is fetched; a refusal is reported to the user.
pub fn github_code_exchanged(exchange: Result<String, String>) -> (step: AccessTokenStep)
    ensures
        match exchange {
            Ok(token) => step == AccessTokenStep::FetchGithubUser(token),
            Err(message) => step == AccessTokenStep::Fail(UserError::Human(message)),
        },
{
    match exchange {
        Ok(token) => AccessTokenStep::FetchGithubUser(token),
        Err(message) => AccessTokenStep::Fail(UserError::Human(message)),
    }
}

/// Continues `GET /authorize` once the account is fetched: the user is found
/// or inserted with the account's values, the access token and a new API
/// token.
pub fn github_user_fetched(account: Result<GithubUser, UserError>, access_token: String) -> (step:
    AccessTokenStep)
    ensures
        match account {
            Ok(gh) => step matches AccessTokenStep::StoreUser(p) && p.gh_id == gh.id && p.login
                == gh.login && p.email == gh.email && p.name == gh.name && p.avatar
                == gh.avatar_url && p.access_token == access_token && is_alphanumeric_text(
                p.api_token@,
                32,
            ),
            Err(e) => step == AccessTokenStep::Fail(e),
        },
{
    match account {
        Ok(gh) => {
            let api_token = User::new_api_token();
            AccessTokenStep::StoreUser(
                UserProfile {
                    gh_id: gh.id,
                    login: gh.login,
                    email: gh.email,
                    name: gh.name,
                    avatar: gh.avatar_url,
                    access_token,
                    api_token,
                },
            )
        },
        Err(e) => AccessTokenStep::Fail(e),
    }
}

/// Finishes `GET /authorize` once the user is stored: the user is signed in
/// with its id written in decimal.
pub fn github_user_stored(stored: Result<User, UserError>) -> (step: AccessTokenStep)
    ensures
        match stored {
            Ok(u) => step matches AccessTokenStep::SignIn { session_user_id, user } && user == u
                && session_user_id@ == decimal(u.id as int),
            Err(e) => step == AccessTokenStep::Fail(e),
        },
{
    match stored {
        Ok(user) => {
            let session_user_id = to_decimal(user.id);
            AccessTokenStep::SignIn { session_user_id, user }
        },
        Err(e) => AccessTokenStep::Fail(e),
    }
}

/// The body of `GET /me`: the user's email, name, login and avatar, a `url`
/// that is `null`, and the API token.
pub fn me(user: &User) -> (body: MeBody)
    ensures
        body.user == encodable_of(*user),
        body.user.email == user.email,
        body.user.name == user.name,
        body.user.login == user.gh_login,
        body.user.avatar == user.avatar,
        body.user.url == None::<String>,
        body.api_token == user.api_token,
{
    MeBody {
        user: EncodableUser {
            email: clone_option(&user.email),
            name: clone_option(&user.name),
            login: user.gh_login.clone(),
            avatar: clone_option(&user.avatar),
            url: None,
        },
        api_token: user.api_token.clone(),
    }
}

/// Plans `GET /me/updates` from the page (`offset`, `limit`) and the crate ids
/// of the versions loaded for it, in order: their crates are loaded where
/// there is any, and whether more follow is asked at the next offset.
pub fn updates(offset: i64, limit: i64, version_crate_ids: Vec<i32>) -> (plan: UpdatesPlan)
    requires
        i64::MIN <= offset + limit <= i64::MAX,
    ensures
        version_crate_ids@.len() > 0 ==> plan.load_crates == Some(version_crate_ids),
        version_crate_ids@.len() == 0 ==> plan.load_crates == None::<Vec<i32>>,
        plan.more_offset == offset + limit,
        plan.more_limit == limit,
{
    let load_crates = if version_crate_ids.len() > 0 {
        Some(version_crate_ids)
    } else {
        None
    };
    UpdatesPlan { load_crates, more_offset: offset + limit, more_limit: limit }
}

/// The crate names by id of the loaded crate rows.
pub fn crate_names(crates: &Vec<(i32, String)>) -> (names: HashMap<i32, String>)
    ensures
        names@ == names_by_id(crates@),
{
    broadcast use vstd::std_specs::hash::group_hash_axioms;

    let mut names: HashMap<i32, String> = HashMap::new();
    let mut i: usize = 0;
    while i < crates.len()
        invariant
            i <= crates@.len(),
            names@ == names_by_id(crates@.take(i as int)),
        decreases crates@.len() - i,
    {
        let (id, name) = &crates[i];
        names.insert(*id, name.clone());
        assert(crates@.take(i + 1).drop_last() =~= crates@.take(i as int));
        i = i + 1;
    }
    assert(crates@.take(crates@.len() as int) =~= crates@);
    names
}

/// The name of each version's crate, in the order of the versions.
pub fn version_crate_names(version_crate_ids: &Vec<i32>, names: &HashMap<i32, String>) -> (r: Vec<
    String,
>)
    requires
        forall|i: int|
            0 <= i < version_crate_ids@.len() ==> names@.contains_key(
                #[trigger] version_crate_ids@[i],
            ),
    ensures
        r@.len() == version_crate_ids@.len(),
        forall|i: int| 0 <= i < r@.len() ==> #[trigger] r@[i] == names@[version_crate_ids@[i]],
{
    broadcast use vstd::std_specs::hash::group_hash_axioms;

    let mut r: Vec<String> = Vec::new();
    let mut i: usize = 0;
    while i < version_crate_ids.len()
        invariant
            i <= version_crate_ids@.len(),
            r@.len() == i,
            forall|j: int| 0 <= j < i ==> #[trigger] r@[j] == names@[version_crate_ids@[j]],
            forall|j: int|
                0 <= j < version_crate_ids@.len() ==> names@.contains_key(
                    #[trigger] version_crate_ids@[j],
                ),
        decreases version_crate_ids@.len() - i,
    {
        let id = version_crate_ids[i];
        match names.get(&id) {
            Some(name) => r.push(name.clone()),
            None => {
                assert(names@.contains_key(version_crate_ids@[i as int]));
                assert(false);
            },
        }
        i = i + 1;
    }
    r
}

/// Where the crate rows carry distinct ids, each id names the crate of its row.
pub proof fn lemma_names_by_id_distinct(crates: Seq<(i32, String)>)
    requires
        forall|i: int, j: int|
            0 <= i < j < crates.len() ==> (#[trigger] crates[i]).0 != (#[trigger] crates[j]).0,
    ensures
        forall|i: int|
            0 <= i < crates.len() ==> names_by_id(crates).contains_key((#[trigger] crates[i]).0)
                && names_by_id(crates)[crates[i].0] == crates[i].1,
        forall|id: i32|
            names_by_id(crates).contains_key(id) ==> exists|i: int|
                0 <= i < crates.len() && (#[trigger] crates[i]).0 == id,
    decreases crates.len(),
{
    if crates.len() > 0 {
        let rest = crates.drop_last();
        lemma_names_by_id_distinct(rest);
        assert forall|i: int| 0 <= i < crates.len() implies names_by_id(crates).contains_key(
            (#[trigger] crates[i]).0,
        ) && names_by_id(crates)[crates[i].0] == crates[i].1 by {
            if i < crates.len() - 1 {
                assert(rest[i] == crates[i]);
                assert(crates[i].0 != crates[crates.len() - 1].0);
            }
        }
        assert forall|id: i32| names_by_id(crates).contains_key(id) implies exists|i: int|
            0 <= i < crates.len() && (#[trigger] crates[i]).0 == id by {
            if id != crates.last().0 {
                assert(names_by_id(rest).contains_key(id));
                let k = choose|k: int| 0 <= k < rest.len() && (#[trigger] rest[k]).0 == id;
                assert(crates[k] == rest[k]);
            } else {
                assert(crates[crates.len() - 1].0 == id);
            }
        }
    }
}

} // verus!
