use rand::distributions::DistString;
use vstd::prelude::*;

pub mod routes;

verus! {

/// A row of the `users` table.
#[derive(Clone, Debug, PartialEq, Eq)]
pub struct User {
    pub id: i32,
    pub email: Option<String>,
    pub gh_access_token: String,
    pub api_token: String,
    pub gh_login: String,
    pub name: Option<String>,
    pub avatar: Option<String>,
    pub gh_id: i32,
}

/// The values written to the `users` table when a GitHub user signs in.
pub struct NewUser<'a> {
    pub gh_id: i32,
    pub gh_login: &'a str,
    pub email: Option<&'a str>,
    pub name: Option<&'a str>,
    pub gh_avatar: Option<&'a str>,
    pub gh_access_token: &'a str,
    pub api_token: &'a str,
}

/// What is shown of a user to others, in the documented form: email, name,
/// login, avatar and a `url` that is always absent (`null`); no id and no
/// token of theirs.
#[derive(Clone, Debug, PartialEq, Eq)]
pub struct EncodableUser {
    pub email: Option<String>,
    pub name: Option<String>,
    pub login: String,
    pub avatar: Option<String>,
    pub url: Option<String>,
}

/// Why a user operation failed.
#[derive(Clone, Debug, PartialEq, Eq)]
pub enum UserError {
    /// No row matched.
    NotFound,
    /// A failure to report to the user, with its message.
    Human(String),
    /// A failure of the server, with its message.
    Internal(String),
    /// A failure that the database or GitHub reported, with its message.
    Upstream(String),
}

/// What `create_or_update` does once the insertion that skips conflicts has run.
#[derive(Debug)]
pub enum CreateOrUpdate {
    /// The row was inserted; this is the user.
    Inserted(User),
    /// A row with this GitHub id already exists: update it with the new values
    /// and return it.
    UpdateWhereGhId(i32),
}

/// What `find_or_insert` does once the update by GitHub id has run.
#[derive(Debug)]
pub enum FindOrInsert {
    /// The update matched this row.
    Found(User),
    /// No row has the GitHub id: insert one.
    Insert,
}

/// The public part of a user.
pub open spec fn encodable_of(u: User) -> EncodableUser {
    EncodableUser { email: u.email, name: u.name, login: u.gh_login, avatar: u.avatar, url: None }
}

/// The public part of a user keeps its email, name, login and avatar as they
/// are, and has no `url`.
pub proof fn lemma_encodable_keeps_public_fields(u: User)
    ensures
        encodable_of(u).email == u.email,
        encodable_of(u).name == u.name,
        encodable_of(u).login == u.gh_login,
        encodable_of(u).avatar == u.avatar,
        encodable_of(u).url == None::<String>,
{
}

/// An ASCII letter or digit: `A`-`Z`, `a`-`z` or `0`-`9`.
pub open spec fn is_alphanumeric(c: char) -> bool {
    let v = c as u32;
    (48 <= v <= 57) || (65 <= v <= 90) || (97 <= v <= 122)
}

/// `len` ASCII letters and digits.
pub open spec fn is_alphanumeric_text(s: Seq<char>, len: nat) -> bool {
    &&& s.len() == len
    &&& forall|i: int| 0 <= i < s.len() ==> is_alphanumeric(#[trigger] s[i])
}

/// Calls `rand::distributions::DistString::sample_string` of the `Alphanumeric`
/// distribution with `rand::thread_rng()`. Claimed, as rand documents it: `len`
/// characters, each an ASCII letter or digit. Which ones is left open: they
/// are random.
#[verifier::external_body]
pub(crate) fn random_alphanumeric(len: usize) -> (s: String)
    ensures
        is_alphanumeric_text(s@, len as nat),
{
    rand::distributions::Alphanumeric.sample_string(&mut rand::thread_rng(), len)
}

/// The first of the rows a query returned, or `err` when it returned none.
fn first_row(rows: Vec<User>, err: UserError) -> (r: Result<User, UserError>)
    ensures
        rows@.len() > 0 ==> r == Ok::<User, UserError>(rows@[0]),
        rows@.len() == 0 ==> r == Err::<User, UserError>(err),
{
    let mut rows = rows;
    if rows.len() > 0 {
        Ok(rows.swap_remove(0))
    } else {
        Err(err)
    }
}

impl<'a> NewUser<'a> {
    pub fn new(
        gh_id: i32,
        gh_login: &'a str,
        email: Option<&'a str>,
        name: Option<&'a str>,
        gh_avatar: Option<&'a str>,
        gh_access_token: &'a str,
        api_token: &'a str,
    ) -> (n: Self)
        ensures
            n == (NewUser {
                gh_id,
                gh_login,
                email,
                name,
                gh_avatar,
                gh_access_token,
                api_token,
            }),
    {
        NewUser { gh_id, gh_login, email, name, gh_avatar, gh_access_token, api_token }
    }

    /// Inserts the user, or updates the existing one: given the row that the
    /// insertion skipping conflicts returned, if any, says whether that row is
    /// the user or the row with the same GitHub id is to be updated.
    pub fn create_or_update(&self, inserted: Option<User>) -> (step: CreateOrUpdate)
        ensures
            match inserted {
                Some(u) => step == CreateOrUpdate::Inserted(u),
                None => step == CreateOrUpdate::UpdateWhereGhId(self.gh_id),
            },
    {
        match inserted {
            Some(u) => CreateOrUpdate::Inserted(u),
            None => CreateOrUpdate::UpdateWhereGhId(self.gh_id),
        }
    }
}

impl User {
    /// The user with a certain `gh_login`, given the rows the query by login
    /// returned: the first of them, or `NotFound`.
    pub fn find_by_login(rows: Vec<User>) -> (r: Result<User, UserError>)
        ensures
            rows@.len() > 0 ==> r == Ok::<User, UserError>(rows@[0]),
            rows@.len() == 0 ==> r == Err::<User, UserError>(UserError::NotFound),
    {
        first_row(rows, UserError::NotFound)
    }

    /// The user with a certain `api_token`, given the rows the query by token
    /// returned: the first of them, or `NotFound`.
    pub fn find_by_api_token(rows: Vec<User>) -> (r: Result<User, UserError>)
        ensures
            rows@.len() > 0 ==> r == Ok::<User, UserError>(rows@[0]),
            rows@.len() == 0 ==> r == Err::<User, UserError>(UserError::NotFound),
    {
        first_row(rows, UserError::NotFound)
    }

    /// Updates a user or inserts a new one: given the rows that the update by
    /// GitHub id returned, the updated user, or the decision to insert.
    pub fn find_or_insert(updated: Vec<User>) -> (step: FindOrInsert)
        ensures
            updated@.len() > 0 ==> step == FindOrInsert::Found(updated@[0]),
            updated@.len() == 0 ==> step == FindOrInsert::Insert,
    {
        let mut updated = updated;
        if updated.len() > 0 {
            FindOrInsert::Found(updated.swap_remove(0))
        } else {
            FindOrInsert::Insert
        }
    }

    /// The user that the insertion of `find_or_insert` returned: the first row,
    /// or an internal error when there is none.
    pub fn find_or_insert_inserted(inserted: Vec<User>) -> (r: Result<User, UserError>)
        ensures
            inserted@.len() > 0 ==> r == Ok::<User, UserError>(inserted@[0]),
            inserted@.len() == 0 ==> (r matches Err(UserError::Internal(m))
                && m@ == "no user with email we just found"@),
    {
        first_row(
            inserted,
            UserError::Internal(String::from_str("no user with email we just found")),
        )
    }

    /// A new API token: 32 random ASCII letters and digits.
    pub fn new_api_token() -> (token: String)
        ensures
            is_alphanumeric_text(token@, 32),
    {
        random_alphanumeric(32)
    }

    /// The public part of the user, for serialization: its email, name, login
    /// and avatar, no `url`, and neither its id nor its tokens.
    pub fn encodable(self) -> (e: EncodableUser)
        ensures
            e == encodable_of(self),
            e.email == self.email,
            e.name == self.name,
            e.login == self.gh_login,
            e.avatar == self.avatar,
            e.url == None::<String>,
    {
        let User { id: _, email, gh_access_token: _, api_token: _, gh_login, name, avatar, gh_id: _ } =
            self;
        EncodableUser { email, name, login: gh_login, avatar, url: None }
    }
}

} // verus!
