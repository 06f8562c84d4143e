//! Plain data types shared between the core and its callers: request
//! parameters, user records and the error kinds the core surfaces.

use vstd::prelude::*;
use crate::version::EditVersion;

verus! {

/// The errors the core surfaces to its callers.
#[derive(Clone, Copy, Debug, PartialEq, Eq, Structural)]
pub enum CoreError {
    /// Create-article collision on `(title, instance_id)`.
    TitleTaken,
    /// An edit references a previous version absent from the chain.
    UnknownBase,
    /// An inbound diff does not apply to the reconstructed base text.
    PatchApply,
    /// A referenced article, instance or user does not exist.
    NotFound,
    /// An activity's actor domain does not match its object's domain.
    DomainMismatch,
    /// The caller may not perform the action.
    Forbidden,
}

/// Selects one article: by title and domain, or by local id.
#[derive(Clone, Debug)]
pub struct GetArticleData {
    pub title: Option<String>,
    pub domain: Option<String>,
    pub id: Option<i32>,
}

/// Selects which articles to list.
#[derive(Clone)]
pub struct ListArticlesData {
    pub only_local: Option<bool>,
}

/// Parameters of a new article.
pub struct CreateArticleData {
    pub title: String,
    pub text: String,
    pub summary: String,
}

/// Parameters of an edit to an existing article.
pub struct EditArticleData {
    /// Id of the article to edit.
    pub article_id: i32,
    /// Full, new text of the article; a diff against the base version is
    /// generated by the store.
    pub new_text: String,
    /// What was changed.
    pub summary: String,
    /// The version this edit is based on.
    pub previous_version_id: EditVersion,
    /// When resolving a conflict, its id, so that it is deleted on success.
    pub resolve_conflict_id: Option<EditVersion>,
}

/// Parameters of a fork of an existing article onto another instance.
pub struct ForkArticleData {
    pub article_id: i32,
}

/// Asks the local instance to follow the instance with this id.
#[derive(Clone, Copy, Debug)]
pub struct FollowInstance {
    pub id: i32,
}

/// A full-text search request.
#[derive(Clone)]
pub struct SearchArticleData {
    pub query: String,
}

/// Asks to resolve a remote object by its ap_id URL.
pub struct ResolveObject {
    pub id: String,
}

/// Registration request for a new local account.
#[derive(Clone)]
pub struct RegisterUserData {
    pub username: String,
    pub password: String,
}

/// Login request for a local account.
pub struct LoginUserData {
    pub username: String,
    pub password: String,
}

/// Selects one user, locally or on a remote instance.
#[derive(Clone, Debug)]
pub struct GetUserData {
    pub name: String,
    pub domain: Option<String>,
}

/// A user with an account registered on the local instance.
#[derive(Clone, Debug)]
pub struct DbLocalUser {
    pub id: i32,
    pub password_encrypted: String,
    pub person_id: i32,
    pub admin: bool,
}

/// Federation-related data of a local or remote user.
#[derive(Clone, Debug)]
pub struct DbPerson {
    pub id: i32,
    pub username: String,
    pub ap_id: String,
    pub inbox_url: String,
    pub public_key: String,
    pub private_key: Option<String>,
    pub last_refreshed_at: i64,
    pub local: bool,
}

/// A local account together with its federation data.
#[derive(Clone, Debug)]
pub struct LocalUserView {
    pub person: DbPerson,
    pub local_user: DbLocalUser,
}

/// One edit together with the user who made it.
#[derive(Clone, Debug)]
pub struct EditView {
    pub edit_id: i32,
    pub creator: DbPerson,
}

/// The known users of this process, the system actor first.
pub struct Database {
    pub users: Vec<DbPerson>,
}

impl Database {
    /// The first known user is the local one.
    pub fn local_user(&self) -> (u: DbPerson)
        requires
            self.users@.len() >= 1,
        ensures
            person_eqv(u, self.users@[0]),
    {
        let u = &self.users[0];
        u.duplicate()
    }

    /// Looks a user up by name; only the local user is known here.
    pub fn read_user(&self, name: &String) -> (r: Result<DbPerson, CoreError>)
        requires
            self.users@.len() >= 1,
        ensures
            match r {
                Ok(u) => person_eqv(u, self.users@[0]) && name@ == self.users@[0].username@,
                Err(e) => e == CoreError::NotFound && name@ != self.users@[0].username@,
            },
    {
        let u = self.local_user();
        if *name == u.username {
            Ok(u)
        } else {
            Err(CoreError::NotFound)
        }
    }
}

/// Field-wise equality of two user records, strings compared by content.
pub open spec fn person_eqv(a: DbPerson, b: DbPerson) -> bool {
    &&& a.id == b.id
    &&& a.username@ == b.username@
    &&& a.ap_id@ == b.ap_id@
    &&& a.inbox_url@ == b.inbox_url@
    &&& a.public_key@ == b.public_key@
    &&& match (a.private_key, b.private_key) {
        (Some(x), Some(y)) => x@ == y@,
        (None, None) => true,
        _ => false,
    }
    &&& a.last_refreshed_at == b.last_refreshed_at
    &&& a.local == b.local
}

impl DbPerson {
    /// A copy of this record, field by field.
    pub fn duplicate(&self) -> (r: DbPerson)
        ensures
            person_eqv(r, *self),
    {
        DbPerson {
            id: self.id,
            username: self.username.clone(),
            ap_id: self.ap_id.clone(),
            inbox_url: self.inbox_url.clone(),
            public_key: self.public_key.clone(),
            private_key: match &self.private_key {
                Some(k) => Some(k.clone()),
                None => None,
            },
            last_refreshed_at: self.last_refreshed_at,
            local: self.local,
        }
    }
}

} // verus!
