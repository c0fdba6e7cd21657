//! Request and response bodies of the HTTP interface, as plain values. The
//! stored password hash never appears in any response.

use vstd::prelude::*;

use crate::domain::{Catagory, Category, User, greeting};

verus! {

pub struct CreateUserReq {
    pub username: String,
    pub password: String,
}

pub struct LoginReq {
    pub username: String,
    pub password: String,
}

/// The answer to a successful login: a freshly issued token.
pub struct LoginResp {
    pub token: String,
}

pub struct UpdateUserReq {
    pub username: String,
    pub password: String,
}

pub struct CreateUserResp {
    pub id: i64,
}

pub struct SpeakResp {
    pub speak: String,
    pub shout: String,
}

/// A user as shown to callers: no password hash.
pub struct UserResp {
    pub id: i64,
    pub username: String,
    pub active: bool,
    pub greet: String,
}

impl UserResp {
    /// The outward view of a stored user.
    pub fn from_user(u: User) -> (r: Self)
        ensures
            r.id == u.id,
            r.username@ == u.username@,
            r.active == u.active,
            r.greet@ == greeting(u.username@),
    {
        let greet = u.greet();
        UserResp { id: u.id, username: u.username, active: u.active, greet }
    }
}

pub struct CreateCategoryReq {
    pub name: String,
}

pub struct UpdateCategoryReq {
    pub name: String,
}

pub struct CreateCategoryResp {
    pub id: i64,
}

pub struct CategoryResp {
    pub id: i64,
    pub name: String,
    pub active: bool,
}

impl CategoryResp {
    pub fn from_category(c: Category) -> (r: Self)
        ensures
            r.id == c.id,
            r.name@ == c.name@,
            r.active == c.active,
    {
        CategoryResp { id: c.id, name: c.name, active: c.active }
    }
}

pub struct CreateCatagoryReq {
    pub name: String,
}

pub struct UpdateCatagoryReq {
    pub name: String,
}

pub struct CreateCatagoryResp {
    pub id: i64,
}

pub struct CatagoryResp {
    pub id: i64,
    pub name: String,
    pub active: bool,
}

impl CatagoryResp {
    pub fn from_catagory(c: Catagory) -> (r: Self)
        ensures
            r.id == c.id,
            r.name@ == c.name@,
            r.active == c.active,
    {
        CatagoryResp { id: c.id, name: c.name, active: c.active }
    }
}

pub struct CreateProductResp {
    pub id: i64,
}

} // verus!
