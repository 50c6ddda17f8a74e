//! The principal on whose behalf keys are used.
use vstd::prelude::*;

use crate::model::calendar::KeyHandler;

verus! {

/// What a user may do.
#[derive(Clone, Copy, Debug, PartialEq, Eq, Structural)]
pub enum UserRole {
    ADMIN,
    MEMBER,
}

/// A signed-in user. The content key handle lives only as long as the
/// request or session it was opened for.
#[derive(Debug)]
pub struct User {
    pub id: i32,
    pub username: String,
    pub role: UserRole,
    pub content_key_handler: KeyHandler,
    pub master_key_salt: Vec<u8>,
}

/// The mathematical value of a user.
pub struct UserView {
    pub id: i32,
    pub username: Seq<char>,
    pub role: UserRole,
    pub content_key: Option<Seq<u8>>,
    pub master_key_salt: Seq<u8>,
}

impl View for User {
    type V = UserView;

    open spec fn view(&self) -> UserView {
        UserView {
            id: self.id,
            username: self.username@,
            role: self.role,
            content_key: self.content_key_handler@,
            master_key_salt: self.master_key_salt@,
        }
    }
}

impl Clone for User {
    fn clone(&self) -> (copy: Self)
        ensures
            copy@ == self@,
    {
        User {
            id: self.id,
            username: self.username.clone(),
            role: self.role,
            content_key_handler: self.content_key_handler.clone(),
            master_key_salt: self.master_key_salt.clone(),
        }
    }
}

impl User {
    /// A user who holds the given content key.
    pub fn new(
        id: i32,
        username: String,
        role: UserRole,
        content_key: Vec<u8>,
        master_key_salt: Vec<u8>,
    ) -> (user: User)
        ensures
            user@ == (UserView {
                id,
                username: username@,
                role,
                content_key: Some(content_key@),
                master_key_salt: master_key_salt@,
            }),
    {
        Self {
            id,
            username,
            role,
            content_key_handler: KeyHandler::from_key(content_key),
            master_key_salt,
        }
    }
}

} // verus!
