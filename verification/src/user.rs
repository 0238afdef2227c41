//! The current-user snapshot that the launcher shares with connected game
//! sessions: a process-wide singleton, set and cleared by the launcher and
//! broadcast to every session on change.

use vstd::prelude::*;

verus! {

/// The authenticated user as the sessions see it.
pub struct UserInfo {
    pub id: String,
    pub username: String,
    pub level: u32,
    pub xp: u32,
    pub xp_required: u32,
    pub avatar: Option<String>,
}

/// Mathematical image of a [`UserInfo`]: every text field as a character
/// sequence.
pub struct UserInfoView {
    pub id: Seq<char>,
    pub username: Seq<char>,
    pub level: u32,
    pub xp: u32,
    pub xp_required: u32,
    pub avatar: Option<Seq<char>>,
}

impl View for UserInfo {
    type V = UserInfoView;

    open spec fn view(&self) -> UserInfoView {
        UserInfoView {
            id: self.id@,
            username: self.username@,
            level: self.level,
            xp: self.xp,
            xp_required: self.xp_required,
            avatar: match self.avatar {
                Some(a) => Some(a@),
                None => None,
            },
        }
    }
}

impl Clone for UserInfo {
    fn clone(&self) -> (r: Self)
        ensures
            r@ == self@,
    {
        UserInfo {
            id: self.id.clone(),
            username: self.username.clone(),
            level: self.level,
            xp: self.xp,
            xp_required: self.xp_required,
            avatar: match &self.avatar {
                Some(a) => Some(a.clone()),
                None => None,
            },
        }
    }
}

} // verus!
