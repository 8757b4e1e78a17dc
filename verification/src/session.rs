//! The state of one client's session, as the request handlers see it.
//!
//! The session store itself lives outside: it hands a session over at the
//! start of a request and takes it back at the end, and goes by the
//! session's status to decide what to do with the stored state and with the
//! client's token.

use crate::ident::Id;
use vstd::prelude::*;

verus! {

/// The number of seconds that a session lives, counted from its start.
pub const SESSION_TTL_SECONDS: u32 = 3600;

/// What the session store is to do with a session at the end of a request.
#[derive(Clone, Copy, Debug, PartialEq, Eq, Structural)]
pub enum SessionStatus {
    /// Nothing: the state is as it was handed over.
    Unchanged,
    /// Store the state again, under the same token.
    Changed,
    /// Store the state under a new token, and forget the old one.
    Renewed,
    /// Delete the state, and take the token from the client.
    Purged,
}

/// A session: the user that it is authenticated as, if any, and its status.
#[derive(Clone, Copy, Debug, PartialEq, Eq)]
pub struct Session {
    user_id: Option<Id>,
    status: SessionStatus,
}

/// What a [`Session`] is, mathematically.
pub ghost struct SessionView {
    pub user_id: Option<Id>,
    pub status: SessionStatus,
}

impl View for Session {
    type V = SessionView;

    closed spec fn view(&self) -> SessionView {
        SessionView { user_id: self.user_id, status: self.status }
    }
}

impl Session {
    /// The session of a client that has not signed in.
    pub fn anonymous() -> (session: Session)
        ensures
            session@ == (SessionView { user_id: None, status: SessionStatus::Unchanged }),
    {
        Session { user_id: None, status: SessionStatus::Unchanged }
    }

    /// A session as the store hands it over: authenticated as `user_id`, if
    /// that is some user, and unchanged.
    pub fn resumed(user_id: Option<Id>) -> (session: Session)
        ensures
            session@ == (SessionView { user_id, status: SessionStatus::Unchanged }),
    {
        Session { user_id, status: SessionStatus::Unchanged }
    }

    /// The user that the session is authenticated as, if any.
    pub fn user_id(&self) -> (user_id: Option<Id>)
        ensures
            user_id == self@.user_id,
    {
        self.user_id
    }

    /// What the store is to do with the session.
    pub fn status(&self) -> (status: SessionStatus)
        ensures
            status == self@.status,
    {
        self.status
    }

    /// Marks the session as authenticated as `user_id`, and asks for a new
    /// token, so that a token fixed before the sign-in is of no use after it.
    pub fn establish(&mut self, user_id: Id)
        ensures
            final(self)@ == (SessionView { user_id: Some(user_id), status: SessionStatus::Renewed }),
    {
        self.user_id = Some(user_id);
        self.status = SessionStatus::Renewed;
    }

    /// Ends the session: nothing of its state is left, and the store is
    /// asked to delete it.
    pub fn terminate(&mut self)
        ensures
            final(self)@ == (SessionView { user_id: None, status: SessionStatus::Purged }),
    {
        self.user_id = None;
        self.status = SessionStatus::Purged;
    }
}

} // verus!
