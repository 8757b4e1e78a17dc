//! The step that every authenticated request begins with.

use crate::api_error::{unauthorized, ApiError};
use crate::ident::Id;
use crate::session::Session;
use vstd::prelude::*;

verus! {

/// The user that `session` is authenticated as. Fails exactly when the
/// session is authenticated as nobody. Whether that user still exists is
/// not looked at.
pub fn get_user_id_from_session(session: &Session) -> (r: Result<Id, ApiError>)
    ensures
        match r {
            Ok(user_id) => session@.user_id == Some(user_id),
            Err(e) => session@.user_id is None && e@ == unauthorized(),
        },
{
    match session.user_id() {
        Some(user_id) => Ok(user_id),
        None => Err(ApiError::unauthorized()),
    }
}

} // verus!
