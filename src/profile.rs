//! The chat service's answer to a profile request, and the profile in it.

use vstd::prelude::*;

verus! {

/// A user's profile on the chat service.
#[derive(Debug)]
pub struct SlackUserProfile {
    pub display_name: String,
}

/// The chat service's answer to a profile request.
#[derive(Debug)]
pub struct SlackResponse {
    pub ok: bool,
    pub profile: Option<SlackUserProfile>,
}

/// Why an answer holds no usable profile.
#[derive(Clone, Copy, Debug, PartialEq, Eq, Structural)]
pub enum ProfileError {
    /// The service reported a failure.
    NotOk,
    /// The service reported success but sent no profile.
    MissingProfile,
}

impl SlackResponse {
    /// The profile in a successful answer.
    pub fn into_profile(self) -> (r: Result<SlackUserProfile, ProfileError>)
        ensures
            !self.ok ==> r == Err::<SlackUserProfile, ProfileError>(ProfileError::NotOk),
            self.ok && self.profile is None ==> r == Err::<SlackUserProfile, ProfileError>(
                ProfileError::MissingProfile,
            ),
            self.ok && self.profile is Some ==> r == Ok::<SlackUserProfile, ProfileError>(
                self.profile->0,
            ),
    {
        if !self.ok {
            return Err(ProfileError::NotOk);
        }
        match self.profile {
            Some(p) => Ok(p),
            None => Err(ProfileError::MissingProfile),
        }
    }
}

} // verus!
