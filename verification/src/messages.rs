//! The messages that are shown to the user.

use vstd::prelude::*;

verus! {

/// A message that is shown to the user, in their language.
///
/// Its translation is looked up by its English text.
#[derive(Debug, Clone, Copy, PartialEq, Eq, Structural)]
pub enum Message {
    /// A login flow could not be started.
    CouldNotSetUpLogin,
    /// The session could not be stored.
    CouldNotStoreSession,
    /// The title of the page where the browser lands after the authorization.
    AuthorizationCompleted,
    /// The text of the page where the browser lands after the authorization.
    AuthorizationStepComplete,
    /// As in 'Stable version'.
    Stable,
    /// As in 'Experimental version'.
    Experimental,
    /// The one other creator besides our own user loses their privileges.
    OtherCreatorDemoted,
    /// The other creators besides our own user lose their privileges.
    OtherCreatorsDemoted,
    /// The one creator, who is not our own user, loses their privileges.
    CurrentCreatorDemoted,
    /// The creators, which do not include our own user, lose their privileges.
    CurrentCreatorsDemoted,
}

impl Message {
    /// The English text of this message, by which its translation is looked up.
    pub open spec fn english(self) -> Seq<char> {
        match self {
            Message::CouldNotSetUpLogin => "Could not set up login"@,
            Message::CouldNotStoreSession => "Could not store session"@,
            Message::AuthorizationCompleted => "Authorization Completed"@,
            Message::AuthorizationStepComplete =>
                "The authorization step is complete. You can close this page and go back to Fractal."@,
            Message::Stable => "Stable"@,
            Message::Experimental => "Experimental"@,
            Message::OtherCreatorDemoted =>
                "After the upgrade, you will be the only creator in the room. The other creator will be demoted to the default power level."@,
            Message::OtherCreatorsDemoted =>
                "After the upgrade, you will be the only creator in the room. The other creators will be demoted to the default power level."@,
            Message::CurrentCreatorDemoted =>
                "After the upgrade, you will be the only creator in the room. The current creator will be demoted to the default power level."@,
            Message::CurrentCreatorsDemoted =>
                "After the upgrade, you will be the only creator in the room. The current creators will be demoted to the default power level."@,
        }
    }

    /// The English text of this message, by which its translation is looked up.
    pub fn msgid(self) -> (text: &'static str)
        ensures
            text@ == self.english(),
    {
        match self {
            Message::CouldNotSetUpLogin => "Could not set up login",
            Message::CouldNotStoreSession => "Could not store session",
            Message::AuthorizationCompleted => "Authorization Completed",
            Message::AuthorizationStepComplete =>
                "The authorization step is complete. You can close this page and go back to Fractal.",
            Message::Stable => "Stable",
            Message::Experimental => "Experimental",
            Message::OtherCreatorDemoted =>
                "After the upgrade, you will be the only creator in the room. The other creator will be demoted to the default power level.",
            Message::OtherCreatorsDemoted =>
                "After the upgrade, you will be the only creator in the room. The other creators will be demoted to the default power level.",
            Message::CurrentCreatorDemoted =>
                "After the upgrade, you will be the only creator in the room. The current creator will be demoted to the default power level.",
            Message::CurrentCreatorsDemoted =>
                "After the upgrade, you will be the only creator in the room. The current creators will be demoted to the default power level.",
        }
    }
}

} // verus!
