use fractal::messages::Message;

const MESSAGES: [(Message, &str); 10] = [
    (Message::CouldNotSetUpLogin, "Could not set up login"),
    (Message::CouldNotStoreSession, "Could not store session"),
    (Message::AuthorizationCompleted, "Authorization Completed"),
    (
        Message::AuthorizationStepComplete,
        "The authorization step is complete. You can close this page and go back to Fractal.",
    ),
    (Message::Stable, "Stable"),
    (Message::Experimental, "Experimental"),
    (
        Message::OtherCreatorDemoted,
        "After the upgrade, you will be the only creator in the room. The other creator will be demoted to the default power level.",
    ),
    (
        Message::OtherCreatorsDemoted,
        "After the upgrade, you will be the only creator in the room. The other creators will be demoted to the default power level.",
    ),
    (
        Message::CurrentCreatorDemoted,
        "After the upgrade, you will be the only creator in the room. The current creator will be demoted to the default power level.",
    ),
    (
        Message::CurrentCreatorsDemoted,
        "After the upgrade, you will be the only creator in the room. The current creators will be demoted to the default power level.",
    ),
];

#[test]
fn messages_have_english_texts() {
    for (message, text) in MESSAGES {
        assert_eq!(message.msgid(), text);
    }
}
