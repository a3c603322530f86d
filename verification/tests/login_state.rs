use fractal::login::pages::{FocusTarget, LoginPage};
use fractal::login::state::{ClientRequest, Login, LoginAction, Toast};
use fractal::messages::Message;

type TestLogin = Login<&'static str, u32>;

const PAGES: [(LoginPage, &str); 6] = [
    (LoginPage::Greeter, "greeter"),
    (LoginPage::Homeserver, "homeserver"),
    (LoginPage::Method, "method"),
    (LoginPage::InBrowser, "in-browser"),
    (LoginPage::SessionSetup, "session-setup"),
    (LoginPage::Completed, "completed"),
];

/// The actions, written out.
fn written(actions: Vec<LoginAction<&'static str, u32>>) -> Vec<String> {
    actions.iter().map(|action| format!("{action:?}")).collect()
}

fn busy_login() -> TestLogin {
    Login { autodiscovery: false, client: Some("client"), session: Some(7) }
}

fn is_new(login: &TestLogin) -> bool {
    login.autodiscovery && login.client.is_none() && login.session.is_none()
}

#[test]
fn pages_are_found_by_their_tags() {
    for (page, tag) in PAGES {
        assert_eq!(page.as_tag(), tag);
        assert_eq!(LoginPage::from_tag(tag), Some(page));
        assert_eq!(TestLogin::new().visible_page(tag), page);
    }
    for tag in ["", "Greeter", "in_browser", "InBrowser", "greeter ", "method-page"] {
        assert_eq!(LoginPage::from_tag(tag), None);
    }
}

#[test]
fn focus_goes_to_the_visible_page() {
    let login = TestLogin::new();
    let targets = [
        (LoginPage::Greeter, FocusTarget::Greeter),
        (LoginPage::Homeserver, FocusTarget::Homeserver),
        (LoginPage::Method, FocusTarget::Method),
        (LoginPage::InBrowser, FocusTarget::InBrowser),
        (LoginPage::SessionSetup, FocusTarget::SessionSetup),
        (LoginPage::Completed, FocusTarget::DoneButton),
    ];
    for (page, target) in targets {
        assert_eq!(login.grab_focus(page, true), Some(target));
    }
    assert_eq!(login.grab_focus(LoginPage::SessionSetup, false), None);
    assert_eq!(login.grab_focus(LoginPage::Greeter, false), Some(FocusTarget::Greeter));
}

#[test]
fn new_login_uses_autodiscovery() {
    assert!(is_new(&TestLogin::new()));
}

#[test]
fn autodiscovery_is_notified_when_it_changes() {
    let mut login = TestLogin::new();
    assert!(login.set_autodiscovery(true).is_empty());
    assert_eq!(written(login.set_autodiscovery(false)), ["NotifyAutodiscovery"]);
    assert!(!login.autodiscovery);
    assert!(login.set_autodiscovery(false).is_empty());
    assert_eq!(written(login.set_autodiscovery(true)), ["NotifyAutodiscovery"]);
    assert!(login.autodiscovery);
}

#[test]
fn network_decides_about_sso() {
    let login = TestLogin::new();
    assert_eq!(written(login.network_changed(true)), ["SetSsoEnabled(true)"]);
    assert_eq!(written(login.network_changed(false)), ["SetSsoEnabled(false)"]);
}

#[test]
fn dropping_twice_drops_once() {
    let mut login = busy_login();
    assert_eq!(written(login.drop_client()), ["DropClient(\"client\")"]);
    assert!(login.drop_client().is_empty());
    assert_eq!(written(login.drop_session()), ["LogOut(7)"]);
    assert!(login.drop_session().is_empty());
    assert!(!login.autodiscovery);
}

#[test]
fn disposing_drops_client_and_session() {
    assert_eq!(written(busy_login().dispose()), ["DropClient(\"client\")", "LogOut(7)"]);
    assert!(TestLogin::new().dispose().is_empty());
}

#[test]
fn cleaning_resets_everything_once() {
    let mut login = busy_login();
    assert_eq!(
        written(login.clean()),
        [
            "CleanHomeserverPage",
            "CleanMethodPage",
            "NotifyAutodiscovery",
            "DropClient(\"client\")",
            "LogOut(7)",
            "PopToPage(Greeter)",
            "SetSensitive(true)",
        ]
    );
    assert!(is_new(&login));
    assert_eq!(
        written(login.clean()),
        ["CleanHomeserverPage", "CleanMethodPage", "PopToPage(Greeter)", "SetSensitive(true)"]
    );
    assert!(is_new(&login));
}

#[test]
fn freezing_and_unfreezing() {
    let login = TestLogin::new();
    assert_eq!(written(login.freeze()), ["SetSensitive(false)"]);
    assert_eq!(written(login.unfreeze()), ["SetSensitive(true)"]);
}

#[test]
fn greeter_page_resets_the_login() {
    let mut login = busy_login();
    let actions = login.visible_page_changed(LoginPage::Greeter);
    assert_eq!(written(actions), written(busy_login().clean()));
    assert!(is_new(&login));
}

#[test]
fn homeserver_page_gives_up_client_and_session() {
    let mut login = busy_login();
    assert_eq!(
        written(login.visible_page_changed(LoginPage::Homeserver)),
        ["DropClient(\"client\")", "LogOut(7)", "CleanMethodPage"]
    );
    assert_eq!((login.autodiscovery, login.client, login.session), (false, None, None));
}

#[test]
fn method_page_gives_up_the_session() {
    let mut login = busy_login();
    assert_eq!(written(login.visible_page_changed(LoginPage::Method)), ["LogOut(7)"]);
    assert_eq!((login.autodiscovery, login.client, login.session), (false, Some("client"), None));
}

#[test]
fn other_pages_change_nothing() {
    for page in [LoginPage::InBrowser, LoginPage::SessionSetup, LoginPage::Completed] {
        let mut login = busy_login();
        assert!(login.visible_page_changed(page).is_empty());
        assert_eq!(
            (login.autodiscovery, login.client, login.session),
            (false, Some("client"), Some(7))
        );
    }
}

#[test]
fn client_is_cloned_or_built() {
    let mut login = TestLogin::new();
    assert!(matches!(login.client(), ClientRequest::Build { autodiscovery: true }));
    login.set_autodiscovery(false);
    assert!(matches!(login.client(), ClientRequest::Build { autodiscovery: false }));
    assert_eq!(login.client_built(Some("client")), Some("client"));
    assert!(matches!(login.client(), ClientRequest::Ready("client")));
    assert_eq!(login.client_built(None), None);
    assert_eq!(login.client, None);
    login.set_client(Some("other"));
    assert!(matches!(login.client(), ClientRequest::Ready("other")));
}

#[test]
fn created_session_is_initialized() {
    let mut login = Login { autodiscovery: false, client: Some("client"), session: None };
    assert_eq!(
        written(login.session_created(Ok((7, "id".to_owned())))),
        [
            "ShowSessionSetup",
            "DropClient(\"client\")",
            "SaveCurrentSession(\"id\")",
            "StoreSession",
        ]
    );
    assert_eq!((login.autodiscovery, login.client, login.session), (false, None, Some(7)));
}

#[test]
fn session_that_cannot_be_created_goes_back() {
    let mut login = Login { autodiscovery: true, client: Some("client"), session: None };
    assert_eq!(
        written(login.session_created(Err("No space".to_owned()))),
        ["ShowToast(Text(\"No space\"))", "PopPage"]
    );
    assert_eq!((login.autodiscovery, login.client, login.session), (true, Some("client"), None));
}

#[test]
fn stored_session_is_prepared() {
    let login = busy_login();
    assert_eq!(written(login.session_stored(true)), ["PrepareSession"]);
    let actions = login.session_stored(false);
    assert!(matches!(
        actions[0],
        LoginAction::ShowToast(Toast::Message(Message::CouldNotStoreSession))
    ));
    assert_eq!(
        written(actions),
        ["ShowToast(Message(CouldNotStoreSession))", "PrepareSession"]
    );
}

#[test]
fn session_setup_leads_to_the_last_page() {
    assert_eq!(written(busy_login().session_setup_completed()), ["PushPage(Completed)"]);
}

#[test]
fn finished_login_adds_the_session_to_the_window() {
    let mut login = busy_login();
    assert_eq!(
        written(login.finish_login(true)),
        [
            "AddSession(7)",
            "CleanHomeserverPage",
            "CleanMethodPage",
            "NotifyAutodiscovery",
            "DropClient(\"client\")",
            "PopToPage(Greeter)",
            "SetSensitive(true)",
        ]
    );
    assert!(is_new(&login));
}

#[test]
fn login_does_not_finish_without_a_window() {
    let mut login = busy_login();
    assert!(login.finish_login(false).is_empty());
    assert_eq!(
        (login.autodiscovery, login.client, login.session),
        (false, Some("client"), Some(7))
    );
}

#[test]
fn showing_a_page_again_gives_up_nothing_more() {
    for (page, _) in PAGES {
        let mut login = busy_login();
        login.visible_page_changed(page);
        let (client, session) = (login.client, login.session);
        for action in written(login.visible_page_changed(page)) {
            assert!(!action.starts_with("DropClient") && !action.starts_with("LogOut"));
        }
        assert_eq!((login.client, login.session), (client, session));
    }
}

#[test]
fn sso_is_enabled_if_the_network_was_available_last() {
    let mut login = busy_login();
    let mut actions = login.network_changed(false);
    actions.extend(login.visible_page_changed(LoginPage::Method));
    actions.extend(login.network_changed(true));
    actions.extend(login.visible_page_changed(LoginPage::Greeter));
    let settings: Vec<String> =
        written(actions).into_iter().filter(|action| action.starts_with("SetSso")).collect();
    assert_eq!(settings, ["SetSsoEnabled(false)", "SetSsoEnabled(true)"]);
}
