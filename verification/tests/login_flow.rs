use fractal::login::flow::{supports_password, FlowAction, FlowEvent, LoginFlow, LoginType};
use fractal::login::state::Login;

type TestLogin = Login<&'static str, u32>;
type TestFlow = LoginFlow<&'static str, u8>;
type TestEvent = FlowEvent<u8, &'static str, u16>;
type TestAction = FlowAction<&'static str, u8, &'static str, u16>;

fn login_with_client() -> TestLogin {
    Login { autodiscovery: true, client: Some("client"), session: None }
}

fn step(flow: TestFlow, login: &TestLogin, event: TestEvent) -> (String, Vec<String>) {
    let (flow, actions) = flow.next(login, event);
    (format!("{flow:?}"), written(&actions))
}

fn written(actions: &[TestAction]) -> Vec<String> {
    actions.iter().map(|action| format!("{action:?}")).collect()
}

fn login_types(login_types: Option<Vec<LoginType<u16>>>, homeserver: &str) -> TestEvent {
    FlowEvent::LoginTypes { login_types, homeserver: homeserver.to_owned() }
}

const FAILURE: &str = "ShowToast(Message(CouldNotSetUpLogin))";

#[test]
fn no_flow_without_a_client() {
    let login = TestLogin::new();
    assert!(matches!(login.init_oauth_login::<u8>(), LoginFlow::Finished));
    assert!(matches!(login.init_matrix_login::<u8>(), LoginFlow::Finished));
    assert!(matches!(login.init_matrix_sso_login::<u8>(None), LoginFlow::Finished));
}

#[test]
fn oauth_login_shows_the_browser_page() {
    let login = login_with_client();
    let flow: TestFlow = login.init_oauth_login();
    assert_eq!(format!("{flow:?}"), "SpawnServer { client: \"client\", purpose: Oauth }");
    let (flow, actions) = flow.next::<u32, &str, u16>(&login, FlowEvent::Server(Some(3)));
    assert_eq!(
        format!("{flow:?}"),
        "BuildOauthUrl { client: \"client\", server: 3, device_id: None }"
    );
    assert!(actions.is_empty());
    let (flow, actions) = step(flow, &login, FlowEvent::OauthUrl(Some("data")));
    assert_eq!(flow, "Finished");
    assert_eq!(
        actions,
        ["SetUpInBrowserPage { server: 3, data: Oauth(\"data\") }", "PushPage(InBrowser)"]
    );
}

#[test]
fn oauth_login_reports_failures() {
    let login = login_with_client();
    let (flow, actions) = step(login.init_oauth_login(), &login, FlowEvent::Server(None));
    assert_eq!((flow.as_str(), actions), ("Finished", vec![FAILURE.to_owned()]));
    let flow = LoginFlow::BuildOauthUrl { client: "client", server: 3, device_id: None };
    let (flow, actions) = step(flow, &login, FlowEvent::OauthUrl(None));
    assert_eq!((flow.as_str(), actions), ("Finished", vec![FAILURE.to_owned()]));
}

#[test]
fn sso_login_shows_the_browser_page() {
    let login = login_with_client();
    let flow: TestFlow = login.init_matrix_sso_login(Some("idp".to_owned()));
    assert_eq!(
        format!("{flow:?}"),
        "SpawnServer { client: \"client\", purpose: Sso(Some(\"idp\")) }"
    );
    let (flow, actions) = flow.next::<u32, &str, u16>(&login, FlowEvent::Server(Some(3)));
    assert_eq!(
        format!("{flow:?}"),
        "BuildSsoUrl { client: \"client\", idp: Some(\"idp\"), server: 3 }"
    );
    assert!(actions.is_empty());
    // The URL is normalized.
    let url = "HTTPS://Example.org:443/sso?redirectUrl=x".to_owned();
    let (flow, actions) = step(flow, &login, FlowEvent::SsoUrl(Some(url)));
    assert_eq!(flow, "Finished");
    assert_eq!(
        actions,
        [
            "SetUpInBrowserPage { server: 3, data: Matrix(\"https://example.org/sso?redirectUrl=x\") }",
            "PushPage(InBrowser)",
        ]
    );
}

#[test]
fn sso_login_reports_failures() {
    let login = login_with_client();
    let (flow, actions) = step(login.init_matrix_sso_login(None), &login, FlowEvent::Server(None));
    assert_eq!((flow.as_str(), actions), ("Finished", vec![FAILURE.to_owned()]));
    let flow = LoginFlow::BuildSsoUrl { client: "client", idp: None, server: 3 };
    let (flow, actions) = step(flow, &login, FlowEvent::SsoUrl(None));
    assert_eq!((flow.as_str(), actions), ("Finished", vec![FAILURE.to_owned()]));
}

#[test]
fn invalid_sso_url_is_told_apart() {
    let login = login_with_client();
    let flow = || TestFlow::BuildSsoUrl { client: "client", idp: None, server: 3 };
    for url in ["", "not a URL", "/sso", "http://"] {
        let event: TestEvent = FlowEvent::SsoUrl(Some(url.to_owned()));
        assert!(flow().checked_next(&login, event).is_none());
    }
    let event: TestEvent = FlowEvent::SsoUrl(Some("https://example.org/sso".to_owned()));
    let (next, actions) = flow().checked_next(&login, event).unwrap();
    assert!(matches!(next, LoginFlow::Finished));
    assert_eq!(actions.len(), 2);
    let event: TestEvent = FlowEvent::SsoUrl(None);
    let (_, actions) = flow().checked_next(&login, event).unwrap();
    assert_eq!(written(&actions), [FAILURE]);
}

#[test]
fn password_is_one_of_the_login_types() {
    assert!(!supports_password::<u16>(&vec![]));
    assert!(!supports_password(&vec![LoginType::Other(1)]));
    assert!(supports_password(&vec![LoginType::Password(1)]));
    assert!(supports_password(&vec![LoginType::Other(1), LoginType::Password(2)]));
}

#[test]
fn matrix_login_with_password_shows_the_method_page() {
    let login = login_with_client();
    let flow: TestFlow = login.init_matrix_login();
    assert_eq!(format!("{flow:?}"), "FetchLoginTypes { client: \"client\" }");
    let types = Some(vec![LoginType::Other(1), LoginType::Password(2)]);
    let (flow, actions) = step(flow, &login, login_types(types, " https://example.org:8448/ "));
    assert_eq!(flow, "Finished");
    assert_eq!(
        actions,
        [
            "SetUpMethodPage { client: \"client\", server_name: Some(\"example.org:8448\"), login_types: [Other(1), Password(2)] }",
            "PushPage(Method)",
        ]
    );
}

#[test]
fn server_name_is_only_shown_if_it_is_valid_and_discovered() {
    let mut login = login_with_client();
    let types = || Some(vec![LoginType::Password(1)]);
    let without_name =
        "SetUpMethodPage { client: \"client\", server_name: None, login_types: [Password(1)] }";
    let (_, actions) =
        step(login.init_matrix_login(), &login, login_types(types(), "not a server name"));
    assert_eq!(actions[0], without_name);
    login.set_autodiscovery(false);
    let (_, actions) = step(login.init_matrix_login(), &login, login_types(types(), "example.org"));
    assert_eq!(actions[0], without_name);
}

#[test]
fn matrix_login_without_password_goes_on_with_sso() {
    let mut login = login_with_client();
    let flow: TestFlow = login.init_matrix_login();
    // The SSO login uses the client that is held by then.
    login.set_client(Some("other"));
    let (flow, actions) = step(flow, &login, login_types(Some(vec![LoginType::Other(1)]), ""));
    assert_eq!(flow, "SpawnServer { client: \"other\", purpose: Sso(None) }");
    assert!(actions.is_empty());

    let flow: TestFlow = login.init_matrix_login();
    login.set_client(None);
    let (flow, actions) = step(flow, &login, login_types(Some(vec![]), ""));
    assert_eq!(flow, "Finished");
    assert!(actions.is_empty());
}

#[test]
fn matrix_login_reports_failures() {
    let login = login_with_client();
    let (flow, actions) =
        step(login.init_matrix_login(), &login, login_types(None, "example.org"));
    assert_eq!((flow.as_str(), actions), ("Finished", vec![FAILURE.to_owned()]));
}
