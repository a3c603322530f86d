//! What holds of the login flows as a whole: which event leads where, and what the user sees.

use vstd::prelude::*;

use super::flow::{follows, is_failure, password_supported, sso_url_is_valid};
use super::flow::{FlowAction, FlowEvent, LoginFlow, LoginInBrowserData, LoginType, ServerPurpose};
use super::pages::LoginPage;
use super::registration::{parsed_url, sanitized_server_name};
use super::state::{Login, Toast};
use crate::messages::Message;

verus! {

/// A flow waits for the one kind of event that it asked for, and a flow that is over for none.
pub proof fn flow_awaits_what_it_asked_for<C, H, A, T>(
    flow: LoginFlow<C, H>,
    event: FlowEvent<H, A, T>,
)
    ensures
        flow is FetchLoginTypes ==> (flow.awaits(event) <==> event is LoginTypes),
        flow is SpawnServer ==> (flow.awaits(event) <==> event is Server),
        flow is BuildOauthUrl ==> (flow.awaits(event) <==> event is OauthUrl),
        flow is BuildSsoUrl ==> (flow.awaits(event) <==> event is SsoUrl),
        flow is Finished ==> !flow.awaits(event),
{
}

/// The only event that a flow cannot go on with is a URL of the Matrix SSO API that is not valid.
pub proof fn only_an_invalid_sso_url_is_refused<H, A, T>(event: FlowEvent<H, A, T>)
    ensures
        !sso_url_is_valid(event) <==> {
            &&& event is SsoUrl
            &&& event->SsoUrl_0 is Some
            &&& parsed_url(event->SsoUrl_0->0@) is None
        },
{
}

/// Whether a password can be used depends on each login type by itself: on one more, or on none.
pub proof fn password_is_supported_by_any_login_type<T>(
    login_types: Seq<LoginType<T>>,
    one_more: LoginType<T>,
)
    ensures
        !password_supported(Seq::<LoginType<T>>::empty()),
        password_supported(login_types.push(one_more)) <==> password_supported(login_types)
            || one_more is Password,
{
    let more = login_types.push(one_more);
    if password_supported(login_types) {
        let i = choose|i: int|
            0 <= i < login_types.len() && #[trigger] login_types[i] is Password;
        assert(more[i] is Password);
    }
    if one_more is Password {
        assert(more[login_types.len() as int] is Password);
    }
    if password_supported(more) && !(one_more is Password) {
        let i = choose|i: int| 0 <= i < more.len() && #[trigger] more[i] is Password;
        assert(login_types[i] is Password);
    }
}

/// If the homeserver supports passwords, the page to select a login method is filled in and shown:
/// for the client of the flow, with all the login types, and with the server name that was made of
/// what the user entered if auto-discovery is enabled, even if that is what the user entered. The
/// flow is over.
pub proof fn password_leads_to_the_method_page<C: Clone, S, H, A, T>(
    client: C,
    login: Login<C, S>,
    login_types: Vec<LoginType<T>>,
    homeserver: String,
    password: int,
    next: LoginFlow<C, H>,
    actions: Seq<FlowAction<C, H, A, T>>,
)
    requires
        follows(
            LoginFlow::FetchLoginTypes { client },
            login,
            FlowEvent::LoginTypes { login_types: Some(login_types), homeserver },
            next,
            actions,
        ),
        0 <= password < login_types@.len(),
        login_types@[password] is Password,
    ensures
        next is Finished,
        actions.len() == 2,
        actions[0] is SetUpMethodPage,
        actions[0]->client == client,
        actions[0]->login_types == login_types,
        match actions[0]->server_name {
            Some(name) => login.autodiscovery && sanitized_server_name(homeserver@) == Some(name@),
            None => !login.autodiscovery || sanitized_server_name(homeserver@) is None,
        },
        actions[1] == FlowAction::<C, H, A, T>::PushPage(LoginPage::Method),
{
}

/// If the homeserver does not support passwords, nothing is shown, and the Matrix SSO login starts
/// without an identity provider for the client that the login holds. Without a client, the flow is
/// over.
pub proof fn no_password_leads_to_sso<C: Clone, S, H, A, T>(
    client: C,
    login: Login<C, S>,
    login_types: Vec<LoginType<T>>,
    homeserver: String,
    next: LoginFlow<C, H>,
    actions: Seq<FlowAction<C, H, A, T>>,
)
    requires
        follows(
            LoginFlow::FetchLoginTypes { client },
            login,
            FlowEvent::LoginTypes { login_types: Some(login_types), homeserver },
            next,
            actions,
        ),
        forall|i: int| 0 <= i < login_types@.len() ==> !(#[trigger] login_types@[i] is Password),
    ensures
        actions.len() == 0,
        login.client is None ==> next is Finished,
        login.client is Some ==> {
            &&& next is SpawnServer
            &&& cloned(login.client->0, next->SpawnServer_client)
            &&& next->purpose is Sso
            &&& next->purpose->Sso_0 is None
        },
{
}

/// A local server is used for what it was spawned for, with the same client: for the OAuth 2.0 API
/// with a new device, and for the Matrix SSO API with the same identity provider. Nothing is shown
/// yet.
pub proof fn server_is_used_for_its_purpose<C: Clone, S, H, A, T>(
    client: C,
    purpose: ServerPurpose,
    login: Login<C, S>,
    server: H,
    next: LoginFlow<C, H>,
    actions: Seq<FlowAction<C, H, A, T>>,
)
    requires
        follows(
            LoginFlow::SpawnServer { client, purpose },
            login,
            FlowEvent::<H, A, T>::Server(Some(server)),
            next,
            actions,
        ),
    ensures
        actions.len() == 0,
        purpose is Oauth ==> {
            &&& next is BuildOauthUrl
            &&& next->BuildOauthUrl_client == client
            &&& next->BuildOauthUrl_server == server
            &&& next->device_id is None
        },
        purpose is Sso ==> {
            &&& next is BuildSsoUrl
            &&& next->BuildSsoUrl_client == client
            &&& next->BuildSsoUrl_server == server
            &&& next->idp == purpose->Sso_0
        },
{
}

/// The authorization data of the OAuth 2.0 API is what the page to log in with the browser gets,
/// together with the local server. The page is filled in before it is shown, and the flow is over.
pub proof fn authorization_leads_to_the_browser<C: Clone, S, H, A, T>(
    client: C,
    server: H,
    device_id: Option<String>,
    login: Login<C, S>,
    data: A,
    next: LoginFlow<C, H>,
    actions: Seq<FlowAction<C, H, A, T>>,
)
    requires
        follows(
            LoginFlow::BuildOauthUrl { client, server, device_id },
            login,
            FlowEvent::<H, A, T>::OauthUrl(Some(data)),
            next,
            actions,
        ),
    ensures
        next is Finished,
        actions.len() == 2,
        actions[0] is SetUpInBrowserPage,
        actions[0]->server == server,
        actions[0]->data == LoginInBrowserData::Oauth(data),
        actions[1] == FlowAction::<C, H, A, T>::PushPage(LoginPage::InBrowser),
{
}

/// The URL of the Matrix SSO API, as it was parsed, is what the page to log in with the browser gets,
/// together with the local server. The page is filled in before it is shown, and the flow is over.
pub proof fn sso_url_leads_to_the_browser<C: Clone, S, H, A, T>(
    client: C,
    idp: Option<String>,
    server: H,
    login: Login<C, S>,
    url: String,
    next: LoginFlow<C, H>,
    actions: Seq<FlowAction<C, H, A, T>>,
)
    requires
        follows(
            LoginFlow::BuildSsoUrl { client, idp, server },
            login,
            FlowEvent::<H, A, T>::SsoUrl(Some(url)),
            next,
            actions,
        ),
    ensures
        next is Finished,
        actions.len() == 2,
        actions[0] is SetUpInBrowserPage,
        actions[0]->server == server,
        actions[0]->data is Matrix,
        parsed_url(url@) == Some(actions[0]->data->Matrix_0@),
        actions[1] == FlowAction::<C, H, A, T>::PushPage(LoginPage::InBrowser),
{
}

/// Whatever could not be done, in whatever flow, the user is told that the login could not be set up,
/// nothing else happens, and the flow is over.
pub proof fn every_failure_is_reported<C: Clone, S, H, A, T>(
    flow: LoginFlow<C, H>,
    login: Login<C, S>,
    event: FlowEvent<H, A, T>,
    next: LoginFlow<C, H>,
    actions: Seq<FlowAction<C, H, A, T>>,
)
    requires
        follows(flow, login, event, next, actions),
        match event {
            FlowEvent::LoginTypes { login_types, .. } => login_types is None,
            FlowEvent::Server(server) => server is None,
            FlowEvent::OauthUrl(data) => data is None,
            FlowEvent::SsoUrl(url) => url is None,
        },
    ensures
        is_failure(event),
        next is Finished,
        actions.len() == 1,
        actions[0] == FlowAction::<C, H, A, T>::ShowToast(
            Toast::Message(Message::CouldNotSetUpLogin),
        ),
{
}

} // verus!
