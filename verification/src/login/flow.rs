//! The login flows that go through the homeserver.

use vstd::prelude::*;

use super::pages::LoginPage;
use super::registration::{parse_url, parsed_url, sanitize_server_name, sanitized_server_name};
use super::state::{Login, Toast};
use crate::messages::Message;
use crate::text::optional_text;

verus! {

/// A way to log in that the homeserver supports, with its details of type `T`.
#[derive(Debug)]
pub enum LoginType<T> {
    /// With a password.
    Password(T),
    /// In any other way.
    Other(T),
}

/// What a local server is for.
#[derive(Debug)]
pub enum ServerPurpose {
    /// To log in via the OAuth 2.0 API.
    Oauth,
    /// To log in via the Matrix SSO API, with the given identity provider.
    Sso(Option<String>),
}

/// What a login flow needs next, for a client of type `C` and a local server of type `H`.
#[derive(Debug)]
pub enum LoginFlow<C, H> {
    /// The login types that the homeserver supports.
    FetchLoginTypes {
        /// The client that logs in.
        client: C,
    },
    /// A local server to listen to redirects.
    SpawnServer {
        /// The client that logs in.
        client: C,
        /// What the server is for.
        purpose: ServerPurpose,
    },
    /// The authorization URL of the OAuth 2.0 API, that redirects to the local server.
    BuildOauthUrl {
        /// The client that logs in.
        client: C,
        /// The local server.
        server: H,
        /// The identifier of the device, or nothing for a new one.
        device_id: Option<String>,
    },
    /// The URL of the Matrix SSO API, that redirects to the local server.
    BuildSsoUrl {
        /// The client that logs in.
        client: C,
        /// The identity provider.
        idp: Option<String>,
        /// The local server.
        server: H,
    },
    /// Nothing: the flow goes on in the page that is shown, or it ended.
    Finished,
}

/// What a login flow gets, for a local server of type `H`, authorization data of type `A` and
/// details of a login type of type `T`.
#[derive(Debug)]
pub enum FlowEvent<H, A, T> {
    /// The login types that the homeserver supports, unless they could not be fetched, and the
    /// homeserver that the user entered.
    LoginTypes {
        /// The login types.
        login_types: Option<Vec<LoginType<T>>>,
        /// The homeserver that the user entered.
        homeserver: String,
    },
    /// The local server, unless it could not be spawned.
    Server(Option<H>),
    /// The authorization data of the OAuth 2.0 API, unless it could not be built.
    OauthUrl(Option<A>),
    /// The URL of the Matrix SSO API, unless it could not be built.
    SsoUrl(Option<String>),
}

/// The data to log in with the browser.
#[derive(Debug)]
pub enum LoginInBrowserData<A> {
    /// The authorization data of the OAuth 2.0 API.
    Oauth(A),
    /// The URL of the Matrix SSO API.
    Matrix(String),
}

/// Something to do in the login view.
#[derive(Debug)]
pub enum FlowAction<C, H, A, T> {
    /// Show a notification.
    ShowToast(Toast),
    /// Fill in the page to select a login method.
    SetUpMethodPage {
        /// The client that logs in, which knows the URL of the homeserver.
        client: C,
        /// The server name that the user entered, if it can be discovered.
        server_name: Option<String>,
        /// The login types that the homeserver supports.
        login_types: Vec<LoginType<T>>,
    },
    /// Fill in the page to log in with the browser.
    SetUpInBrowserPage {
        /// The local server.
        server: H,
        /// The data to log in with the browser.
        data: LoginInBrowserData<A>,
    },
    /// Push a page on the navigation view.
    PushPage(LoginPage),
}

/// Whether a password can be used to log in.
pub open spec fn password_supported<T>(login_types: Seq<LoginType<T>>) -> bool {
    exists|i: int| 0 <= i < login_types.len() && #[trigger] login_types[i] is Password
}

/// Whether the actions only tell the user that the login could not be set up.
pub open spec fn reports_failure<C, H, A, T>(actions: Seq<FlowAction<C, H, A, T>>) -> bool {
    actions == seq![
        FlowAction::<C, H, A, T>::ShowToast(Toast::Message(Message::CouldNotSetUpLogin)),
    ]
}

/// Whether the actions show the page to log in with the browser for the given server.
pub open spec fn shows_in_browser_page<C, H, A, T>(
    actions: Seq<FlowAction<C, H, A, T>>,
    server: H,
) -> bool {
    &&& actions.len() == 2
    &&& actions[0] is SetUpInBrowserPage
    &&& actions[0]->server == server
    &&& actions[1] == FlowAction::<C, H, A, T>::PushPage(LoginPage::InBrowser)
}

/// Whether the actions show the page to select one of the given login methods for the given client.
pub open spec fn shows_method_page<C, H, A, T>(
    actions: Seq<FlowAction<C, H, A, T>>,
    client: C,
    server_name: Option<Seq<char>>,
    login_types: Vec<LoginType<T>>,
) -> bool {
    &&& actions.len() == 2
    &&& actions[0] is SetUpMethodPage
    &&& actions[0]->client == client
    &&& optional_text(actions[0]->server_name) == server_name
    &&& actions[0]->login_types == login_types
    &&& actions[1] == FlowAction::<C, H, A, T>::PushPage(LoginPage::Method)
}

/// The server name to show for what the user entered.
pub open spec fn server_name_for(autodiscovery: bool, homeserver: Seq<char>) -> Option<Seq<char>> {
    if autodiscovery {
        sanitized_server_name(homeserver)
    } else {
        None
    }
}

/// Whether `flow` logs in via the Matrix SSO API with a clone of the client that the login holds,
/// or ended because there is none.
pub open spec fn starts_sso<C: Clone, S, H>(
    login: Login<C, S>,
    idp: Option<String>,
    flow: LoginFlow<C, H>,
) -> bool {
    match login.client {
        Some(client) => {
            &&& flow is SpawnServer
            &&& cloned(client, flow->SpawnServer_client)
            &&& flow->purpose == ServerPurpose::Sso(idp)
        },
        None => flow is Finished,
    }
}

impl<C: Clone, S> Login<C, S> {
    /// Prepare to log in via the OAuth 2.0 API.
    pub fn init_oauth_login<H>(&self) -> (flow: LoginFlow<C, H>)
        ensures
            match self.client {
                Some(client) => {
                    &&& flow is SpawnServer
                    &&& cloned(client, flow->SpawnServer_client)
                    &&& flow->purpose is Oauth
                },
                None => flow is Finished,
            },
    {
        match &self.client {
            Some(client) => LoginFlow::SpawnServer {
                client: client.clone(),
                purpose: ServerPurpose::Oauth,
            },
            None => LoginFlow::Finished,
        }
    }

    /// Prepare to log in via the Matrix native API.
    pub fn init_matrix_login<H>(&self) -> (flow: LoginFlow<C, H>)
        ensures
            match self.client {
                Some(client) => {
                    &&& flow is FetchLoginTypes
                    &&& cloned(client, flow->FetchLoginTypes_client)
                },
                None => flow is Finished,
            },
    {
        match &self.client {
            Some(client) => LoginFlow::FetchLoginTypes { client: client.clone() },
            None => LoginFlow::Finished,
        }
    }

    /// Prepare to log in via the Matrix SSO API.
    pub fn init_matrix_sso_login<H>(&self, idp: Option<String>) -> (flow: LoginFlow<C, H>)
        ensures
            starts_sso(*self, idp, flow),
            self.client is None ==> flow is Finished,
            self.client is Some ==> {
                &&& flow is SpawnServer
                &&& cloned(self.client->0, flow->SpawnServer_client)
                &&& flow->purpose == ServerPurpose::Sso(idp)
            },
    {
        match &self.client {
            Some(client) => LoginFlow::SpawnServer {
                client: client.clone(),
                purpose: ServerPurpose::Sso(idp),
            },
            None => LoginFlow::Finished,
        }
    }
}

/// Whether a password is one of the login types.
pub fn supports_password<T>(login_types: &Vec<LoginType<T>>) -> (supported: bool)
    ensures
        supported == password_supported(login_types@),
{
    let mut i: usize = 0;
    while i < login_types.len()
        invariant
            i <= login_types@.len(),
            forall|j: int| 0 <= j < i ==> !(#[trigger] login_types@[j] is Password),
        decreases login_types@.len() - i,
    {
        if let LoginType::Password(_) = &login_types[i] {
            return true;
        }
        i += 1;
    }
    false
}

impl<C, H> LoginFlow<C, H> {
    /// Whether this flow waits for the given event.
    pub open spec fn awaits<A, T>(self, event: FlowEvent<H, A, T>) -> bool {
        match self {
            LoginFlow::FetchLoginTypes { .. } => event is LoginTypes,
            LoginFlow::SpawnServer { .. } => event is Server,
            LoginFlow::BuildOauthUrl { .. } => event is OauthUrl,
            LoginFlow::BuildSsoUrl { .. } => event is SsoUrl,
            LoginFlow::Finished => false,
        }
    }

    /// How many more events this flow can wait for.
    pub open spec fn remaining(self) -> nat {
        match self {
            LoginFlow::FetchLoginTypes { .. } => 3,
            LoginFlow::SpawnServer { .. } => 2,
            LoginFlow::BuildOauthUrl { .. } => 1,
            LoginFlow::BuildSsoUrl { .. } => 1,
            LoginFlow::Finished => 0,
        }
    }
}

/// Whether an event says that something failed.
pub open spec fn is_failure<H, A, T>(event: FlowEvent<H, A, T>) -> bool {
    match event {
        FlowEvent::LoginTypes { login_types, .. } => login_types is None,
        FlowEvent::Server(server) => server is None,
        FlowEvent::OauthUrl(data) => data is None,
        FlowEvent::SsoUrl(url) => url is None,
    }
}

/// Whether the URL of the Matrix SSO API, if the event has one, is valid.
pub open spec fn sso_url_is_valid<H, A, T>(event: FlowEvent<H, A, T>) -> bool {
    match event {
        FlowEvent::SsoUrl(Some(url)) => parsed_url(url@) is Some,
        _ => true,
    }
}

/// What follows an event that a flow waits for.
pub open spec fn follows<C: Clone, S, H, A, T>(
    flow: LoginFlow<C, H>,
    login: Login<C, S>,
    event: FlowEvent<H, A, T>,
    next: LoginFlow<C, H>,
    actions: Seq<FlowAction<C, H, A, T>>,
) -> bool {
    if is_failure(event) {
        next is Finished && reports_failure(actions)
    } else {
        match (flow, event) {
            (
                LoginFlow::FetchLoginTypes { client },
                FlowEvent::LoginTypes { login_types, homeserver },
            ) => if password_supported(login_types->0@) {
                &&& next is Finished
                &&& shows_method_page(
                    actions,
                    client,
                    server_name_for(login.autodiscovery, homeserver@),
                    login_types->0,
                )
            } else {
                &&& starts_sso(login, None, next)
                &&& actions.len() == 0
            },
            (LoginFlow::SpawnServer { client, purpose }, FlowEvent::Server(server)) => {
                &&& next == match purpose {
                    ServerPurpose::Oauth => LoginFlow::BuildOauthUrl {
                        client,
                        server: server->0,
                        device_id: None,
                    },
                    ServerPurpose::Sso(idp) => LoginFlow::BuildSsoUrl {
                        client,
                        idp,
                        server: server->0,
                    },
                }
                &&& actions.len() == 0
            },
            (LoginFlow::BuildOauthUrl { server, .. }, FlowEvent::OauthUrl(data)) => {
                &&& next is Finished
                &&& shows_in_browser_page(actions, server)
                &&& actions[0]->data == LoginInBrowserData::Oauth(data->0)
            },
            (LoginFlow::BuildSsoUrl { server, .. }, FlowEvent::SsoUrl(url)) => {
                &&& next is Finished
                &&& shows_in_browser_page(actions, server)
                &&& actions[0]->data is Matrix
                &&& Some(actions[0]->data->Matrix_0@) == parsed_url(url->0@)
            },
            _ => false,
        }
    }
}

impl<C: Clone, H> LoginFlow<C, H> {
    /// Go on with the event that this flow waits for.
    ///
    /// A URL of the Matrix SSO API must be valid.
    pub fn next<S, A, T>(self, login: &Login<C, S>, event: FlowEvent<H, A, T>) -> (next: (
        LoginFlow<C, H>,
        Vec<FlowAction<C, H, A, T>>,
    ))
        requires
            self.awaits(event),
            sso_url_is_valid(event),
        ensures
            follows(self, *login, event, next.0, next.1@),
            next.0.remaining() < self.remaining(),
    {
        let mut actions: Vec<FlowAction<C, H, A, T>> = Vec::new();
        let flow = match (self, event) {
            (
                LoginFlow::FetchLoginTypes { client },
                FlowEvent::LoginTypes { login_types: Some(login_types), homeserver },
            ) => {
                if supports_password(&login_types) {
                    let server_name = if login.autodiscovery {
                        sanitize_server_name(homeserver.as_str())
                    } else {
                        None
                    };
                    actions.push(FlowAction::SetUpMethodPage { client, server_name, login_types });
                    actions.push(FlowAction::PushPage(LoginPage::Method));
                    LoginFlow::Finished
                } else {
                    login.init_matrix_sso_login(None)
                }
            },
            (LoginFlow::SpawnServer { client, purpose }, FlowEvent::Server(Some(server))) => {
                match purpose {
                    ServerPurpose::Oauth => LoginFlow::BuildOauthUrl {
                        client,
                        server,
                        device_id: None,
                    },
                    ServerPurpose::Sso(idp) => LoginFlow::BuildSsoUrl { client, idp, server },
                }
            },
            (LoginFlow::BuildOauthUrl { server, .. }, FlowEvent::OauthUrl(Some(data))) => {
                actions.push(
                    FlowAction::SetUpInBrowserPage {
                        server,
                        data: LoginInBrowserData::Oauth(data),
                    },
                );
                actions.push(FlowAction::PushPage(LoginPage::InBrowser));
                LoginFlow::Finished
            },
            (LoginFlow::BuildSsoUrl { server, .. }, FlowEvent::SsoUrl(Some(url))) => {
                let url = parse_url(url.as_str()).unwrap();
                actions.push(
                    FlowAction::SetUpInBrowserPage {
                        server,
                        data: LoginInBrowserData::Matrix(url),
                    },
                );
                actions.push(FlowAction::PushPage(LoginPage::InBrowser));
                LoginFlow::Finished
            },
            _ => {
                actions.push(FlowAction::ShowToast(Toast::Message(Message::CouldNotSetUpLogin)));
                LoginFlow::Finished
            },
        };
        (flow, actions)
    }

    /// Go on with the event that this flow waits for, unless it has a URL of the Matrix SSO API
    /// that is not valid.
    pub fn checked_next<S, A, T>(
        self,
        login: &Login<C, S>,
        event: FlowEvent<H, A, T>,
    ) -> (next: Option<(LoginFlow<C, H>, Vec<FlowAction<C, H, A, T>>)>)
        requires
            self.awaits(event),
        ensures
            next is Some <==> sso_url_is_valid(event),
            next is Some ==> follows(self, *login, event, (next->0).0, (next->0).1@),
            next is Some ==> (next->0).0.remaining() < self.remaining(),
    {
        if let FlowEvent::SsoUrl(Some(url)) = &event {
            if parse_url(url.as_str()).is_none() {
                return None;
            }
        }
        Some(self.next(login, event))
    }
}

/// A login flow never ends in silence, unless there is no client any more: it shows a page or it
/// tells the user that the login could not be set up.
pub proof fn flow_ends_with_a_page_or_a_report<C: Clone, S, H, A, T>(
    flow: LoginFlow<C, H>,
    login: Login<C, S>,
    event: FlowEvent<H, A, T>,
    next: LoginFlow<C, H>,
    actions: Seq<FlowAction<C, H, A, T>>,
)
    requires
        follows(flow, login, event, next, actions),
        next is Finished,
    ensures
        ({
            ||| reports_failure(actions)
            ||| flow is BuildOauthUrl && shows_in_browser_page(
                actions,
                flow->BuildOauthUrl_server,
            )
            ||| flow is BuildSsoUrl && shows_in_browser_page(actions, flow->BuildSsoUrl_server)
            ||| exists|server_name: Option<Seq<char>>|
                flow is FetchLoginTypes && event is LoginTypes && #[trigger] shows_method_page(
                    actions,
                    flow->FetchLoginTypes_client,
                    server_name,
                    event->login_types->0,
                )
            ||| flow is FetchLoginTypes && login.client is None && actions.len() == 0
        }),
{
    if let LoginFlow::FetchLoginTypes { client } = flow {
        if let FlowEvent::LoginTypes { login_types: Some(login_types), homeserver } = event {
            if password_supported(login_types@) {
                assert(shows_method_page(
                    actions,
                    client,
                    server_name_for(login.autodiscovery, homeserver@),
                    login_types,
                ));
            }
        }
    }
}

/// A login flow that failed is over, and the user is told so once.
pub proof fn failure_is_reported_once<C: Clone, S, H, A, T>(
    flow: LoginFlow<C, H>,
    login: Login<C, S>,
    event: FlowEvent<H, A, T>,
    next: LoginFlow<C, H>,
    actions: Seq<FlowAction<C, H, A, T>>,
)
    requires
        follows(flow, login, event, next, actions),
        is_failure(event),
    ensures
        next is Finished,
        actions.len() == 1,
        actions[0] == FlowAction::<C, H, A, T>::ShowToast(
            Toast::Message(Message::CouldNotSetUpLogin),
        ),
{
}

/// A login flow that goes on shows nothing yet, and keeps the client and the identity provider it
/// was started with, except that a homeserver without passwords starts the Matrix SSO login anew,
/// without an identity provider.
pub proof fn flow_keeps_its_client<C: Clone, S, H, A, T>(
    flow: LoginFlow<C, H>,
    login: Login<C, S>,
    event: FlowEvent<H, A, T>,
    next: LoginFlow<C, H>,
    actions: Seq<FlowAction<C, H, A, T>>,
)
    requires
        follows(flow, login, event, next, actions),
        !(next is Finished),
    ensures
        actions.len() == 0,
        match flow {
            LoginFlow::SpawnServer { client, purpose: ServerPurpose::Oauth } => next is BuildOauthUrl
                && next->BuildOauthUrl_client == client,
            LoginFlow::SpawnServer { client, purpose: ServerPurpose::Sso(idp) } => {
                &&& next is BuildSsoUrl
                &&& next->BuildSsoUrl_client == client
                &&& next->idp == idp
            },
            LoginFlow::FetchLoginTypes { .. } => next is SpawnServer && next->purpose
                == ServerPurpose::Sso(None),
            _ => false,
        },
{
}

} // verus!
