//! The state of the login, and what to do when it changes.

use vstd::prelude::*;

use super::pages::{FocusTarget, LoginPage};
use crate::messages::Message;

verus! {

/// A short notification for the user.
#[derive(Debug)]
pub enum Toast {
    /// A message of our own.
    Message(Message),
    /// The description of an error.
    Text(String),
}

/// Something to do in the login view, for a client of type `C` and a session of type `S`.
#[derive(Debug)]
pub enum LoginAction<C, S> {
    /// Notify that the auto-discovery setting changed.
    NotifyAutodiscovery,
    /// Clean the homeserver page.
    CleanHomeserverPage,
    /// Clean the page to select a login method.
    CleanMethodPage,
    /// Drop a client, from within the async runtime.
    DropClient(C),
    /// Log out a session, which removes its data from the system.
    LogOut(S),
    /// Add a session to the window.
    AddSession(S),
    /// Show the view to set up the session that is initialized.
    ShowSessionSetup,
    /// Save the identifier of the session in the settings.
    SaveCurrentSession(String),
    /// Store the session that is initialized.
    StoreSession,
    /// Prepare the session that is initialized.
    PrepareSession,
    /// Push a page on the navigation view.
    PushPage(LoginPage),
    /// Pop a page from the navigation view.
    PopPage,
    /// Pop pages from the navigation view until the given page is visible.
    PopToPage(LoginPage),
    /// Set whether the navigation view reacts to the user.
    SetSensitive(bool),
    /// Set whether the action to log in via SSO is enabled.
    SetSsoEnabled(bool),
    /// Show a notification.
    ShowToast(Toast),
}

/// How to get a client.
#[derive(Debug)]
pub enum ClientRequest<C> {
    /// This is the client.
    Ready(C),
    /// The client must be built from the homeserver page.
    Build {
        /// Whether to use auto-discovery.
        autodiscovery: bool,
    },
}

/// The state of the login flows, for a client of type `C` and a session of type `S`.
#[derive(Debug)]
pub struct Login<C, S> {
    /// Whether auto-discovery is enabled.
    pub autodiscovery: bool,
    /// The Matrix client used to log in.
    pub client: Option<C>,
    /// The session that was just logged in.
    pub session: Option<S>,
}

/// What to do to drop the client.
pub open spec fn drop_client_actions<C, S>(client: Option<C>) -> Seq<LoginAction<C, S>> {
    match client {
        Some(client) => seq![LoginAction::DropClient(client)],
        None => seq![],
    }
}

/// What to do to drop the session.
pub open spec fn drop_session_actions<C, S>(session: Option<S>) -> Seq<LoginAction<C, S>> {
    match session {
        Some(session) => seq![LoginAction::LogOut(session)],
        None => seq![],
    }
}

/// What to do to hand the session to the window.
pub open spec fn add_session_actions<C, S>(session: Option<S>) -> Seq<LoginAction<C, S>> {
    match session {
        Some(session) => seq![LoginAction::AddSession(session)],
        None => seq![],
    }
}

impl<C, S> Login<C, S> {
    /// The state of a new login.
    pub open spec fn initial() -> Self {
        Login { autodiscovery: true, client: None, session: None }
    }

    /// What to do when auto-discovery is set.
    pub open spec fn autodiscovery_actions(self, autodiscovery: bool) -> Seq<LoginAction<C, S>> {
        if self.autodiscovery == autodiscovery {
            seq![]
        } else {
            seq![LoginAction::NotifyAutodiscovery]
        }
    }

    /// What to do to reset the login.
    pub open spec fn clean_actions(self) -> Seq<LoginAction<C, S>> {
        seq![LoginAction::CleanHomeserverPage, LoginAction::CleanMethodPage]
            + self.autodiscovery_actions(true) + drop_client_actions(self.client)
            + drop_session_actions(self.session) + seq![
            LoginAction::PopToPage(LoginPage::Greeter),
            LoginAction::SetSensitive(true),
        ]
    }

    /// The state after the given page became visible.
    pub open spec fn on_page(self, page: LoginPage) -> Self {
        match page {
            LoginPage::Greeter => Self::initial(),
            LoginPage::Homeserver => Login { client: None, session: None, ..self },
            LoginPage::Method => Login { session: None, ..self },
            _ => self,
        }
    }

    /// What to do when the given page became visible.
    pub open spec fn page_actions(self, page: LoginPage) -> Seq<LoginAction<C, S>> {
        match page {
            LoginPage::Greeter => self.clean_actions(),
            LoginPage::Homeserver => drop_client_actions(self.client) + drop_session_actions(
                self.session,
            ) + seq![LoginAction::CleanMethodPage],
            LoginPage::Method => drop_session_actions(self.session),
            _ => seq![],
        }
    }

    /// What to do to initialize a session.
    pub open spec fn init_session_actions(self, session_id: String) -> Seq<LoginAction<C, S>> {
        seq![LoginAction::ShowSessionSetup] + drop_client_actions(self.client) + seq![
            LoginAction::SaveCurrentSession(session_id),
            LoginAction::StoreSession,
        ]
    }

    /// What to do to finish the login.
    pub open spec fn finish_actions(self) -> Seq<LoginAction<C, S>> {
        add_session_actions(self.session) + Login { session: None::<S>, ..self }.clean_actions()
    }

    /// A new login.
    pub fn new() -> (login: Self)
        ensures
            login == Self::initial(),
    {
        Login { autodiscovery: true, client: None, session: None }
    }

    /// The visible page of the view, from the tag of the visible page of the navigation view.
    pub fn visible_page(&self, tag: &str) -> (page: LoginPage)
        requires
            exists|page: LoginPage| #[trigger] page.tag() == tag@,
        ensures
            page.tag() == tag@,
    {
        match LoginPage::from_tag(tag) {
            Some(page) => page,
            // There is always a page with this tag.
            None => LoginPage::Greeter,
        }
    }

    /// The network monitor changed.
    pub fn network_changed(&self, available: bool) -> (actions: Vec<LoginAction<C, S>>)
        ensures
            actions@ == seq![LoginAction::<C, S>::SetSsoEnabled(available)],
    {
        vec![LoginAction::SetSsoEnabled(available)]
    }

    /// What receives the focus, if anything.
    pub fn grab_focus(&self, visible_page: LoginPage, has_session_setup: bool) -> (target: Option<
        FocusTarget,
    >)
        ensures
            target is None <==> visible_page is SessionSetup && !has_session_setup,
            visible_page is Greeter ==> target == Some(FocusTarget::Greeter),
            visible_page is Homeserver ==> target == Some(FocusTarget::Homeserver),
            visible_page is Method ==> target == Some(FocusTarget::Method),
            visible_page is InBrowser ==> target == Some(FocusTarget::InBrowser),
            visible_page is SessionSetup && has_session_setup ==> target == Some(
                FocusTarget::SessionSetup,
            ),
            visible_page is Completed ==> target == Some(FocusTarget::DoneButton),
    {
        visible_page.focus_target(has_session_setup)
    }

    /// Set whether auto-discovery is enabled.
    pub fn set_autodiscovery(&mut self, autodiscovery: bool) -> (actions: Vec<LoginAction<C, S>>)
        ensures
            *final(self) == (Login { autodiscovery, ..*old(self) }),
            actions@ == old(self).autodiscovery_actions(autodiscovery),
    {
        if self.autodiscovery == autodiscovery {
            return Vec::new();
        }
        self.autodiscovery = autodiscovery;
        vec![LoginAction::NotifyAutodiscovery]
    }

    /// Set the Matrix client.
    pub fn set_client(&mut self, client: Option<C>)
        ensures
            *final(self) == (Login { client, ..*old(self) }),
    {
        self.client = client;
    }

    /// Drop the Matrix client.
    pub fn drop_client(&mut self) -> (actions: Vec<LoginAction<C, S>>)
        ensures
            *final(self) == (Login { client: None::<C>, ..*old(self) }),
            actions@ == drop_client_actions::<C, S>(old(self).client),
    {
        match self.client.take() {
            Some(client) => vec![LoginAction::DropClient(client)],
            None => Vec::new(),
        }
    }

    /// Drop the session and clean up its data from the system.
    pub fn drop_session(&mut self) -> (actions: Vec<LoginAction<C, S>>)
        ensures
            *final(self) == (Login { session: None::<S>, ..*old(self) }),
            actions@ == drop_session_actions::<C, S>(old(self).session),
    {
        match self.session.take() {
            Some(session) => vec![LoginAction::LogOut(session)],
            None => Vec::new(),
        }
    }

    /// Dispose of the login.
    pub fn dispose(&mut self) -> (actions: Vec<LoginAction<C, S>>)
        ensures
            *final(self) == (Login { client: None::<C>, session: None::<S>, ..*old(self) }),
            actions@ == drop_client_actions::<C, S>(old(self).client) + drop_session_actions(
                old(self).session,
            ),
    {
        let mut actions = self.drop_client();
        let mut more = self.drop_session();
        actions.append(&mut more);
        actions
    }

    /// Reset the login stack.
    pub fn clean(&mut self) -> (actions: Vec<LoginAction<C, S>>)
        ensures
            *final(self) == Self::initial(),
            actions@ == old(self).clean_actions(),
    {
        // Clean pages.
        let mut actions = vec![LoginAction::CleanHomeserverPage, LoginAction::CleanMethodPage];

        // Clean data.
        let mut more = self.set_autodiscovery(true);
        actions.append(&mut more);
        let mut more = self.drop_client();
        actions.append(&mut more);
        let mut more = self.drop_session();
        actions.append(&mut more);

        // Reinitialize UI.
        actions.push(LoginAction::PopToPage(LoginPage::Greeter));
        let mut more = self.unfreeze();
        actions.append(&mut more);
        assert(actions@ =~= old(self).clean_actions());
        actions
    }

    /// Freeze the login screen.
    pub fn freeze(&self) -> (actions: Vec<LoginAction<C, S>>)
        ensures
            actions@ == seq![LoginAction::<C, S>::SetSensitive(false)],
    {
        vec![LoginAction::SetSensitive(false)]
    }

    /// Unfreeze the login screen.
    pub fn unfreeze(&self) -> (actions: Vec<LoginAction<C, S>>)
        ensures
            actions@ == seq![LoginAction::<C, S>::SetSensitive(true)],
    {
        vec![LoginAction::SetSensitive(true)]
    }

    /// The visible page changed.
    pub fn visible_page_changed(&mut self, page: LoginPage) -> (actions: Vec<LoginAction<C, S>>)
        ensures
            *final(self) == old(self).on_page(page),
            actions@ == old(self).page_actions(page),
    {
        match page {
            LoginPage::Greeter => self.clean(),
            LoginPage::Homeserver => {
                // Drop the client because it is bound to the homeserver.
                let mut actions = self.drop_client();
                // Drop the session because it is bound to the homeserver and account.
                let mut more = self.drop_session();
                actions.append(&mut more);
                actions.push(LoginAction::CleanMethodPage);
                assert(actions@ =~= old(self).page_actions(page));
                actions
            },
            // Drop the session because it is bound to the account.
            LoginPage::Method => self.drop_session(),
            _ => Vec::new(),
        }
    }

    /// Initialize the given session.
    pub fn init_session(&mut self, session: S, session_id: String) -> (actions: Vec<
        LoginAction<C, S>,
    >)
        ensures
            *final(self) == (Login { client: None::<C>, session: Some(session), ..*old(self) }),
            actions@ == old(self).init_session_actions(session_id),
    {
        let mut actions = vec![LoginAction::ShowSessionSetup];
        let mut more = self.drop_client();
        actions.append(&mut more);
        self.session = Some(session);

        // Save the identifier of the session that is logging in.
        actions.push(LoginAction::SaveCurrentSession(session_id));
        actions.push(LoginAction::StoreSession);
        assert(actions@ =~= old(self).init_session_actions(session_id));
        actions
    }

    /// The session that is initialized was stored, or could not be stored.
    pub fn session_stored(&self, stored: bool) -> (actions: Vec<LoginAction<C, S>>)
        ensures
            actions@ == if stored {
                seq![LoginAction::<C, S>::PrepareSession]
            } else {
                seq![
                    LoginAction::ShowToast(Toast::Message(Message::CouldNotStoreSession)),
                    LoginAction::PrepareSession,
                ]
            },
    {
        let mut actions: Vec<LoginAction<C, S>> = Vec::new();
        if !stored {
            actions.push(LoginAction::ShowToast(Toast::Message(Message::CouldNotStoreSession)));
        }
        actions.push(LoginAction::PrepareSession);
        actions
    }

    /// The session setup is completed.
    pub fn session_setup_completed(&self) -> (actions: Vec<LoginAction<C, S>>)
        ensures
            actions@ == seq![LoginAction::<C, S>::PushPage(LoginPage::Completed)],
    {
        vec![LoginAction::PushPage(LoginPage::Completed)]
    }

    /// The session of a successful login was created, with the given identifier, or could not be
    /// created, for the given reason.
    pub fn session_created(&mut self, created: Result<(S, String), String>) -> (actions: Vec<
        LoginAction<C, S>,
    >)
        ensures
            match created {
                Ok((session, session_id)) => {
                    &&& *final(self) == (Login {
                        client: None::<C>,
                        session: Some(session),
                        ..*old(self)
                    })
                    &&& actions@ == old(self).init_session_actions(session_id)
                },
                Err(error) => {
                    &&& *final(self) == *old(self)
                    &&& actions@ == seq![
                        LoginAction::<C, S>::ShowToast(Toast::Text(error)),
                        LoginAction::PopPage,
                    ]
                },
            },
    {
        match created {
            Ok((session, session_id)) => self.init_session(session, session_id),
            Err(error) => {
                vec![LoginAction::ShowToast(Toast::Text(error)), LoginAction::PopPage]
            },
        }
    }

    /// Finish the login process and show the session, if there is a window to show it.
    pub fn finish_login(&mut self, has_window: bool) -> (actions: Vec<LoginAction<C, S>>)
        ensures
            *final(self) == if has_window {
                Self::initial()
            } else {
                *old(self)
            },
            actions@ == if has_window {
                old(self).finish_actions()
            } else {
                seq![]
            },
    {
        if !has_window {
            return Vec::new();
        }
        let mut actions: Vec<LoginAction<C, S>> = Vec::new();
        if let Some(session) = self.session.take() {
            actions.push(LoginAction::AddSession(session));
        }
        let mut more = self.clean();
        actions.append(&mut more);
        assert(actions@ =~= old(self).finish_actions());
        actions
    }
}

impl<C: Clone, S> Login<C, S> {
    /// The Matrix client, or how to build it if it was dropped.
    pub fn client(&self) -> (request: ClientRequest<C>)
        ensures
            match request {
                ClientRequest::Ready(client) => self.client is Some && cloned(
                    self.client->0,
                    client,
                ),
                ClientRequest::Build { autodiscovery } => self.client is None && autodiscovery
                    == self.autodiscovery,
            },
    {
        match &self.client {
            Some(client) => ClientRequest::Ready(client.clone()),
            // If the client was dropped, try to recreate it.
            None => ClientRequest::Build { autodiscovery: self.autodiscovery },
        }
    }

    /// The client was built, or could not be built.
    pub fn client_built(&mut self, built: Option<C>) -> (client: Option<C>)
        ensures
            client == built,
            match (built, final(self).client) {
                (Some(built), Some(kept)) => cloned(built, kept),
                (None, None) => true,
                _ => false,
            },
            *final(self) == (Login { client: final(self).client, ..*old(self) }),
    {
        let kept = match &built {
            Some(client) => Some(client.clone()),
            None => None,
        };
        self.set_client(kept);
        built
    }
}

} // verus!
