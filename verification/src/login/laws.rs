//! What holds of the login as a whole.
//!
//! A client or a session that is given up by resetting, finishing or disposing of the login, or by
//! showing another page, is handed over exactly once. So is a client when a session is initialized.
//! A session that is replaced by another one with `init_session`, and a client that is replaced with
//! `set_client`, are not handed over.
//!
//! The action to log in via SSO follows the network.

use vstd::prelude::*;

use super::pages::LoginPage;
use super::state::{add_session_actions, drop_client_actions, drop_session_actions};
use super::state::{Login, LoginAction};

verus! {

/// The clients that some actions drop, in order.
pub open spec fn dropped_clients<C, S>(actions: Seq<LoginAction<C, S>>) -> Seq<C>
    decreases actions.len(),
{
    if actions.len() == 0 {
        seq![]
    } else {
        let rest = dropped_clients(actions.drop_last());
        match actions.last() {
            LoginAction::DropClient(client) => rest.push(client),
            _ => rest,
        }
    }
}

/// The sessions that some actions log out, in order.
pub open spec fn logged_out_sessions<C, S>(actions: Seq<LoginAction<C, S>>) -> Seq<S>
    decreases actions.len(),
{
    if actions.len() == 0 {
        seq![]
    } else {
        let rest = logged_out_sessions(actions.drop_last());
        match actions.last() {
            LoginAction::LogOut(session) => rest.push(session),
            _ => rest,
        }
    }
}

/// The sessions that some actions add to the window, in order.
pub open spec fn added_sessions<C, S>(actions: Seq<LoginAction<C, S>>) -> Seq<S>
    decreases actions.len(),
{
    if actions.len() == 0 {
        seq![]
    } else {
        let rest = added_sessions(actions.drop_last());
        match actions.last() {
            LoginAction::AddSession(session) => rest.push(session),
            _ => rest,
        }
    }
}

/// The value that is held, if any.
pub open spec fn held<T>(value: Option<T>) -> Seq<T> {
    match value {
        Some(value) => seq![value],
        None => seq![],
    }
}

/// Whether the client is kept or dropped, once.
pub open spec fn client_is_conserved<C, S>(
    before: Login<C, S>,
    after: Login<C, S>,
    actions: Seq<LoginAction<C, S>>,
) -> bool {
    held(before.client) == held(after.client) + dropped_clients(actions)
}

/// Whether the session is kept, logged out or added to the window, once.
pub open spec fn session_is_conserved<C, S>(
    before: Login<C, S>,
    after: Login<C, S>,
    actions: Seq<LoginAction<C, S>>,
) -> bool {
    held(before.session) == held(after.session) + logged_out_sessions(actions) + added_sessions(
        actions,
    )
}

proof fn lemma_concatenation<C, S>(a: Seq<LoginAction<C, S>>, b: Seq<LoginAction<C, S>>)
    ensures
        dropped_clients(a + b) == dropped_clients(a) + dropped_clients(b),
        logged_out_sessions(a + b) == logged_out_sessions(a) + logged_out_sessions(b),
        added_sessions(a + b) == added_sessions(a) + added_sessions(b),
    decreases b.len(),
{
    if b.len() == 0 {
        assert(a + b =~= a);
    } else {
        assert((a + b).drop_last() =~= a + b.drop_last());
        assert((a + b).last() == b.last());
        lemma_concatenation(a, b.drop_last());
    }
    assert(dropped_clients(a + b) =~= dropped_clients(a) + dropped_clients(b));
    assert(logged_out_sessions(a + b) =~= logged_out_sessions(a) + logged_out_sessions(b));
    assert(added_sessions(a + b) =~= added_sessions(a) + added_sessions(b));
}

proof fn lemma_single<C, S>(action: LoginAction<C, S>)
    ensures
        dropped_clients(seq![action]) == match action {
            LoginAction::DropClient(client) => seq![client],
            _ => seq![],
        },
        logged_out_sessions(seq![action]) == match action {
            LoginAction::LogOut(session) => seq![session],
            _ => seq![],
        },
        added_sessions(seq![action]) == match action {
            LoginAction::AddSession(session) => seq![session],
            _ => seq![],
        },
{
    reveal_with_fuel(dropped_clients, 2);
    reveal_with_fuel(logged_out_sessions, 2);
    reveal_with_fuel(added_sessions, 2);
    assert(seq![action].drop_last() =~= seq![]);
}

/// Actions that hand nothing over.
spec fn hands_nothing_over<C, S>(actions: Seq<LoginAction<C, S>>) -> bool {
    &&& dropped_clients(actions) == Seq::<C>::empty()
    &&& logged_out_sessions(actions) == Seq::<S>::empty()
    &&& added_sessions(actions) == Seq::<S>::empty()
}

proof fn lemma_pair<C, S>(a: LoginAction<C, S>, b: LoginAction<C, S>)
    requires
        hands_nothing_over(seq![a]),
        hands_nothing_over(seq![b]),
    ensures
        hands_nothing_over(seq![a, b]),
{
    assert(seq![a, b] =~= seq![a] + seq![b]);
    lemma_concatenation(seq![a], seq![b]);
}

/// What dropping, logging out and adding hands over.
proof fn lemma_parts<C, S>(login: Login<C, S>)
    ensures
        dropped_clients(drop_client_actions::<C, S>(login.client)) == held(login.client),
        logged_out_sessions(drop_client_actions::<C, S>(login.client)) == Seq::<S>::empty(),
        added_sessions(drop_client_actions::<C, S>(login.client)) == Seq::<S>::empty(),
        dropped_clients(drop_session_actions::<C, S>(login.session)) == Seq::<C>::empty(),
        logged_out_sessions(drop_session_actions::<C, S>(login.session)) == held(login.session),
        added_sessions(drop_session_actions::<C, S>(login.session)) == Seq::<S>::empty(),
        dropped_clients(add_session_actions::<C, S>(login.session)) == Seq::<C>::empty(),
        logged_out_sessions(add_session_actions::<C, S>(login.session)) == Seq::<S>::empty(),
        added_sessions(add_session_actions::<C, S>(login.session)) == held(login.session),
        hands_nothing_over(login.autodiscovery_actions(true)),
{
    if let Some(client) = login.client {
        lemma_single(LoginAction::<C, S>::DropClient(client));
    }
    if let Some(session) = login.session {
        lemma_single(LoginAction::<C, S>::LogOut(session));
        lemma_single(LoginAction::<C, S>::AddSession(session));
    }
    lemma_single(LoginAction::<C, S>::NotifyAutodiscovery);
}

/// Resetting the login drops the client and logs out the session that it held, each once, and
/// leaves a login that is like a new one.
pub proof fn clean_hands_everything_over<C, S>(login: Login<C, S>)
    ensures
        dropped_clients(login.clean_actions()) == held(login.client),
        logged_out_sessions(login.clean_actions()) == held(login.session),
        added_sessions(login.clean_actions()) == Seq::<S>::empty(),
        client_is_conserved(login, Login::initial(), login.clean_actions()),
        session_is_conserved(login, Login::initial(), login.clean_actions()),
{
    let start = seq![LoginAction::<C, S>::CleanHomeserverPage, LoginAction::CleanMethodPage];
    let notify = login.autodiscovery_actions(true);
    let client = drop_client_actions::<C, S>(login.client);
    let session = drop_session_actions::<C, S>(login.session);
    let end = seq![
        LoginAction::<C, S>::PopToPage(LoginPage::Greeter),
        LoginAction::SetSensitive(true),
    ];
    lemma_parts(login);
    lemma_single(LoginAction::<C, S>::CleanHomeserverPage);
    lemma_single(LoginAction::<C, S>::CleanMethodPage);
    lemma_single(LoginAction::<C, S>::PopToPage(LoginPage::Greeter));
    lemma_single(LoginAction::<C, S>::SetSensitive(true));
    lemma_pair(LoginAction::<C, S>::CleanHomeserverPage, LoginAction::CleanMethodPage);
    lemma_pair(
        LoginAction::<C, S>::PopToPage(LoginPage::Greeter),
        LoginAction::SetSensitive(true),
    );
    lemma_concatenation(start, notify);
    lemma_concatenation(start + notify, client);
    lemma_concatenation(start + notify + client, session);
    lemma_concatenation(start + notify + client + session, end);
    assert(dropped_clients(login.clean_actions()) =~= held(login.client));
    assert(logged_out_sessions(login.clean_actions()) =~= held(login.session));
    assert(added_sessions(login.clean_actions()) =~= seq![]);
    assert(held(login.client) =~= held(None::<C>) + dropped_clients(login.clean_actions()));
    assert(held(login.session) =~= held(None::<S>) + logged_out_sessions(login.clean_actions())
        + added_sessions(login.clean_actions()));
}

/// When another page becomes visible, the client is kept or dropped, and the session is kept or
/// logged out.
pub proof fn page_change_conserves<C, S>(login: Login<C, S>, page: LoginPage)
    ensures
        client_is_conserved(login, login.on_page(page), login.page_actions(page)),
        session_is_conserved(login, login.on_page(page), login.page_actions(page)),
        added_sessions(login.page_actions(page)) == Seq::<S>::empty(),
{
    let actions = login.page_actions(page);
    let client = drop_client_actions::<C, S>(login.client);
    let session = drop_session_actions::<C, S>(login.session);
    lemma_parts(login);
    match page {
        LoginPage::Greeter => {
            clean_hands_everything_over(login);
        },
        LoginPage::Homeserver => {
            lemma_single(LoginAction::<C, S>::CleanMethodPage);
            lemma_concatenation(client, session);
            lemma_concatenation(client + session, seq![LoginAction::<C, S>::CleanMethodPage]);
        },
        _ => {},
    }
    let after = login.on_page(page);
    assert(held(login.client) =~= held(after.client) + dropped_clients(actions));
    assert(held(login.session) =~= held(after.session) + logged_out_sessions(actions)
        + added_sessions(actions));
    assert(added_sessions(actions) =~= seq![]);
}

/// What a page gives up when it becomes visible is gone: when the same page becomes visible again,
/// nothing changes and nothing more is handed over.
pub proof fn second_page_change_hands_nothing_over<C, S>(login: Login<C, S>, page: LoginPage)
    ensures
        login.on_page(page).on_page(page) == login.on_page(page),
        dropped_clients(login.on_page(page).page_actions(page)) == Seq::<C>::empty(),
        logged_out_sessions(login.on_page(page).page_actions(page)) == Seq::<S>::empty(),
        added_sessions(login.on_page(page).page_actions(page)) == Seq::<S>::empty(),
{
    let after = login.on_page(page);
    let actions = after.page_actions(page);
    page_change_conserves(after, page);
    assert(held(after.client).len() == held(after.client).len() + dropped_clients(actions).len());
    assert(held(after.session).len() == held(after.session).len() + logged_out_sessions(
        actions,
    ).len());
    assert(dropped_clients(actions) =~= Seq::<C>::empty());
    assert(logged_out_sessions(actions) =~= Seq::<S>::empty());
}

/// On the homeserver page there is no client and no session, because they are bound to the
/// homeserver. On the page to select a login method there is no session, because it is bound to
/// the account.
pub proof fn pages_hold_nothing_bound_later<C, S>(login: Login<C, S>, page: LoginPage)
    ensures
        page is Greeter ==> login.on_page(page) == Login::<C, S>::initial(),
        page is Homeserver ==> login.on_page(page).client is None && login.on_page(
            page,
        ).session is None,
        page is Method ==> login.on_page(page).session is None && login.on_page(page).client
            == login.client,
        page is InBrowser || page is SessionSetup || page is Completed ==> login.on_page(page)
            == login,
{
}

/// Finishing the login adds the session to the window, once, and does not log it out.
pub proof fn finish_adds_the_session<C, S>(login: Login<C, S>)
    ensures
        added_sessions(login.finish_actions()) == held(login.session),
        logged_out_sessions(login.finish_actions()) == Seq::<S>::empty(),
        dropped_clients(login.finish_actions()) == held(login.client),
        client_is_conserved(login, Login::initial(), login.finish_actions()),
        session_is_conserved(login, Login::initial(), login.finish_actions()),
{
    let without = Login { session: None::<S>, ..login };
    let actions = login.finish_actions();
    lemma_parts(login);
    clean_hands_everything_over(without);
    lemma_concatenation(add_session_actions::<C, S>(login.session), without.clean_actions());
    assert(added_sessions(actions) =~= held(login.session));
    assert(logged_out_sessions(actions) =~= seq![]);
    assert(dropped_clients(actions) =~= held(login.client));
    assert(held(login.client) =~= held(None::<C>) + dropped_clients(actions));
    assert(held(login.session) =~= held(None::<S>) + logged_out_sessions(actions)
        + added_sessions(actions));
}

/// Disposing of the login drops the client and logs out the session that it held, each once.
pub proof fn dispose_hands_everything_over<C, S>(login: Login<C, S>)
    ensures
        ({
            let actions = drop_client_actions::<C, S>(login.client) + drop_session_actions(
                login.session,
            );
            &&& dropped_clients(actions) == held(login.client)
            &&& logged_out_sessions(actions) == held(login.session)
            &&& added_sessions(actions) == Seq::<S>::empty()
        }),
{
    let client = drop_client_actions::<C, S>(login.client);
    let session = drop_session_actions::<C, S>(login.session);
    lemma_parts(login);
    lemma_concatenation(client, session);
    assert(dropped_clients(client + session) =~= held(login.client));
    assert(logged_out_sessions(client + session) =~= held(login.session));
    assert(added_sessions(client + session) =~= seq![]);
}

/// Initializing a session drops the client, once, and neither logs out a session nor adds one to
/// the window.
pub proof fn init_session_drops_the_client<C, S>(login: Login<C, S>, session_id: String)
    ensures
        dropped_clients(login.init_session_actions(session_id)) == held(login.client),
        logged_out_sessions(login.init_session_actions(session_id)) == Seq::<S>::empty(),
        added_sessions(login.init_session_actions(session_id)) == Seq::<S>::empty(),
{
    let start = seq![LoginAction::<C, S>::ShowSessionSetup];
    let client = drop_client_actions::<C, S>(login.client);
    let end = seq![
        LoginAction::<C, S>::SaveCurrentSession(session_id),
        LoginAction::StoreSession,
    ];
    lemma_parts(login);
    lemma_single(LoginAction::<C, S>::ShowSessionSetup);
    lemma_single(LoginAction::<C, S>::SaveCurrentSession(session_id));
    lemma_single(LoginAction::<C, S>::StoreSession);
    lemma_pair(LoginAction::<C, S>::SaveCurrentSession(session_id), LoginAction::StoreSession);
    lemma_concatenation(start, client);
    lemma_concatenation(start + client, end);
    let actions = login.init_session_actions(session_id);
    assert(dropped_clients(actions) =~= held(login.client));
    assert(logged_out_sessions(actions) =~= seq![]);
    assert(added_sessions(actions) =~= seq![]);
}

/// What happens to the login view by itself.
pub enum ViewEvent {
    /// The network monitor changed, and the network is available or not.
    NetworkChanged(bool),
    /// Another page became visible.
    VisiblePageChanged(LoginPage),
}

/// The state after some events.
pub open spec fn state_after<C, S>(login: Login<C, S>, events: Seq<ViewEvent>) -> Login<C, S>
    decreases events.len(),
{
    if events.len() == 0 {
        login
    } else {
        let before = state_after(login, events.drop_last());
        match events.last() {
            ViewEvent::NetworkChanged(_) => before,
            ViewEvent::VisiblePageChanged(page) => before.on_page(page),
        }
    }
}

/// What to do at an event.
pub open spec fn event_actions<C, S>(login: Login<C, S>, event: ViewEvent) -> Seq<
    LoginAction<C, S>,
> {
    match event {
        ViewEvent::NetworkChanged(available) => seq![LoginAction::SetSsoEnabled(available)],
        ViewEvent::VisiblePageChanged(page) => login.page_actions(page),
    }
}

/// What is done over some events.
pub open spec fn run_actions<C, S>(login: Login<C, S>, events: Seq<ViewEvent>) -> Seq<
    LoginAction<C, S>,
>
    decreases events.len(),
{
    if events.len() == 0 {
        seq![]
    } else {
        let before = events.drop_last();
        run_actions(login, before) + event_actions(state_after(login, before), events.last())
    }
}

/// Whether the action to log in via SSO is enabled after some actions, given whether it was before.
pub open spec fn sso_enabled<C, S>(before: bool, actions: Seq<LoginAction<C, S>>) -> bool
    decreases actions.len(),
{
    if actions.len() == 0 {
        before
    } else {
        match actions.last() {
            LoginAction::SetSsoEnabled(enabled) => enabled,
            _ => sso_enabled(before, actions.drop_last()),
        }
    }
}

/// Whether the network is available after some events, given whether it was before.
pub open spec fn network_available(before: bool, events: Seq<ViewEvent>) -> bool
    decreases events.len(),
{
    if events.len() == 0 {
        before
    } else {
        match events.last() {
            ViewEvent::NetworkChanged(available) => available,
            _ => network_available(before, events.drop_last()),
        }
    }
}

/// From the construction of the view on, when the network monitor is read for the first time, the
/// action to log in via SSO is enabled exactly if the network was available last.
pub proof fn sso_follows_the_network<C, S>(
    login: Login<C, S>,
    initially_enabled: bool,
    initially_available: bool,
    events: Seq<ViewEvent>,
)
    ensures
        sso_enabled(
            initially_enabled,
            event_actions(login, ViewEvent::NetworkChanged(initially_available)) + run_actions(
                login,
                events,
            ),
        ) == network_available(initially_available, events),
    decreases events.len(),
{
    let start = event_actions(login, ViewEvent::NetworkChanged(initially_available));
    if events.len() == 0 {
        assert(start + run_actions(login, events) =~= start);
    } else {
        let before = events.drop_last();
        let more = event_actions(state_after(login, before), events.last());
        sso_follows_the_network(login, initially_enabled, initially_available, before);
        assert(start + run_actions(login, events) =~= (start + run_actions(login, before)) + more);
        match events.last() {
            ViewEvent::NetworkChanged(_) => {
                assert((start + run_actions(login, events)).last() == more[0]);
            },
            ViewEvent::VisiblePageChanged(_) => {
                lemma_sso_untouched(initially_enabled, start + run_actions(login, before), more);
            },
        }
    }
}

/// Actions that do not speak of the action to log in via SSO leave it alone.
proof fn lemma_sso_untouched<C, S>(
    before: bool,
    actions: Seq<LoginAction<C, S>>,
    more: Seq<LoginAction<C, S>>,
)
    requires
        forall|i: int| 0 <= i < more.len() ==> !(#[trigger] more[i] is SetSsoEnabled),
    ensures
        sso_enabled(before, actions + more) == sso_enabled(before, actions),
    decreases more.len(),
{
    if more.len() == 0 {
        assert(actions + more =~= actions);
    } else {
        assert((actions + more).last() == more[more.len() - 1]);
        assert((actions + more).drop_last() =~= actions + more.drop_last());
        lemma_sso_untouched(before, actions, more.drop_last());
    }
}

/// One if there is a value, and otherwise zero.
pub open spec fn count<T>(value: Option<T>) -> int {
    if value is Some {
        1
    } else {
        0
    }
}

/// A new login uses auto-discovery and holds nothing.
pub proof fn new_login_holds_nothing<C, S>(login: Login<C, S>)
    requires
        login == Login::<C, S>::initial(),
    ensures
        login.autodiscovery,
        login.client is None,
        login.session is None,
{
}

/// A change of auto-discovery is notified once, and anything else is not.
pub proof fn autodiscovery_is_notified_on_change<C, S>(login: Login<C, S>, autodiscovery: bool)
    ensures
        login.autodiscovery == autodiscovery ==> login.autodiscovery_actions(autodiscovery).len()
            == 0,
        login.autodiscovery != autodiscovery ==> login.autodiscovery_actions(autodiscovery).len()
            == 1 && login.autodiscovery_actions(autodiscovery)[0]
            == LoginAction::<C, S>::NotifyAutodiscovery,
{
}

/// Resetting the login first cleans both pages, and last goes back to the greeter and lets the user
/// act again. In between it notifies that auto-discovery is enabled unless it was, drops the client
/// and logs out the session, as far as there are any, and does nothing else.
pub proof fn clean_resets_everything<C, S>(login: Login<C, S>, actions: Seq<LoginAction<C, S>>)
    requires
        actions == login.clean_actions(),
    ensures
        ({
            let notified: int = if login.autodiscovery {
                0
            } else {
                1
            };
            let dropped = notified + count(login.client);
            let n = actions.len();
            &&& n == 4 + dropped + count(login.session)
            &&& actions[0] is CleanHomeserverPage
            &&& actions[1] is CleanMethodPage
            &&& !login.autodiscovery ==> actions[2] is NotifyAutodiscovery
            &&& login.client is Some ==> actions[2 + notified] == LoginAction::<C, S>::DropClient(
                login.client->0,
            )
            &&& login.session is Some ==> actions[2 + dropped] == LoginAction::<C, S>::LogOut(
                login.session->0,
            )
            &&& actions[n - 2] == LoginAction::<C, S>::PopToPage(LoginPage::Greeter)
            &&& actions[n - 1] == LoginAction::<C, S>::SetSensitive(true)
        }),
{
}

/// Finishing the login hands the session to the window first, if there is one, and then resets the
/// login: it cleans both pages, notifies that auto-discovery is enabled unless it was, drops the
/// client, goes back to the greeter and lets the user act again.
pub proof fn finish_resets_everything<C, S>(login: Login<C, S>, actions: Seq<LoginAction<C, S>>)
    requires
        actions == login.finish_actions(),
    ensures
        ({
            let added = count(login.session);
            let notified: int = if login.autodiscovery {
                0
            } else {
                1
            };
            let n = actions.len();
            &&& n == 4 + added + notified + count(login.client)
            &&& login.session is Some ==> actions[0] == LoginAction::<C, S>::AddSession(
                login.session->0,
            )
            &&& actions[added] is CleanHomeserverPage
            &&& actions[added + 1] is CleanMethodPage
            &&& !login.autodiscovery ==> actions[added + 2] is NotifyAutodiscovery
            &&& login.client is Some ==> actions[added + 2 + notified] == LoginAction::<
                C,
                S,
            >::DropClient(login.client->0)
            &&& actions[n - 2] == LoginAction::<C, S>::PopToPage(LoginPage::Greeter)
            &&& actions[n - 1] == LoginAction::<C, S>::SetSensitive(true)
        }),
{
}

/// A session that was created is shown for its setup first, then the client is dropped if there is
/// one, and last the identifier of the session is saved and the session is stored, whatever the
/// login was like.
pub proof fn created_session_is_saved_and_stored<C, S>(
    login: Login<C, S>,
    session_id: String,
    actions: Seq<LoginAction<C, S>>,
)
    requires
        actions == login.init_session_actions(session_id),
    ensures
        actions.len() == 3 + count(login.client),
        actions[0] is ShowSessionSetup,
        login.client is Some ==> actions[1] == LoginAction::<C, S>::DropClient(login.client->0),
        actions[actions.len() - 2] == LoginAction::<C, S>::SaveCurrentSession(session_id),
        actions[actions.len() - 1] is StoreSession,
        forall|i: int| 0 <= i < actions.len() - 1 ==> !(#[trigger] actions[i] is StoreSession),
{
}

/// Dropping the client and the session, in this order, is all that disposing of the login does.
pub proof fn dispose_drops_client_and_session<C, S>(
    login: Login<C, S>,
    actions: Seq<LoginAction<C, S>>,
)
    requires
        actions == drop_client_actions::<C, S>(login.client) + drop_session_actions(login.session),
    ensures
        drop_client_actions::<C, S>(login.client).len() == count(login.client),
        drop_session_actions::<C, S>(login.session).len() == count(login.session),
        actions.len() == count(login.client) + count(login.session),
        login.client is Some ==> actions[0] == LoginAction::<C, S>::DropClient(login.client->0),
        login.session is Some ==> actions[count(login.client)] == LoginAction::<C, S>::LogOut(
            login.session->0,
        ),
{
}

/// The greeter resets the login. The homeserver page drops the client and the session and cleans the
/// page to select a login method, and the latter drops the session. Every other page does nothing.
/// Auto-discovery only changes on the greeter.
pub proof fn pages_give_up_what_is_bound_later<C, S>(
    login: Login<C, S>,
    page: LoginPage,
    after: Login<C, S>,
    actions: Seq<LoginAction<C, S>>,
)
    requires
        after == login.on_page(page),
        actions == login.page_actions(page),
    ensures
        after.autodiscovery == (login.autodiscovery || page is Greeter),
        after.client == if page is Greeter || page is Homeserver {
            None
        } else {
            login.client
        },
        after.session == if page is Greeter || page is Homeserver || page is Method {
            None
        } else {
            login.session
        },
        page is Greeter ==> actions == login.clean_actions(),
        page is Homeserver ==> {
            &&& actions.len() == count(login.client) + count(login.session) + 1
            &&& login.client is Some ==> actions[0] == LoginAction::<C, S>::DropClient(
                login.client->0,
            )
            &&& login.session is Some ==> actions[count(login.client)] == LoginAction::<
                C,
                S,
            >::LogOut(login.session->0)
            &&& actions[actions.len() - 1] is CleanMethodPage
        },
        page is Method ==> {
            &&& actions.len() == count(login.session)
            &&& login.session is Some ==> actions[0] == LoginAction::<C, S>::LogOut(
                login.session->0,
            )
        },
        page is InBrowser || page is SessionSetup || page is Completed ==> actions.len() == 0,
{
}

} // verus!
