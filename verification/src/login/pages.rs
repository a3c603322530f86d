//! The pages of the login stack.

use vstd::prelude::*;

use crate::text::same_text;

verus! {

/// A page of the login stack.
#[derive(Debug, Clone, Copy, PartialEq, Eq, Structural)]
pub enum LoginPage {
    /// The greeter page.
    Greeter,
    /// The homeserver page.
    Homeserver,
    /// The page to select a login method.
    Method,
    /// The page to log in with the browser.
    InBrowser,
    /// The session setup stack.
    SessionSetup,
    /// The login is completed.
    Completed,
}

/// What receives the focus in the login view.
#[derive(Debug, Clone, Copy, PartialEq, Eq, Structural)]
pub enum FocusTarget {
    /// The greeter page.
    Greeter,
    /// The homeserver page.
    Homeserver,
    /// The page to select a login method.
    Method,
    /// The page to log in with the browser.
    InBrowser,
    /// The session setup stack.
    SessionSetup,
    /// The button of the last page.
    DoneButton,
}

impl LoginPage {
    /// The tag of this page in the navigation view.
    pub open spec fn tag(self) -> Seq<char> {
        match self {
            LoginPage::Greeter => "greeter"@,
            LoginPage::Homeserver => "homeserver"@,
            LoginPage::Method => "method"@,
            LoginPage::InBrowser => "in-browser"@,
            LoginPage::SessionSetup => "session-setup"@,
            LoginPage::Completed => "completed"@,
        }
    }

    /// The tag of this page in the navigation view.
    pub fn as_tag(self) -> (tag: &'static str)
        ensures
            tag@ == self.tag(),
            self is Greeter ==> tag@ == "greeter"@,
            self is Homeserver ==> tag@ == "homeserver"@,
            self is Method ==> tag@ == "method"@,
            self is InBrowser ==> tag@ == "in-browser"@,
            self is SessionSetup ==> tag@ == "session-setup"@,
            self is Completed ==> tag@ == "completed"@,
    {
        match self {
            LoginPage::Greeter => "greeter",
            LoginPage::Homeserver => "homeserver",
            LoginPage::Method => "method",
            LoginPage::InBrowser => "in-browser",
            LoginPage::SessionSetup => "session-setup",
            LoginPage::Completed => "completed",
        }
    }

    /// The page with the given tag, if there is one.
    pub fn from_tag(tag: &str) -> (page: Option<LoginPage>)
        ensures
            match page {
                Some(page) => page.tag() == tag@,
                None => forall|page: LoginPage| #[trigger] page.tag() != tag@,
            },
    {
        if same_text(tag, "greeter") {
            Some(LoginPage::Greeter)
        } else if same_text(tag, "homeserver") {
            Some(LoginPage::Homeserver)
        } else if same_text(tag, "method") {
            Some(LoginPage::Method)
        } else if same_text(tag, "in-browser") {
            Some(LoginPage::InBrowser)
        } else if same_text(tag, "session-setup") {
            Some(LoginPage::SessionSetup)
        } else if same_text(tag, "completed") {
            Some(LoginPage::Completed)
        } else {
            None
        }
    }

    /// What receives the focus when this page is visible, if anything, given whether there is a
    /// session setup view.
    pub fn focus_target(self, has_session_setup: bool) -> (target: Option<FocusTarget>)
        ensures
            target == match self {
                LoginPage::Greeter => Some(FocusTarget::Greeter),
                LoginPage::Homeserver => Some(FocusTarget::Homeserver),
                LoginPage::Method => Some(FocusTarget::Method),
                LoginPage::InBrowser => Some(FocusTarget::InBrowser),
                LoginPage::SessionSetup => if has_session_setup {
                    Some(FocusTarget::SessionSetup)
                } else {
                    None
                },
                LoginPage::Completed => Some(FocusTarget::DoneButton),
            },
    {
        match self {
            LoginPage::Greeter => Some(FocusTarget::Greeter),
            LoginPage::Homeserver => Some(FocusTarget::Homeserver),
            LoginPage::Method => Some(FocusTarget::Method),
            LoginPage::InBrowser => Some(FocusTarget::InBrowser),
            LoginPage::SessionSetup => {
                if has_session_setup {
                    Some(FocusTarget::SessionSetup)
                } else {
                    None
                }
            },
            LoginPage::Completed => Some(FocusTarget::DoneButton),
        }
    }
}

/// Different pages have different tags, so that a page is found by its tag.
pub proof fn tags_are_distinct(a: LoginPage, b: LoginPage)
    ensures
        a.tag() == b.tag() <==> a == b,
{
    reveal_strlit("greeter");
    reveal_strlit("homeserver");
    reveal_strlit("method");
    reveal_strlit("in-browser");
    reveal_strlit("session-setup");
    reveal_strlit("completed");
    assert("greeter"@.len() == 7);
    assert("homeserver"@.len() == 10 && "homeserver"@[0] == 'h');
    assert("method"@.len() == 6);
    assert("in-browser"@.len() == 10 && "in-browser"@[0] == 'i');
    assert("session-setup"@.len() == 13);
    assert("completed"@.len() == 9);
}

} // verus!
