//! The state of the setup wizard.

use crate::text::{join2, decimal_string, decimal_text};
use vstd::prelude::*;

verus! {

/// The screens of the wizard, in order.
#[derive(Clone, Copy, Debug, PartialEq, Eq)]
pub enum OnboardingScreen {
    Welcome,
    SlackCredentials,
    OAuthFlow,
    ZeroClawCheck,
    ZeroClawPairing,
    Complete,
}

impl OnboardingScreen {
    /// The place of the screen in the wizard, from zero.
    pub open spec fn position(self) -> int {
        match self {
            OnboardingScreen::Welcome => 0,
            OnboardingScreen::SlackCredentials => 1,
            OnboardingScreen::OAuthFlow => 2,
            OnboardingScreen::ZeroClawCheck => 3,
            OnboardingScreen::ZeroClawPairing => 4,
            OnboardingScreen::Complete => 5,
        }
    }

    /// The screen after this one; the last screen stays.
    pub open spec fn next(self) -> OnboardingScreen {
        match self {
            OnboardingScreen::Welcome => OnboardingScreen::SlackCredentials,
            OnboardingScreen::SlackCredentials => OnboardingScreen::OAuthFlow,
            OnboardingScreen::OAuthFlow => OnboardingScreen::ZeroClawCheck,
            OnboardingScreen::ZeroClawCheck => OnboardingScreen::ZeroClawPairing,
            OnboardingScreen::ZeroClawPairing => OnboardingScreen::Complete,
            OnboardingScreen::Complete => OnboardingScreen::Complete,
        }
    }

    /// The screen before this one; the first screen stays.
    pub open spec fn previous(self) -> OnboardingScreen {
        match self {
            OnboardingScreen::Welcome => OnboardingScreen::Welcome,
            OnboardingScreen::SlackCredentials => OnboardingScreen::Welcome,
            OnboardingScreen::OAuthFlow => OnboardingScreen::SlackCredentials,
            OnboardingScreen::ZeroClawCheck => OnboardingScreen::OAuthFlow,
            OnboardingScreen::ZeroClawPairing => OnboardingScreen::ZeroClawCheck,
            OnboardingScreen::Complete => OnboardingScreen::ZeroClawPairing,
        }
    }
}

/// Going forward moves one place on, and going back one place back, as far
/// as the wizard reaches; going back after going forward returns to the
/// screen, except from the last one.
pub proof fn lemma_screen_order(screen: OnboardingScreen)
    ensures
        screen.next().position() == if screen.position() < 5 {
            screen.position() + 1
        } else {
            5
        },
        screen.previous().position() == if screen.position() > 0 {
            screen.position() - 1
        } else {
            0
        },
        screen != OnboardingScreen::Complete ==> screen.next().previous() == screen,
        screen != OnboardingScreen::Welcome ==> screen.previous().next() == screen,
{
}

/// The first part of the address at which the user authorises the client.
pub const OAUTH_URL_HEAD: &'static str = "https://slack.com/oauth/v2/authorize?client_id=";

/// The part of that address between the client id and the port: the
/// scopes that the client asks for, and the start of the redirect address.
pub const OAUTH_URL_SCOPES: &'static str =
    "&scope=channels:read,channels:history,channels:write,groups:read,groups:history,groups:write,im:read,im:history,im:write,mpim:read,mpim:history,mpim:write,chat:write,users:read,reactions:read,connections:write&redirect_uri=http://localhost:";

/// The address at which the user authorises the client `client_id`, with
/// the redirect to `redirect_port` on the local machine.
pub open spec fn oauth_url(client_id: Seq<char>, redirect_port: u16) -> Seq<char> {
    OAUTH_URL_HEAD@ + client_id + OAUTH_URL_SCOPES@ + decimal_text(redirect_port as nat)
}

/// What the wizard holds.
#[derive(Debug)]
pub struct OnboardingState {
    pub current_screen: OnboardingScreen,
    pub client_id: String,
    pub client_secret: String,
    pub selected_field: usize,
    pub oauth_url: Option<String>,
    pub oauth_code: String,
    pub pairing_code: Option<String>,
    pub error_message: Option<String>,
}

impl OnboardingState {
    /// The wizard stands at its first screen, with nothing entered.
    pub open spec fn is_fresh(self) -> bool {
        &&& self.current_screen == OnboardingScreen::Welcome
        &&& self.client_id@.len() == 0
        &&& self.client_secret@.len() == 0
        &&& self.selected_field == 0
        &&& self.oauth_url is None
        &&& self.oauth_code@.len() == 0
        &&& self.pairing_code is None
        &&& self.error_message is None
    }

    /// The wizard at its first screen, with nothing entered.
    pub fn new() -> (r: OnboardingState)
        ensures
            r.is_fresh(),
    {
        OnboardingState {
            current_screen: OnboardingScreen::Welcome,
            client_id: String::new(),
            client_secret: String::new(),
            selected_field: 0,
            oauth_url: None,
            oauth_code: String::new(),
            pairing_code: None,
            error_message: None,
        }
    }

    /// Makes the address at which the user authorises the client, keeps
    /// it, and hands it out.
    pub fn generate_oauth_url(&mut self, redirect_port: u16) -> (url: String)
        ensures
            url@ == oauth_url(old(self).client_id@, redirect_port),
            final(self).oauth_url matches Some(kept) && kept@ == url@,
            *final(self) == (OnboardingState { oauth_url: final(self).oauth_url, ..*old(self) }),
    {
        let mut url = join2(OAUTH_URL_HEAD, self.client_id.as_str());
        url.append(OAUTH_URL_SCOPES);
        let port = decimal_string(redirect_port as u64);
        url.append(port.as_str());
        self.oauth_url = Some(url.clone());
        url
    }

    /// Moves from one credential field to the other.
    pub fn toggle_field(&mut self)
        ensures
            *final(self) == (OnboardingState {
                selected_field: ((old(self).selected_field + 1) % 2) as usize,
                ..*old(self)
            }),
    {
        self.selected_field = if self.selected_field % 2 == 0 {
            1
        } else {
            0
        };
    }

    /// The text of the selected credential field, for changes in place:
    /// the client id where the first field is selected, the client secret
    /// else.
    pub fn current_field_value(&mut self) -> (r: &mut String)
        ensures
            *r == if old(self).selected_field == 0 {
                old(self).client_id
            } else {
                old(self).client_secret
            },
            *final(self) == if old(self).selected_field == 0 {
                OnboardingState { client_id: *final(r), ..*old(self) }
            } else {
                OnboardingState { client_secret: *final(r), ..*old(self) }
            },
    {
        if self.selected_field == 0 {
            &mut self.client_id
        } else {
            &mut self.client_secret
        }
    }

    /// Goes to the next screen; the last screen stays.
    pub fn next_screen(&mut self)
        ensures
            *final(self) == (OnboardingState {
                current_screen: old(self).current_screen.next(),
                ..*old(self)
            }),
    {
        self.current_screen = match self.current_screen {
            OnboardingScreen::Welcome => OnboardingScreen::SlackCredentials,
            OnboardingScreen::SlackCredentials => OnboardingScreen::OAuthFlow,
            OnboardingScreen::OAuthFlow => OnboardingScreen::ZeroClawCheck,
            OnboardingScreen::ZeroClawCheck => OnboardingScreen::ZeroClawPairing,
            OnboardingScreen::ZeroClawPairing => OnboardingScreen::Complete,
            OnboardingScreen::Complete => OnboardingScreen::Complete,
        };
    }

    /// Goes to the previous screen; the first screen stays.
    pub fn previous_screen(&mut self)
        ensures
            *final(self) == (OnboardingState {
                current_screen: old(self).current_screen.previous(),
                ..*old(self)
            }),
    {
        self.current_screen = match self.current_screen {
            OnboardingScreen::Welcome => OnboardingScreen::Welcome,
            OnboardingScreen::SlackCredentials => OnboardingScreen::Welcome,
            OnboardingScreen::OAuthFlow => OnboardingScreen::SlackCredentials,
            OnboardingScreen::ZeroClawCheck => OnboardingScreen::OAuthFlow,
            OnboardingScreen::ZeroClawPairing => OnboardingScreen::ZeroClawCheck,
            OnboardingScreen::Complete => OnboardingScreen::ZeroClawPairing,
        };
    }
}

impl Default for OnboardingState {
    fn default() -> (r: OnboardingState)
        ensures
            r.is_fresh(),
    {
        OnboardingState::new()
    }
}

/// How far the OAuth flow has come.
#[derive(Clone, Copy, Debug, PartialEq, Eq)]
pub enum OAuthStatus {
    WaitingForBrowser,
    WaitingForCallback,
    ExchangingToken,
    Success,
    Error,
}

/// The state of the OAuth flow.
#[derive(Debug)]
pub struct OAuthFlowState {
    pub status: OAuthStatus,
    pub auth_url: String,
    pub code: Option<String>,
    pub error: Option<String>,
}

impl Default for OAuthFlowState {
    fn default() -> (r: OAuthFlowState)
        ensures
            r.status == OAuthStatus::WaitingForBrowser,
            r.auth_url@.len() == 0,
            r.code is None,
            r.error is None,
    {
        OAuthFlowState {
            status: OAuthStatus::WaitingForBrowser,
            auth_url: String::new(),
            code: None,
            error: None,
        }
    }
}

/// A credential field of the setup screen.
#[derive(Clone, Copy, Debug, PartialEq, Eq)]
pub enum Field {
    ClientId,
    ClientSecret,
}

/// The state of the credential screen.
#[derive(Debug)]
pub struct SlackSetupState {
    pub client_id: String,
    pub client_secret: String,
    pub selected_field: Field,
}

impl Default for SlackSetupState {
    fn default() -> (r: SlackSetupState)
        ensures
            r.client_id@.len() == 0,
            r.client_secret@.len() == 0,
            r.selected_field == Field::ClientId,
    {
        SlackSetupState {
            client_id: String::new(),
            client_secret: String::new(),
            selected_field: Field::ClientId,
        }
    }
}

/// How far the setup of the agent has come.
#[derive(Clone, Copy, Debug, PartialEq, Eq)]
pub enum ZcStatus {
    CheckingBinary,
    BinaryNotFound,
    Configuring,
    Pairing,
    Active,
    Error,
}

/// The state of the agent setup screen.
#[derive(Debug)]
pub struct ZcSetupState {
    pub status: ZcStatus,
    pub api_key: String,
    pub provider: String,
    pub pairing_code: Option<String>,
    pub error: Option<String>,
}

impl Default for ZcSetupState {
    fn default() -> (r: ZcSetupState)
        ensures
            r.status == ZcStatus::CheckingBinary,
            r.api_key@.len() == 0,
            r.provider@ == "openrouter"@,
            r.pairing_code is None,
            r.error is None,
    {
        ZcSetupState {
            status: ZcStatus::CheckingBinary,
            api_key: String::new(),
            provider: "openrouter".to_owned(),
            pairing_code: None,
            error: None,
        }
    }
}

} // verus!
