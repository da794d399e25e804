//! Deciding which Discord token the client signs in with: the one from the
//! environment, the saved one, or one the user enters, checking each before
//! it is used and telling the login screen why the last one failed.
//!
//! The caller runs the flow: it performs each action (a check against
//! Discord, a read or write of the credential store, a login prompt) and
//! hands the outcome back as the next event.
use vstd::prelude::*;

use crate::config_options::CredentialStoreMode;
use crate::header::{header_value_accepts, header_value_ok};
use crate::message_info::opt_string_view;
use crate::text::{concat2, concat3};

verus! {

/// A token that cannot be sent as an HTTP header.
#[derive(Clone, Copy, Debug, PartialEq, Eq, Structural)]
pub struct InvalidTokenHeader;

/// Whether `token` can be sent in the Authorization header.
pub fn validate_token_header(token: &str) -> (r: Result<(), InvalidTokenHeader>)
    ensures
        r is Ok <==> header_value_ok(token@),
{
    if header_value_accepts(token) {
        Ok(())
    } else {
        Err(InvalidTokenHeader)
    }
}

/// What Discord said of a token.
#[derive(Clone, Debug)]
pub enum TokenCheck {
    Accepted,
    /// Discord refused the token.
    Rejected,
    /// The check itself failed; the text says why.
    Unverified(String),
}

/// Where a saved token ended up.
#[derive(Clone, Copy, Debug, PartialEq, Eq, Structural)]
pub enum TokenSaveLocation {
    Keychain,
    PlaintextFile,
}

/// Why signing in stopped.
#[derive(Clone, Copy, Debug, PartialEq, Eq, Structural)]
pub enum LoginFailure {
    /// The environment token cannot be sent as a header.
    InvalidTokenHeader,
    /// Discord refused the environment token.
    TokenRejected,
}

/// The token to sign in with, and the warnings to show once signed in.
#[derive(Debug)]
pub struct ResolvedToken {
    pub token: String,
    pub warnings: Vec<String>,
}

/// The next thing the caller must do.
#[derive(Debug)]
pub enum LoginAction {
    /// Check the environment token with Discord.
    CheckEnvToken(String),
    /// Load the options file for the credential store setting.
    LoadConfig,
    /// Read the saved token from this store.
    LoadSavedToken(CredentialStoreMode),
    /// Check the saved token with Discord.
    CheckSavedToken(String),
    /// Delete the saved token from this store.
    DeleteSavedToken(CredentialStoreMode),
    /// Show the login screen, with this notice on it.
    Prompt(Option<String>),
    /// Check the entered token with Discord.
    CheckEnteredToken(String),
    /// Save the accepted token to this store.
    SaveToken(String, CredentialStoreMode),
    /// Sign in.
    Finish(ResolvedToken),
    /// Give up.
    Fail(LoginFailure),
}

/// What the flow keeps between steps.
#[derive(Debug)]
pub struct LoginFlow {
    pub store: CredentialStoreMode,
    /// The notice for the next login screen.
    pub notice: Option<String>,
    pub warnings: Vec<String>,
}

pub open spec fn storage_unavailable_notice() -> Seq<char> {
    "Credential storage is unavailable; token may not be saved."@
}

/// The prompt that hands out `notice` and leaves none behind.
pub open spec fn prompts_with(r: LoginAction, notice: Option<Seq<char>>) -> bool {
    r matches LoginAction::Prompt(n) && opt_string_view(n) == notice
}

/// Finishing with `token` and exactly these warnings.
pub open spec fn finishes_with(r: LoginAction, token: Seq<char>, warnings: Seq<Seq<char>>) -> bool {
    r matches LoginAction::Finish(t) && t.token@ == token && t.warnings@.map_values(|w: String| w@) == warnings
}

pub open spec fn warning_views(ws: Vec<String>) -> Seq<Seq<char>> {
    ws@.map_values(|w: String| w@)
}

impl LoginFlow {
    pub fn new() -> (r: LoginFlow)
        ensures
            r.store == CredentialStoreMode::Auto,
            r.notice is None,
            r.warnings@.len() == 0,
    {
        LoginFlow { store: CredentialStoreMode::Auto, notice: None, warnings: Vec::new() }
    }

    fn push_warning(&mut self, w: String)
        ensures
            final(self).store == old(self).store,
            opt_string_view(final(self).notice) == opt_string_view(old(self).notice),
            warning_views(final(self).warnings) == warning_views(old(self).warnings).push(w@),
    {
        self.warnings.push(w);
        proof {
            assert(warning_views(self.warnings) =~= warning_views(old(self).warnings).push(w@));
        }
    }

    /// Hands the pending notice to the next login screen.
    fn prompt(&mut self) -> (r: LoginAction)
        ensures
            prompts_with(r, opt_string_view(old(self).notice)),
            final(self).notice is None,
            final(self).store == old(self).store,
            warning_views(final(self).warnings) == warning_views(old(self).warnings),
    {
        let mut notice = None;
        std::mem::swap(&mut notice, &mut self.notice);
        LoginAction::Prompt(notice)
    }

    /// Signs in with `token` and the warnings gathered so far.
    fn finish(&mut self, token: String) -> (r: LoginAction)
        ensures
            finishes_with(r, token@, warning_views(old(self).warnings)),
            final(self).store == old(self).store,
            opt_string_view(final(self).notice) == opt_string_view(old(self).notice),
    {
        let mut warnings = Vec::new();
        std::mem::swap(&mut warnings, &mut self.warnings);
        LoginAction::Finish(ResolvedToken { token, warnings })
    }

    /// The first step: a token from the environment wins when there is one.
    pub fn start(&mut self, env_token: Option<String>) -> (r: LoginAction)
        ensures
            match env_token {
                Some(t) => if header_value_ok(t@) {
                    r matches LoginAction::CheckEnvToken(c) && c@ == t@
                } else {
                    r matches LoginAction::Fail(f) && f == LoginFailure::InvalidTokenHeader
                },
                None => r is LoadConfig,
            },
            final(self).store == old(self).store,
            opt_string_view(final(self).notice) == opt_string_view(old(self).notice),
            warning_views(final(self).warnings) == warning_views(old(self).warnings),
    {
        match env_token {
            Some(t) => {
                if validate_token_header(t.as_str()).is_err() {
                    LoginAction::Fail(LoginFailure::InvalidTokenHeader)
                } else {
                    LoginAction::CheckEnvToken(t)
                }
            },
            None => LoginAction::LoadConfig,
        }
    }

    /// Discord's answer on the environment token: a refusal ends the login;
    /// a failed check keeps the token for this session, with a warning.
    pub fn env_token_checked(&mut self, token: String, check: TokenCheck) -> (r: LoginAction)
        ensures
            match check {
                TokenCheck::Accepted => finishes_with(r, token@, warning_views(old(self).warnings)),
                TokenCheck::Rejected => r matches LoginAction::Fail(f) && f == LoginFailure::TokenRejected,
                TokenCheck::Unverified(e) => finishes_with(
                    r,
                    token@,
                    warning_views(old(self).warnings).push(
                        "CONCORD_TOKEN could not be verified: "@ + e@
                            + "; continuing with it for this session"@,
                    ),
                ),
            },
            final(self).store == old(self).store,
    {
        match check {
            TokenCheck::Accepted => self.finish(token),
            TokenCheck::Rejected => LoginAction::Fail(LoginFailure::TokenRejected),
            TokenCheck::Unverified(e) => {
                let w = concat3(
                    "CONCORD_TOKEN could not be verified: ",
                    e.as_str(),
                    "; continuing with it for this session",
                );
                self.push_warning(w);
                self.finish(token)
            },
        }
    }

    /// The options file was read, or could not be: then the default store is
    /// used and the login screen says that storage is unavailable.
    pub fn config_loaded(&mut self, loaded: Result<CredentialStoreMode, String>) -> (r: LoginAction)
        ensures
            match loaded {
                Ok(m) => {
                    &&& final(self).store == m
                    &&& opt_string_view(final(self).notice) == opt_string_view(old(self).notice)
                    &&& warning_views(final(self).warnings) == warning_views(old(self).warnings)
                },
                Err(e) => {
                    &&& final(self).store == CredentialStoreMode::Auto
                    &&& opt_string_view(final(self).notice) == Some(storage_unavailable_notice())
                    &&& warning_views(final(self).warnings) == warning_views(old(self).warnings).push(
                        "config could not be loaded for credential settings: "@ + e@
                            + "; using auto credential storage"@,
                    )
                },
            },
            r matches LoginAction::LoadSavedToken(m) && m == final(self).store,
    {
        match loaded {
            Ok(m) => {
                self.store = m;
            },
            Err(e) => {
                let w = concat3(
                    "config could not be loaded for credential settings: ",
                    e.as_str(),
                    "; using auto credential storage",
                );
                self.push_warning(w);
                self.notice = Some(
                    "Credential storage is unavailable; token may not be saved.".to_owned(),
                );
                self.store = CredentialStoreMode::Auto;
            },
        }
        LoginAction::LoadSavedToken(self.store)
    }

    /// The saved token was read: an unusable one is deleted, a usable one is
    /// checked, and without one the user is asked.
    pub fn saved_token_loaded(&mut self, loaded: Result<Option<String>, String>) -> (r: LoginAction)
        ensures
            final(self).store == old(self).store,
            match loaded {
                Ok(Some(t)) => if header_value_ok(t@) {
                    &&& r matches LoginAction::CheckSavedToken(c) && c@ == t@
                    &&& opt_string_view(final(self).notice) == opt_string_view(old(self).notice)
                    &&& warning_views(final(self).warnings) == warning_views(old(self).warnings)
                } else {
                    &&& r matches LoginAction::DeleteSavedToken(m) && m == old(self).store
                    &&& opt_string_view(final(self).notice) == Some("Saved Discord token is invalid; enter a new token."@)
                    &&& warning_views(final(self).warnings) == warning_views(old(self).warnings)
                },
                Ok(None) => {
                    &&& prompts_with(r, opt_string_view(old(self).notice))
                    &&& final(self).notice is None
                    &&& warning_views(final(self).warnings) == warning_views(old(self).warnings)
                },
                Err(e) => {
                    &&& prompts_with(r, Some(storage_unavailable_notice()))
                    &&& final(self).notice is None
                    &&& warning_views(final(self).warnings) == warning_views(old(self).warnings).push(
                        "credential store unavailable: "@ + e@
                            + "; enter a token to continue for this session"@,
                    )
                },
            },
    {
        match loaded {
            Ok(Some(t)) => {
                if validate_token_header(t.as_str()).is_err() {
                    self.notice = Some("Saved Discord token is invalid; enter a new token.".to_owned());
                    LoginAction::DeleteSavedToken(self.store)
                } else {
                    LoginAction::CheckSavedToken(t)
                }
            },
            Ok(None) => self.prompt(),
            Err(e) => {
                let w = concat3(
                    "credential store unavailable: ",
                    e.as_str(),
                    "; enter a token to continue for this session",
                );
                self.push_warning(w);
                self.notice = Some(
                    "Credential storage is unavailable; token may not be saved.".to_owned(),
                );
                self.prompt()
            },
        }
    }

    /// Discord's answer on the saved token: a refused one is deleted; when
    /// the check failed the user is asked to log in again.
    pub fn saved_token_checked(&mut self, token: String, check: TokenCheck) -> (r: LoginAction)
        ensures
            final(self).store == old(self).store,
            match check {
                TokenCheck::Accepted => finishes_with(r, token@, warning_views(old(self).warnings)),
                TokenCheck::Rejected => {
                    &&& r matches LoginAction::DeleteSavedToken(m) && m == old(self).store
                    &&& opt_string_view(final(self).notice) == Some("Saved Discord token was rejected; enter a new token."@)
                    &&& warning_views(final(self).warnings) == warning_views(old(self).warnings)
                },
                TokenCheck::Unverified(_) => {
                    &&& prompts_with(r, Some("Could not verify the saved token with Discord; log in again."@))
                    &&& final(self).notice is None
                    &&& warning_views(final(self).warnings) == warning_views(old(self).warnings)
                },
            },
    {
        match check {
            TokenCheck::Accepted => self.finish(token),
            TokenCheck::Rejected => {
                self.notice = Some("Saved Discord token was rejected; enter a new token.".to_owned());
                LoginAction::DeleteSavedToken(self.store)
            },
            TokenCheck::Unverified(_) => {
                self.notice = Some(
                    "Could not verify the saved token with Discord; log in again.".to_owned(),
                );
                self.prompt()
            },
        }
    }

    /// The unusable saved token was deleted, or could not be; either way the
    /// user is asked next.
    pub fn saved_token_deleted(&mut self, deleted: Result<(), String>) -> (r: LoginAction)
        ensures
            final(self).store == old(self).store,
            prompts_with(r, opt_string_view(old(self).notice)),
            final(self).notice is None,
            match deleted {
                Ok(()) => warning_views(final(self).warnings) == warning_views(old(self).warnings),
                Err(e) => warning_views(final(self).warnings) == warning_views(old(self).warnings).push(
                    "rejected saved token could not be deleted: "@ + e@,
                ),
            },
    {
        match deleted {
            Ok(()) => {},
            Err(e) => {
                let w = concat2("rejected saved token could not be deleted: ", e.as_str());
                self.push_warning(w);
            },
        }
        self.prompt()
    }

    /// The user entered a token on the login screen.
    pub fn token_entered(&mut self, token: String) -> (r: LoginAction)
        ensures
            final(self).store == old(self).store,
            warning_views(final(self).warnings) == warning_views(old(self).warnings),
            if header_value_ok(token@) {
                &&& r matches LoginAction::CheckEnteredToken(c) && c@ == token@
                &&& opt_string_view(final(self).notice) == opt_string_view(old(self).notice)
            } else {
                &&& prompts_with(r, Some("That Discord token is invalid; enter a different token."@))
                &&& final(self).notice is None
            },
    {
        if validate_token_header(token.as_str()).is_err() {
            self.notice = Some("That Discord token is invalid; enter a different token.".to_owned());
            self.prompt()
        } else {
            LoginAction::CheckEnteredToken(token)
        }
    }

    /// Discord's answer on the entered token: an accepted one is saved,
    /// anything else sends the user back to the login screen.
    pub fn entered_token_checked(&mut self, token: String, check: TokenCheck) -> (r: LoginAction)
        ensures
            final(self).store == old(self).store,
            warning_views(final(self).warnings) == warning_views(old(self).warnings),
            match check {
                TokenCheck::Accepted => {
                    &&& r matches LoginAction::SaveToken(t, m) && t@ == token@ && m == old(self).store
                    &&& opt_string_view(final(self).notice) == opt_string_view(old(self).notice)
                },
                TokenCheck::Rejected => {
                    &&& prompts_with(r, Some("Discord rejected that token; enter a different token."@))
                    &&& final(self).notice is None
                },
                TokenCheck::Unverified(_) => {
                    &&& prompts_with(r, Some("Could not verify the token with Discord; try again."@))
                    &&& final(self).notice is None
                },
            },
    {
        match check {
            TokenCheck::Accepted => LoginAction::SaveToken(token, self.store),
            TokenCheck::Rejected => {
                self.notice = Some("Discord rejected that token; enter a different token.".to_owned());
                self.prompt()
            },
            TokenCheck::Unverified(_) => {
                self.notice = Some("Could not verify the token with Discord; try again.".to_owned());
                self.prompt()
            },
        }
    }

    /// The accepted token was saved, or could not be; either way the client
    /// signs in with it.
    pub fn token_saved(&mut self, token: String, saved: Result<TokenSaveLocation, String>) -> (r: LoginAction)
        ensures
            final(self).store == old(self).store,
            finishes_with(
                r,
                token@,
                match saved {
                    Ok(TokenSaveLocation::PlaintextFile) => if old(self).store == CredentialStoreMode::Auto {
                        warning_views(old(self).warnings).push(
                            "system keychain is unavailable; token was saved to the plaintext fallback credential store"@,
                        )
                    } else {
                        warning_views(old(self).warnings)
                    },
                    Ok(_) => warning_views(old(self).warnings),
                    Err(e) => warning_views(old(self).warnings).push("token was not saved: "@ + e@),
                },
            ),
    {
        match saved {
            Ok(TokenSaveLocation::PlaintextFile) => {
                if self.store == CredentialStoreMode::Auto {
                    self.push_warning(
                        "system keychain is unavailable; token was saved to the plaintext fallback credential store"
                            .to_owned(),
                    );
                }
            },
            Ok(_) => {},
            Err(e) => {
                let w = concat2("token was not saved: ", e.as_str());
                self.push_warning(w);
            },
        }
        self.finish(token)
    }
}

} // verus!
