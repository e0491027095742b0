//! Finding the token to switch with, and forgetting a saved one.
//!
//! Asking the user is left to the caller. The rules are here: which source
//! wins, what counts as an answer, and when a typed token is kept.

use vstd::prelude::*;
use vstd::string::StringExecFns;
use crate::config::manager::ConfigManager;
use crate::config::manager::StoreView;
use crate::utils::error::AppError;
use crate::utils::error::AppErrorView;
use crate::utils::text::lowercased;
use crate::utils::text::same_text;
use crate::utils::text::to_lowercase;
use crate::utils::text::trim;
use crate::utils::text::trimmed;

verus! {

/// What is said when the user types nothing in place of a token.
pub const EMPTY_TOKEN_MESSAGE: &'static str = "Token cannot be empty";

/// What is said before the reason why the saved token could not be read.
pub const CHECK_FAILED_PREFIX: &'static str = "Failed to check for saved token: ";

/// Where the token comes from, as a mathematical value.
pub enum TokenSourceView {
    Environment(Seq<char>),
    SavedFile(Seq<char>),
    Prompt,
}

/// Where the token comes from.
#[derive(Debug)]
pub enum TokenSource {
    /// The environment holds this token.
    Environment(String),
    /// The saved-token file holds this token.
    SavedFile(String),
    /// Neither holds one: the user has to be asked.
    Prompt,
}

impl View for TokenSource {
    type V = TokenSourceView;

    open spec fn view(&self) -> TokenSourceView {
        match self {
            TokenSource::Environment(token) => TokenSourceView::Environment(token@),
            TokenSource::SavedFile(token) => TokenSourceView::SavedFile(token@),
            TokenSource::Prompt => TokenSourceView::Prompt,
        }
    }
}

/// Where the token comes from, given what the environment holds: a token
/// from the environment that is not empty wins, then a saved one. A
/// saved-token file that cannot be read counts as none.
pub open spec fn token_source(from_environment: Option<Seq<char>>, store: StoreView)
    -> TokenSourceView {
    if from_environment is Some && from_environment->Some_0.len() > 0 {
        TokenSourceView::Environment(from_environment->Some_0)
    } else {
        match store.saved_token() {
            Ok(Some(token)) => TokenSourceView::SavedFile(token),
            _ => TokenSourceView::Prompt,
        }
    }
}

/// The token that a typed line stands for: the line without the white
/// space around it, unless nothing is left of it.
pub open spec fn typed_token(line: Seq<char>) -> Result<Seq<char>, AppErrorView> {
    if trimmed(line).len() == 0 {
        Err(AppErrorView::Token(EMPTY_TOKEN_MESSAGE@))
    } else {
        Ok(trimmed(line))
    }
}

/// Whether `answer` says yes: without the white space around it and in
/// lower case, it is `y` or `yes`.
pub open spec fn says_yes(answer: Seq<char>) -> bool {
    lowercased(trimmed(answer)) == "y"@ || lowercased(trimmed(answer)) == "yes"@
}

/// What forgetting the saved token makes of the store, and whether there
/// was one to forget. A file that holds only white space is left alone.
pub open spec fn after_clear_saved_token(store: StoreView) -> (
    StoreView,
    Result<bool, AppErrorView>,
) {
    match store.saved_token() {
        Ok(Some(_)) => (store.remove_token(), Ok(true)),
        Ok(None) => (store, Ok(false)),
        Err(error) => (store, Err(AppErrorView::Token(CHECK_FAILED_PREFIX@ + error.text()))),
    }
}

/// The view of the result of forgetting the saved token.
pub open spec fn cleared_view(ended: Result<bool, AppError>) -> Result<bool, AppErrorView> {
    match ended {
        Ok(removed) => Ok(removed),
        Err(error) => Err(error@),
    }
}

/// The rules for obtaining a token.
#[derive(Debug)]
pub struct TokenManager;

impl TokenManager {
    pub fn new() -> Self {
        TokenManager
    }

    /// Finds the token where that takes no asking, and says so where the
    /// user has to be asked. `from_environment` is what the environment
    /// holds under the token's name.
    pub fn prompt_for_token(
        &self,
        config_manager: &ConfigManager,
        from_environment: Option<String>,
    ) -> (source: TokenSource)
        ensures
            source@ == token_source(
                match from_environment {
                    Some(token) => Some(token@),
                    None => None,
                },
                config_manager@,
            ),
    {
        if let Some(token) = from_environment {
            if !token.as_str().is_empty() {
                return TokenSource::Environment(token);
            }
        }
        match config_manager.load_saved_token() {
            Ok(Some(token)) => TokenSource::SavedFile(token),
            _ => TokenSource::Prompt,
        }
    }

    /// The token that the user typed, or an error where the line is blank.
    pub fn accept_typed_token(line: &str) -> (token: Result<String, AppError>)
        ensures
            match token {
                Ok(text) => typed_token(line@) == Ok::<_, AppErrorView>(text@),
                Err(error) => typed_token(line@) == Err::<Seq<char>, _>(error@),
            },
    {
        let inner = trim(line);
        if inner.is_empty() {
            Err(AppError::Token(String::from_str(EMPTY_TOKEN_MESSAGE)))
        } else {
            Ok(String::from_str(inner))
        }
    }

    /// Whether the user's answer asks for the typed token to be saved.
    pub fn wants_to_save(answer: &str) -> (yes: bool)
        ensures
            yes == says_yes(answer@),
    {
        let lower = to_lowercase(trim(answer));
        same_text(lower.as_str(), "y") || same_text(lower.as_str(), "yes")
    }

    /// Forgets the saved token, if there is one, and says whether there was.
    pub fn clear_saved_token(config_manager: &mut ConfigManager) -> (ended: Result<
        bool,
        AppError,
    >)
        ensures
            (final(config_manager)@, cleared_view(ended)) == after_clear_saved_token(
                old(config_manager)@,
            ),
    {
        match config_manager.load_saved_token() {
            Ok(Some(_)) => {
                config_manager.remove_saved_token();
                Ok(true)
            },
            Ok(None) => Ok(false),
            Err(error) => Err(
                AppError::Token(
                    String::from_str(CHECK_FAILED_PREFIX).concat(error.message().as_str()),
                ),
            ),
        }
    }
}

} // verus!
