//! Storing the authorization token used against the remote service: the
//! decisions, as a machine that takes the outcome of each outside step and
//! names the next one. The caller prompts, reads the environment and writes
//! the file.

use vstd::prelude::*;

verus! {

/// How far storing a token has got.
pub enum TokenState {
    /// Nothing has been done yet.
    Start,
    /// Waiting for the token typed at the prompt.
    Prompting,
    /// The token is known; waiting for the home directory.
    LookingUpHome { token: String },
    /// Waiting for the outcome of writing the token file.
    Writing,
    /// Finished, successfully or not.
    Done,
}

/// The outcome of an outside step.
pub enum TokenEvent {
    /// The command was run, with the token it was given, if any.
    Started { auth_key: Option<String> },
    /// The prompt returned a token, or failed with a message.
    Prompted { result: Result<String, String> },
    /// The home directory was found in the environment, or not, with a message.
    HomeLookedUp { result: Result<String, String> },
    /// The token file was written, or writing failed with a message.
    Written { result: Result<(), String> },
}

/// Why storing the token stopped.
pub enum TokenFailure {
    Prompt,
    MissingHome,
    Write,
}

/// What the caller does next.
pub enum TokenAction {
    /// Ask the user for the token.
    Prompt,
    /// Look up the home directory in the environment.
    LookUpHome,
    /// Overwrite the token file in `home_dir` with exactly the text of `token`.
    WriteToken { home_dir: String, token: String },
    /// Report that the token was stored.
    Succeed,
    /// Report the failure and its message, and exit with `status`.
    Exit { status: i32, failure: TokenFailure, detail: String },
    /// The event does not belong to this state: nothing to do.
    Nothing,
}

/// The name of the token file, inside the home directory.
pub open spec fn token_file_name_spec() -> Seq<char> {
    ".mindflow"@
}

/// The name of the token file, inside the home directory.
pub fn token_file_name() -> (r: String)
    ensures
        r@ == token_file_name_spec(),
{
    String::from_str(".mindflow")
}

/// The next state and action, from a state and the event that came in it.
pub open spec fn step(state: TokenState, event: TokenEvent) -> (TokenState, TokenAction) {
    match (state, event) {
        (TokenState::Start, TokenEvent::Started { auth_key }) => match auth_key {
            Some(token) => (TokenState::LookingUpHome { token }, TokenAction::LookUpHome),
            None => (TokenState::Prompting, TokenAction::Prompt),
        },
        (TokenState::Prompting, TokenEvent::Prompted { result }) => match result {
            Ok(token) => (TokenState::LookingUpHome { token }, TokenAction::LookUpHome),
            Err(detail) => (
                TokenState::Done,
                TokenAction::Exit { status: 1, failure: TokenFailure::Prompt, detail },
            ),
        },
        (TokenState::LookingUpHome { token }, TokenEvent::HomeLookedUp { result }) => match result {
            Ok(home_dir) => (TokenState::Writing, TokenAction::WriteToken { home_dir, token }),
            Err(detail) => (
                TokenState::Done,
                TokenAction::Exit { status: 1, failure: TokenFailure::MissingHome, detail },
            ),
        },
        (TokenState::Writing, TokenEvent::Written { result }) => match result {
            Ok(_) => (TokenState::Done, TokenAction::Succeed),
            Err(detail) => (
                TokenState::Done,
                TokenAction::Exit { status: 1, failure: TokenFailure::Write, detail },
            ),
        },
        (state, _) => (state, TokenAction::Nothing),
    }
}

/// Takes the outcome of the last outside step and decides the next one.
pub fn next(state: TokenState, event: TokenEvent) -> (r: (TokenState, TokenAction))
    ensures
        r == step(state, event),
{
    match state {
        TokenState::Start => match event {
            TokenEvent::Started { auth_key } => match auth_key {
                Some(token) => (TokenState::LookingUpHome { token }, TokenAction::LookUpHome),
                None => (TokenState::Prompting, TokenAction::Prompt),
            },
            _ => (TokenState::Start, TokenAction::Nothing),
        },
        TokenState::Prompting => match event {
            TokenEvent::Prompted { result } => match result {
                Ok(token) => (TokenState::LookingUpHome { token }, TokenAction::LookUpHome),
                Err(detail) => (
                    TokenState::Done,
                    TokenAction::Exit { status: 1, failure: TokenFailure::Prompt, detail },
                ),
            },
            _ => (TokenState::Prompting, TokenAction::Nothing),
        },
        TokenState::LookingUpHome { token } => match event {
            TokenEvent::HomeLookedUp { result } => match result {
                Ok(home_dir) => (TokenState::Writing, TokenAction::WriteToken { home_dir, token }),
                Err(detail) => (
                    TokenState::Done,
                    TokenAction::Exit { status: 1, failure: TokenFailure::MissingHome, detail },
                ),
            },
            _ => (TokenState::LookingUpHome { token }, TokenAction::Nothing),
        },
        TokenState::Writing => match event {
            TokenEvent::Written { result } => match result {
                Ok(_) => (TokenState::Done, TokenAction::Succeed),
                Err(detail) => (
                    TokenState::Done,
                    TokenAction::Exit { status: 1, failure: TokenFailure::Write, detail },
                ),
            },
            _ => (TokenState::Writing, TokenAction::Nothing),
        },
        TokenState::Done => (TokenState::Done, TokenAction::Nothing),
    }
}

/// Without a home directory the machine stops at once with a non-zero exit
/// status, and no step ever writes the token file but the one that follows a
/// home directory that was found.
pub proof fn lemma_missing_home_exits_before_writing(state: TokenState, event: TokenEvent)
    ensures
        (state is LookingUpHome && event is HomeLookedUp && event->HomeLookedUp_result is Err)
            ==> ({
            let (s, a) = step(state, event);
            &&& s is Done
            &&& a is Exit
            &&& a->Exit_status != 0
            &&& a->Exit_failure is MissingHome
        }),
        step(state, event).1 is WriteToken ==> ({
            &&& state is LookingUpHome
            &&& event is HomeLookedUp
            &&& event->HomeLookedUp_result is Ok
            &&& step(state, event).1->WriteToken_home_dir == event->HomeLookedUp_result->Ok_0
        }),
{
}

/// The token that is written is exactly the one the command was given, or the
/// one typed at the prompt.
pub proof fn lemma_token_written_verbatim(token: String, home_dir: String)
    ensures
        ({
            let (s1, _) = step(TokenState::Start, TokenEvent::Started { auth_key: Some(token) });
            step(s1, TokenEvent::HomeLookedUp { result: Ok(home_dir) }).1
                == TokenAction::WriteToken { home_dir, token }
        }),
        ({
            let (s1, a1) = step(TokenState::Start, TokenEvent::Started { auth_key: None });
            let (s2, _) = step(s1, TokenEvent::Prompted { result: Ok(token) });
            &&& a1 is Prompt
            &&& step(s2, TokenEvent::HomeLookedUp { result: Ok(home_dir) }).1
                == TokenAction::WriteToken { home_dir, token }
        }),
{
}

} // verus!
