//! The life of one WebSocket connection: the first frame must authenticate;
//! once the token is accepted and the initial data is loaded the connection
//! is open and every event frame is handled until the client closes.
//!
//! The caller owns the socket, the token check and the database: it reports
//! what happened and performs the action that comes back.
use vstd::prelude::*;
use crate::text::concat2;

verus! {

/// What the connection received from the client.
#[derive(Debug)]
pub enum Frame {
    /// A text frame holding an authentication request.
    Auth { token: String },
    /// A text frame holding any other client event.
    Event,
    /// A text frame that is not a valid client event, with the parser's reason.
    Malformed { reason: String },
    /// A close frame.
    Close,
    /// A binary, ping or pong frame.
    Other,
    /// The stream ended or failed.
    End,
}

/// Where a connection stands.
#[derive(Debug)]
pub enum ConnectionState {
    /// Waiting for the first frame, which must authenticate.
    AwaitingAuth,
    /// The token is being checked.
    Validating,
    /// The user is registered; the initial data is being loaded.
    Loading { user_id: String, username: String },
    /// Authenticated: events are handled.
    Open { user_id: String, username: String },
    /// Finished.
    Closed,
}

/// What the caller must do next.
#[derive(Debug)]
pub enum SessionAction {
    /// Check this token and report with `on_token_checked`.
    ValidateToken { token: String },
    /// Register this user in the hub, load the initial data and report with
    /// `on_initial_data`.
    Register { user_id: String },
    /// Join the user's server rooms and send `AUTH_OK`.
    SendAuthOk,
    /// Join the rooms of this user (whose id is empty), send `AUTH_OK`, then
    /// end the connection without unregistering the user.
    SendAuthOkAndEnd { user_id: String, username: String },
    /// Send `AUTH_ERROR` with this message, then end the connection (the
    /// user stays as registered as it was).
    Reject { message: String },
    /// Hand the event to its handler and send its answer, if any.
    Dispatch,
    /// Send `ERROR` with this code and message.
    SendError { code: u16, message: String },
    /// Nothing to do; wait for the next frame.
    Ignore,
    /// End the connection, unregistering the user when `unregister` holds.
    Stop { unregister: bool },
}

impl ConnectionState {
    /// A fresh connection.
    pub fn new() -> (res: Self)
        ensures
            res is AwaitingAuth,
    {
        ConnectionState::AwaitingAuth
    }

    /// Takes the next frame from the client.
    pub fn on_frame(self, frame: Frame) -> (res: (ConnectionState, SessionAction))
        ensures
            // events are handled only on an authenticated connection
            res.1 is Dispatch ==> self is Open,
            // a user is unregistered only when its connection was open
            res.1 == (SessionAction::Stop { unregister: true }) ==> self is Open,
            // a finished connection stays finished
            self is Closed ==> res.0 is Closed,
            // only an authentication request starts the token check
            res.0 is Validating ==> self is Validating || (self is AwaitingAuth && frame is Auth),
            // no frame opens a connection or starts loading on its own
            res.0 is Open ==> self is Open,
            res.0 is Loading ==> self is Loading,
            match self {
                ConnectionState::AwaitingAuth => match frame {
                    Frame::Auth { token } => res.0 is Validating && res.1 is ValidateToken && res.1->token@
                        == token@,
                    Frame::Event => res.0 is Closed && res.1 is Reject && res.1->Reject_message@
                        == "Authentification requise"@,
                    _ => res.0 is Closed && res.1 == SessionAction::Stop { unregister: false },
                },
                ConnectionState::Open { user_id, username } => match frame {
                    Frame::Event => res.0 == self && res.1 is Dispatch,
                    Frame::Malformed { reason } => res.0 == self && res.1 is SendError && res.1->code == 400
                        && res.1->SendError_message@ == "Événement invalide : "@ + reason@,
                    Frame::Close => res.0 is Closed && res.1 == SessionAction::Stop {
                        unregister: true,
                    },
                    Frame::End => res.0 is Closed && res.1 == SessionAction::Stop {
                        unregister: true,
                    },
                    _ => res.0 == self && res.1 is Ignore,
                },
                ConnectionState::Closed => res.0 is Closed && res.1 == SessionAction::Stop {
                    unregister: false,
                },
                _ => res.0 == self && res.1 is Ignore,
            },
    {
        match self {
            ConnectionState::AwaitingAuth => match frame {
                Frame::Auth { token } => (
                    ConnectionState::Validating,
                    SessionAction::ValidateToken { token },
                ),
                Frame::Event => (
                    ConnectionState::Closed,
                    SessionAction::Reject { message: "Authentification requise".to_owned() },
                ),
                _ => (ConnectionState::Closed, SessionAction::Stop { unregister: false }),
            },
            ConnectionState::Open { user_id, username } => match frame {
                Frame::Event => (ConnectionState::Open { user_id, username }, SessionAction::Dispatch),
                Frame::Malformed { reason } => {
                    let message = concat2("Événement invalide : ", reason.as_str());
                    (
                        ConnectionState::Open { user_id, username },
                        SessionAction::SendError { code: 400, message },
                    )
                },
                Frame::Close => (ConnectionState::Closed, SessionAction::Stop { unregister: true }),
                Frame::End => (ConnectionState::Closed, SessionAction::Stop { unregister: true }),
                _ => (ConnectionState::Open { user_id, username }, SessionAction::Ignore),
            },
            ConnectionState::Closed => (
                ConnectionState::Closed,
                SessionAction::Stop { unregister: false },
            ),
            other => (other, SessionAction::Ignore),
        }
    }

    /// Takes the outcome of the token check: the user's id and name when the
    /// token is valid.
    pub fn on_token_checked(self, user: Option<(String, String)>) -> (res: (
        ConnectionState,
        SessionAction,
    ))
        ensures
            // loading starts only for the user of a valid token
            res.0 is Loading ==> self is Loading || (self is Validating && user is Some),
            res.0 is Open ==> self is Open,
            match self {
                ConnectionState::Validating => match user {
                    Some((id, name)) => res.0 == (ConnectionState::Loading {
                        user_id: id,
                        username: name,
                    }) && res.1 is Register && res.1->Register_user_id@ == id@,
                    None => res.0 is Closed && res.1 is Reject && res.1->Reject_message@
                        == "Token invalide"@,
                },
                ConnectionState::Closed => res.0 is Closed && res.1 == SessionAction::Stop {
                    unregister: false,
                },
                _ => res.0 == self && res.1 is Ignore,
            },
    {
        match self {
            ConnectionState::Validating => match user {
                Some((user_id, username)) => {
                    let registered = user_id.clone();
                    (
                        ConnectionState::Loading { user_id, username },
                        SessionAction::Register { user_id: registered },
                    )
                },
                None => (
                    ConnectionState::Closed,
                    SessionAction::Reject { message: "Token invalide".to_owned() },
                ),
            },
            ConnectionState::Closed => (
                ConnectionState::Closed,
                SessionAction::Stop { unregister: false },
            ),
            other => (other, SessionAction::Ignore),
        }
    }

    /// Takes whether the database could be reached to load the initial data.
    pub fn on_initial_data(self, database_reached: bool) -> (res: (ConnectionState, SessionAction))
        ensures
            // a connection opens only once the data of a named user is loaded
            res.0 is Open ==> self is Open || (self is Loading && database_reached
                && self->Loading_user_id@.len() > 0),
            match self {
                ConnectionState::Loading { user_id, username } => if database_reached {
                    if user_id@.len() == 0 {
                        res.0 is Closed && res.1 == (SessionAction::SendAuthOkAndEnd {
                            user_id,
                            username,
                        })
                    } else {
                        res.0 == (ConnectionState::Open { user_id, username }) && res.1 is SendAuthOk
                    }
                } else {
                    res.0 is Closed && res.1 is Reject && res.1->Reject_message@
                        == "Erreur de base de données"@
                },
                ConnectionState::Closed => res.0 is Closed && res.1 == SessionAction::Stop {
                    unregister: false,
                },
                _ => res.0 == self && res.1 is Ignore,
            },
    {
        match self {
            ConnectionState::Loading { user_id, username } => {
                if database_reached {
                    if user_id.as_str().unicode_len() == 0 {
                        (ConnectionState::Closed, SessionAction::SendAuthOkAndEnd { user_id, username })
                    } else {
                        (ConnectionState::Open { user_id, username }, SessionAction::SendAuthOk)
                    }
                } else {
                    (
                        ConnectionState::Closed,
                        SessionAction::Reject { message: "Erreur de base de données".to_owned() },
                    )
                }
            },
            ConnectionState::Closed => (
                ConnectionState::Closed,
                SessionAction::Stop { unregister: false },
            ),
            other => (other, SessionAction::Ignore),
        }
    }
}

} // verus!
