//! The application's errors, their HTTP status and their wording.
use vstd::prelude::*;
use crate::text::{concat2, owned};

verus! {

/// An application error, carrying a message for the client.
#[derive(Debug, Clone)]
pub enum AppError {
    /// Authentication failed (401).
    Unauthorized(String),
    /// Access refused (403).
    Forbidden(String),
    /// No such resource (404).
    NotFound(String),
    /// Invalid request (400).
    BadRequest(String),
    /// Conflict, such as a name already taken (409).
    Conflict(String),
    /// Internal error (500).
    Internal(String),
    /// Database error (500).
    Database(String),
}

impl AppError {
    /// The message carried by the error.
    pub open spec fn spec_message(self) -> Seq<char> {
        match self {
            AppError::Unauthorized(m) => m@,
            AppError::Forbidden(m) => m@,
            AppError::NotFound(m) => m@,
            AppError::BadRequest(m) => m@,
            AppError::Conflict(m) => m@,
            AppError::Internal(m) => m@,
            AppError::Database(m) => m@,
        }
    }

    /// The HTTP status of the error.
    pub open spec fn spec_status(self) -> u16 {
        match self {
            AppError::Unauthorized(_) => 401,
            AppError::Forbidden(_) => 403,
            AppError::NotFound(_) => 404,
            AppError::BadRequest(_) => 400,
            AppError::Conflict(_) => 409,
            AppError::Internal(_) => 500,
            AppError::Database(_) => 500,
        }
    }

    /// The French prefix that the display form puts before the message.
    pub open spec fn spec_prefix(self) -> Seq<char> {
        match self {
            AppError::Unauthorized(_) => "Non autorisé : "@,
            AppError::Forbidden(_) => "Accès refusé : "@,
            AppError::NotFound(_) => "Introuvable : "@,
            AppError::BadRequest(_) => "Requête invalide : "@,
            AppError::Conflict(_) => "Conflit : "@,
            AppError::Internal(_) => "Erreur interne : "@,
            AppError::Database(_) => "Erreur base de données : "@,
        }
    }

    /// The HTTP status code that answers this error.
    pub fn status_code(&self) -> (res: u16)
        ensures
            res == self.spec_status(),
    {
        match self {
            AppError::Unauthorized(_) => 401,
            AppError::Forbidden(_) => 403,
            AppError::NotFound(_) => 404,
            AppError::BadRequest(_) => 400,
            AppError::Conflict(_) => 409,
            AppError::Internal(_) => 500,
            AppError::Database(_) => 500,
        }
    }

    /// The message sent to the client in the error body.
    pub fn message(&self) -> (res: String)
        ensures
            res@ == self.spec_message(),
    {
        match self {
            AppError::Unauthorized(m) => owned(m.as_str()),
            AppError::Forbidden(m) => owned(m.as_str()),
            AppError::NotFound(m) => owned(m.as_str()),
            AppError::BadRequest(m) => owned(m.as_str()),
            AppError::Conflict(m) => owned(m.as_str()),
            AppError::Internal(m) => owned(m.as_str()),
            AppError::Database(m) => owned(m.as_str()),
        }
    }

    /// The human-readable form of the error: a French label, then the
    /// message.
    pub fn to_string(&self) -> (res: String)
        ensures
            res@ == self.spec_prefix() + self.spec_message(),
    {
        match self {
            AppError::Unauthorized(m) => concat2("Non autorisé : ", m.as_str()),
            AppError::Forbidden(m) => concat2("Accès refusé : ", m.as_str()),
            AppError::NotFound(m) => concat2("Introuvable : ", m.as_str()),
            AppError::BadRequest(m) => concat2("Requête invalide : ", m.as_str()),
            AppError::Conflict(m) => concat2("Conflit : ", m.as_str()),
            AppError::Internal(m) => concat2("Erreur interne : ", m.as_str()),
            AppError::Database(m) => concat2("Erreur base de données : ", m.as_str()),
        }
    }
}

} // verus!
