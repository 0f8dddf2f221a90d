//! The errors that the server's logic reports, with the messages that the
//! server hands back to its clients.

use vstd::prelude::*;

verus! {

/// An error of the server's logic.
#[derive(Debug)]
pub enum AmallgamError {
    /// An object's id and the expected URL name different domains.
    DomainsDoNotMatch,
    /// A local user URL whose path names no user.
    BadLocalUserUrl,
    /// A remote user was asked to act as a bot.
    RemoteUserAsBot,
    /// The bot's model has no stored configuration.
    ModelNotFound,
    /// No user is known under the requested name.
    UserNotFound,
    /// No local bot is an alias of the user that offloaded a note.
    OffloadBotNotFound { alias: String },
    /// The session pool is full.
    SessionQueueFull,
    /// Neither the bot nor any of its aliases could take the note.
    ResourcesUnavailable,
}

pub enum AmallgamErrorView {
    DomainsDoNotMatch,
    BadLocalUserUrl,
    RemoteUserAsBot,
    ModelNotFound,
    UserNotFound,
    OffloadBotNotFound { alias: Seq<char> },
    SessionQueueFull,
    ResourcesUnavailable,
}

impl View for AmallgamError {
    type V = AmallgamErrorView;

    open spec fn view(&self) -> AmallgamErrorView {
        match self {
            AmallgamError::DomainsDoNotMatch => AmallgamErrorView::DomainsDoNotMatch,
            AmallgamError::BadLocalUserUrl => AmallgamErrorView::BadLocalUserUrl,
            AmallgamError::RemoteUserAsBot => AmallgamErrorView::RemoteUserAsBot,
            AmallgamError::ModelNotFound => AmallgamErrorView::ModelNotFound,
            AmallgamError::UserNotFound => AmallgamErrorView::UserNotFound,
            AmallgamError::OffloadBotNotFound { alias } => AmallgamErrorView::OffloadBotNotFound { alias: alias@ },
            AmallgamError::SessionQueueFull => AmallgamErrorView::SessionQueueFull,
            AmallgamError::ResourcesUnavailable => AmallgamErrorView::ResourcesUnavailable,
        }
    }
}

/// The status code of an internal server error.
pub const INTERNAL_SERVER_ERROR: u16 = 500;

impl AmallgamError {
    /// The message of the error.
    pub open spec fn message_text(&self) -> Seq<char> {
        match self {
            AmallgamError::DomainsDoNotMatch => "URL failed verification: Domains do not match"@,
            AmallgamError::BadLocalUserUrl => "Bad Local User URL?"@,
            AmallgamError::RemoteUserAsBot => "Attempted to use a remote user as a bot"@,
            AmallgamError::ModelNotFound => "Model not found"@,
            AmallgamError::UserNotFound => "User not found"@,
            AmallgamError::OffloadBotNotFound { alias } => "Offload bot not found for: "@ + alias@,
            AmallgamError::SessionQueueFull => "Session queue full"@,
            AmallgamError::ResourcesUnavailable => "Resources unavailable. Try again"@,
        }
    }

    /// The message of the error, as clients see it.
    pub fn message(&self) -> (res: String)
        ensures
            res@ == self.message_text(),
    {
        match self {
            AmallgamError::DomainsDoNotMatch => String::from_str("URL failed verification: Domains do not match"),
            AmallgamError::BadLocalUserUrl => String::from_str("Bad Local User URL?"),
            AmallgamError::RemoteUserAsBot => String::from_str("Attempted to use a remote user as a bot"),
            AmallgamError::ModelNotFound => String::from_str("Model not found"),
            AmallgamError::UserNotFound => String::from_str("User not found"),
            AmallgamError::OffloadBotNotFound { alias } => {
                let m = String::from_str("Offload bot not found for: ");
                m.concat(alias.as_str())
            },
            AmallgamError::SessionQueueFull => String::from_str("Session queue full"),
            AmallgamError::ResourcesUnavailable => String::from_str("Resources unavailable. Try again"),
        }
    }
}

/// The error that the server's routes answer with.
#[derive(Debug)]
pub struct AppError {
    pub status: u16,
    pub message: String,
}

impl AppError {
    /// Any error that reaches a route becomes an internal server error that
    /// carries the error's message.
    pub fn from_message(message: String) -> (res: AppError)
        ensures
            res.status == INTERNAL_SERVER_ERROR,
            res.message@ == message@,
    {
        AppError { status: INTERNAL_SERVER_ERROR, message }
    }

    /// The route error for an error of the server's logic.
    pub fn from_error(err: &AmallgamError) -> (res: AppError)
        ensures
            res.status == INTERNAL_SERVER_ERROR,
            res.message@ == err.message_text(),
    {
        AppError::from_message(err.message())
    }
}

} // verus!
