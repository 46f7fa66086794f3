//! The errors of the mod manager and their messages.
use vstd::prelude::*;
use crate::text::concat2;

verus! {

/// The kind of an I/O failure, as the operating system or the library classifies it.
#[derive(Debug, Clone, Copy, PartialEq, Eq)]
pub enum IoErrorKind {
    NotFound,
    AlreadyExists,
    InvalidInput,
    InvalidData,
    PermissionDenied,
    Other,
}

/// What can go wrong while managing mods. Paths and outside errors are carried as text.
#[derive(Debug, Clone, PartialEq, Eq)]
pub enum ModManagerError {
    GameNotFound(String),
    PathDiscoveryFailed(String),
    InvalidConfiguration(String),
    InvalidFilename(String),
    PathNotFound(String),
    ModNotFound(String),
    InvalidMod(String),
    /// An I/O failure: its kind and its message.
    IoError(IoErrorKind, String),
    NexusApiError(String),
    GameSetupFailed(String),
    DatabaseError(String),
}

/// The text that a message starts with, for each kind of error.
pub open spec fn error_message(e: ModManagerError) -> Seq<char> {
    match e {
        ModManagerError::GameNotFound(s) => "Game not found: "@ + s@,
        ModManagerError::PathDiscoveryFailed(s) => "Path discovery failed: "@ + s@,
        ModManagerError::InvalidConfiguration(s) => "Invalid configuration: "@ + s@,
        ModManagerError::InvalidFilename(s) => "Invalid filename: "@ + s@,
        ModManagerError::PathNotFound(s) => "Path not found: "@ + s@,
        ModManagerError::ModNotFound(s) => "Mod not found: "@ + s@,
        ModManagerError::InvalidMod(s) => "Invalid mod: "@ + s@,
        ModManagerError::IoError(_, s) => "IO error: "@ + s@,
        ModManagerError::NexusApiError(s) => "Nexus API error: "@ + s@,
        ModManagerError::GameSetupFailed(s) => "Game setup failed: "@ + s@,
        ModManagerError::DatabaseError(s) => "Database error: "@ + s@,
    }
}

impl ModManagerError {
    /// The human-readable message of the error.
    pub fn message(&self) -> (r: String)
        ensures
            r@ == error_message(*self),
    {
        match self {
            ModManagerError::GameNotFound(s) => concat2("Game not found: ", s.as_str()),
            ModManagerError::PathDiscoveryFailed(s) => concat2("Path discovery failed: ", s.as_str()),
            ModManagerError::InvalidConfiguration(s) => concat2("Invalid configuration: ", s.as_str()),
            ModManagerError::InvalidFilename(s) => concat2("Invalid filename: ", s.as_str()),
            ModManagerError::PathNotFound(s) => concat2("Path not found: ", s.as_str()),
            ModManagerError::ModNotFound(s) => concat2("Mod not found: ", s.as_str()),
            ModManagerError::InvalidMod(s) => concat2("Invalid mod: ", s.as_str()),
            ModManagerError::IoError(_, s) => concat2("IO error: ", s.as_str()),
            ModManagerError::NexusApiError(s) => concat2("Nexus API error: ", s.as_str()),
            ModManagerError::GameSetupFailed(s) => concat2("Game setup failed: ", s.as_str()),
            ModManagerError::DatabaseError(s) => concat2("Database error: ", s.as_str()),
        }
    }
}

} // verus!
