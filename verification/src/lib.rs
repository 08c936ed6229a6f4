//! Verified core of a shared-game-library resolver.
//!
//! The library resolves player identities against a remote game-library
//! service, applies a time-based staleness policy to cached profiles,
//! computes the set of games shared across all resolved profiles with
//! averaged play times, and verifies icon-cache entries by content hash.
//! All I/O (HTTP requests, file persistence) is performed by the caller;
//! this crate holds the decision and computation logic, verified.
pub mod errors;
pub mod model;
pub mod text;

pub use model::Game;
pub use model::GamesResponse;
pub use model::Ids;
pub use model::Profile;
pub use model::SteamResponse;
pub use model::Timestamped;
pub use model::TimestampedProfile;
pub mod api;
pub mod directory;
pub mod icon;
pub mod resolve;
pub mod shared;

pub use api::SteamApi;
pub use resolve::Revalidation;
pub use errors::PlayWithError;
pub use icon::IconAction;
pub use shared::PlayWith;
pub use shared::SharedGame;
