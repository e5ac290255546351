//! Client library for the OneDrive API through Microsoft Graph: request construction,
//! validation of names and paths, query options, OAuth2 parameters, paging state and
//! error classification, each stated by a contract and proved.
pub mod decimal;
pub mod resource;
pub mod urls;
pub mod util;
pub mod error;
pub mod api;
pub mod option;
pub mod query_option;
pub mod authorization;
pub mod auth;
pub mod client;

pub use self::authorization::{AuthClient, Permission, Token};
pub use self::client::{DriveClient, ListChildrenFetcher, TrackChangeFetcher, UploadSession};
pub use self::error::{Error, Result};
pub use self::resource::{DriveId, ItemId, Tag};
pub use self::util::{ConflictBehavior, DriveLocation, ExpectRange, FileName, ItemLocation};
