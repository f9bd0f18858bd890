//! Typed schema mapping for a mod-hosting REST API: coded enumerations,
//! entity records with an overflow bag for unrecognised fields, the three
//! response envelopes, file digests and the query-string builder.

pub mod api;
pub mod categories;
pub mod client;
pub mod error;
pub mod files;
pub mod games;
pub mod json;
pub mod mod_loader;
pub mod mods;
pub mod pagination;
pub mod parameters;
pub mod parse;
pub mod response;
pub mod schema;
pub mod text;
pub mod versions;

pub use categories::Category;
pub use client::{ClientBuilder, ClientSettings};
pub use error::{DecodeError, JsonKind};
pub use files::File;
pub use games::Game;
pub use json::{Json, Member};
pub use mods::Mod;
pub use parameters::{GetModFilesParameters, SearchModsParameters};
pub use response::{DataResponse, ListResponse, PaginationResponse};
pub use schema::Entity;
pub use versions::{GameVersionType, GameVersionsByType};
