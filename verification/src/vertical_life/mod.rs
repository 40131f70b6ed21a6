//! The vendor's side: what it sends, how it is asked, and how a session is
//! opened and kept.

pub mod api;
pub mod auth;
pub mod http;
pub mod types;
pub mod util;

pub use api::VerticalLifeClient;
pub use auth::VerticalLifeAuthClient;
pub use types::{Climb, Gym, GymSector, GymSectorFull, Wall, ZlagsResponse};
pub use util::format_image_url;
