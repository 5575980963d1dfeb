//! Typed model of a network audio player's status, play-queue and browse
//! responses, with tolerant decoding, and the discovery state machine.
pub mod decode;
pub mod discover;
pub mod encode;
pub mod error;
pub mod markup;
pub mod reader;
pub mod responses;
pub mod text;
pub mod vocabulary;

pub use discover::{Discovery, Phase};
pub use error::{Error, Fault};
pub use markup::{Attribute, Element};
pub use reader::{element_from_tokens, read_markup, Token};
pub use responses::{
    Action, Actions, Browse, BrowseItem, IdResponse, Playlist, PlaylistEntry, StateResponse,
    Status, SyncStatus,
};
pub use vocabulary::{BrowseType, ItemType, Quality, State};
