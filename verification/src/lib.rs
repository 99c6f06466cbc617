//! A map-tile serving gateway: the request pipeline that validates a tile
//! address, decides what to ask of the tile store, and frames what the store
//! answered as a wire response.

pub mod coordinate;
pub mod payload;
pub mod pipeline;
pub mod response;
pub mod router;
pub mod store;
pub mod text;
