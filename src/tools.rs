//! Parameters of the editing operations, one module per group.
pub mod cel;
pub mod drawing;
pub mod effects;
pub mod export;
pub mod filter;
pub mod frame;
pub mod layer;
pub mod palette;
pub mod scripting;
pub mod selection;
pub mod slice;
pub mod sprite;
pub mod tag;
