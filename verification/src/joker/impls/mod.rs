//! The abilities of the catalog.

pub mod jimbo;
pub mod misprint;
pub mod stencil;

pub use jimbo::JimboJoker;
pub use misprint::MisprintJoker;
pub use stencil::StencilJoker;
