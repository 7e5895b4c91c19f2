//! The widget nodes: leaves, structural containers, and the stateful
//! rebuild wrapper.

pub mod button;
pub mod center;
pub mod expand;
pub mod list;
pub mod padding;
pub mod stateful;
pub mod text;
pub mod triangle;

pub use button::{Button, ButtonBuilder};
pub use center::{Center, CenterBuilder, Direction};
pub use expand::{Expand, ExpandBuilder};
pub use list::{List, ListBuilder};
pub use padding::{Padding, PaddingBuilder};
pub use stateful::{Rebuilds, StateContext, Stateful};
pub use text::{Text, TextBuilder};
pub use triangle::{Triangle, TriangleBuilder};
