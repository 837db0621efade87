//! Generator of safe wrapper source text for the C functions of a widget toolkit.
//!
//! Declarations are loaded from binding text, grouped into widgets by naming
//! convention, lowered one by one from the shape of their parameter and return
//! types, and rendered to source text.

pub mod codegen;
pub mod decl;
pub mod emit;
pub mod group;
pub mod load;
pub mod lower;
pub mod naming;
pub mod shape;
pub mod style;
pub mod syntax;
pub mod text;
pub mod widget;

pub use codegen::{CGResult, CodeGen, CodeGenError};
pub use decl::{LvArg, LvFunc};
pub use lower::{
    Lowered, LoweredOperation, Receiver, Rusty, SkipReason, WrapperError, WrapperResult,
};
pub use shape::{LvType, TypeShape};
pub use style::{CoordDesc, Layout, StyleValues, Themes};
pub use widget::LvWidget;
