//! A source-to-source transformation core that splits a plain data type and
//! its implementation blocks into a cloneable message-forwarding handle and an
//! internal actor that owns the real state and logic.
//!
//! The transformation works on a structural model of the input declarations;
//! parsing source text into the model and rendering the emitted declarations
//! back out are left to the surrounding tooling.

pub mod cloning;
pub mod dispatch;
pub mod interface;
pub mod methods;
pub mod model;
pub mod naming;
pub mod output;
pub mod paths;
pub mod split;
pub mod visibility;
