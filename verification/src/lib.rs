//! User interface components for a small touch screen: layout, event
//! dispatch and painting without allocation of component trees.
pub mod button;
pub mod component;
pub mod display;
pub mod geometry;
pub mod layout;
pub mod msg_map;
pub mod placed;
pub mod theme;
pub mod trace;
