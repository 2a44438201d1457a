//! Composition runtime of a terminal status bar: click regions, component
//! registries, the component manager, region layout and the event-loop
//! decisions, with their contracts.

pub mod bars;
pub mod click;
pub mod component_manager;
pub mod components;
pub mod config;
pub mod event_loop;
pub mod json;
pub mod launcher;
pub mod lua_component;
pub mod name_table;
pub mod style;
pub mod text;
pub mod time_utils;

pub use bars::{LeftBar, MiddleBar, RightBar};
pub use click::{ClickArea, ClickTarget};
pub use component_manager::ComponentManager;
pub use event_loop::App;
