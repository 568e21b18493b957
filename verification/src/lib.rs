//! Native core of the Markpad viewer: start-up mode resolution, install
//! detection, install and uninstall planning, the single-slot watch and
//! context-menu sessions, and Markdown rendering.

pub mod detect;
pub mod install;
pub mod menu;
pub mod mode;
pub mod paths;
pub mod plan;
pub mod registry;
pub mod render;
pub mod system;
pub mod text;
pub mod uninstall;
pub mod watch;
