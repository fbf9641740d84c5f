//! Screen navigation, declarative path routing and the editor's small
//! pieces of state logic (themes, block reordering, open documents).

pub mod nav;
pub mod context;
pub mod paths;
pub mod matcher;
pub mod route;
pub mod state;
pub mod hooks;
pub mod settings;
pub mod blocks;
pub mod drag;
pub mod documents;
pub mod dialog;
pub mod app_state;
pub mod menu;
pub mod nodes;
pub mod folders;
