//! Route lifecycle for a menu-driven application: mutually exclusive screens,
//! their declarative UI trees, and the transitions between them.

pub mod main_button;
pub mod main_menu;
pub mod navigator;
pub mod route;
pub mod schedule;
pub mod ui_tree;
