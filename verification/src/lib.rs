//! Screen navigation for an interactive application: a hierarchical state
//! machine over splash, menu, game and pause screens, the routing of button
//! presses and of the escape key to state changes, and the lifecycle of the
//! tagged UI trees that are built when a state is entered and torn down when
//! it is left.
//!
//! The [`navigator::Navigator`] holds the composite state and the UI that
//! shows it, and moves both forward one tick at a time. Its parts can be
//! used on their own:
//!
//! - [`state`] and [`action`]: the composite state, the triggers, the
//!   transition table and the buffer of queued requests;
//! - [`node`] and [`tree`]: the UI nodes, their arena and the teardown of
//!   everything that a screen owns;
//! - [`widgets`], [`splash`], [`main_menu`], [`pause`], [`settings`] and
//!   [`dialogue`]: the screens and the systems that run on them;
//! - [`escape`]: the escape key;
//! - [`ui`]: all screens taken together, with the hooks that run when the
//!   state changes;
//! - [`host`]: what the host has to do to show the UI;
//! - [`screen`] and [`laws`]: what holds of all this.

pub mod action;
pub mod dialogue;
pub mod escape;
pub mod host;
pub mod laws;
pub mod main_menu;
pub mod navigator;
pub mod node;
pub mod pause;
pub mod screen;
pub mod settings;
pub mod splash;
pub mod state;
pub mod tree;
pub mod ui;
pub mod widgets;
