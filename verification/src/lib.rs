//! Core logic of a terminal browser for image boards: laying out post text in
//! fixed-width cells, moving the selection through lists of boards, threads and
//! posts, paging through thread listings and deciding which panels are shown.

pub mod api;
pub mod app;
pub mod event;
pub mod format;
pub mod help;
pub mod keybinds;
pub mod list;
pub mod model;
pub mod navigation;
pub mod outside;
pub mod strings;
pub mod style;
pub mod text;
pub mod wrap;
