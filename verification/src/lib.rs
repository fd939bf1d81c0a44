//! Entity session manager for a home-automation hub: connection settings,
//! normalisation of remote switch entities, the persisted selection of
//! entities, and the tray menu derived from that selection.

pub mod text;
pub mod request;
pub mod entity;
pub mod selection;
pub mod menu;
pub mod session;
pub mod commands;
