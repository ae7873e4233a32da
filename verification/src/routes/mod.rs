//! Request handling logic of the HTTP routes, one module per route group.
pub mod query;
pub mod reports;
pub mod retention;
pub mod public;
pub mod links;
pub mod pixels;
pub mod analytics;
pub mod events;
pub mod export;
pub mod validation;
pub mod goals;
pub mod funnels;
pub mod journey;
pub mod attribution;
pub mod bot;
pub mod limits;
pub mod share;
pub mod notifications;
pub mod websites;
pub mod collect;
pub mod tracking;
pub mod compare;
