//! Analytics request routing: the engine's algorithm catalog and dispatcher,
//! the batch and connection state machines, the gateway's composition plan,
//! and the supporting infrastructure types of the gateway.

pub mod text;
pub mod ids;
pub mod error;
pub mod catalog;
pub mod ml_catalog;
pub mod dispatch;
pub mod input;
pub mod response;
pub mod connection;
pub mod composition;
pub mod service;
pub mod function_registry;
pub mod http;
pub mod query;
pub mod config;
pub mod monitoring;
pub mod slices;
pub mod crud;
pub mod auth;
pub mod cache;
pub mod static_dispatch;
pub mod const_generic;
pub mod hybrid_approach;
