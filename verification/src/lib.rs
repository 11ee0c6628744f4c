//! A small, verified core for a local todo-list manager: settings and the
//! config-file text format, the setup and CRUD routers, and the persistence
//! layer over an embedded relational store.

pub mod domain;
pub mod handler;
pub mod text;
pub mod config;
pub mod persistence;
pub mod service;
pub mod store;
