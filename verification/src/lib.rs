//! A toolbox of interactive tools behind one contract, with the cache store
//! they share and the one-shot import that fills it.

use vstd::prelude::*;

pub mod app;
pub mod config;
pub mod db;
pub mod importer;
pub mod models;
pub mod text;
pub mod tools;
pub mod views;
