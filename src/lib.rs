//! A typed client layer over a CKAN open-data catalog (such as data.gov):
//! building catalog requests and unwrapping their answers, choosing the
//! downloadable resources of a dataset, naming their files, and running a
//! bounded batch of downloads with per-resource outcomes and progress events.
use vstd::prelude::*;

pub mod ckan;
pub mod client;
pub mod colors;
pub mod command;
pub mod config;
pub mod download;
pub mod error;
pub mod laws;
pub mod model;
pub mod server;
pub mod text;
pub mod ui;

verus! {

} // verus!
