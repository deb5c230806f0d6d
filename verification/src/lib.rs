use vstd::prelude::*;

pub mod cloudflare;
pub mod contribution;
pub mod cross_graph;
pub mod d3;
pub mod d3_dispatch;
pub mod d3_run;
pub mod field_error;
pub mod handle_canonicalization;
pub mod injection;
pub mod keyed_table;
pub mod maintenance;
pub mod mainnet_auth;
pub mod observability;
pub mod provider_http;
pub mod recovery;
pub mod report;
pub mod stability;
pub mod substrate;
pub mod synthetic;
pub mod synthetic_markets;
pub mod text;
pub mod two_graph;
pub mod v1;

verus! {

} // verus!
