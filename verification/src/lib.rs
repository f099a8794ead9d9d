//! Request planning and response decisions for a market-data HTTP service:
//! query-parameter defaults, statistics grouping, localization tables, the
//! status a failed lookup is answered with, and the service configuration.

pub mod text;
pub mod status;
pub mod params;
pub mod stats;
pub mod lang_table;
pub mod models;
pub mod routes;
pub mod localization;
pub mod config;
