//! Context-window ("around") search: given a pivot record's timestamp, fetch the
//! records just before and just after it and merge them into one ascending window.

pub mod params;
pub mod window;
pub mod merge;
pub mod errors;
pub mod payload;
pub mod context;
pub mod dispatch;
pub mod admission;
pub mod meta;
pub mod store;
