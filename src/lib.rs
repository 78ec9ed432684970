//! Resolution of discovered web pages into Markdown: a classifier that tells
//! static pages from script-rendered ones, a bounded cache lookup, the per-page
//! pipeline that picks a fetch strategy, a permit pool that bounds concurrency,
//! and the naming and framing of the artifacts a run writes.

pub mod text;
pub mod classifier;
pub mod decode;
pub mod cache;
pub mod pipeline;
pub mod governor;
pub mod tally;
pub mod sink;
pub mod sitemap;
