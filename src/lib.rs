//! Watches a feed of new items, drops those already seen, and decides which
//! of the rest to forward by a keyword policy on their titles.

pub mod normalize;
pub mod keywords;
pub mod store;
pub mod pipeline;
