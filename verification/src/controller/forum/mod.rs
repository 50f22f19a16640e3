//! The forum: categories, sections, topics and posts.

pub mod post;
pub mod section;
pub mod topic;
