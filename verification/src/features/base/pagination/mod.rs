//! Session-based pagination: cached id lists, and pages that fall back to an
//! external source once the internal results run out.

pub mod domain;
pub mod output;
pub mod query;


pub use domain::GameResultItem;
pub use output::{
    CacheRepositoryError, CachedIdsPage, ExternalRepositoryError, InternalRepositoryError,
    PaginationError,
};
pub use query::{FallbackPager, PagerAction};

pub mod redis;
pub use redis::RedisAdapter;
