//! Verified core of a small desktop media hub for YouTube, TikTok and local
//! video files: input validation, link and thumbnail policies, OAuth
//! callback handling, token bookkeeping and the shaping of platform feeds.

pub mod text;
pub mod urls;
pub mod model;
pub mod oauth;
pub mod json;
pub mod net;
pub mod secrets;
pub mod session;
pub mod feeds;
pub mod tiktok;
pub mod youtube;
pub mod store;
pub mod viewer;
