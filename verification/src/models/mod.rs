pub mod post;
pub mod post_comment;
pub mod reel;
pub mod room;
pub mod rust_practice_topic;
pub mod trip;
pub mod user;
