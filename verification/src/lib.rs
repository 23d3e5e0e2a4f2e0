pub mod dispatch;
pub mod paths;
pub mod search;
pub mod status;
pub mod templates;
