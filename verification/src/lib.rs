pub mod json;
pub mod text;
pub mod crypto;
pub mod time;
pub mod model;
pub mod render;
pub mod http;
pub mod dingtalk;
pub mod lark;
pub mod wecom;
