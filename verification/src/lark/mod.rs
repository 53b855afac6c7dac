//! Lark / Feishu (飞书): requests for the Open Platform REST API and readings of its replies.

pub mod client;
pub mod messaging;
pub mod email;
pub mod data_table;
pub mod attendance;
pub mod meeting;
pub mod auth;
pub mod message_ext;
pub mod media;
pub mod approval;
pub mod task;
pub mod calendar;
pub mod contact;
pub mod department;
pub mod group;
pub mod document;
pub mod event;
pub mod meeting_room;
pub mod wiki;
