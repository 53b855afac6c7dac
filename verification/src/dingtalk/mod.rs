//! DingTalk (钉钉): requests for the Open Platform REST API and readings of its replies.

pub mod client;
pub mod webhook;
pub mod messaging;
pub mod task;
pub mod auth;
pub mod approval;
pub mod attendance;
pub mod calendar;
pub mod contact;
pub mod event;
pub mod group;
pub mod data_table;
pub mod meeting_room;
pub mod report;
