//! WeCom (企业微信): requests for the server API and readings of its replies.

pub mod client;
pub mod webhook;
pub mod data_table;
pub mod event;
pub mod task;
pub mod meeting;
pub mod messaging;
pub mod auth;
pub mod calendar;
pub mod chat_list;
pub mod contact;
pub mod department;
pub mod group;
pub mod media;
pub mod document;
