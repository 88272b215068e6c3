//! The Responses API, answered by way of the messages that the backend takes.

pub mod answer_laws;
pub mod calls;
pub mod collected;
pub mod content;
pub mod context;
pub mod events;
pub mod exchange;
pub mod input;
pub mod reasoning;
pub mod reply;
pub mod request_laws;
pub mod responses;
pub mod stream;
pub mod thinking;
pub mod tools;
pub mod types;
