//! The screens of the client: their state and what they draw.

pub mod chat_list;
pub mod chat_view;
pub mod connection_status;
pub mod contact_search;
pub mod device_link;
pub mod onboarding;
pub mod qr_widget;
pub mod registration;
pub mod safety_number;
pub mod settings;
pub mod unlock;
