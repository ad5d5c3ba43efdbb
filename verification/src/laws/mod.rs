//! Laws that join several parts of the client: what one part gives is what another part takes.

pub mod bundle;
pub mod contacts;
pub mod conversation;
pub mod device;
pub mod dispatch;
pub mod requests;
pub mod screens;
