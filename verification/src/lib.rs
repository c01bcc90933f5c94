//! A minimal cross-platform identity and messaging data model.
//!
//! A single logical [`user::User`] can be linked to accounts on several
//! external platforms; [`chat::Chat`] and [`chat::Message`] reference such
//! users uniformly, whichever platform they originate from.

pub mod chat;
pub mod datetime;
pub mod platform;
pub mod user;
