//! The verified core of a private chat client built on Nostr and MLS.

pub mod whitenoise;
