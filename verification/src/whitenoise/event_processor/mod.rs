pub mod account_event_processor;
pub mod event_handlers;
pub mod giftwrap_throttle;
