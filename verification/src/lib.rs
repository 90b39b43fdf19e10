//! Panic introspection helpers: normalize the payload a panic carries into a
//! uniform, displayable details value (a source location plus a message),
//! whatever shape the runtime delivered the payload in.

mod details;
mod laws;
mod payload;
mod text;

pub use details::panic_details;
pub use details::panic_message;
pub use details::Location;
pub use details::PanicDetails;
pub use details::PanicInfo;
pub use details::PanicInfoExt;
pub use laws::lemma_details_render_idempotent;
pub use laws::lemma_details_text_nonempty;
pub use laws::lemma_fallback_message_nonempty;
pub use laws::lemma_handle_location_is_raise_site;
pub use laws::lemma_owned_text_message;
pub use laws::lemma_payload_location_is_call_site;
pub use laws::lemma_render_format;
pub use laws::lemma_static_text_message;
pub use laws::lemma_unknown_payload_fallback;
pub use payload::downcast_payload;
pub use payload::spec_downcast;
pub use payload::Message;
pub use payload::Payload;
pub use text::dec_digits;
pub use text::digit_char;
pub use text::u32_to_string;
