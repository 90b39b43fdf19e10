//! The guarantees the library gives, stated and proved once for all inputs.

use vstd::prelude::*;

use crate::details::Location;
use crate::details::PanicDetails;
use crate::details::PanicInfo;
use crate::details::PanicInfoExt;
use crate::payload::spec_downcast;
use crate::payload::Message;
use crate::payload::Payload;

verus! {

/// A payload of static text classifies to a message that renders exactly as
/// that text.
pub proof fn lemma_static_text_message(s: String)
    ensures
        spec_downcast(Payload::StaticText(s)).text() == s@,
{
}

/// A payload of owned text classifies to a message that renders exactly as
/// that text.
pub proof fn lemma_owned_text_message(s: String)
    ensures
        spec_downcast(Payload::OwnedText(s)).text() == s@,
{
}

/// A payload of unrecognized dynamic type classifies to a message that
/// renders exactly as the fixed fallback `"fault occurred"`.
pub proof fn lemma_unknown_payload_fallback(p: Payload)
    requires
        p is Opaque,
    ensures
        spec_downcast(p).text() == "fault occurred"@,
{
}

/// Details extracted from a bare payload, owned or borrowed, always take the
/// call-site location, never a location from where the panic was raised.
pub proof fn lemma_payload_location_is_call_site(p: Payload, caller: Location)
    ensures
        p.spec_location(caller) == caller,
        (Box::new(p)).spec_location(caller) == caller,
{
}

/// Details extracted from a live handle take the location recorded at the
/// raise site whenever the runtime supplied one.
pub proof fn lemma_handle_location_is_raise_site(info: PanicInfo, caller: Location)
    requires
        info.location is Some,
    ensures
        info.spec_location(caller) == info.location->0,
{
}

/// Details render as the location text, a single literal `": "` separator,
/// then the message text — for every carrier, since extraction pins the
/// details' location to `spec_location` and their message to `spec_message`.
pub proof fn lemma_render_format<C: PanicInfoExt>(c: C, caller: Location)
    ensures
        (PanicDetails {
            location: c.spec_location(caller),
            message: c.spec_message(),
        }).text() == c.spec_location(caller).text() + ": "@ + c.spec_message().text(),
{
}

/// Extracting details twice from the same live handle renders identically,
/// whatever the two call sites, provided the handle records a raise-site
/// location.
pub proof fn lemma_details_render_idempotent(info: PanicInfo, c1: Location, c2: Location)
    requires
        info.location is Some,
    ensures
        (PanicDetails {
            location: info.spec_location(c1),
            message: info.spec_message(),
        }).text() == (PanicDetails {
            location: info.spec_location(c2),
            message: info.spec_message(),
        }).text(),
{
}

/// Rendered details are never empty: the separator alone contributes two
/// characters.
pub proof fn lemma_details_text_nonempty(d: PanicDetails)
    ensures
        d.text().len() > 0,
{
    reveal_strlit(": ");
}

/// The fallback message renders as non-empty text; the two text variants
/// render as the payload's own text, so they are non-empty exactly when that
/// text is.
pub proof fn lemma_fallback_message_nonempty()
    ensures
        Message::Fallback.text().len() > 0,
{
    reveal_strlit("fault occurred");
}

} // verus!
