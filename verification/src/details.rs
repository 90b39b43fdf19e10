//! Uniform panic details: one location plus one message, extracted the same
//! way from every carrier shape the runtime hands a panic payload out in.

use vstd::prelude::*;
use vstd::string::StringExecFns;

use crate::payload::downcast_payload;
use crate::payload::spec_downcast;
use crate::payload::Message;
use crate::payload::Payload;
use crate::text::dec_digits;
use crate::text::u32_to_string;

verus! {

/// A source position: a file identifier, a line and a column.
///
/// The runtime records one when a panic is raised; when a carrier does not
/// supply one, the extraction functions substitute the location of their own
/// call site, which the caller passes in explicitly. Details therefore always
/// hold a location.
pub struct Location {
    pub file: String,
    pub line: u32,
    pub column: u32,
}

impl Location {
    /// The text this location renders as: `file:line:column`.
    pub open spec fn text(self) -> Seq<char> {
        self.file@ + ":"@ + dec_digits(self.line as nat) + ":"@ + dec_digits(
            self.column as nat,
        )
    }

    /// Renders the location as `file:line:column`.
    pub fn render(&self) -> (r: String)
        ensures
            r@ == self.text(),
    {
        let mut s = self.file.clone();
        s.append(":");
        let line = u32_to_string(self.line);
        s.append(line.as_str());
        s.append(":");
        let column = u32_to_string(self.column);
        s.append(column.as_str());
        s
    }

    /// An equal copy of this location.
    pub fn duplicate(&self) -> (r: Location)
        ensures
            r == *self,
    {
        Location { file: self.file.clone(), line: self.line, column: self.column }
    }
}

/// Panic details: exactly one location paired with exactly one message.
pub struct PanicDetails {
    pub location: Location,
    pub message: Message,
}

impl PanicDetails {
    /// The text these details render as: the location, a single literal
    /// `": "` separator, then the message.
    pub open spec fn text(self) -> Seq<char> {
        self.location.text() + ": "@ + self.message.text()
    }

    /// Renders the details as `location: message`.
    pub fn render(&self) -> (r: String)
        ensures
            r@ == self.text(),
    {
        let mut s = self.location.render();
        s.append(": ");
        let m = self.message.render();
        s.append(m.as_str());
        s
    }
}

/// A live panic-info handle, as the extraction functions observe it: the
/// location recorded where the panic was raised, if the runtime supplied one,
/// and the payload. The adapter that reads the runtime's own handle and
/// builds this value lives outside the verified library.
pub struct PanicInfo {
    pub location: Option<Location>,
    pub payload: Payload,
}

/// Uniform access to panic details, implemented once per carrier shape.
///
/// Each implementation chooses its own location-sourcing policy, stated by
/// `spec_location`: a live handle prefers the location recorded at the raise
/// site, while a bare payload carries no location at all, so extraction falls
/// back to the call-site location its caller passes in as `caller`.
pub trait PanicInfoExt: Sized {
    /// The message this carrier's payload classifies to.
    spec fn spec_message(&self) -> Message;

    /// The location extraction yields when called with `caller` as the
    /// call-site location.
    spec fn spec_location(&self, caller: Location) -> Location;

    /// Retrieves the underlying panic message.
    fn panic_message(&self) -> (m: Message)
        ensures
            m == self.spec_message(),
    ;

    /// Accesses uniform details of the panic. `caller` must be the location
    /// of the call site; it is used whenever the carrier records no location
    /// of its own.
    fn panic_details(&self, caller: Location) -> (d: PanicDetails)
        ensures
            d.location == self.spec_location(caller),
            d.message == self.spec_message(),
    ;
}

impl PanicInfoExt for PanicInfo {
    open spec fn spec_message(&self) -> Message {
        spec_downcast(self.payload)
    }

    /// A live handle prefers the location recorded at the raise site.
    open spec fn spec_location(&self, caller: Location) -> Location {
        match self.location {
            Some(l) => l,
            None => caller,
        }
    }

    fn panic_message(&self) -> (m: Message)
        ensures
            m == self.spec_message(),
    {
        downcast_payload(&self.payload)
    }

    fn panic_details(&self, caller: Location) -> (d: PanicDetails)
        ensures
            d.location == self.spec_location(caller),
            d.message == self.spec_message(),
    {
        let location = match &self.location {
            Some(l) => l.duplicate(),
            None => caller,
        };
        PanicDetails { location, message: self.panic_message() }
    }
}

impl PanicInfoExt for Payload {
    open spec fn spec_message(&self) -> Message {
        spec_downcast(*self)
    }

    /// A bare payload carries no location: always the call site.
    open spec fn spec_location(&self, caller: Location) -> Location {
        caller
    }

    fn panic_message(&self) -> (m: Message)
        ensures
            m == self.spec_message(),
    {
        downcast_payload(self)
    }

    fn panic_details(&self, caller: Location) -> (d: PanicDetails)
        ensures
            d.location == self.spec_location(caller),
            d.message == self.spec_message(),
    {
        PanicDetails { location: caller, message: self.panic_message() }
    }
}

impl PanicInfoExt for Box<Payload> {
    open spec fn spec_message(&self) -> Message {
        spec_downcast(**self)
    }

    /// An owned boxed payload carries no location: always the call site.
    open spec fn spec_location(&self, caller: Location) -> Location {
        caller
    }

    fn panic_message(&self) -> (m: Message)
        ensures
            m == self.spec_message(),
    {
        downcast_payload(&**self)
    }

    fn panic_details(&self, caller: Location) -> (d: PanicDetails)
        ensures
            d.location == self.spec_location(caller),
            d.message == self.spec_message(),
    {
        PanicDetails { location: caller, message: self.panic_message() }
    }
}

/// Retrieves panic details from any carrier. `caller` must be the location
/// of the call site; it is used whenever the carrier records no location of
/// its own.
pub fn panic_details<C: PanicInfoExt>(payload: &C, caller: Location) -> (d: PanicDetails)
    ensures
        d.location == payload.spec_location(caller),
        d.message == payload.spec_message(),
{
    payload.panic_details(caller)
}

/// Retrieves the panic message from any carrier.
pub fn panic_message<C: PanicInfoExt>(payload: &C) -> (m: Message)
    ensures
        m == payload.spec_message(),
{
    payload.panic_message()
}

} // verus!
