//! The opaque GPU context that a backend offers to the code that draws into its textures.
use std::sync::Arc;

use vstd::prelude::*;
use vstd::string::*;

use crate::payload::Payload;
use crate::token::ExternalGpuDeviceToken;
use crate::wgpu_context::WgpuExternalContext;

verus! {

/// An opaque platform GPU context that can be downcast by a matching backend.
///
/// No graphics API dependency is exposed through this type. A backend supplies the concrete
/// payload, as [`WgpuExternalContext`](crate::WgpuExternalContext) does.
pub struct ExternalGpuContext {
    token: ExternalGpuDeviceToken,
    payload: Arc<Payload>,
}

impl ExternalGpuContext {
    /// The device token associated with this context.
    pub closed spec fn spec_token(&self) -> ExternalGpuDeviceToken {
        self.token
    }

    /// The payload of this context.
    pub closed spec fn payload(&self) -> Arc<Payload> {
        self.payload
    }

    /// Whether this context carries `value`, wrapped as a `T`.
    pub open spec fn carries<T: Send + Sync + 'static>(&self, value: T) -> bool {
        self.payload().holds(value)
    }

    /// The debug text of a context.
    pub open spec fn shown(&self) -> Seq<char> {
        "ExternalGpuContext { token: "@ + self.token().shown() + ", .. }"@
    }

    /// Wraps a backend-owned context payload.
    pub fn new<T>(token: ExternalGpuDeviceToken, payload: T) -> (context: Self) where
        T: Send + Sync + 'static,

        ensures
            context.token() == token,
            context.carries(payload),
    {
        ExternalGpuContext { token, payload: Arc::new(Payload::new(payload)) }
    }

    /// Returns the device token associated with this context.
    #[verifier::when_used_as_spec(spec_token)]
    pub fn token(&self) -> (token: ExternalGpuDeviceToken)
        ensures
            token == self.token(),
    {
        self.token
    }

    /// Downcasts the opaque backend payload.
    pub fn downcast_ref<T>(&self) -> (found: Option<&T>) where T: Send + Sync + 'static
        ensures
            self.payload().finds(found),
            found matches Some(value) ==> self.carries(*value) && forall|other: T|
                self.carries(other) ==> other == *value,
    {
        self.payload.downcast_ref()
    }

    /// Downcasts the payload of the WGPU backend.
    pub(crate) fn downcast_wgpu_context(&self) -> (found: Option<&WgpuExternalContext>)
        ensures
            match found {
                Some(value) => self.carries(*value) && forall|other: WgpuExternalContext|
                    self.carries(other) ==> other == *value,
                None => forall|other: WgpuExternalContext| !self.carries(other),
            },
    {
        self.payload.downcast_wgpu_context()
    }

    /// Returns the debug text of this context, which leaves the payload out.
    pub fn debug_text(&self) -> (text: String)
        ensures
            text@ == self.shown(),
    {
        let mut text = String::from_str("ExternalGpuContext { token: ");
        self.token.append_debug_text(&mut text);
        text.append(", .. }");
        text
    }
}

impl Clone for ExternalGpuContext {
    /// Another owner of the same context.
    fn clone(&self) -> (context: Self)
        ensures
            context == *self,
    {
        ExternalGpuContext { token: self.token, payload: Arc::clone(&self.payload) }
    }
}

} // verus!
