//! Handles to externally owned textures, and the identifiers that tell them apart.
use std::sync::Arc;

use vstd::prelude::*;
use vstd::string::*;

use crate::access::ExternalTextureAccess;
use crate::ids::{ExternalTextureId, ExternalTextureIds};
use crate::payload::{Payload, WeakRef};
#[allow(unused_imports)]
use crate::text::truth;
use crate::text::append_truth;
use crate::token::ExternalGpuDeviceToken;

verus! {

/// An opaque, reference-counted external texture handle.
///
/// The texture must have been created on the device identified by [`Self::token`].
/// The platform renderer validates the token and concrete payload before drawing.
pub struct ExternalTextureHandle {
    id: ExternalTextureId,
    token: ExternalGpuDeviceToken,
    payload: Arc<Payload>,
    access: Arc<ExternalTextureAccess>,
}

impl ExternalTextureHandle {
    /// The process-local texture identifier.
    pub closed spec fn spec_id(&self) -> ExternalTextureId {
        self.id
    }

    /// The GPU device token that this texture was created with.
    pub closed spec fn spec_token(&self) -> ExternalGpuDeviceToken {
        self.token
    }

    /// The payload of this texture.
    pub closed spec fn payload(&self) -> Arc<Payload> {
        self.payload
    }

    /// The access word of this texture.
    pub closed spec fn access(&self) -> Arc<ExternalTextureAccess> {
        self.access
    }

    /// Whether this texture carries `value`, wrapped as a `T`.
    pub open spec fn carries<T: Send + Sync + 'static>(&self, value: T) -> bool {
        self.payload().holds(value)
    }

    /// The debug text of a handle.
    pub open spec fn shown(&self) -> Seq<char> {
        "ExternalTextureHandle { id: "@ + self.id().shown() + ", token: "@ + self.token().shown()
            + ", .. }"@
    }

    /// Wraps a backend-owned texture payload and assigns it a stable local ID.
    pub fn new<T>(ids: &ExternalTextureIds, token: ExternalGpuDeviceToken, payload: T) -> (texture:
        Self) where T: Send + Sync + 'static
        ensures
            ids.issues(texture.id()),
            texture.token() == token,
            texture.carries(payload),
            texture.access().starts_idle(),
    {
        ExternalTextureHandle {
            id: ids.issue(),
            token,
            payload: Arc::new(Payload::new(payload)),
            access: Arc::new(ExternalTextureAccess::default()),
        }
    }

    /// Returns the process-local texture identifier.
    #[verifier::when_used_as_spec(spec_id)]
    pub fn id(&self) -> (id: ExternalTextureId)
        ensures
            id == self.id(),
    {
        self.id
    }

    /// Returns the GPU device token this texture was created with.
    #[verifier::when_used_as_spec(spec_token)]
    pub fn token(&self) -> (token: ExternalGpuDeviceToken)
        ensures
            token == self.token(),
    {
        self.token
    }

    /// Returns a non-owning handle that can be used to associate renderer-side
    /// caches with the lifetime of this external texture.
    pub fn downgrade(&self) -> (weak: WeakExternalTextureHandle)
        ensures
            weak.refers_to(*self),
    {
        WeakExternalTextureHandle {
            id: self.id,
            token: self.token,
            payload: WeakRef::new(&self.payload),
            access: WeakRef::new(&self.access),
        }
    }

    /// Returns the access word of this texture.
    pub(crate) fn word(&self) -> (word: &Arc<ExternalTextureAccess>)
        ensures
            *word == self.access(),
        opens_invariants none
        no_unwind
    {
        &self.access
    }

    /// Downcasts the opaque backend payload.
    pub fn downcast_ref<T>(&self) -> (found: Option<&T>) where T: Send + Sync + 'static
        ensures
            self.payload().finds(found),
            found matches Some(value) ==> self.carries(*value) && forall|other: T|
                self.carries(other) ==> other == *value,
    {
        self.payload.downcast_ref()
    }

    /// Returns the debug text of this handle, which leaves the payload out.
    pub fn debug_text(&self) -> (text: String)
        ensures
            text@ == self.shown(),
    {
        let mut text = String::from_str("ExternalTextureHandle { id: ");
        self.id.append_debug_text(&mut text);
        text.append(", token: ");
        self.token.append_debug_text(&mut text);
        text.append(", .. }");
        text
    }
}

impl Clone for ExternalTextureHandle {
    /// Another owner of the same texture.
    fn clone(&self) -> (texture: Self)
        ensures
            texture == *self,
    {
        ExternalTextureHandle {
            id: self.id,
            token: self.token,
            payload: Arc::clone(&self.payload),
            access: Arc::clone(&self.access),
        }
    }
}

/// A non-owning reference to an external texture handle.
///
/// Platform renderers use this to keep derived resources, such as bind groups,
/// alive while the application retains the texture without making those
/// derived resources extend the texture's lifetime.
pub struct WeakExternalTextureHandle {
    id: ExternalTextureId,
    token: ExternalGpuDeviceToken,
    payload: WeakRef<Payload>,
    access: WeakRef<ExternalTextureAccess>,
}

impl WeakExternalTextureHandle {
    /// The process-local texture identifier.
    pub closed spec fn spec_id(&self) -> ExternalTextureId {
        self.id
    }

    /// The GPU device token that the texture was created with.
    pub closed spec fn spec_token(&self) -> ExternalGpuDeviceToken {
        self.token
    }

    /// The reference to the payload.
    pub closed spec fn payload(&self) -> WeakRef<Payload> {
        self.payload
    }

    /// The reference to the access word.
    pub closed spec fn access(&self) -> WeakRef<ExternalTextureAccess> {
        self.access
    }

    /// Whether this is a reference to `texture`.
    pub open spec fn refers_to(&self, texture: ExternalTextureHandle) -> bool {
        &&& self.id() == texture.id()
        &&& self.token() == texture.token()
        &&& self.payload().refers_to(texture.payload())
        &&& self.access().refers_to(texture.access())
    }

    /// The debug text of a reference to a texture that is retained or not.
    pub open spec fn shown(&self, alive: bool) -> Seq<char> {
        "WeakExternalTextureHandle { id: "@ + self.id().shown() + ", token: "@
            + self.token().shown() + ", alive: "@ + truth(alive) + " }"@
    }

    /// Whether `alive` is what counting the owners of the payload has told.
    pub open spec fn tells(&self, alive: bool) -> bool {
        exists|owners: usize| #[trigger]
            self.payload().counts(owners) && (alive <==> owners != 0)
    }

    /// Returns the process-local texture identifier.
    #[verifier::when_used_as_spec(spec_id)]
    pub fn id(&self) -> (id: ExternalTextureId)
        ensures
            id == self.id(),
    {
        self.id
    }

    /// Returns the GPU device token this texture was created with.
    #[verifier::when_used_as_spec(spec_token)]
    pub fn token(&self) -> (token: ExternalGpuDeviceToken)
        ensures
            token == self.token(),
    {
        self.token
    }

    /// Upgrades this reference while the external texture is still retained.
    pub fn upgrade(&self) -> (found: Option<ExternalTextureHandle>)
        ensures
            match found {
                Some(texture) => {
                    &&& self.payload().upgrades_to(Some(texture.payload()))
                    &&& self.access().upgrades_to(Some(texture.access()))
                    &&& self.refers_to(texture)
                    &&& forall|other: ExternalTextureHandle|
                        self.refers_to(other) ==> other == texture
                },
                None => self.payload().upgrades_to(None) || self.access().upgrades_to(None),
            },
    {
        let payload = match self.payload.upgrade() {
            Some(payload) => payload,
            None => {
                return None;
            },
        };
        let access = match self.access.upgrade() {
            Some(access) => access,
            None => {
                return None;
            },
        };
        Some(ExternalTextureHandle { id: self.id, token: self.token, payload, access })
    }

    /// Returns whether an owning handle still exists.
    pub fn is_alive(&self) -> (alive: bool)
        ensures
            self.tells(alive),
    {
        let owners: usize = self.payload.strong_count();
        assert(self.payload().counts(owners));
        owners != 0
    }

    /// Returns the debug text of this reference, given whether the texture is retained.
    pub fn debug_text_when(&self, alive: bool) -> (text: String)
        ensures
            text@ == self.shown(alive),
    {
        let mut text = String::from_str("WeakExternalTextureHandle { id: ");
        self.id.append_debug_text(&mut text);
        text.append(", token: ");
        self.token.append_debug_text(&mut text);
        text.append(", alive: ");
        append_truth(&mut text, alive);
        text.append(" }");
        text
    }

    /// Returns the debug text of this reference.
    pub fn debug_text(&self) -> (text: String)
        ensures
            exists|alive: bool| #[trigger] self.tells(alive) && text@ == self.shown(alive),
    {
        let alive = self.is_alive();
        self.debug_text_when(alive)
    }
}

impl Clone for WeakExternalTextureHandle {
    /// Another reference to the same texture.
    fn clone(&self) -> (weak: Self)
        ensures
            weak == *self,
    {
        WeakExternalTextureHandle {
            id: self.id,
            token: self.token,
            payload: self.payload.clone(),
            access: self.access.clone(),
        }
    }
}

} // verus!
