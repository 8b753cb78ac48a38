use vstd::prelude::*;

verus! {

/// A native call that the owner of an interop resource makes on its behalf,
/// in the order the resource asks for them.
#[derive(Clone, Copy, Debug, PartialEq, Eq, Structural)]
pub enum InteropCall {
    /// Register a graphics texture with the compute driver.
    Register { texture_id: u32, texture_kind: u32 },
    /// Release the registration with this handle.
    Unregister { handle: u64 },
    /// Map the registered texture into device memory.
    MapResource { handle: u64 },
    /// Unmap it again.
    UnmapResource { handle: u64 },
    /// Fetch the array backing the mapped texture.
    GetMappedArray { handle: u64 },
    /// Fetch the device pointer backing the mapped texture.
    GetMappedPointer { handle: u64 },
}

/// The registration of one graphics texture with the compute driver: either
/// none, or exactly one native handle (never zero).
pub struct GraphicsResource {
    handle: Option<u64>,
}

impl View for GraphicsResource {
    type V = Option<u64>;

    closed spec fn view(&self) -> Option<u64> {
        self.handle
    }
}

/// The calls that register a texture on a resource in state `handle`: an
/// outstanding registration is released first.
pub open spec fn register_calls(handle: Option<u64>, texture_id: u32, texture_kind: u32) -> Seq<
    InteropCall,
> {
    match handle {
        Some(h) => seq![
            InteropCall::Unregister { handle: h },
            InteropCall::Register { texture_id, texture_kind },
        ],
        None => seq![InteropCall::Register { texture_id, texture_kind }],
    }
}

/// Number of native registrations outstanding after `calls` all succeed,
/// starting from `count`.
pub open spec fn registrations_after(count: int, calls: Seq<InteropCall>) -> int
    decreases calls.len(),
{
    if calls.len() == 0 {
        count
    } else {
        let before = registrations_after(count, calls.drop_last());
        match calls.last() {
            InteropCall::Register { .. } => before + 1,
            InteropCall::Unregister { .. } => before - 1,
            _ => before,
        }
    }
}

/// The resource's state after `calls` all succeed, where a registration hands
/// back `new_handle`.
pub open spec fn handle_after(handle: Option<u64>, calls: Seq<InteropCall>, new_handle: u64) -> Option<
    u64,
>
    decreases calls.len(),
{
    if calls.len() == 0 {
        handle
    } else {
        let before = handle_after(handle, calls.drop_last(), new_handle);
        match calls.last() {
            InteropCall::Register { .. } => Some(new_handle),
            InteropCall::Unregister { .. } => None,
            _ => before,
        }
    }
}

/// Native registrations held by a resource in state `handle`.
pub open spec fn held(handle: Option<u64>) -> int {
    if handle is Some {
        1
    } else {
        0
    }
}

impl GraphicsResource {
    #[verifier::type_invariant]
    spec fn handle_nonzero(self) -> bool {
        self.handle != Some(0u64)
    }

    /// A resource with no registration.
    pub fn new() -> (r: GraphicsResource)
        ensures
            r@ is None,
    {
        GraphicsResource { handle: None }
    }

    pub fn is_registered(&self) -> (r: bool)
        ensures
            r == self@ is Some,
    {
        self.handle.is_some()
    }

    /// The native handle of the registration, if any.
    pub fn handle(&self) -> (r: Option<u64>)
        ensures
            r == self@,
            r != Some(0u64),
    {
        proof {
            use_type_invariant(self);
        }
        self.handle
    }

    /// The calls that register a texture: where a registration is outstanding
    /// it is released first, so that exactly one remains afterwards.
    pub fn register(&self, texture_id: u32, texture_kind: u32) -> (r: Vec<InteropCall>)
        ensures
            r@ == register_calls(self@, texture_id, texture_kind),
    {
        let mut r: Vec<InteropCall> = Vec::new();
        match self.handle {
            Some(h) => r.push(InteropCall::Unregister { handle: h }),
            None => {},
        }
        r.push(InteropCall::Register { texture_id, texture_kind });
        proof {
            assert(r@ =~= register_calls(self@, texture_id, texture_kind));
        }
        r
    }

    /// Records that a `Register` call succeeded with the given handle.
    pub fn registered(&mut self, handle: u64)
        requires
            handle != 0,
        ensures
            final(self)@ == Some(handle),
    {
        self.handle = Some(handle);
    }

    /// The call that releases the registration.
    pub fn unregister(&self) -> (r: InteropCall)
        requires
            self@ is Some,
        ensures
            r == (InteropCall::Unregister { handle: self@->Some_0 }),
    {
        match self.handle {
            Some(h) => InteropCall::Unregister { handle: h },
            None => InteropCall::Unregister { handle: 0 },
        }
    }

    /// Records that an `Unregister` call succeeded.
    pub fn unregistered(&mut self)
        ensures
            final(self)@ is None,
    {
        self.handle = None;
    }

    /// The calls to make when the resource goes away: the registration, if
    /// still outstanding, is released.
    pub fn release(&self) -> (r: Option<InteropCall>)
        ensures
            self@ is Some ==> r == Some(InteropCall::Unregister { handle: self@->Some_0 }),
            self@ is None ==> r is None,
    {
        match self.handle {
            Some(h) => Some(InteropCall::Unregister { handle: h }),
            None => None,
        }
    }

    /// A mapping of the registered texture, not yet mapped.
    pub fn map(&self) -> (r: MappedGraphicsResource)
        requires
            self@ is Some,
        ensures
            r.handle() == self@->Some_0,
            r.handle() != 0,
            !r.is_mapped(),
    {
        proof {
            use_type_invariant(self);
        }
        match self.handle {
            Some(h) => MappedGraphicsResource { handle: h, mapped: false },
            None => MappedGraphicsResource { handle: 0, mapped: false },
        }
    }
}

/// Registering from any state leaves exactly one native registration, held
/// by the resource under the handle the last registration returned.
pub proof fn lemma_register_leaves_one(
    handle: Option<u64>,
    texture_id: u32,
    texture_kind: u32,
    new_handle: u64,
)
    ensures
        registrations_after(held(handle), register_calls(handle, texture_id, texture_kind)) == 1,
        handle_after(handle, register_calls(handle, texture_id, texture_kind), new_handle) == Some(
            new_handle,
        ),
{
    let calls = register_calls(handle, texture_id, texture_kind);
    if handle is Some {
        let first = calls.drop_last();
        assert(first =~= seq![InteropCall::Unregister { handle: handle->Some_0 }]);
        assert(first.drop_last() =~= Seq::<InteropCall>::empty());
        assert(calls.last() == InteropCall::Register { texture_id, texture_kind });
        assert(registrations_after(1, first.drop_last()) == 1);
        assert(registrations_after(1, first) == 0);
        assert(registrations_after(1, calls) == 1);
    } else {
        assert(calls.drop_last() =~= Seq::<InteropCall>::empty());
        assert(calls.last() == InteropCall::Register { texture_id, texture_kind });
        assert(registrations_after(0, calls.drop_last()) == 0);
        assert(registrations_after(0, calls) == 1);
    }
}

/// Registering a texture twice on a fresh resource, without unregistering in
/// between, leaves exactly one native registration outstanding.
pub proof fn lemma_register_twice(
    first_texture: u32,
    first_kind: u32,
    first_handle: u64,
    second_texture: u32,
    second_kind: u32,
    second_handle: u64,
)
    ensures
        ({
            let first = register_calls(None, first_texture, first_kind);
            let after_first = handle_after(None, first, first_handle);
            let second = register_calls(after_first, second_texture, second_kind);
            &&& registrations_after(registrations_after(0, first), second) == 1
            &&& handle_after(after_first, second, second_handle) == Some(second_handle)
        }),
{
    lemma_register_leaves_one(None, first_texture, first_kind, first_handle);
    let after_first = handle_after(None, register_calls(None, first_texture, first_kind), first_handle);
    lemma_register_leaves_one(after_first, second_texture, second_kind, second_handle);
}

/// A scoped mapping of a registered texture. It tracks whether it is mapped,
/// so that it is unmapped exactly once, on whichever path ends it.
pub struct MappedGraphicsResource {
    handle: u64,
    mapped: bool,
}

impl MappedGraphicsResource {
    #[verifier::type_invariant]
    spec fn handle_nonzero(self) -> bool {
        self.handle != 0
    }

    pub closed spec fn handle(self) -> u64 {
        self.handle
    }

    pub closed spec fn is_mapped(self) -> bool {
        self.mapped
    }

    /// The call that ends the mapping on whichever path: an unmap if it is
    /// still mapped, nothing otherwise.
    pub open spec fn unmap_call(self) -> Option<InteropCall> {
        if self.is_mapped() {
            Some(InteropCall::UnmapResource { handle: self.handle() })
        } else {
            None
        }
    }

    pub fn mapped(&self) -> (r: bool)
        ensures
            r == self.is_mapped(),
    {
        self.mapped
    }

    /// The call that maps the texture.
    pub fn map(&self) -> (r: InteropCall)
        ensures
            r == (InteropCall::MapResource { handle: self.handle() }),
    {
        InteropCall::MapResource { handle: self.handle }
    }

    /// Records that the `Map` call succeeded.
    pub fn mark_mapped(&mut self)
        ensures
            final(self).is_mapped(),
            final(self).handle() == old(self).handle(),
    {
        proof {
            use_type_invariant(&*self);
        }
        self.mapped = true;
    }

    /// The call that unmaps the texture, if it is mapped; the mapping then
    /// counts as released, so a second `unmap` asks for nothing.
    pub fn unmap(&mut self) -> (r: Option<InteropCall>)
        ensures
            r == old(self).unmap_call(),
            !final(self).is_mapped(),
            final(self).handle() == old(self).handle(),
    {
        proof {
            use_type_invariant(&*self);
        }
        if self.mapped {
            self.mapped = false;
            Some(InteropCall::UnmapResource { handle: self.handle })
        } else {
            None
        }
    }

    /// The call that fetches the array backing the mapped texture.
    pub fn get_mapped_array(&self) -> (r: InteropCall)
        requires
            self.is_mapped(),
        ensures
            r == (InteropCall::GetMappedArray { handle: self.handle() }),
    {
        InteropCall::GetMappedArray { handle: self.handle }
    }

    /// The call that fetches the device pointer backing the mapped texture.
    pub fn get_device_pointer(&self) -> (r: InteropCall)
        requires
            self.is_mapped(),
        ensures
            r == (InteropCall::GetMappedPointer { handle: self.handle() }),
    {
        InteropCall::GetMappedPointer { handle: self.handle }
    }
}

/// A mapping that ends without an explicit unmap is still unmapped: ending
/// a mapped one asks for exactly one unmap of its texture. The state `unmap`
/// leaves behind is not mapped, so a mapping that was unmapped explicitly asks
/// for nothing more when it ends.
pub proof fn lemma_release_unmaps_once(m: MappedGraphicsResource, after: MappedGraphicsResource)
    requires
        !after.is_mapped(),
        after.handle() == m.handle(),
    ensures
        m.is_mapped() ==> m.unmap_call() == Some(InteropCall::UnmapResource { handle: m.handle() }),
        after.unmap_call() is None,
{
}

} // verus!
