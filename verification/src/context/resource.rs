use vstd::prelude::*;
use crate::context::session::{with_setting, Context, ContextView, Setting};
use crate::error::BridgeError;
use crate::term::{Term, TermView};

verus! {

/// The token that the host holds for a context: a slot and the generation
/// the slot had when the token was made. It carries no reference to memory.
#[derive(Clone, Copy, Debug, PartialEq, Eq, Structural)]
pub struct Handle {
    pub index: usize,
    pub generation: u64,
}

/// A context behind its lock: the settings, and who holds the lock now.
/// Either one writer holds it, or any number of readers, or nobody.
#[derive(Debug, PartialEq, Eq)]
pub struct ContextNifResource {
    pub context: Context,
    readers: usize,
    writer: bool,
}

/// One place of the registry. An empty slot keeps its generation, so that
/// the tokens made for what it held before stay invalid.
#[derive(Debug, PartialEq, Eq)]
struct Slot {
    generation: u64,
    references: usize,
    resource: Option<ContextNifResource>,
}

/// The contexts that the host holds handles to.
#[derive(Debug, PartialEq, Eq)]
pub struct Registry {
    slots: Vec<Slot>,
}

/// What the registry holds for one valid handle.
pub struct EntryView {
    pub context: ContextView,
    pub readers: nat,
    pub writer: bool,
    pub references: nat,
}

/// What asking for a context by a host value comes to.
#[derive(Clone, Copy, Debug, PartialEq, Eq, Structural)]
pub enum Access {
    /// The value is no handle of a context that the registry holds.
    Bad,
    /// The context is there, and its lock is held in a way that excludes
    /// the access: the caller has to wait.
    Busy,
    /// The context is there and the access can go ahead.
    Granted(Handle),
}

/// Shared access through the host value `arg`: granted unless a writer
/// holds the lock, or the readers cannot be counted any further.
pub open spec fn shared_access(state: Map<Handle, EntryView>, arg: TermView) -> Access {
    match arg {
        TermView::Context(handle) => {
            if !state.dom().contains(handle) {
                Access::Bad
            } else if state[handle].writer || state[handle].readers >= usize::MAX {
                Access::Busy
            } else {
                Access::Granted(handle)
            }
        },
        _ => Access::Bad,
    }
}

/// Exclusive access through the host value `arg`: granted only while
/// nobody holds the lock.
pub open spec fn exclusive_access(state: Map<Handle, EntryView>, arg: TermView) -> Access {
    match arg {
        TermView::Context(handle) => {
            if !state.dom().contains(handle) {
                Access::Bad
            } else if state[handle].writer || state[handle].readers > 0 {
                Access::Busy
            } else {
                Access::Granted(handle)
            }
        },
        _ => Access::Bad,
    }
}

/// The entry with one more reader.
pub open spec fn read_locked(entry: EntryView) -> EntryView {
    EntryView { readers: entry.readers + 1, ..entry }
}

/// The entry with a writer.
pub open spec fn write_locked(entry: EntryView) -> EntryView {
    EntryView { writer: true, ..entry }
}

/// The entry with other settings.
pub open spec fn with_context(entry: EntryView, context: ContextView) -> EntryView {
    EntryView { context, ..entry }
}

/// An entry as it is right after its context was wrapped: one reference,
/// the lock free.
pub open spec fn fresh_entry(context: ContextView) -> EntryView {
    EntryView { context, readers: 0, writer: false, references: 1 }
}

impl Slot {
    spec fn reusable(self) -> bool {
        self.resource is None && self.generation < u64::MAX
    }

    spec fn entry(self) -> EntryView {
        EntryView {
            context: self.resource->Some_0.context@,
            readers: self.resource->Some_0.readers as nat,
            writer: self.resource->Some_0.writer,
            references: self.references as nat,
        }
    }

    spec fn wf(self) -> bool {
        self.resource is Some ==> {
            &&& self.references >= 1
            &&& self.generation < u64::MAX
            &&& (self.resource->Some_0.writer ==> self.resource->Some_0.readers == 0)
        }
    }
}

spec fn first_reusable(slots: Seq<Slot>, from: int) -> int
    decreases slots.len() - from,
{
    if from >= slots.len() {
        slots.len() as int
    } else if slots[from].reusable() {
        from
    } else {
        first_reusable(slots, from + 1)
    }
}

impl View for Registry {
    type V = Map<Handle, EntryView>;

    /// The valid handles, each with what it stands for.
    closed spec fn view(&self) -> Map<Handle, EntryView> {
        Map::new(
            |handle: Handle| self.live(handle),
            |handle: Handle| self.slots@[handle.index as int].entry(),
        )
    }
}

impl Registry {
    spec fn live(self, handle: Handle) -> bool {
        &&& handle.index < self.slots@.len()
        &&& self.slots@[handle.index as int].generation == handle.generation
        &&& self.slots@[handle.index as int].resource is Some
    }

    /// Every context that is held has a reference, and its lock is held by
    /// one writer or by readers, never by both.
    pub closed spec fn wf(self) -> bool {
        forall|i: int| 0 <= i < self.slots@.len() ==> (#[trigger] self.slots@[i]).wf()
    }

    /// The handle that the next context to be wrapped will get.
    pub closed spec fn next_handle(self) -> Handle {
        let index = first_reusable(self.slots@, 0);
        Handle {
            index: index as usize,
            generation: if index < self.slots@.len() {
                self.slots@[index].generation
            } else {
                0
            },
        }
    }

    /// Whether `handle` stood for a context that has gone since. Such a
    /// handle stands for nothing, now and ever after.
    pub closed spec fn spent(self, handle: Handle) -> bool {
        handle.index < self.slots@.len() && handle.generation
            < self.slots@[handle.index as int].generation
    }

    /// Whether every handle that is spent in `self` is spent in `later`.
    pub open spec fn outlived_by(self, later: Registry) -> bool {
        forall|handle: Handle| self.spent(handle) ==> #[trigger] later.spent(handle)
    }

    /// A spent handle stands for nothing.
    pub proof fn lemma_spent_is_gone(self, handle: Handle)
        requires
            self.spent(handle),
        ensures
            !self@.dom().contains(handle),
    {
    }

    /// A handle whose context has gone stands for nothing in any later state
    /// of the registry: no context that is wrapped later gets it.
    pub proof fn lemma_spent_stays_gone(self, later: Registry, handle: Handle)
        requires
            self.spent(handle),
            self.outlived_by(later),
        ensures
            !later@.dom().contains(handle),
    {
        later.lemma_spent_is_gone(handle);
    }

    /// In a registry that holds to its rule, no lock is held by a writer
    /// and by readers at once, and whatever is held has a reference.
    pub proof fn lemma_wf(self, handle: Handle)
        requires
            self.wf(),
            self@.dom().contains(handle),
        ensures
            self@[handle].references >= 1,
            self@[handle].writer ==> self@[handle].readers == 0,
    {
        assert(self.slots@[handle.index as int].wf());
    }

    proof fn lemma_first_reusable(slots: Seq<Slot>, from: int)
        requires
            0 <= from <= slots.len(),
        ensures
            from <= first_reusable(slots, from) <= slots.len(),
            first_reusable(slots, from) < slots.len() ==> slots[first_reusable(
                slots,
                from,
            )].reusable(),
            forall|j: int|
                from <= j < first_reusable(slots, from) ==> !(#[trigger] slots[j]).reusable(),
        decreases slots.len() - from,
    {
        if from < slots.len() && !slots[from].reusable() {
            Self::lemma_first_reusable(slots, from + 1);
        }
    }

    /// A registry that holds nothing and never held anything: no handle is
    /// valid, none is spent, and the first context to be wrapped gets the
    /// first slot in its first generation.
    pub fn new() -> (r: Registry)
        ensures
            r.wf(),
            r@ == Map::<Handle, EntryView>::empty(),
            forall|handle: Handle| !r.spent(handle),
            r.next_handle() == (Handle { index: 0, generation: 0 }),
    {
        let r = Registry { slots: Vec::new() };
        assert(r@ =~= Map::<Handle, EntryView>::empty());
        r
    }

    /// Whether `handle` stands for a context that is held.
    pub fn contains(&self, handle: Handle) -> (r: bool)
        ensures
            r == self@.dom().contains(handle),
    {
        handle.index < self.slots.len() && self.slots[handle.index].generation
            == handle.generation && self.slots[handle.index].resource.is_some()
    }

    /// The settings behind `handle`, if it stands for a context.
    pub fn get(&self, handle: Handle) -> (r: Option<&Context>)
        ensures
            match r {
                Some(context) => self@.dom().contains(handle) && context@ == self@[handle].context,
                None => !self@.dom().contains(handle),
            },
    {
        if handle.index < self.slots.len() && self.slots[handle.index].generation
            == handle.generation {
            match &self.slots[handle.index].resource {
                Some(resource) => Some(&resource.context),
                None => None,
            }
        } else {
            None
        }
    }

    /// Changes one setting of the context behind `handle`. Nothing else of
    /// the registry changes. A handle that stands for nothing is a bad
    /// argument.
    pub fn update(&mut self, handle: Handle, setting: Setting) -> (r: Result<(), BridgeError>)
        requires
            old(self).wf(),
        ensures
            final(self).wf(),
            old(self).outlived_by(*final(self)),
            match r {
                Ok(_) => {
                    &&& old(self)@.dom().contains(handle)
                    &&& final(self)@ == old(self)@.insert(
                        handle,
                        with_context(
                            old(self)@[handle],
                            with_setting(old(self)@[handle].context, setting@),
                        ),
                    )
                },
                Err(e) => {
                    &&& e == BridgeError::BadArgument
                    &&& !old(self)@.dom().contains(handle)
                    &&& final(self)@ == old(self)@
                },
            },
    {
        if !self.contains(handle) {
            return Err(BridgeError::BadArgument);
        }
        let ghost before = *self;
        let ghost setting_view = setting@;
        match &mut self.slots[handle.index].resource {
            Some(resource) => {
                resource.context.apply(setting);
            },
            None => {},
        }
        proof {
            assert forall|i: int| 0 <= i < self.slots@.len() implies (#[trigger] self.slots@[i]).wf() by {
                assert(before.slots@[i].wf());
            }
            assert(self@ =~= before@.insert(
                handle,
                with_context(before@[handle], with_setting(before@[handle].context, setting_view)),
            ));
        }
        Ok(())
    }

    /// Counts one more reference to the context behind `handle`. A count
    /// that cannot grow any further stays where it is. A handle that stands
    /// for nothing is a bad argument.
    pub fn retain(&mut self, handle: Handle) -> (r: Result<(), BridgeError>)
        requires
            old(self).wf(),
        ensures
            final(self).wf(),
            old(self).outlived_by(*final(self)),
            match r {
                Ok(_) => {
                    &&& old(self)@.dom().contains(handle)
                    &&& final(self)@ == old(self)@.insert(
                        handle,
                        EntryView {
                            references: if old(self)@[handle].references < usize::MAX {
                                old(self)@[handle].references + 1
                            } else {
                                old(self)@[handle].references
                            },
                            ..old(self)@[handle]
                        },
                    )
                },
                Err(e) => {
                    &&& e == BridgeError::BadArgument
                    &&& !old(self)@.dom().contains(handle)
                    &&& final(self)@ == old(self)@
                },
            },
    {
        if !self.contains(handle) {
            return Err(BridgeError::BadArgument);
        }
        let ghost before = *self;
        let count = self.slots[handle.index].references;
        if count < usize::MAX {
            self.slots[handle.index].references = count + 1;
        }
        proof {
            assert forall|i: int| 0 <= i < self.slots@.len() implies (#[trigger] self.slots@[i]).wf() by {
                assert(before.slots@[i].wf());
            }
            assert(self@ =~= before@.insert(
                handle,
                EntryView {
                    references: if before@[handle].references < usize::MAX {
                        before@[handle].references + 1
                    } else {
                        before@[handle].references
                    },
                    ..before@[handle]
                },
            ));
        }
        Ok(())
    }

    /// Gives up one reference to the context behind `handle`, and says
    /// whether it was the last. With the last reference the context goes,
    /// and the handle stands for nothing from then on. A handle that stands
    /// for nothing is a bad argument.
    pub fn release(&mut self, handle: Handle) -> (r: Result<bool, BridgeError>)
        requires
            old(self).wf(),
        ensures
            final(self).wf(),
            old(self).outlived_by(*final(self)),
            match r {
                Ok(last) => {
                    &&& old(self)@.dom().contains(handle)
                    &&& last == (old(self)@[handle].references == 1)
                    &&& last ==> final(self)@ == old(self)@.remove(handle) && final(self).spent(
                        handle,
                    )
                    &&& !last ==> final(self)@ == old(self)@.insert(
                        handle,
                        EntryView {
                            references: (old(self)@[handle].references - 1) as nat,
                            ..old(self)@[handle]
                        },
                    )
                },
                Err(e) => {
                    &&& e == BridgeError::BadArgument
                    &&& !old(self)@.dom().contains(handle)
                    &&& final(self)@ == old(self)@
                },
            },
    {
        if !self.contains(handle) {
            return Err(BridgeError::BadArgument);
        }
        let ghost before = *self;
        assert(before.slots@[handle.index as int].wf());
        let count = self.slots[handle.index].references;
        if count == 1 {
            let generation = self.slots[handle.index].generation;
            self.slots[handle.index].resource = None;
            self.slots[handle.index].references = 0;
            self.slots[handle.index].generation = generation + 1;
            proof {
                assert forall|i: int| 0 <= i < self.slots@.len() implies (
                #[trigger] self.slots@[i]).wf() by {
                    assert(before.slots@[i].wf());
                }
                assert(self@ =~= before@.remove(handle));
            }
            Ok(true)
        } else {
            self.slots[handle.index].references = count - 1;
            proof {
                assert forall|i: int| 0 <= i < self.slots@.len() implies (
                #[trigger] self.slots@[i]).wf() by {
                    assert(before.slots@[i].wf());
                }
                assert(self@ =~= before@.insert(
                    handle,
                    EntryView {
                        references: (before@[handle].references - 1) as nat,
                        ..before@[handle]
                    },
                ));
            }
            Ok(false)
        }
    }

    /// Says what shared access through `arg` comes to, and takes nothing.
    pub fn check_immutable(&self, arg: &Term) -> (r: Access)
        ensures
            r == shared_access(self@, arg@),
    {
        match arg {
            Term::Context(handle) => {
                if !self.contains(*handle) {
                    return Access::Bad;
                }
                match &self.slots[handle.index].resource {
                    Some(resource) => {
                        if resource.writer || resource.readers == usize::MAX {
                            Access::Busy
                        } else {
                            Access::Granted(*handle)
                        }
                    },
                    None => Access::Bad,
                }
            },
            _ => Access::Bad,
        }
    }

    /// Says what exclusive access through `arg` comes to, and takes nothing.
    pub fn check_mutable(&self, arg: &Term) -> (r: Access)
        ensures
            r == exclusive_access(self@, arg@),
    {
        match arg {
            Term::Context(handle) => {
                if !self.contains(*handle) {
                    return Access::Bad;
                }
                match &self.slots[handle.index].resource {
                    Some(resource) => {
                        if resource.writer || resource.readers > 0 {
                            Access::Busy
                        } else {
                            Access::Granted(*handle)
                        }
                    },
                    None => Access::Bad,
                }
            },
            _ => Access::Bad,
        }
    }

    /// Takes the lock of the context behind `arg` for reading, if shared
    /// access is granted. Whether `arg` is a handle of a context is settled
    /// before the lock is looked at.
    pub fn unpack_immutable(&mut self, arg: &Term) -> (r: Access)
        requires
            old(self).wf(),
        ensures
            final(self).wf(),
            old(self).outlived_by(*final(self)),
            r == shared_access(old(self)@, arg@),
            match r {
                Access::Granted(handle) => final(self)@ == old(self)@.insert(
                    handle,
                    read_locked(old(self)@[handle]),
                ),
                _ => final(self)@ == old(self)@,
            },
    {
        let access = self.check_immutable(arg);
        match access {
            Access::Granted(handle) => {
                let ghost before = *self;
                match &mut self.slots[handle.index].resource {
                    Some(resource) => {
                        resource.readers = resource.readers + 1;
                    },
                    None => {},
                }
                proof {
                    assert forall|i: int| 0 <= i < self.slots@.len() implies (
                    #[trigger] self.slots@[i]).wf() by {
                        assert(before.slots@[i].wf());
                    }
                    assert(self@ =~= before@.insert(handle, read_locked(before@[handle])));
                }
            },
            _ => {},
        }
        access
    }

    /// Takes the lock of the context behind `arg` for writing, if exclusive
    /// access is granted. Whether `arg` is a handle of a context is settled
    /// before the lock is looked at.
    pub fn unpack_mutable(&mut self, arg: &Term) -> (r: Access)
        requires
            old(self).wf(),
        ensures
            final(self).wf(),
            old(self).outlived_by(*final(self)),
            r == exclusive_access(old(self)@, arg@),
            match r {
                Access::Granted(handle) => final(self)@ == old(self)@.insert(
                    handle,
                    write_locked(old(self)@[handle]),
                ),
                _ => final(self)@ == old(self)@,
            },
    {
        let access = self.check_mutable(arg);
        match access {
            Access::Granted(handle) => {
                let ghost before = *self;
                match &mut self.slots[handle.index].resource {
                    Some(resource) => {
                        resource.writer = true;
                    },
                    None => {},
                }
                proof {
                    assert forall|i: int| 0 <= i < self.slots@.len() implies (
                    #[trigger] self.slots@[i]).wf() by {
                        assert(before.slots@[i].wf());
                    }
                    assert(self@ =~= before@.insert(handle, write_locked(before@[handle])));
                }
            },
            _ => {},
        }
        access
    }

    /// Gives back a lock that was taken for reading. A handle that stands
    /// for nothing, or whose lock no reader holds, is a bad argument.
    pub fn release_immutable(&mut self, handle: Handle) -> (r: Result<(), BridgeError>)
        requires
            old(self).wf(),
        ensures
            final(self).wf(),
            old(self).outlived_by(*final(self)),
            match r {
                Ok(_) => {
                    &&& old(self)@.dom().contains(handle)
                    &&& old(self)@[handle].readers > 0
                    &&& final(self)@ == old(self)@.insert(
                        handle,
                        EntryView {
                            readers: (old(self)@[handle].readers - 1) as nat,
                            ..old(self)@[handle]
                        },
                    )
                },
                Err(e) => {
                    &&& e == BridgeError::BadArgument
                    &&& !(old(self)@.dom().contains(handle) && old(self)@[handle].readers > 0)
                    &&& final(self)@ == old(self)@
                },
            },
    {
        if !self.contains(handle) {
            return Err(BridgeError::BadArgument);
        }
        let ghost before = *self;
        match &mut self.slots[handle.index].resource {
            Some(resource) => {
                if resource.readers == 0 {
                    return Err(BridgeError::BadArgument);
                }
                resource.readers = resource.readers - 1;
            },
            None => {
                return Err(BridgeError::BadArgument);
            },
        }
        proof {
            assert forall|i: int| 0 <= i < self.slots@.len() implies (#[trigger] self.slots@[i]).wf() by {
                assert(before.slots@[i].wf());
            }
            assert(self@ =~= before@.insert(
                handle,
                EntryView { readers: (before@[handle].readers - 1) as nat, ..before@[handle] },
            ));
        }
        Ok(())
    }

    /// Gives back a lock that was taken for writing. A handle that stands
    /// for nothing, or whose lock no writer holds, is a bad argument.
    pub fn release_mutable(&mut self, handle: Handle) -> (r: Result<(), BridgeError>)
        requires
            old(self).wf(),
        ensures
            final(self).wf(),
            old(self).outlived_by(*final(self)),
            match r {
                Ok(_) => {
                    &&& old(self)@.dom().contains(handle)
                    &&& old(self)@[handle].writer
                    &&& final(self)@ == old(self)@.insert(
                        handle,
                        EntryView { writer: false, ..old(self)@[handle] },
                    )
                },
                Err(e) => {
                    &&& e == BridgeError::BadArgument
                    &&& !(old(self)@.dom().contains(handle) && old(self)@[handle].writer)
                    &&& final(self)@ == old(self)@
                },
            },
    {
        if !self.contains(handle) {
            return Err(BridgeError::BadArgument);
        }
        let ghost before = *self;
        match &mut self.slots[handle.index].resource {
            Some(resource) => {
                if !resource.writer {
                    return Err(BridgeError::BadArgument);
                }
                resource.writer = false;
            },
            None => {
                return Err(BridgeError::BadArgument);
            },
        }
        proof {
            assert forall|i: int| 0 <= i < self.slots@.len() implies (#[trigger] self.slots@[i]).wf() by {
                assert(before.slots@[i].wf());
            }
            assert(self@ =~= before@.insert(
                handle,
                EntryView { writer: false, ..before@[handle] },
            ));
        }
        Ok(())
    }
}

/// Puts a context under the registry's care and hands out the handle for
/// it: a handle that stood for nothing before. The context starts with one
/// reference and a free lock; what other handles stand for does not change.
pub fn wrap_context(registry: &mut Registry, context: Context) -> (r: Handle)
    requires
        old(registry).wf(),
    ensures
        final(registry).wf(),
        old(registry).outlived_by(*final(registry)),
        !final(registry).spent(r),
        r == old(registry).next_handle(),
        !old(registry)@.dom().contains(r),
        final(registry)@ == old(registry)@.insert(r, fresh_entry(context@)),
{
    let ghost before = *registry;
    let ghost context_view = context@;
    proof {
        Registry::lemma_first_reusable(before.slots@, 0);
    }
    let resource = ContextNifResource { context, readers: 0, writer: false };
    let mut i: usize = 0;
    while i < registry.slots.len() && !(registry.slots[i].resource.is_none()
        && registry.slots[i].generation < u64::MAX)
        invariant
            *registry == before,
            0 <= i <= registry.slots@.len(),
            first_reusable(before.slots@, 0) == first_reusable(before.slots@, i as int),
        decreases registry.slots@.len() - i,
    {
        i = i + 1;
    }
    assert(first_reusable(before.slots@, 0) == i);
    if i < registry.slots.len() {
        let generation = registry.slots[i].generation;
        let handle = Handle { index: i, generation };
        registry.slots[i].references = 1;
        registry.slots[i].resource = Some(resource);
        proof {
            assert forall|j: int| 0 <= j < registry.slots@.len() implies (
            #[trigger] registry.slots@[j]).wf() by {
                assert(before.slots@[j].wf());
            }
            assert(registry@ =~= before@.insert(handle, fresh_entry(context_view)));
        }
        handle
    } else {
        let handle = Handle { index: i, generation: 0 };
        registry.slots.push(Slot { generation: 0, references: 1, resource: Some(resource) });
        proof {
            assert forall|j: int| 0 <= j < registry.slots@.len() implies (
            #[trigger] registry.slots@[j]).wf() by {
                if j < before.slots@.len() {
                    assert(before.slots@[j].wf());
                }
            }
            assert(registry@ =~= before@.insert(handle, fresh_entry(context_view)));
        }
        handle
    }
}

} // verus!
