use vstd::prelude::*;

use crate::bytes::{element_bytes, holds_words, native_value, shape_bytes, word_bytes};
use crate::error::EngineError;
use crate::operation::Operation;
use crate::shaders::ShaderRegistry;

verus! {

broadcast use vstd::std_specs::hash::group_hash_axioms;

/// The size in bytes of one element of an array.
pub const ELEMENT_SIZE: u64 = 4;

/// The GPU buffers of one array: the storage buffer that the shaders work on,
/// a staging buffer of the same size that results are copied into for the
/// host to read, and the buffer holding the array's four dimensions.
pub struct Buffers<B> {
    storage_buffer: B,
    staging_buffer: B,
    dimensions_buffer: B,
    size: u64,
}

impl<B> Buffers<B> {
    /// The storage buffer, bound read-write at binding 0.
    pub closed spec fn storage(&self) -> B {
        self.storage_buffer
    }

    /// The host-mappable staging buffer.
    pub closed spec fn staging(&self) -> B {
        self.staging_buffer
    }

    /// The shape buffer, bound read-only at binding 1.
    pub closed spec fn dimensions(&self) -> B {
        self.dimensions_buffer
    }

    /// The size in bytes of the storage buffer, and so of the staging buffer.
    pub closed spec fn byte_size(&self) -> u64 {
        self.size
    }

    /// Groups the buffers of one array; the storage and staging buffers were
    /// both created `size` bytes long.
    pub fn new(storage_buffer: B, staging_buffer: B, dimensions_buffer: B, size: u64) -> (r: Self)
        ensures
            r.storage() == storage_buffer,
            r.staging() == staging_buffer,
            r.dimensions() == dimensions_buffer,
            r.byte_size() == size,
    {
        Buffers { storage_buffer, staging_buffer, dimensions_buffer, size }
    }

    pub fn storage_buffer(&self) -> (r: &B)
        ensures
            *r == self.storage(),
    {
        &self.storage_buffer
    }

    pub fn staging_buffer(&self) -> (r: &B)
        ensures
            *r == self.staging(),
    {
        &self.staging_buffer
    }

    pub fn dimensions_buffer(&self) -> (r: &B)
        ensures
            *r == self.dimensions(),
    {
        &self.dimensions_buffer
    }

    /// The size in bytes of the storage and of the staging buffer.
    pub fn size(&self) -> (r: u64)
        ensures
            r == self.byte_size(),
    {
        self.size
    }
}

/// What the buffers of a new array are to hold: the bytes of its elements for
/// the storage buffer, the size of the staging buffer, and the bytes of its
/// shape.
pub struct BufferContents {
    pub storage: Vec<u8>,
    pub staging_size: u64,
    pub dimensions: Vec<u8>,
}

/// Whether every dimension fits the shape buffer's unsigned 32-bit integers.
pub open spec fn shape_fits(dimensions: [usize; 4]) -> bool {
    forall|i: int| 0 <= i < 4 ==> dimensions@[i] <= u32::MAX
}

impl BufferContents {
    /// The contents of the buffers of an array with shape `dimensions` and
    /// elements `data`: the storage buffer holds the elements, the staging
    /// buffer is as large, and the shape buffer holds the four dimensions.
    /// Fails with `DispatchFailed` where a dimension does not fit in 32 bits.
    pub fn new(dimensions: &[usize; 4], data: &[u32]) -> (r: Result<Self, EngineError>)
        ensures
            !shape_fits(*dimensions) <==> r == Err::<Self, EngineError>(EngineError::DispatchFailed),
            r matches Ok(c) ==> {
                &&& holds_words(c.storage@, data@)
                &&& c.staging_size == c.storage@.len()
                &&& c.dimensions@.len() == 16
                &&& forall|i: int|
                    0 <= i < 4 ==> native_value(#[trigger] word_bytes(c.dimensions@, i))
                        == dimensions@[i]
            },
    {
        let mut shape: [u32; 4] = [0, 0, 0, 0];
        let mut i: usize = 0;
        while i < 4
            invariant
                i <= 4,
                forall|j: int| 0 <= j < i ==> dimensions@[j] <= u32::MAX && shape@[j] == dimensions@[j],
            decreases 4 - i,
        {
            if dimensions[i] > u32::MAX as usize {
                return Err(EngineError::DispatchFailed);
            }
            shape.set(i, dimensions[i] as u32);
            i = i + 1;
        }
        let storage = element_bytes(data);
        let staging_size = storage.len() as u64;
        let dimensions_bytes = shape_bytes(&shape);
        assert forall|j: int| 0 <= j < 4 implies native_value(
            #[trigger] word_bytes(dimensions_bytes@, j),
        ) == dimensions@[j] by {
            assert(native_value(word_bytes(dimensions_bytes@, j)) == shape@[j]);
        }
        Ok(BufferContents { storage, staging_size, dimensions: dimensions_bytes })
    }
}

/// The work of one dispatch, as resolved by the engine: the device context to
/// record it with, the shader to run, the array's buffers, the number of
/// invocation groups along the first dimension and the bytes to copy from the
/// storage buffer to the staging buffer.
pub struct Dispatch<'a, D, M, B> {
    pub context: &'a D,
    pub module: &'a M,
    pub buffers: &'a Buffers<B>,
    pub workgroups: u32,
    pub copy_size: u64,
}

/// The number of elements in a storage buffer of `size` bytes.
pub open spec fn element_count(size: u64) -> int {
    size as int / ELEMENT_SIZE as int
}

/// The elements, not the bytes, set the size of a dispatch: the storage
/// buffer of an array of `n` elements, built by `BufferContents::new`, is
/// dispatched with `n` invocation groups.
pub proof fn lemma_dispatch_covers_elements(n: nat)
    requires
        4 * n <= u64::MAX,
    ensures
        element_count((4 * n) as u64) == n,
{
}

/// The device context after installing `candidate` into `slot`: the first
/// context installed stays.
pub open spec fn installed<D>(slot: Option<D>, candidate: D) -> Option<D> {
    match slot {
        Some(c) => Some(c),
        None => Some(candidate),
    }
}

/// The engine: one device context, the shader registry, and the table of the
/// buffer sets of live arrays, keyed by their identifiers.
///
/// Looking up needs `&self` and inserting or removing `&mut self`, so a caller
/// that shares the engine behind a reader-writer lock gets concurrent lookups
/// and exclusive updates.
pub struct Executor<D, M, B> {
    adapter: Option<D>,
    shaders: Option<ShaderRegistry<M>>,
    buffers: std::collections::HashMap<u128, Buffers<B>>,
}

impl<D, M, B> Executor<D, M, B> {
    /// The installed device context, if any.
    pub closed spec fn context(&self) -> Option<D> {
        self.adapter
    }

    /// The shader registry; absent when the shader directory could not be read.
    pub closed spec fn registry(&self) -> Option<ShaderRegistry<M>> {
        self.shaders
    }

    /// The buffer table.
    pub closed spec fn table(&self) -> Map<u128, Buffers<B>> {
        self.buffers@
    }

    /// Whether a shader is registered for `op`.
    pub open spec fn supports(&self, op: Operation) -> bool {
        self.registry() matches Some(r) && r.slot(op) is Some
    }

    /// An engine with the given device context and shaders, and no arrays.
    pub fn new(context: D, shaders: Option<ShaderRegistry<M>>) -> (r: Self)
        ensures
            r.context() == Some(context),
            r.registry() == shaders,
            r.table() == Map::<u128, Buffers<B>>::empty(),
    {
        Executor { adapter: Some(context), shaders, buffers: std::collections::HashMap::new() }
    }

    /// An engine with no device context, no shaders and no arrays.
    pub fn empty() -> (r: Self)
        ensures
            r.context() is None,
            r.registry() is None,
            r.table() == Map::<u128, Buffers<B>>::empty(),
    {
        Executor { adapter: None, shaders: None, buffers: std::collections::HashMap::new() }
    }

    /// Installs `candidate` as the device context unless one is installed
    /// already, in which case that one stays. Returns whether `candidate` was
    /// installed; a context that loses is no error.
    pub fn install_context(&mut self, candidate: D) -> (r: bool)
        ensures
            r == old(self).context() is None,
            final(self).context() == installed(old(self).context(), candidate),
            final(self).registry() == old(self).registry(),
            final(self).table() == old(self).table(),
    {
        if self.adapter.is_some() {
            false
        } else {
            self.adapter = Some(candidate);
            true
        }
    }

    /// Sets the shader registry.
    pub fn set_shaders(&mut self, shaders: Option<ShaderRegistry<M>>)
        ensures
            final(self).registry() == shaders,
            final(self).context() == old(self).context(),
            final(self).table() == old(self).table(),
    {
        self.shaders = shaders;
    }

    /// The installed device context.
    pub fn context_ref(&self) -> (r: Result<&D, EngineError>)
        ensures
            r matches Ok(c) ==> self.context() == Some(*c),
            r matches Err(e) ==> self.context() is None && e == EngineError::DeviceContextUnavailable,
    {
        match &self.adapter {
            Some(c) => Ok(c),
            None => Err(EngineError::DeviceContextUnavailable),
        }
    }

    /// Whether buffers are registered under `id`.
    pub fn contains(&self, id: u128) -> (r: bool)
        ensures
            r == self.table().contains_key(id),
    {
        self.buffers.contains_key(&id)
    }

    /// The buffers registered under `id`.
    pub fn lookup(&self, id: u128) -> (r: Result<&Buffers<B>, EngineError>)
        ensures
            r matches Ok(b) ==> self.table().contains_key(id) && self.table()[id] == *b,
            r matches Err(e) ==> !self.table().contains_key(id) && e == EngineError::BufferNotFound,
    {
        match self.buffers.get(&id) {
            Some(b) => Ok(b),
            None => Err(EngineError::BufferNotFound),
        }
    }

    /// Registers the buffers of a new array under `id`. Fails where no device
    /// context is installed, or where `id` is taken; the table is then left as
    /// it was.
    pub fn setup_buffers(&mut self, id: u128, buffers: Buffers<B>) -> (r: Result<(), EngineError>)
        ensures
            final(self).context() == old(self).context(),
            final(self).registry() == old(self).registry(),
            old(self).context() is None ==> r == Err::<(), EngineError>(
                EngineError::DeviceContextUnavailable,
            ),
            old(self).context() is Some && old(self).table().contains_key(id) ==> r == Err::<
                (),
                EngineError,
            >(EngineError::IdentifierInUse),
            old(self).context() is Some && !old(self).table().contains_key(id) ==> r is Ok,
            r is Ok ==> final(self).table() == old(self).table().insert(id, buffers),
            r is Err ==> final(self).table() == old(self).table(),
    {
        if self.adapter.is_none() {
            return Err(EngineError::DeviceContextUnavailable);
        }
        if self.buffers.contains_key(&id) {
            return Err(EngineError::IdentifierInUse);
        }
        self.buffers.insert(id, buffers);
        Ok(())
    }

    /// Releases the buffers registered under `id`; releasing an identifier
    /// that holds none does nothing.
    pub fn drop(&mut self, id: u128)
        ensures
            final(self).table() == old(self).table().remove(id),
            final(self).context() == old(self).context(),
            final(self).registry() == old(self).registry(),
    {
        self.buffers.remove(&id);
    }

    /// Resolves the work of running `op` on the array registered under `id`.
    ///
    /// The checks come in this order: a device context must be installed, a
    /// shader must be registered for `op`, buffers must be registered under
    /// `id`, and their element count must fit a dispatch. The dispatch runs
    /// one invocation group per element and copies the whole staging size.
    pub fn plan_dispatch(&self, id: u128, op: Operation) -> (r: Result<Dispatch<'_, D, M, B>, EngineError>)
        ensures
            self.context() is None ==> (r matches Err(e) && e
                == EngineError::DeviceContextUnavailable),
            self.context() is Some && !self.supports(op) ==> (r matches Err(e) && e
                == EngineError::OperationNotSupported),
            self.context() is Some && self.supports(op) && !self.table().contains_key(id) ==> (
            r matches Err(e) && e == EngineError::BufferNotFound),
            self.context() is Some && self.supports(op) && self.table().contains_key(id) ==> {
                if element_count(self.table()[id].byte_size()) <= u32::MAX {
                    (r matches Ok(d) && {
                        &&& self.context() == Some(*d.context)
                        &&& self.registry()->0.slot(op) == Some(*d.module)
                        &&& *d.buffers == self.table()[id]
                        &&& d.workgroups == element_count(self.table()[id].byte_size())
                        &&& d.copy_size == self.table()[id].byte_size()
                    })
                } else {
                    (r matches Err(e) && e == EngineError::DispatchFailed)
                }
            },
    {
        let context = match &self.adapter {
            Some(c) => c,
            None => return Err(EngineError::DeviceContextUnavailable),
        };
        let module = match &self.shaders {
            Some(registry) => match registry.module(op) {
                Some(m) => m,
                None => return Err(EngineError::OperationNotSupported),
            },
            None => return Err(EngineError::OperationNotSupported),
        };
        let buffers = match self.buffers.get(&id) {
            Some(b) => b,
            None => return Err(EngineError::BufferNotFound),
        };
        let count = buffers.size() / ELEMENT_SIZE;
        if count > u32::MAX as u64 {
            return Err(EngineError::DispatchFailed);
        }
        Ok(Dispatch { context, module, buffers, workgroups: count as u32, copy_size: buffers.size() })
    }
}

/// The device context after installing each of `candidates` in turn into `slot`.
pub open spec fn installed_all<D>(slot: Option<D>, candidates: Seq<D>) -> Option<D>
    decreases candidates.len(),
{
    if candidates.len() == 0 {
        slot
    } else {
        installed(installed_all(slot, candidates.drop_last()), candidates.last())
    }
}

/// Device acquisition is idempotent: when any number of callers install a
/// context into an empty slot, the first one stays, and every later one
/// leaves it in place.
pub proof fn lemma_context_installed_once<D>(candidates: Seq<D>)
    requires
        candidates.len() > 0,
    ensures
        installed_all(None::<D>, candidates) == Some(candidates[0]),
        forall|c: D| installed(installed_all(None::<D>, candidates), c) == installed_all(None::<D>, candidates),
    decreases candidates.len(),
{
    if candidates.len() > 1 {
        lemma_context_installed_once(candidates.drop_last());
        assert(candidates.drop_last()[0] == candidates[0]);
    } else {
        assert(installed_all(None::<D>, candidates.drop_last()) == None::<D>);
    }
}

/// Creating an array and releasing it leaves no entry under its identifier,
/// and the other entries as they were; releasing it a second time changes
/// nothing.
pub proof fn lemma_release_after_create<B>(table: Map<u128, Buffers<B>>, id: u128, buffers: Buffers<B>)
    requires
        !table.contains_key(id),
    ensures
        !table.insert(id, buffers).remove(id).contains_key(id),
        table.insert(id, buffers).remove(id) == table,
        table.insert(id, buffers).remove(id).remove(id) == table.insert(id, buffers).remove(id),
{
    assert(table.insert(id, buffers).remove(id) =~= table);
    assert(table.remove(id) =~= table);
}

impl<D, M, B> Default for Executor<D, M, B> {
    fn default() -> (r: Self)
        ensures
            r.context() is None,
            r.registry() is None,
            r.table() == Map::<u128, Buffers<B>>::empty(),
    {
        Executor::empty()
    }
}

} // verus!
