use vstd::prelude::*;

use crate::error::EngineError;
use crate::executor::{Buffers, Executor};
use crate::ident::{is_uuid_v4, random_uuid, uuid_string, uuid_text};

verus! {

/// An array living on the GPU: its shape and the identifier of its buffers in
/// the engine's table. A handle is neither cloned nor copied, so no two
/// handles share an identifier; releasing one consumes it.
#[derive(Debug)]
pub struct Array {
    dimensions: [usize; 4],
    id: u128,
}

impl Array {
    /// The identifier of the array's buffers.
    pub closed spec fn key_spec(&self) -> u128 {
        self.id
    }

    /// The shape of the array.
    pub closed spec fn shape(&self) -> [usize; 4] {
        self.dimensions
    }

    /// Creates an array of shape `dimensions` whose buffers, built from
    /// `BufferContents::new(dimensions, data)`, are `buffers`: draws a fresh
    /// random identifier and registers the buffers under it.
    ///
    /// Fails with `DeviceContextUnavailable` where the engine has no device
    /// context, and with `IdentifierInUse` where the drawn identifier is taken;
    /// the table is then unchanged.
    pub fn new<D, M, B>(
        executor: &mut Executor<D, M, B>,
        dimensions: &[usize; 4],
        buffers: Buffers<B>,
    ) -> (r: Result<Array, EngineError>)
        ensures
            final(executor).context() == old(executor).context(),
            final(executor).registry() == old(executor).registry(),
            old(executor).context() is None ==> r == Err::<Array, EngineError>(
                EngineError::DeviceContextUnavailable,
            ),
            old(executor).context() is Some ==> (r is Ok || r == Err::<Array, EngineError>(
                EngineError::IdentifierInUse,
            )),
            r matches Ok(a) ==> {
                &&& is_uuid_v4(a.key_spec())
                &&& a.shape() == *dimensions
                &&& !old(executor).table().contains_key(a.key_spec())
                &&& final(executor).table() == old(executor).table().insert(a.key_spec(), buffers)
            },
            r is Err ==> final(executor).table() == old(executor).table(),
            r == Err::<Array, EngineError>(EngineError::IdentifierInUse) ==> exists|k: u128|
                is_uuid_v4(k) && #[trigger] old(executor).table().contains_key(k),
    {
        let id = random_uuid();
        match executor.setup_buffers(id, buffers) {
            Ok(()) => Ok(Array { dimensions: *dimensions, id }),
            Err(e) => Err(e),
        }
    }

    /// The identifier of the array, in the hyphenated text form of a UUID.
    pub fn id(&self) -> (r: String)
        ensures
            r@ == uuid_text(self.key_spec()),
    {
        uuid_string(self.id)
    }

    /// The identifier of the array's buffers in the engine's table.
    pub fn key(&self) -> (r: u128)
        ensures
            r == self.key_spec(),
    {
        self.id
    }

    /// The shape of the array.
    pub fn dimensions(&self) -> (r: [usize; 4])
        ensures
            r == self.shape(),
    {
        self.dimensions
    }

    /// Releases the array's buffers from the engine and consumes the handle.
    pub fn release<D, M, B>(self, executor: &mut Executor<D, M, B>)
        ensures
            final(executor).table() == old(executor).table().remove(self.key_spec()),
            final(executor).context() == old(executor).context(),
            final(executor).registry() == old(executor).registry(),
    {
        executor.drop(self.id);
    }
}

/// Two arrays created one after the other get distinct identifiers, and each
/// identifier refers to its own buffers, the other entries staying as they
/// were. Creations by concurrent callers are ordered by the exclusive access
/// that `Array::new` needs to the engine.
pub proof fn lemma_created_ids_distinct<B>(
    table: Map<u128, Buffers<B>>,
    first: u128,
    first_buffers: Buffers<B>,
    second: u128,
    second_buffers: Buffers<B>,
)
    requires
        !table.contains_key(first),
        !table.insert(first, first_buffers).contains_key(second),
    ensures
        first != second,
        table.insert(first, first_buffers).insert(second, second_buffers)[first] == first_buffers,
        table.insert(first, first_buffers).insert(second, second_buffers)[second] == second_buffers,
        forall|k: u128|
            k != first && k != second ==> #[trigger] table.insert(first, first_buffers).insert(
                second,
                second_buffers,
            ).contains_key(k) == table.contains_key(k),
{
}

} // verus!
