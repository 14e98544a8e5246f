use crate::error::IncorrectTypeError;
use crate::tag::tag_of;
use glium::vertex::{VertexBuffer, VertexBufferAny, VerticesSource};
use std::any::TypeId;
use vstd::prelude::*;

verus! {

/// glium's vertex buffer whose element type has been forgotten.
#[verifier::external_type_specification]
#[verifier::external_body]
pub struct ExVertexBufferAny(VertexBufferAny);

/// glium's vertex buffer of records of type `T`.
#[verifier::external_type_specification]
#[verifier::external_body]
#[verifier::reject_recursive_types(T)]
pub struct ExVertexBuffer<T: Copy>(VertexBuffer<T>);

/// The number of bytes between two consecutive records of an erased buffer,
/// as glium records it.
pub uninterp spec fn elements_size_of(b: VertexBufferAny) -> usize;

/// Relies on glium's `VertexBufferAny::get_elements_size`: the record size the
/// erased buffer was built with.
pub assume_specification[ VertexBufferAny::get_elements_size ](this: &VertexBufferAny) -> (r: usize)
    ensures
        r == elements_size_of(*this),
;

/// Relies on glium's `From<VertexBuffer<T>> for VertexBufferAny`: it moves the
/// buffer's storage and its vertex format into the erased buffer, and records
/// `size_of::<T>()` as the size of one record.
pub assume_specification<T>[ <VertexBufferAny as From<VertexBuffer<T>>>::from ](
    buf: VertexBuffer<T>,
) -> (r: VertexBufferAny)
    where
        T: Copy + Send + 'static,
    ensures
        elements_size_of(r) as nat == vstd::layout::size_of::<T>(),
;

/// glium's description of a stream of vertices fed to a draw call.
#[verifier::external_type_specification]
#[verifier::external_body]
pub struct ExVerticesSource<'a>(VerticesSource<'a>);

/// The vertex source that glium describes for an erased buffer: built from the
/// buffer alone (its storage, element size and vertex format), per vertex.
pub uninterp spec fn source_of(b: VertexBufferAny) -> VerticesSource<'static>;

/// Relies on glium's `From<&VertexBufferAny> for VerticesSource`: it describes
/// the erased buffer's storage and vertex format to a draw call, from that
/// buffer alone.
pub assume_specification<'a>[ <VerticesSource<'a> as From<&'a VertexBufferAny>>::from ](
    this: &VertexBufferAny,
) -> (r: VerticesSource<'_>)
    ensures
        r == source_of(*this),
;

/// A glium vertex buffer with its element type erased, together with the id
/// of the type it was built from.
///
/// The storage is handed back only to callers that present that same id, so
/// that it is read as records of the type it really holds.
pub struct TypedVertexBufferAny {
    type_id: TypeId,
    buffer: VertexBufferAny,
}

impl TypedVertexBufferAny {
    /// The id of the element type the buffer was built from.
    pub closed spec fn recorded_tag(&self) -> TypeId {
        self.type_id
    }

    /// The erased storage the buffer owns.
    pub closed spec fn storage(&self) -> VertexBufferAny {
        self.buffer
    }

    /// What a downcast that presents `requested` yields: the storage when
    /// `requested` is the recorded id, the type error otherwise.
    pub open spec fn lookup(&self, requested: TypeId) -> Result<VertexBufferAny, IncorrectTypeError> {
        if requested == self.recorded_tag() {
            Ok(self.storage())
        } else {
            Err(IncorrectTypeError)
        }
    }

    /// Takes ownership of a typed vertex buffer and forgets its element type,
    /// recording the id of `T` in its place. The storage keeps records of the
    /// size of `T`.
    pub fn erase<T: Copy + Send + 'static>(buffer: VertexBuffer<T>) -> (r: Self)
        ensures
            elements_size_of(r.storage()) as nat == vstd::layout::size_of::<T>(),
    {
        TypedVertexBufferAny { type_id: tag_of::<T>(), buffer: VertexBufferAny::from(buffer) }
    }

    /// The id of the element type the buffer was built from.
    pub fn tag(&self) -> (r: TypeId)
        ensures
            r == self.recorded_tag(),
    {
        self.type_id
    }

    /// The number of bytes between two consecutive records of the storage.
    pub fn elements_size(&self) -> (r: usize)
        ensures
            r == elements_size_of(self.storage()),
    {
        self.buffer.get_elements_size()
    }

    /// Borrows the storage, provided `requested` is the recorded id.
    pub fn storage_for(&self, requested: TypeId) -> (r: Result<&VertexBufferAny, IncorrectTypeError>)
        ensures
            r is Ok <==> requested == self.recorded_tag(),
            r matches Ok(b) ==> *b == self.storage(),
            r matches Ok(b) ==> self.lookup(requested) == Ok::<VertexBufferAny, IncorrectTypeError>(*b),
            r matches Err(e) ==> self.lookup(requested) == Err::<VertexBufferAny, IncorrectTypeError>(e),
    {
        if self.type_id == requested {
            Ok(&self.buffer)
        } else {
            Err(IncorrectTypeError)
        }
    }

    /// Borrows the storage mutably, provided `requested` is the recorded id.
    ///
    /// Writes through the returned reference are writes to this buffer's own
    /// records. The reference must not be used to put another buffer in place
    /// of the storage: the recorded id would then describe the wrong records.
    pub fn storage_for_mut(&mut self, requested: TypeId) -> (r: Result<&mut VertexBufferAny, IncorrectTypeError>)
        ensures
            r is Ok <==> requested == old(self).recorded_tag(),
            r matches Ok(b) ==> *b == old(self).storage(),
            r matches Ok(b) ==> final(self).recorded_tag() == old(self).recorded_tag(),
            r matches Ok(b) ==> final(self).storage() == *final(b),
            r is Err ==> *final(self) == *old(self),
            r matches Err(e) ==> old(self).lookup(requested) == Err::<VertexBufferAny, IncorrectTypeError>(e),
    {
        if self.type_id == requested {
            Ok(&mut self.buffer)
        } else {
            Err(IncorrectTypeError)
        }
    }

    /// The buffer as a source of vertices for a draw call, exactly as glium
    /// describes the erased storage; the element type plays no part.
    pub fn vertices_source(&self) -> (r: VerticesSource<'_>)
        ensures
            r == source_of(self.storage()),
    {
        VerticesSource::from(&self.buffer)
    }
}

/// Downcasting with the tag a buffer recorded when it was erased yields the
/// very storage the buffer owns: the same records, in the same number.
pub proof fn lemma_round_trip(e: TypedVertexBufferAny)
    ensures
        e.lookup(e.recorded_tag()) == Ok::<VertexBufferAny, IncorrectTypeError>(e.storage()),
{
}

/// A downcast that presents any tag other than the recorded one is rejected
/// with `IncorrectTypeError`, and since a rejected downcast leaves the buffer
/// as it was, a downcast with the recorded tag afterwards still yields the
/// unchanged storage.
pub proof fn lemma_mismatch_rejected(
    before: TypedVertexBufferAny,
    after: TypedVertexBufferAny,
    requested: TypeId,
)
    requires
        requested != before.recorded_tag(),
        after == before,
    ensures
        before.lookup(requested) == Err::<VertexBufferAny, IncorrectTypeError>(IncorrectTypeError),
        after.lookup(before.recorded_tag()) == Ok::<VertexBufferAny, IncorrectTypeError>(before.storage()),
{
}

/// What is written through a successful mutable downcast is what the next
/// downcast with the same tag sees: the view is the buffer's own storage,
/// not a copy of it.
pub proof fn lemma_mutation_visible(
    before: TypedVertexBufferAny,
    after: TypedVertexBufferAny,
    written: VertexBufferAny,
)
    requires
        after.recorded_tag() == before.recorded_tag(),
        after.storage() == written,
    ensures
        after.lookup(before.recorded_tag()) == Ok::<VertexBufferAny, IncorrectTypeError>(written),
{
}

impl<T: Copy + Send + 'static> From<VertexBuffer<T>> for TypedVertexBufferAny {
    fn from(buffer: VertexBuffer<T>) -> (r: TypedVertexBufferAny)
        ensures
            elements_size_of(r.storage()) as nat == vstd::layout::size_of::<T>(),
    {
        TypedVertexBufferAny::erase(buffer)
    }
}

impl<T: Copy + Send + 'static> vstd::std_specs::convert::FromSpecImpl<VertexBuffer<T>> for TypedVertexBufferAny {
    open spec fn obeys_from_spec() -> bool {
        false
    }

    open spec fn from_spec(v: VertexBuffer<T>) -> TypedVertexBufferAny {
        arbitrary()
    }
}

impl<'a> From<&'a TypedVertexBufferAny> for VerticesSource<'a> {
    fn from(this: &'a TypedVertexBufferAny) -> (r: VerticesSource<'a>)
        ensures
            r == source_of(this.storage()),
    {
        this.vertices_source()
    }
}

impl<'a> vstd::std_specs::convert::FromSpecImpl<&'a TypedVertexBufferAny> for VerticesSource<'a> {
    open spec fn obeys_from_spec() -> bool {
        false
    }

    open spec fn from_spec(v: &'a TypedVertexBufferAny) -> VerticesSource<'a> {
        arbitrary()
    }
}

} // verus!
