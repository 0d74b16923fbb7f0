//! A typed array that can be shared with the engine.
use vstd::prelude::*;
use vstd::layout::size_of;
use crate::geometry::{
    shareable, slack_elements, BindError, BufferType, GeometryHandle, SharedBuffer,
};
use crate::type_format::TypeFormat;

verus! {

/// A resizable array of elements of one fixed layout.
pub struct Buffer<T: TypeFormat> {
    pub data: Vec<T>,
}

impl<T: TypeFormat> Buffer<T> {
    /// Takes ownership of the elements.
    pub fn new(v: Vec<T>) -> (b: Buffer<T>)
        ensures
            b.data@ == v@,
    {
        Buffer { data: v }
    }

    /// Prepares the array for being read by the engine under `buf_type` in
    /// `slot` and describes it: from its first byte, element after element,
    /// under the format tag of `T`.
    pub fn bind_to_geometry(
        &mut self,
        handle: &GeometryHandle,
        buf_type: BufferType,
        slot: u32,
    ) -> (r: Result<SharedBuffer, BindError>)
        requires
            shareable::<T>(T::FORMAT, 0),
        ensures
            final(self).data@ == old(self).data@,
            r matches Ok(b) ==> b.describes(
                buf_type,
                slot,
                T::FORMAT,
                0,
                size_of::<T>(),
                old(self).data@.len(),
            ),
            r matches Err(e) ==> e == BindError::SlackUnavailable,
            slack_elements(size_of::<T>(), buf_type) == 0 ==> r is Ok,
    {
        handle.bind_shared_geometry_buffer(&mut self.data, buf_type, T::FORMAT, slot, 0)
    }
}

} // verus!
