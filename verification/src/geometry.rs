//! Geometry: vertices, instances, and the buffers that hold them on the device.
//!
//! A buffer is created once from data authored at startup and never changed.

use vstd::prelude::*;
use core::marker::PhantomData;
use crate::error::{RenderError, UploadFailure};
use crate::scalar::{Bits, HALF, NEG_HALF, ONE, ZERO};

verus! {

/// One corner of a primitive.
#[derive(Clone, Copy, Debug, PartialEq, Eq)]
pub struct Vertex {
    /// The position, as two coordinates.
    pub position: [Bits; 2],
    /// The texture coordinate.
    pub uv: [Bits; 2],
}

/// One drawable instance: a rigid-body transform, as four rows of four entries.
#[derive(Clone, Copy, Debug, PartialEq, Eq)]
pub struct Instance {
    pub transform: [[Bits; 4]; 4],
}

/// The range of a buffer that a draw reads.
#[derive(Clone, Copy, Debug, PartialEq, Eq, Structural)]
pub struct Slice {
    /// The index of the first element read.
    pub offset: usize,
    /// The number of elements read.
    pub count: usize,
}

/// The part of one buffer that a draw reads.
#[derive(Clone, Copy, Debug, PartialEq, Eq, Structural)]
pub struct BufferRange {
    /// The device's handle for the buffer.
    pub handle: u64,
    /// The range read from it.
    pub slice: Slice,
}

/// What a geometry buffer is: the device's handle for the uploaded copy, the
/// number of elements uploaded, and the range that draws read.
pub struct BufferModel {
    pub handle: u64,
    pub len: nat,
    pub slice: Slice,
}

impl BufferModel {
    /// The slice references no more elements than were uploaded.
    pub open spec fn in_bounds(self) -> bool {
        self.slice.offset + self.slice.count <= self.len
    }

    /// The part of this buffer that draws read.
    pub open spec fn range(self) -> BufferRange {
        BufferRange { handle: self.handle, slice: self.slice }
    }
}

/// A device-resident buffer of elements of type `T`.
///
/// The device owns the uploaded copy; this value only refers to it. It cannot
/// be changed, and its slice never leaves the uploaded elements.
#[derive(Debug)]
pub struct GeometryBuffer<T> {
    handle: u64,
    len: usize,
    slice: Slice,
    element: PhantomData<T>,
}

impl<T> View for GeometryBuffer<T> {
    type V = BufferModel;

    closed spec fn view(&self) -> BufferModel {
        BufferModel { handle: self.handle, len: self.len as nat, slice: self.slice }
    }
}

impl<T> GeometryBuffer<T> {
    #[verifier::type_invariant]
    spec fn slice_in_bounds(self) -> bool {
        self.slice.offset + self.slice.count <= self.len
    }

    /// The device's handle for the uploaded copy.
    pub fn handle(&self) -> (h: u64)
        ensures
            h == self@.handle,
    {
        self.handle
    }

    /// The number of elements uploaded.
    pub fn len(&self) -> (n: usize)
        ensures
            n == self@.len,
    {
        self.len
    }

    /// The range that draws read. It lies within the uploaded elements.
    pub fn slice(&self) -> (s: Slice)
        ensures
            s == self@.slice,
            self@.in_bounds(),
    {
        proof {
            use_type_invariant(self);
        }
        self.slice
    }

    /// The part of this buffer that draws read. It lies within the uploaded
    /// elements.
    pub fn range(&self) -> (r: BufferRange)
        ensures
            r == self@.range(),
            self@.in_bounds(),
    {
        proof {
            use_type_invariant(self);
        }
        BufferRange { handle: self.handle, slice: self.slice }
    }
}

/// Creates a buffer from `data`, given the device's answer to the upload: the
/// handle of the uploaded copy, or why the upload was rejected.
///
/// On success the buffer's slice covers exactly the uploaded elements: it
/// starts at 0 and counts `data.len()`.
pub fn create_buffer<T>(data: &[T], upload: Result<u64, UploadFailure>) -> (r: Result<
    GeometryBuffer<T>,
    RenderError,
>)
    requires
        data@.len() > 0,
    ensures
        match upload {
            Ok(handle) => r is Ok && r->Ok_0@ == (BufferModel {
                handle,
                len: data@.len(),
                slice: Slice { offset: 0, count: data@.len() as usize },
            }) && r->Ok_0@.in_bounds(),
            Err(cause) => r is Err && r->Err_0 == RenderError::BufferCreation(cause),
        },
{
    match upload {
        Ok(handle) => Ok(
            GeometryBuffer {
                handle,
                len: data.len(),
                slice: Slice { offset: 0, count: data.len() },
                element: PhantomData,
            },
        ),
        Err(cause) => Err(RenderError::BufferCreation(cause)),
    }
}

/// The triangle drawn by default: corners at (-0.5, -0.5), (0.5, -0.5) and
/// (0, 0.5), with texture coordinates (0, 0), (1, 0) and (0.5, 1).
pub open spec fn triangle_model() -> Seq<Vertex> {
    seq![
        Vertex { position: [NEG_HALF, NEG_HALF], uv: [ZERO, ZERO] },
        Vertex { position: [HALF, NEG_HALF], uv: [ONE, ZERO] },
        Vertex { position: [ZERO, HALF], uv: [HALF, ONE] },
    ]
}

/// The vertices of [`triangle_model`].
pub fn triangle() -> (v: Vec<Vertex>)
    ensures
        v@ == triangle_model(),
{
    let mut v: Vec<Vertex> = Vec::new();
    v.push(Vertex { position: [NEG_HALF, NEG_HALF], uv: [ZERO, ZERO] });
    v.push(Vertex { position: [HALF, NEG_HALF], uv: [ONE, ZERO] });
    v.push(Vertex { position: [ZERO, HALF], uv: [HALF, ONE] });
    v
}

impl Instance {
    /// The instance that leaves its geometry where it is: the identity
    /// transform, one on the diagonal and zero elsewhere.
    pub fn identity() -> (i: Instance)
        ensures
            i == (Instance {
                transform: [
                    [ONE, ZERO, ZERO, ZERO],
                    [ZERO, ONE, ZERO, ZERO],
                    [ZERO, ZERO, ONE, ZERO],
                    [ZERO, ZERO, ZERO, ONE],
                ],
            }),
    {
        Instance {
            transform: [
                [ONE, ZERO, ZERO, ZERO],
                [ZERO, ONE, ZERO, ZERO],
                [ZERO, ZERO, ONE, ZERO],
                [ZERO, ZERO, ZERO, ONE],
            ],
        }
    }
}

} // verus!
