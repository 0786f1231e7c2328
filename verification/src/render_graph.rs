//! A model of the render-graph collaborator as the temporal ledger sees it:
//! resources are imported into one frame's graph at a recorded access type,
//! exported at frame end, and, once the graph has executed, each export
//! surfaces the resource's final access type at retirement.
//!
//! GPU memory, pass scheduling and execution belong to the surrounding
//! application; the graph here is the bookkeeping that the ledger's state
//! machine is verified against.

use vstd::prelude::*;

use core::marker::PhantomData;

verus! {

/// The last-known synchronization state of a resource, recorded so the next
/// import can insert the right barrier.
#[derive(Clone, Copy, Debug, PartialEq, Eq, Structural)]
pub enum AccessType {
    Nothing,
    General,
    ShaderRead,
    ShaderWrite,
    TransferRead,
    TransferWrite,
}

/// Shape of a GPU image.
#[derive(Clone, Copy, Debug, PartialEq, Eq, Structural)]
pub struct ImageDesc {
    pub width: u32,
    pub height: u32,
    pub format: u32,
}

/// Shape of a GPU buffer.
#[derive(Clone, Copy, Debug, PartialEq, Eq, Structural)]
pub struct BufferDesc {
    pub size: u64,
}

/// A GPU-resident image: the identity the allocator assigned, and its shape.
#[derive(Clone, Copy, Debug, PartialEq, Eq, Structural)]
pub struct Image {
    pub id: u64,
    pub desc: ImageDesc,
}

/// A GPU-resident buffer.
#[derive(Clone, Copy, Debug, PartialEq, Eq, Structural)]
pub struct Buffer {
    pub id: u64,
    pub desc: BufferDesc,
}

/// A reference to a resource imported into the current frame's graph.
#[derive(Copy, Debug)]
pub struct Handle<Res> {
    pub raw: usize,
    pub marker: PhantomData<Res>,
}

impl<Res> Clone for Handle<Res> {
    fn clone(&self) -> (r: Self)
        ensures
            r == *self,
    {
        Handle { raw: self.raw, marker: PhantomData }
    }
}

/// A reference to a resource the current frame's graph has exported, waiting
/// for retirement to surface its final access type.
#[derive(Copy, Debug)]
pub struct ExportedHandle<Res> {
    pub raw: usize,
    pub marker: PhantomData<Res>,
}

impl<Res> Clone for ExportedHandle<Res> {
    fn clone(&self) -> (r: Self)
        ensures
            r == *self,
    {
        ExportedHandle { raw: self.raw, marker: PhantomData }
    }
}

/// A handle handed out for reading only.
#[derive(Copy, Debug)]
pub struct ReadOnlyHandle<Res>(pub Handle<Res>);

impl<Res> Clone for ReadOnlyHandle<Res> {
    fn clone(&self) -> (r: Self)
        ensures
            r == *self,
    {
        ReadOnlyHandle(self.0.clone())
    }
}

impl<Res> From<Handle<Res>> for ReadOnlyHandle<Res> {
    fn from(h: Handle<Res>) -> (r: Self)
        ensures
            r.0 == h,
    {
        ReadOnlyHandle(h)
    }
}

impl<Res> vstd::std_specs::convert::FromSpecImpl<Handle<Res>> for ReadOnlyHandle<Res> {
    open spec fn obeys_from_spec() -> bool {
        true
    }

    open spec fn from_spec(h: Handle<Res>) -> Self {
        ReadOnlyHandle(h)
    }
}

/// The device-side allocator: hands out backing resources with fresh
/// identities. What GPU memory stands behind an identity is the surrounding
/// application's business.
pub struct Device {
    pub next_resource_id: u64,
}

impl Device {
    pub fn new() -> (r: Self)
        ensures
            r.next_resource_id == 0,
    {
        Device { next_resource_id: 0 }
    }

    /// A fresh backing image of the given shape.
    pub fn create_image(&mut self, desc: ImageDesc) -> (r: Image)
        requires
            old(self).next_resource_id < u64::MAX,
        ensures
            r == (Image { id: old(self).next_resource_id, desc }),
            final(self).next_resource_id == old(self).next_resource_id + 1,
    {
        let id = self.next_resource_id;
        self.next_resource_id = id + 1;
        Image { id, desc }
    }

    /// A fresh backing buffer of the given shape.
    pub fn create_buffer(&mut self, desc: BufferDesc) -> (r: Buffer)
        requires
            old(self).next_resource_id < u64::MAX,
        ensures
            r == (Buffer { id: old(self).next_resource_id, desc }),
            final(self).next_resource_id == old(self).next_resource_id + 1,
    {
        let id = self.next_resource_id;
        self.next_resource_id = id + 1;
        Buffer { id, desc }
    }
}

/// One frame's graph, as far as resource ownership is concerned: what was
/// imported at which access type, and what was exported.
pub struct RenderGraph {
    pub imported_images: Vec<(Image, AccessType)>,
    pub imported_buffers: Vec<(Buffer, AccessType)>,
    /// Each export names the import it closes, with the access intent
    /// recorded at export time.
    pub exported_images: Vec<(usize, AccessType)>,
    pub exported_buffers: Vec<(usize, AccessType)>,
}

impl RenderGraph {
    /// Every export names a real import.
    pub open spec fn wf(self) -> bool {
        &&& forall|e: int|
            0 <= e < self.exported_images@.len() ==> self.exported_images@[e].0
                < self.imported_images@.len()
        &&& forall|e: int|
            0 <= e < self.exported_buffers@.len() ==> self.exported_buffers@[e].0
                < self.imported_buffers@.len()
    }

    /// An empty graph for a new frame.
    pub fn new() -> (r: Self)
        ensures
            r.wf(),
            r.imported_images@.len() == 0,
            r.imported_buffers@.len() == 0,
            r.exported_images@.len() == 0,
            r.exported_buffers@.len() == 0,
    {
        RenderGraph {
            imported_images: Vec::new(),
            imported_buffers: Vec::new(),
            exported_images: Vec::new(),
            exported_buffers: Vec::new(),
        }
    }

    /// Hands an image into this frame's graph at its last-known access type.
    pub fn import_image(&mut self, resource: Image, access_type: AccessType) -> (h: Handle<Image>)
        requires
            old(self).wf(),
        ensures
            final(self).wf(),
            h.raw == old(self).imported_images@.len(),
            final(self).imported_images@ == old(self).imported_images@.push(
                (resource, access_type),
            ),
            final(self).imported_buffers@ == old(self).imported_buffers@,
            final(self).exported_images@ == old(self).exported_images@,
            final(self).exported_buffers@ == old(self).exported_buffers@,
    {
        let raw = self.imported_images.len();
        self.imported_images.push((resource, access_type));
        Handle { raw, marker: PhantomData }
    }

    /// Hands a buffer into this frame's graph.
    pub fn import_buffer(
        &mut self,
        resource: Buffer,
        access_type: AccessType,
    ) -> (h: Handle<Buffer>)
        requires
            old(self).wf(),
        ensures
            final(self).wf(),
            h.raw == old(self).imported_buffers@.len(),
            final(self).imported_buffers@ == old(self).imported_buffers@.push(
                (resource, access_type),
            ),
            final(self).imported_images@ == old(self).imported_images@,
            final(self).exported_images@ == old(self).exported_images@,
            final(self).exported_buffers@ == old(self).exported_buffers@,
    {
        let raw = self.imported_buffers.len();
        self.imported_buffers.push((resource, access_type));
        Handle { raw, marker: PhantomData }
    }

    /// Reclaims an imported image from the graph, recording the access intent
    /// under which it leaves the frame.
    pub fn export_image(
        &mut self,
        h: Handle<Image>,
        access_type: AccessType,
    ) -> (eh: ExportedHandle<Image>)
        requires
            old(self).wf(),
            h.raw < old(self).imported_images@.len(),
        ensures
            final(self).wf(),
            eh.raw == old(self).exported_images@.len(),
            final(self).exported_images@ == old(self).exported_images@.push(
                (h.raw, access_type),
            ),
            final(self).imported_images@ == old(self).imported_images@,
            final(self).imported_buffers@ == old(self).imported_buffers@,
            final(self).exported_buffers@ == old(self).exported_buffers@,
    {
        let raw = self.exported_images.len();
        self.exported_images.push((h.raw, access_type));
        ExportedHandle { raw, marker: PhantomData }
    }

    /// Reclaims an imported buffer from the graph.
    pub fn export_buffer(
        &mut self,
        h: Handle<Buffer>,
        access_type: AccessType,
    ) -> (eh: ExportedHandle<Buffer>)
        requires
            old(self).wf(),
            h.raw < old(self).imported_buffers@.len(),
        ensures
            final(self).wf(),
            eh.raw == old(self).exported_buffers@.len(),
            final(self).exported_buffers@ == old(self).exported_buffers@.push(
                (h.raw, access_type),
            ),
            final(self).imported_images@ == old(self).imported_images@,
            final(self).imported_buffers@ == old(self).imported_buffers@,
            final(self).exported_images@ == old(self).exported_images@,
    {
        let raw = self.exported_buffers.len();
        self.exported_buffers.push((h.raw, access_type));
        ExportedHandle { raw, marker: PhantomData }
    }

    /// Closes the frame once the graph has executed: the caller reports, per
    /// export and in export order, the final access type execution left each
    /// resource in.
    #[verifier::loop_isolation(false)]
    pub fn into_retired(
        self,
        image_final_access: Vec<AccessType>,
        buffer_final_access: Vec<AccessType>,
    ) -> (r: RetiredRenderGraph)
        requires
            self.wf(),
            image_final_access@.len() == self.exported_images@.len(),
            buffer_final_access@.len() == self.exported_buffers@.len(),
        ensures
            r.exported_images@.len() == self.exported_images@.len(),
            r.exported_buffers@.len() == self.exported_buffers@.len(),
            forall|e: int|
                0 <= e < self.exported_images@.len() ==> r.exported_images@[e] == (
                self.imported_images@[self.exported_images@[e].0 as int].0,
                image_final_access@[e],
            ),
            forall|e: int|
                0 <= e < self.exported_buffers@.len() ==> r.exported_buffers@[e] == (
                self.imported_buffers@[self.exported_buffers@[e].0 as int].0,
                buffer_final_access@[e],
            ),
    {
        let mut exported_images: Vec<(Image, AccessType)> = Vec::new();
        let n = self.exported_images.len();
        let mut e: usize = 0;
        while e < n
            invariant
                e <= n,
                exported_images@.len() == e,
                forall|k: int|
                    0 <= k < e ==> exported_images@[k] == (
                    self.imported_images@[self.exported_images@[k].0 as int].0,
                    image_final_access@[k],
                ),
            decreases n - e,
        {
            let import_index = self.exported_images[e].0;
            let resource = self.imported_images[import_index].0;
            exported_images.push((resource, image_final_access[e]));
            e += 1;
        }
        let mut exported_buffers: Vec<(Buffer, AccessType)> = Vec::new();
        let n = self.exported_buffers.len();
        let mut e: usize = 0;
        while e < n
            invariant
                e <= n,
                exported_buffers@.len() == e,
                forall|k: int|
                    0 <= k < e ==> exported_buffers@[k] == (
                    self.imported_buffers@[self.exported_buffers@[k].0 as int].0,
                    buffer_final_access@[k],
                ),
            decreases n - e,
        {
            let import_index = self.exported_buffers[e].0;
            let resource = self.imported_buffers[import_index].0;
            exported_buffers.push((resource, buffer_final_access[e]));
            e += 1;
        }
        RetiredRenderGraph { exported_images, exported_buffers }
    }
}

/// An executed frame's graph: for each export, the resource and the final
/// access type execution left it in.
pub struct RetiredRenderGraph {
    pub exported_images: Vec<(Image, AccessType)>,
    pub exported_buffers: Vec<(Buffer, AccessType)>,
}

impl RetiredRenderGraph {
    /// The resource behind an exported image handle and its final access.
    pub fn exported_image(&self, h: ExportedHandle<Image>) -> (r: (Image, AccessType))
        requires
            h.raw < self.exported_images@.len(),
        ensures
            r == self.exported_images@[h.raw as int],
    {
        self.exported_images[h.raw]
    }

    /// The resource behind an exported buffer handle and its final access.
    pub fn exported_buffer(&self, h: ExportedHandle<Buffer>) -> (r: (Buffer, AccessType))
        requires
            h.raw < self.exported_buffers@.len(),
        ensures
            r == self.exported_buffers@[h.raw as int],
    {
        self.exported_buffers[h.raw]
    }
}

} // verus!
