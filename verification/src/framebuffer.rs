//! Framebuffer bookkeeping: the create descriptions the framebuffers are made
//! from — one per swapchain image view, sharing the depth view — and the table
//! of the handles that came back.

use vstd::prelude::*;

verus! {

/// A surface size in physical pixels.
#[derive(Clone, Copy, Debug, PartialEq, Eq)]
pub struct VPhysicalSize {
    pub width: u32,
    pub height: u32,
}

/// One framebuffer create description: the attachments bound, the render
/// pass rendered through, and the output size. Handles are the driver's
/// opaque 64-bit identifiers.
#[derive(Clone, Debug, PartialEq, Eq)]
pub struct VFramebufferCreateInfo {
    pub attachments: Vec<u64>,
    pub render_pass: u64,
    pub width: u32,
    pub height: u32,
    pub layers: u32,
}

impl VFramebufferCreateInfo {
    /// A single-layer description binding one color view and the depth view.
    pub open spec fn is_for(
        self,
        image_view: u64,
        depth_image_view: u64,
        render_pass: u64,
        dimensions: VPhysicalSize,
    ) -> bool {
        &&& self.attachments@ == seq![image_view, depth_image_view]
        &&& self.render_pass == render_pass
        &&& self.width == dimensions.width
        &&& self.height == dimensions.height
        &&& self.layers == 1
    }

    /// The description for one swapchain image view: that view and the depth
    /// view bound, in that order, one layer.
    pub fn new(
        image_view: u64,
        depth_image_view: u64,
        render_pass: u64,
        dimensions: VPhysicalSize,
    ) -> (r: Self)
        ensures
            r.is_for(image_view, depth_image_view, render_pass, dimensions),
    {
        let mut attachments: Vec<u64> = Vec::new();
        attachments.push(image_view);
        attachments.push(depth_image_view);
        proof {
            assert(attachments@ =~= seq![image_view, depth_image_view]);
        }
        VFramebufferCreateInfo {
            attachments,
            render_pass,
            width: dimensions.width,
            height: dimensions.height,
            layers: 1,
        }
    }
}

/// The create descriptions for a whole swapchain: one per image view, each
/// sharing the one depth view, render pass and size.
pub fn framebuffer_create_infos(
    image_views: &Vec<u64>,
    depth_image_view: u64,
    render_pass: u64,
    dimensions: VPhysicalSize,
) -> (r: Vec<VFramebufferCreateInfo>)
    ensures
        r@.len() == image_views@.len(),
        forall|i: int|
            0 <= i < r@.len() ==> r@[i].is_for(
                image_views@[i],
                depth_image_view,
                render_pass,
                dimensions,
            ),
{
    let mut r: Vec<VFramebufferCreateInfo> = Vec::new();
    let mut i: usize = 0;
    while i < image_views.len()
        invariant
            i <= image_views@.len(),
            r@.len() == i,
            forall|j: int|
                0 <= j < r@.len() ==> r@[j].is_for(
                    image_views@[j],
                    depth_image_view,
                    render_pass,
                    dimensions,
                ),
        decreases image_views@.len() - i,
    {
        let info = VFramebufferCreateInfo::new(
            image_views[i],
            depth_image_view,
            render_pass,
            dimensions,
        );
        r.push(info);
        i = i + 1;
    }
    r
}

/// The framebuffers created for a swapchain, in swapchain-image order.
#[derive(Clone, Debug, PartialEq, Eq)]
pub struct VFramebuffers {
    framebuffers: Vec<u64>,
}

impl View for VFramebuffers {
    type V = Seq<u64>;

    closed spec fn view(&self) -> Seq<u64> {
        self.framebuffers@
    }
}

impl VFramebuffers {
    /// Records the framebuffer handles the driver returned, in the order of
    /// the image views they were created for.
    pub fn new(framebuffers: Vec<u64>) -> (r: Self)
        ensures
            r@ == framebuffers@,
    {
        VFramebuffers { framebuffers }
    }

    /// The framebuffer at an index: the handle for indices in range, nothing
    /// for the rest.
    pub fn get(&self, framebuffer_ind: usize) -> (r: Option<u64>)
        ensures
            framebuffer_ind < self@.len() ==> r == Some(self@[framebuffer_ind as int]),
            framebuffer_ind >= self@.len() ==> r is None,
    {
        if framebuffer_ind < self.framebuffers.len() {
            Some(self.framebuffers[framebuffer_ind])
        } else {
            None
        }
    }

    /// How many framebuffers were created.
    pub fn len(&self) -> (r: usize)
        ensures
            r == self@.len(),
    {
        self.framebuffers.len()
    }
}

} // verus!
