//! The decisions the render loop makes: which physical device to use, what each batch's
//! draw call is, how a frame proceeds after acquiring a swapchain image, and how a window
//! event is answered.

use vstd::prelude::*;
use crate::common::mesh::MeshRegistry;
use crate::common::render_batch::RenderBatch;

verus! {

/// The kind of a physical device, as far as choosing one goes.
#[derive(Debug, Clone, Copy, PartialEq, Eq)]
pub enum DeviceKind {
    DiscreteGpu,
    Cpu,
    Other,
}

/// What a queue family of a device offers.
#[derive(Debug, Clone, Copy)]
pub struct QueueFamilySupport {
    /// The family has the graphics flag.
    pub graphics: bool,
    /// The family can present to the window's surface.
    pub surface: bool,
}

/// What choosing a physical device reads of one device.
pub struct DeviceCandidate {
    /// The device supports every required extension.
    pub supports_extensions: bool,
    /// Its queue families, in the device's order.
    pub queue_families: Vec<QueueFamilySupport>,
    pub kind: DeviceKind,
}

/// The preference of a device kind: lower is preferred.
pub open spec fn kind_rank(kind: DeviceKind) -> nat {
    match kind {
        DeviceKind::DiscreteGpu => 0,
        DeviceKind::Cpu => 1,
        DeviceKind::Other => 2,
    }
}

/// A queue family that can draw to the window.
pub open spec fn usable_family(f: QueueFamilySupport) -> bool {
    f.graphics && f.surface
}

/// `q` is the first usable queue family of `fams`.
pub open spec fn is_first_usable(fams: Seq<QueueFamilySupport>, q: int) -> bool {
    &&& 0 <= q < fams.len()
    &&& usable_family(fams[q])
    &&& forall|j: int| 0 <= j < q ==> !usable_family(#[trigger] fams[j])
}

/// A device that supports the extensions and has a usable queue family.
pub open spec fn eligible(c: DeviceCandidate) -> bool {
    c.supports_extensions && exists|q: int| 0 <= q < c.queue_families@.len() && usable_family(#[trigger] c.queue_families@[q])
}

fn first_usable_family(fams: &Vec<QueueFamilySupport>) -> (r: Option<usize>)
    ensures
        match r {
            Some(q) => is_first_usable(fams@, q as int),
            None => forall|j: int| 0 <= j < fams@.len() ==> !usable_family(#[trigger] fams@[j]),
        },
{
    let mut i: usize = 0;
    while i < fams.len()
        invariant
            i <= fams@.len(),
            forall|j: int| 0 <= j < i ==> !usable_family(#[trigger] fams@[j]),
        decreases fams@.len() - i,
    {
        if fams[i].graphics && fams[i].surface {
            return Some(i);
        }
        i = i + 1;
    }
    None
}

fn rank(kind: DeviceKind) -> (r: u8)
    ensures
        r == kind_rank(kind),
{
    match kind {
        DeviceKind::DiscreteGpu => 0,
        DeviceKind::Cpu => 1,
        DeviceKind::Other => 2,
    }
}

/// Chooses the physical device to render with, and its queue family: among the devices
/// that support the required extensions and have a queue family with graphics that can
/// present to the surface, the most preferred kind (a discrete GPU, then a CPU, then any
/// other), the first such device on a tie; with its first such queue family. `None` when no
/// device qualifies.
pub fn choose_physical_device(candidates: &Vec<DeviceCandidate>) -> (r: Option<(usize, u32)>)
    ensures
        r is None <==> forall|i: int| 0 <= i < candidates@.len() ==> !eligible(#[trigger] candidates@[i]),
        r matches Some((d, q)) ==> {
            &&& d < candidates@.len()
            &&& eligible(candidates@[d as int])
            &&& exists|f: int| is_first_usable(candidates@[d as int].queue_families@, f) && q == f as u32
            &&& forall|i: int| 0 <= i < candidates@.len() && eligible(#[trigger] candidates@[i]) ==>
                kind_rank(candidates@[d as int].kind) <= kind_rank(candidates@[i].kind)
            &&& forall|i: int| 0 <= i < d && eligible(#[trigger] candidates@[i]) ==>
                kind_rank(candidates@[d as int].kind) < kind_rank(candidates@[i].kind)
        },
{
    let mut best: Option<(usize, u32)> = None;
    let mut best_rank: u8 = 0;
    let mut i: usize = 0;
    while i < candidates.len()
        invariant
            i <= candidates@.len(),
            best is None <==> forall|j: int| 0 <= j < i ==> !eligible(#[trigger] candidates@[j]),
            best matches Some((d, q)) ==> {
                &&& d < i
                &&& eligible(candidates@[d as int])
                &&& best_rank == kind_rank(candidates@[d as int].kind)
                &&& exists|f: int| is_first_usable(candidates@[d as int].queue_families@, f) && q == f as u32
                &&& forall|j: int| 0 <= j < i && eligible(#[trigger] candidates@[j]) ==>
                    kind_rank(candidates@[d as int].kind) <= kind_rank(candidates@[j].kind)
                &&& forall|j: int| 0 <= j < d && eligible(#[trigger] candidates@[j]) ==>
                    kind_rank(candidates@[d as int].kind) < kind_rank(candidates@[j].kind)
            },
        decreases candidates@.len() - i,
    {
        let c = &candidates[i];
        if c.supports_extensions {
            match first_usable_family(&c.queue_families) {
                Some(f) => {
                    let r = rank(c.kind);
                    let better = match best {
                        None => true,
                        Some(_) => r < best_rank,
                    };
                    if better {
                        best = Some((i, f as u32));
                        best_rank = r;
                    }
                },
                None => {
                    assert(!eligible(candidates@[i as int]));
                },
            }
        }
        i = i + 1;
    }
    best
}

/// The arguments of one indexed, instanced draw call.
#[derive(Debug, Clone, Copy)]
pub struct DrawIndexed {
    pub index_count: u32,
    pub instance_count: u32,
    pub first_index: u32,
    pub vertex_offset: i32,
    pub first_instance: u32,
}

/// The draw call that draws batch `b` of mesh `h`.
pub open spec fn draw_for(h: crate::common::mesh::MeshHandle, b: RenderBatch) -> DrawIndexed {
    DrawIndexed {
        index_count: h.index_count as u32,
        instance_count: b.instance_count,
        first_index: h.index_loc as u32,
        vertex_offset: h.vertex_loc as i32,
        first_instance: 0,
    }
}

/// The draw call of each batch, in order: the batch's mesh's index range and vertex
/// offset in the shared buffers, and the batch's instance count. `None` when a batch names
/// a mesh that is not registered.
pub fn draw_calls(mesh_registry: &MeshRegistry, batches: &Vec<RenderBatch>) -> (r: Option<Vec<DrawIndexed>>)
    ensures
        r is None <==> exists|i: int| 0 <= i < batches@.len()
            && !mesh_registry.handles().dom().contains(#[trigger] batches@[i].mesh_id@),
        r matches Some(d) ==> {
            &&& d@.len() == batches@.len()
            &&& forall|i: int| 0 <= i < d@.len() ==>
                #[trigger] d@[i] == draw_for(mesh_registry.handles()[batches@[i].mesh_id@], batches@[i])
        },
{
    let mut out: Vec<DrawIndexed> = Vec::new();
    let mut i: usize = 0;
    while i < batches.len()
        invariant
            i <= batches@.len(),
            out@.len() == i,
            forall|j: int| 0 <= j < i ==> #[trigger] mesh_registry.handles().dom().contains(batches@[j].mesh_id@),
            forall|j: int| 0 <= j < i ==>
                #[trigger] out@[j] == draw_for(mesh_registry.handles()[batches@[j].mesh_id@], batches@[j]),
        decreases batches@.len() - i,
    {
        let b = &batches[i];
        match mesh_registry.get(&b.mesh_id) {
            Some(h) => {
                out.push(DrawIndexed {
                    index_count: h.index_count as u32,
                    instance_count: b.instance_count,
                    first_index: h.index_loc as u32,
                    vertex_offset: h.vertex_loc as i32,
                    first_instance: 0,
                });
            },
            None => {
                return None;
            },
        }
        i = i + 1;
    }
    Some(out)
}

/// What acquiring the next swapchain image gave.
#[derive(Debug, Clone, Copy, PartialEq, Eq)]
pub enum AcquireOutcome {
    /// An image was acquired; the swapchain may be suboptimal.
    Acquired { suboptimal: bool },
    /// The swapchain is out of date.
    OutOfDate,
    /// Any other failure.
    Failed,
}

/// How a frame proceeds after acquiring an image.
#[derive(Debug, Clone, Copy, PartialEq, Eq)]
pub enum FrameStep {
    /// Recreate the swapchain, as resized when `resized`, and skip this frame.
    RecreateAndSkip { resized: bool },
    /// Draw with the acquired image.
    Draw,
    /// Give up: acquiring failed for another reason.
    Abort,
}

/// The step a frame takes after acquiring a swapchain image: an out-of-date swapchain is
/// recreated as resized and the frame skipped; a suboptimal one is recreated (not as
/// resized) and the frame skipped too; an optimal image is drawn to; any other failure
/// aborts.
pub fn frame_step(outcome: AcquireOutcome) -> (s: FrameStep)
    ensures
        s == match outcome {
            AcquireOutcome::OutOfDate => FrameStep::RecreateAndSkip { resized: true },
            AcquireOutcome::Failed => FrameStep::Abort,
            AcquireOutcome::Acquired { suboptimal } => if suboptimal {
                FrameStep::RecreateAndSkip { resized: false }
            } else {
                FrameStep::Draw
            },
        },
{
    match outcome {
        AcquireOutcome::OutOfDate => FrameStep::RecreateAndSkip { resized: true },
        AcquireOutcome::Failed => FrameStep::Abort,
        AcquireOutcome::Acquired { suboptimal } => if suboptimal {
            FrameStep::RecreateAndSkip { resized: false }
        } else {
            FrameStep::Draw
        },
    }
}

/// The window events the application reacts to.
#[derive(Debug, Clone, Copy, PartialEq, Eq)]
pub enum WindowEventKind {
    CloseRequested,
    Resized,
    RedrawRequested,
    Other,
}

/// How the application answers a window event.
#[derive(Debug, Clone, Copy, PartialEq, Eq)]
pub enum EventResponse {
    /// Leave the event loop.
    Exit,
    /// Recreate the swapchain for the new size.
    RecreateSwapchain,
    /// Draw a frame and ask for the next redraw.
    Redraw,
    /// Do nothing.
    Ignore,
}

/// The answer to a window event: exit on close; recreate the swapchain on resize, if the
/// rendering context exists yet; draw on a redraw request; ignore everything else.
pub fn event_response(event: WindowEventKind, has_context: bool) -> (r: EventResponse)
    ensures
        r == match event {
            WindowEventKind::CloseRequested => EventResponse::Exit,
            WindowEventKind::Resized => if has_context {
                EventResponse::RecreateSwapchain
            } else {
                EventResponse::Ignore
            },
            WindowEventKind::RedrawRequested => EventResponse::Redraw,
            WindowEventKind::Other => EventResponse::Ignore,
        },
{
    match event {
        WindowEventKind::CloseRequested => EventResponse::Exit,
        WindowEventKind::Resized => if has_context {
            EventResponse::RecreateSwapchain
        } else {
            EventResponse::Ignore
        },
        WindowEventKind::RedrawRequested => EventResponse::Redraw,
        WindowEventKind::Other => EventResponse::Ignore,
    }
}

} // verus!
