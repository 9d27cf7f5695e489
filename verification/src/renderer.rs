//! The renderer's per-frame decisions: which renderables were recorded,
//! which pipeline draws each, where its shader data goes, and which
//! swapchain image, command buffer, semaphores and fence a frame uses.
//! The application performs the Vulkan work that these decisions describe.

use vstd::prelude::*;
use crate::swapchain::{Extent2D, Swapchain};
use crate::sync_objects::SyncObjects;

verus! {

/// Frames that may be in flight at once.
pub const FRAMES_IN_FLIGHT: usize = 2;

/// Capacity, in renderables, of each frame's shader-data buffer.
pub const MAX_RENDERABLES_PER_FRAME: usize = 512;

/// The shader programs the renderer has pipelines for.
#[derive(Clone, Copy, Debug, PartialEq, Eq, Structural)]
pub enum ShaderType {
    Color,
    BasicBlockOutlineColor,
}

/// What a renderable hands to its shader.  The per-draw matrices and colours
/// stay with the application; each variant carries the key under which the
/// application keeps them.
#[derive(Clone, Copy, Debug, PartialEq, Eq, Structural)]
pub enum ShaderInput {
    Color(usize),
    BasicBlockOutlineColor(usize),
}

/// The shader program a shader input is written for.
pub open spec fn shader_type_of(input: ShaderInput) -> ShaderType {
    match input {
        ShaderInput::Color(_) => ShaderType::Color,
        ShaderInput::BasicBlockOutlineColor(_) => ShaderType::BasicBlockOutlineColor,
    }
}

/// The key of a shader input's data.
pub open spec fn shader_data_key(input: ShaderInput) -> usize {
    match input {
        ShaderInput::Color(key) => key,
        ShaderInput::BasicBlockOutlineColor(key) => key,
    }
}

impl ShaderInput {
    /// The shader program this input is written for.
    pub fn shader_type(&self) -> (r: ShaderType)
        ensures
            r == shader_type_of(*self),
    {
        match self {
            ShaderInput::Color(_) => ShaderType::Color,
            ShaderInput::BasicBlockOutlineColor(_) => ShaderType::BasicBlockOutlineColor,
        }
    }

    /// The key of this input's data.
    pub fn data_key(&self) -> (r: usize)
        ensures
            r == shader_data_key(*self),
    {
        match self {
            ShaderInput::Color(key) => *key,
            ShaderInput::BasicBlockOutlineColor(key) => *key,
        }
    }

    /// The byte offset at which the data of the renderable drawn at `index`
    /// goes in a shader-data buffer whose entries are `stride` bytes long.
    pub fn buffer_offset(&self, index: usize, stride: usize) -> (r: usize)
        requires
            index * stride <= usize::MAX,
        ensures
            r == index * stride,
    {
        index * stride
    }
}

impl ShaderType {
    /// The compiled SPIR-V module of this shader program.
    pub fn shader_path(&self) -> (r: &'static str)
        ensures
            *self == ShaderType::Color ==> r@ == "shaders\\color.spv"@,
            *self == ShaderType::BasicBlockOutlineColor ==> r@ == "shaders\\BasicBlockOutlineColor.spv"@,
    {
        match self {
            ShaderType::Color => "shaders\\color.spv",
            ShaderType::BasicBlockOutlineColor => "shaders\\BasicBlockOutlineColor.spv",
        }
    }
}

/// A buffer and the memory bound to it, as raw Vulkan handle values.
#[derive(Clone, Copy, Debug, PartialEq, Eq, Structural)]
pub struct AllocatedBuffer {
    pub buffer: u64,
    pub memory: u64,
}

/// A vertex buffer on the device and how many vertices it holds.
#[derive(Clone, Copy, Debug, PartialEq, Eq, Structural)]
pub struct Mesh {
    pub vertex_buffer: AllocatedBuffer,
    pub vertex_count: usize,
}

impl Mesh {
    /// A mesh of `vertex_count` vertices uploaded to `vertex_buffer`.
    pub fn new(vertex_buffer: AllocatedBuffer, vertex_count: usize) -> (r: Mesh)
        ensures
            r.vertex_buffer == vertex_buffer,
            r.vertex_count == vertex_count,
    {
        Mesh { vertex_buffer, vertex_count }
    }
}

/// One draw request: a mesh, its shader data and whether to draw it as
/// wireframe.
#[derive(Clone, Copy, Debug, PartialEq, Eq, Structural)]
pub struct Renderable {
    pub mesh: Mesh,
    pub shader_data: ShaderInput,
    pub wireframe: bool,
}

impl Renderable {
    pub fn new(shader_data: ShaderInput, mesh: Mesh, wireframe: bool) -> (r: Renderable)
        ensures
            r.mesh == mesh,
            r.shader_data == shader_data,
            r.wireframe == wireframe,
    {
        Renderable { mesh, shader_data, wireframe }
    }
}

/// The Vulkan work for one renderable: bind the pipeline of `shader_type`
/// (its wireframe or filled variant), copy the shader data with key
/// `shader_data` to slot `renderable_index` of the frame's shader-data
/// buffer, push that index, and draw `vertex_count` vertices of
/// `vertex_buffer`.
#[derive(Clone, Copy, Debug, PartialEq, Eq, Structural)]
pub struct DrawCommand {
    pub shader_type: ShaderType,
    pub wireframe: bool,
    pub renderable_index: u32,
    pub shader_data: usize,
    pub vertex_buffer: u64,
    pub vertex_count: u32,
}

/// The draw command for the renderable recorded at position `index`.
pub open spec fn draw_command_for(renderable: Renderable, index: int) -> DrawCommand {
    DrawCommand {
        shader_type: shader_type_of(renderable.shader_data),
        wireframe: renderable.wireframe,
        renderable_index: index as u32,
        shader_data: shader_data_key(renderable.shader_data),
        vertex_buffer: renderable.mesh.vertex_buffer.buffer,
        vertex_count: renderable.mesh.vertex_count as u32,
    }
}

/// The draw commands for a queue of renderables, in recording order.
pub open spec fn draws_for(queue: Seq<Renderable>) -> Seq<DrawCommand> {
    Seq::new(queue.len(), |i: int| draw_command_for(queue[i], i))
}

/// The objects a frame waits on before it starts: the frame's fence and the
/// semaphore that image acquisition signals.
#[derive(Clone, Copy, Debug, PartialEq, Eq, Structural)]
pub struct FrameStart {
    pub in_flight_fence: u64,
    pub acquire_semaphore: u64,
}

/// Everything the application needs to record, submit and present a frame.
pub struct FramePlan {
    pub frame_index: usize,
    pub image_index: usize,
    pub swapchain: u64,
    pub image: u64,
    pub image_view: u64,
    pub image_depth: u64,
    pub image_view_depth: u64,
    pub extent: Extent2D,
    pub command_buffer: u64,
    pub descriptor_set: u64,
    pub wait_semaphore: u64,
    pub signal_semaphore: u64,
    pub in_flight_fence: u64,
    pub draws: Vec<DrawCommand>,
}

/// The renderer's state: the swapchain, the synchronisation objects, one
/// command buffer per frame in flight, and the renderables recorded for the
/// next frame.  Handles are raw Vulkan handle values.  There is always one
/// command buffer and one fence per frame in flight, and every swapchain
/// image has its view.
pub struct Renderer {
    swapchain: Swapchain,
    sync_objects: SyncObjects,
    command_buffers: Vec<u64>,
    renderables: Vec<Renderable>,
    command_pool: u64,
    descriptor_set: u64,
}

impl Renderer {
    #[verifier::type_invariant]
    spec fn counts_fixed(self) -> bool {
        &&& self.command_buffers.len() == FRAMES_IN_FLIGHT
        &&& self.sync_objects.in_flight_fences.len() == FRAMES_IN_FLIGHT
        &&& self.swapchain.well_formed()
    }

    /// The current swapchain.
    pub closed spec fn swapchain_state(self) -> Swapchain {
        self.swapchain
    }

    /// The synchronisation objects.
    pub closed spec fn sync_state(self) -> SyncObjects {
        self.sync_objects
    }

    /// The command buffers, one per frame in flight.
    pub closed spec fn command_buffer_handles(self) -> Seq<u64> {
        self.command_buffers@
    }

    /// The renderables recorded for the next frame, in recording order.
    pub closed spec fn recorded(self) -> Seq<Renderable> {
        self.renderables@
    }

    /// The command pool the command buffers come from.
    pub closed spec fn pool(self) -> u64 {
        self.command_pool
    }

    /// The descriptor set that holds the textures.
    pub closed spec fn descriptors(self) -> u64 {
        self.descriptor_set
    }

    /// A renderer with nothing recorded yet, with a command buffer and a fence
    /// for each frame in flight and a present-complete and a render-finished
    /// semaphore for each swapchain image.
    pub fn new(
        swapchain: Swapchain,
        sync_objects: SyncObjects,
        command_buffers: Vec<u64>,
        command_pool: u64,
        descriptor_set: u64,
    ) -> (r: Renderer)
        requires
            swapchain.well_formed(),
            command_buffers.len() == FRAMES_IN_FLIGHT,
            sync_objects.in_flight_fences.len() == FRAMES_IN_FLIGHT,
            sync_objects.present_complete_semaphores.len() == swapchain.images.len(),
            sync_objects.render_finished_semaphores.len() == swapchain.images.len(),
        ensures
            r.swapchain_state() == swapchain,
            r.sync_state() == sync_objects,
            r.command_buffer_handles() == command_buffers@,
            r.recorded() == Seq::<Renderable>::empty(),
            r.pool() == command_pool,
            r.descriptors() == descriptor_set,
    {
        Renderer {
            swapchain,
            sync_objects,
            command_buffers,
            renderables: Vec::new(),
            command_pool,
            descriptor_set,
        }
    }

    /// The current swapchain.
    pub fn swapchain(&self) -> (r: &Swapchain)
        ensures
            *r == self.swapchain_state(),
            r.well_formed(),
    {
        proof {
            use_type_invariant(self);
        }
        &self.swapchain
    }

    /// The renderables recorded for the next frame.
    pub fn renderables(&self) -> (r: &Vec<Renderable>)
        ensures
            r@ == self.recorded(),
    {
        &self.renderables
    }

    /// Takes over the swapchain that was recreated for a new window size.
    pub fn handle_resize(&mut self, swapchain: Swapchain)
        requires
            swapchain.well_formed(),
        ensures
            final(self).swapchain_state() == swapchain,
            final(self).sync_state() == old(self).sync_state(),
            final(self).command_buffer_handles() == old(self).command_buffer_handles(),
            final(self).recorded() == old(self).recorded(),
            final(self).pool() == old(self).pool(),
            final(self).descriptors() == old(self).descriptors(),
    {
        proof {
            use_type_invariant(&*self);
        }
        self.swapchain = swapchain;
    }

    /// Queues a renderable for the next frame.
    pub fn record_renderable(&mut self, renderable: Renderable)
        ensures
            final(self).recorded() == old(self).recorded().push(renderable),
            final(self).swapchain_state() == old(self).swapchain_state(),
            final(self).sync_state() == old(self).sync_state(),
            final(self).command_buffer_handles() == old(self).command_buffer_handles(),
            final(self).pool() == old(self).pool(),
            final(self).descriptors() == old(self).descriptors(),
    {
        proof {
            use_type_invariant(&*self);
        }
        let mut queue: Vec<Renderable> = Vec::new();
        std::mem::swap(&mut queue, &mut self.renderables);
        queue.push(renderable);
        self.renderables = queue;
    }

    /// The fence that frame `frame_index` waits on and the semaphore its image
    /// acquisition signals; `None` when the frame index has no such objects.
    pub fn frame_start(&self, frame_index: usize) -> (r: Option<FrameStart>)
        ensures
            match r {
                Some(start) => {
                    &&& frame_index < FRAMES_IN_FLIGHT
                    &&& frame_index < self.sync_state().present_complete_semaphores.len()
                    &&& start.in_flight_fence == self.sync_state().in_flight_fences@[frame_index as int]
                    &&& start.acquire_semaphore
                        == self.sync_state().present_complete_semaphores@[frame_index as int]
                },
                None => frame_index >= FRAMES_IN_FLIGHT || frame_index
                    >= self.sync_state().present_complete_semaphores.len(),
            },
    {
        proof {
            use_type_invariant(self);
        }
        if frame_index < FRAMES_IN_FLIGHT && frame_index
            < self.sync_objects.present_complete_semaphores.len() {
            Some(
                FrameStart {
                    in_flight_fence: self.sync_objects.in_flight_fences[frame_index],
                    acquire_semaphore: self.sync_objects.present_complete_semaphores[frame_index],
                },
            )
        } else {
            None
        }
    }

    /// Frame `frame_index` can be drawn into swapchain image `image_index`:
    /// the frame is one of those in flight and has its acquire semaphore, the
    /// image exists and has its render-finished semaphore, and the recorded
    /// renderables fit in the shader-data buffer.
    pub open spec fn can_plan_frame(&self, frame_index: usize, image_index: usize) -> bool {
        &&& frame_index < FRAMES_IN_FLIGHT
        &&& frame_index < self.sync_state().present_complete_semaphores.len()
        &&& image_index < self.swapchain_state().images.len()
        &&& image_index < self.sync_state().render_finished_semaphores.len()
        &&& self.recorded().len() <= MAX_RENDERABLES_PER_FRAME
    }

    /// Plans frame `frame_index` into swapchain image `image_index`: the
    /// image, its view and the depth image, the frame's command buffer, the
    /// semaphores to wait on and to signal, the fence, and one draw command
    /// per recorded renderable in recording order.  The recorded renderables
    /// are consumed.  `None`, with nothing changed, when the frame cannot be
    /// planned.
    pub fn plan_frame(&mut self, frame_index: usize, image_index: usize) -> (r: Option<FramePlan>)
        ensures
            match r {
                Some(plan) => {
                    &&& old(self).can_plan_frame(frame_index, image_index)
                    &&& plan.frame_index == frame_index
                    &&& plan.image_index == image_index
                    &&& plan.swapchain == old(self).swapchain_state().handle
                    &&& plan.image == old(self).swapchain_state().images@[image_index as int]
                    &&& plan.image_view == old(self).swapchain_state().image_views@[image_index as int]
                    &&& plan.image_depth == old(self).swapchain_state().image_depth
                    &&& plan.image_view_depth == old(self).swapchain_state().image_view_depth
                    &&& plan.extent == old(self).swapchain_state().surface_resolution
                    &&& plan.command_buffer == old(self).command_buffer_handles()[frame_index as int]
                    &&& plan.descriptor_set == old(self).descriptors()
                    &&& plan.wait_semaphore
                        == old(self).sync_state().present_complete_semaphores@[frame_index as int]
                    &&& plan.signal_semaphore
                        == old(self).sync_state().render_finished_semaphores@[image_index as int]
                    &&& plan.in_flight_fence == old(self).sync_state().in_flight_fences@[frame_index as int]
                    &&& plan.draws@ == draws_for(old(self).recorded())
                    &&& plan.draws@.len() == old(self).recorded().len()
                    &&& forall|i: int|
                        0 <= i < plan.draws@.len() ==> {
                            let d = #[trigger] plan.draws@[i];
                            let q = old(self).recorded()[i];
                            &&& d.renderable_index == i
                            &&& d.wireframe == q.wireframe
                            &&& d.vertex_buffer == q.mesh.vertex_buffer.buffer
                            &&& d.vertex_count == q.mesh.vertex_count as u32
                            &&& q.shader_data matches ShaderInput::Color(k) ==> d.shader_type
                                == ShaderType::Color && d.shader_data == k
                            &&& q.shader_data matches ShaderInput::BasicBlockOutlineColor(k)
                                ==> d.shader_type == ShaderType::BasicBlockOutlineColor
                                && d.shader_data == k
                        }
                    &&& final(self).recorded() == Seq::<Renderable>::empty()
                    &&& final(self).swapchain_state() == old(self).swapchain_state()
                    &&& final(self).sync_state() == old(self).sync_state()
                    &&& final(self).command_buffer_handles() == old(self).command_buffer_handles()
                    &&& final(self).pool() == old(self).pool()
                    &&& final(self).descriptors() == old(self).descriptors()
                },
                None => {
                    &&& !old(self).can_plan_frame(frame_index, image_index)
                    &&& *final(self) == *old(self)
                },
            },
    {
        proof {
            use_type_invariant(&*self);
        }
        if !(frame_index < FRAMES_IN_FLIGHT && frame_index
            < self.sync_objects.present_complete_semaphores.len() && image_index
            < self.swapchain.images.len() && image_index
            < self.sync_objects.render_finished_semaphores.len() && self.renderables.len()
            <= MAX_RENDERABLES_PER_FRAME) {
            return None;
        }
        let mut draws: Vec<DrawCommand> = Vec::new();
        let mut i: usize = 0;
        while i < self.renderables.len()
            invariant
                i <= self.renderables.len(),
                self.renderables.len() <= MAX_RENDERABLES_PER_FRAME,
                draws@ == draws_for(self.renderables@).take(i as int),
            decreases self.renderables.len() - i,
        {
            let renderable = &self.renderables[i];
            let command = DrawCommand {
                shader_type: renderable.shader_data.shader_type(),
                wireframe: renderable.wireframe,
                renderable_index: i as u32,
                shader_data: renderable.shader_data.data_key(),
                vertex_buffer: renderable.mesh.vertex_buffer.buffer,
                vertex_count: renderable.mesh.vertex_count as u32,
            };
            draws.push(command);
            assert(draws_for(self.renderables@).take(i + 1) =~= draws_for(self.renderables@).take(
                i as int,
            ).push(command));
            i += 1;
        }
        assert(draws_for(self.renderables@).take(i as int) =~= draws_for(self.renderables@));
        let plan = FramePlan {
            frame_index,
            image_index,
            swapchain: self.swapchain.handle,
            image: self.swapchain.images[image_index],
            image_view: self.swapchain.image_views[image_index],
            image_depth: self.swapchain.image_depth,
            image_view_depth: self.swapchain.image_view_depth,
            extent: self.swapchain.surface_resolution,
            command_buffer: self.command_buffers[frame_index],
            descriptor_set: self.descriptor_set,
            wait_semaphore: self.sync_objects.present_complete_semaphores[frame_index],
            signal_semaphore: self.sync_objects.render_finished_semaphores[image_index],
            in_flight_fence: self.sync_objects.in_flight_fences[frame_index],
            draws,
        };
        self.renderables = Vec::new();
        Some(plan)
    }
}

/// The frame that follows `frame_index` when `frames_in_flight` frames are in
/// flight.
pub fn next_frame_index(frame_index: usize, frames_in_flight: usize) -> (r: usize)
    requires
        frames_in_flight > 0,
        frame_index < usize::MAX,
    ensures
        r == (frame_index + 1) % (frames_in_flight as int),
{
    (frame_index + 1) % frames_in_flight
}

/// Recording a renderable appends exactly one draw command, for that
/// renderable at the next index, to the commands of the next frame; the
/// commands already planned stay as they were.
pub proof fn lemma_recorded_renderable_is_drawn_last(queue: Seq<Renderable>, renderable: Renderable)
    ensures
        draws_for(queue.push(renderable)) == draws_for(queue).push(
            draw_command_for(renderable, queue.len() as int),
        ),
{
    assert(draws_for(queue.push(renderable)) =~= draws_for(queue).push(
        draw_command_for(renderable, queue.len() as int),
    ));
}

/// Frame indices cycle through `0 .. frames_in_flight`: from a frame in range
/// the next one is in range, and it is the following index, or 0 after the
/// last.
pub proof fn lemma_frame_index_cycles(frame_index: int, frames_in_flight: int)
    requires
        0 <= frame_index < frames_in_flight,
    ensures
        0 <= (frame_index + 1) % frames_in_flight < frames_in_flight,
        (frame_index + 1) % frames_in_flight == if frame_index + 1 == frames_in_flight {
            0
        } else {
            frame_index + 1
        },
{
    if frame_index + 1 == frames_in_flight {
        vstd::arithmetic::div_mod::lemma_fundamental_div_mod_converse(frame_index + 1, frames_in_flight, 1, 0);
    } else {
        vstd::arithmetic::div_mod::lemma_fundamental_div_mod_converse(frame_index + 1, frames_in_flight, 0, frame_index + 1);
    }
}

/// In a frame that can be planned, every renderable gets its own slot of the
/// shader-data buffer: the slot is its position in the queue, which lies
/// inside the buffer, so no two draws share a slot.
pub proof fn lemma_draw_slots_fit_buffer(queue: Seq<Renderable>)
    requires
        queue.len() <= MAX_RENDERABLES_PER_FRAME,
    ensures
        forall|i: int|
            0 <= i < queue.len() ==> (#[trigger] draws_for(queue)[i]).renderable_index == i
                && draws_for(queue)[i].renderable_index < MAX_RENDERABLES_PER_FRAME,
        forall|i: int, j: int|
            0 <= i < j < queue.len() ==> (#[trigger] draws_for(queue)[i]).renderable_index
                != (#[trigger] draws_for(queue)[j]).renderable_index,
{
}

/// The draw at position `i` of a frame is the renderable recorded at
/// position `i`, drawn with that renderable's own data: its pipeline is the
/// one of its shader input's variant, the data copied into its slot is the
/// key its shader input carries (whatever the position), and it draws that
/// renderable's vertex buffer and vertex count, filled or as wireframe as
/// the renderable asks.
pub proof fn lemma_draws_carry_their_renderables(queue: Seq<Renderable>)
    requires
        queue.len() <= MAX_RENDERABLES_PER_FRAME,
    ensures
        draws_for(queue).len() == queue.len(),
        forall|i: int|
            0 <= i < queue.len() ==> {
                let d = #[trigger] draws_for(queue)[i];
                &&& d.renderable_index == i
                &&& d.wireframe == queue[i].wireframe
                &&& d.vertex_buffer == queue[i].mesh.vertex_buffer.buffer
                &&& d.vertex_count == queue[i].mesh.vertex_count as u32
                &&& queue[i].shader_data matches ShaderInput::Color(k) ==> d.shader_type
                    == ShaderType::Color && d.shader_data == k
                &&& queue[i].shader_data matches ShaderInput::BasicBlockOutlineColor(k)
                    ==> d.shader_type == ShaderType::BasicBlockOutlineColor && d.shader_data == k
            },
{
}

} // verus!
