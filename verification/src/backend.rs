//! The trusted boundary to the GPU backend and its completion channel.
//!
//! Every item here either declares an outside type so that verified code can
//! carry its values, or wraps exactly the outside calls its doc comment
//! names. Nothing else in the crate touches the backend directly.
//!
//! The backend validates most arguments asynchronously: an invalid shader, an
//! unaligned copy or an out-of-range write surfaces as a fatal device error
//! when the queue is next driven, not as a return value here. The verified
//! callers keep their arguments inside the documented limits (sizes a
//! multiple of four, one mapping in flight per buffer) so that this path is
//! never taken on their account.

use vstd::prelude::*;

use crate::layout::{spec_binding_slots, BindingAccess, BindingSlot, BufferRole, UsageFlags};

verus! {

#[verifier::external_type_specification]
#[verifier::external_body]
pub struct ExDevice(wgpu::Device);

#[verifier::external_type_specification]
#[verifier::external_body]
pub struct ExQueue(wgpu::Queue);

#[verifier::external_type_specification]
#[verifier::external_body]
pub struct ExAdapter(wgpu::Adapter);

#[verifier::external_type_specification]
#[verifier::external_body]
pub struct ExBuffer(wgpu::Buffer);

#[verifier::external_type_specification]
#[verifier::external_body]
pub struct ExBindGroupLayout(wgpu::BindGroupLayout);

#[verifier::external_type_specification]
#[verifier::external_body]
pub struct ExBindGroup(wgpu::BindGroup);

#[verifier::external_type_specification]
#[verifier::external_body]
pub struct ExShaderModule(wgpu::ShaderModule);

#[verifier::external_type_specification]
#[verifier::external_body]
pub struct ExPipelineLayout(wgpu::PipelineLayout);

#[verifier::external_type_specification]
#[verifier::external_body]
pub struct ExComputePipeline(wgpu::ComputePipeline);

#[verifier::external_type_specification]
#[verifier::external_body]
pub struct ExCommandEncoder(wgpu::CommandEncoder);

#[verifier::external_type_specification]
#[verifier::external_body]
pub struct ExCommandBuffer(wgpu::CommandBuffer);

#[verifier::external_type_specification]
#[verifier::external_body]
#[verifier::reject_recursive_types(T)]
pub struct ExReceiver<T>(flume::Receiver<T>);

/// Relies on wgpu::Instance::default and wgpu::Instance::request_adapter:
/// asks the default instance for a high-performance compute adapter and
/// returns it, or None when the machine offers none. Whether an adapter
/// exists depends on the machine alone, so nothing more is promised.
#[verifier::external_body]
pub(crate) fn request_adapter() -> (adapter: Option<wgpu::Adapter>) {
    let instance = wgpu::Instance::default();
    let options = wgpu::RequestAdapterOptions {
        power_preference: wgpu::PowerPreference::HighPerformance,
        compatible_surface: None,
        force_fallback_adapter: false,
    };
    pollster::block_on(instance.request_adapter(&options))
}

/// Relies on wgpu::Adapter::request_device: allocates the logical device and
/// its queue, or fails when the adapter cannot satisfy the request; the error
/// value is dropped and only the failure itself is surfaced.
#[verifier::external_body]
pub(crate) fn request_device(adapter: &wgpu::Adapter) -> (r: Option<(wgpu::Device, wgpu::Queue)>) {
    let features = wgpu::Features::PIPELINE_STATISTICS_QUERY | wgpu::Features::TIMESTAMP_QUERY;
    let limits = wgpu::Limits::downlevel_defaults();
    let desc = wgpu::DeviceDescriptor { label: None, required_features: features, required_limits: limits };
    pollster::block_on(adapter.request_device(&desc, None)).ok()
}

/// Relies on wgpu::Device::create_buffer: allocates a buffer of `size` bytes
/// whose usage bits are exactly the set flags, not mapped at creation.
#[verifier::external_body]
pub(crate) fn create_buffer(device: &wgpu::Device, size: u64, usage: &UsageFlags) -> (buffer:
    wgpu::Buffer) {
    let mut bits = wgpu::BufferUsages::empty();
    if usage.copy_src { bits |= wgpu::BufferUsages::COPY_SRC; }
    if usage.copy_dst { bits |= wgpu::BufferUsages::COPY_DST; }
    if usage.uniform { bits |= wgpu::BufferUsages::UNIFORM; }
    if usage.storage { bits |= wgpu::BufferUsages::STORAGE; }
    if usage.map_read { bits |= wgpu::BufferUsages::MAP_READ; }
    let desc = wgpu::BufferDescriptor { label: None, size, usage: bits, mapped_at_creation: false };
    device.create_buffer(&desc)
}

/// Relies on wgpu::Device::create_bind_group_layout: one layout entry per
/// slot, in slot order, each visible to compute shaders, its binding index
/// and buffer binding type taken from the slot.
#[verifier::external_body]
pub(crate) fn create_bind_group_layout(device: &wgpu::Device, slots: &Vec<BindingSlot>) -> (layout:
    wgpu::BindGroupLayout) {
    let entries: Vec<wgpu::BindGroupLayoutEntry> = slots.iter().map(|s| {
        let ty = match s.access {
            BindingAccess::UniformData => wgpu::BufferBindingType::Uniform,
            BindingAccess::StorageReadOnly => wgpu::BufferBindingType::Storage { read_only: true },
            BindingAccess::StorageReadWrite => wgpu::BufferBindingType::Storage { read_only: false },
        };
        let ty = wgpu::BindingType::Buffer { ty, has_dynamic_offset: false, min_binding_size: None };
        wgpu::BindGroupLayoutEntry { binding: s.binding, visibility: wgpu::ShaderStages::COMPUTE, ty, count: None }
    }).collect();
    let desc = wgpu::BindGroupLayoutDescriptor { entries: &entries, label: None };
    device.create_bind_group_layout(&desc)
}

/// Relies on wgpu::Device::create_bind_group: one bind group entry per slot,
/// in slot order, each binding the entire buffer of the slot's role. The
/// precondition pins the slot list to the presence flags of the two optional
/// buffers, so the role of every slot finds its buffer.
#[verifier::external_body]
pub(crate) fn create_bind_group(
    device: &wgpu::Device,
    bind_layout: &wgpu::BindGroupLayout,
    slots: &Vec<BindingSlot>,
    uniform: &Option<wgpu::Buffer>,
    scratchpad: &Option<wgpu::Buffer>,
    input: &wgpu::Buffer,
    staging: &wgpu::Buffer,
) -> (group: wgpu::BindGroup)
    requires
        slots@ == spec_binding_slots(uniform is Some, scratchpad is Some),
{
    let entries: Vec<wgpu::BindGroupEntry> = slots.iter().map(|s| {
        let buffer = match s.role {
            BufferRole::Uniform => uniform.as_ref().unwrap(),
            BufferRole::Scratchpad => scratchpad.as_ref().unwrap(),
            BufferRole::Input => input,
            _ => staging,
        };
        let resource = wgpu::BindingResource::Buffer(buffer.as_entire_buffer_binding());
        wgpu::BindGroupEntry { binding: s.binding, resource }
    }).collect();
    let desc = wgpu::BindGroupDescriptor { layout: bind_layout, entries: &entries, label: None };
    device.create_bind_group(&desc)
}

/// Relies on wgpu::Device::create_shader_module: compiles shader source text.
/// A rejected shader surfaces as a fatal device error once work is submitted;
/// it is not recoverable here, matching the construction-failure contract.
#[verifier::external_body]
pub(crate) fn create_shader_module(
    device: &wgpu::Device,
    label: Option<&str>,
    source: &str,
) -> (module: wgpu::ShaderModule) {
    let text = wgpu::ShaderSource::Wgsl(std::borrow::Cow::Borrowed(source));
    device.create_shader_module(wgpu::ShaderModuleDescriptor { label, source: text })
}

/// Relies on wgpu::Device::create_pipeline_layout: a pipeline layout over the
/// one shared bind group layout, with no push constants.
#[verifier::external_body]
pub(crate) fn create_pipeline_layout(
    device: &wgpu::Device,
    bind_layout: &wgpu::BindGroupLayout,
) -> (layout: wgpu::PipelineLayout) {
    let desc = wgpu::PipelineLayoutDescriptor {
        label: None,
        bind_group_layouts: &[bind_layout],
        push_constant_ranges: &[],
    };
    device.create_pipeline_layout(&desc)
}

/// Relies on wgpu::Device::create_compute_pipeline: compiles one stage's
/// entry point against the shared pipeline layout.
#[verifier::external_body]
pub(crate) fn create_compute_pipeline(
    device: &wgpu::Device,
    pipeline_layout: &wgpu::PipelineLayout,
    module: &wgpu::ShaderModule,
    entrypoint: &str,
    label: Option<&str>,
) -> (pipeline: wgpu::ComputePipeline) {
    let layout = Some(pipeline_layout);
    let desc = wgpu::ComputePipelineDescriptor { label, layout, module, entry_point: entrypoint };
    device.create_compute_pipeline(&desc)
}

/// Relies on wgpu::Device::create_command_encoder.
#[verifier::external_body]
pub(crate) fn create_command_encoder(device: &wgpu::Device) -> (encoder: wgpu::CommandEncoder) {
    device.create_command_encoder(&wgpu::CommandEncoderDescriptor { label: None })
}

/// Relies on wgpu::CommandEncoder::begin_compute_pass and, on the pass,
/// set_pipeline, set_bind_group and dispatch_workgroups: appends one compute
/// pass that binds the stage's compiled pipeline and the shared bind group at
/// group zero and dispatches the given workgroup counts. The pass borrows the
/// encoder for its whole life, so the four calls stand together here.
#[verifier::external_body]
pub(crate) fn encode_stage(
    encoder: &mut wgpu::CommandEncoder,
    stage: &wgpu::ComputePipeline,
    group: &wgpu::BindGroup,
    x: u32,
    y: u32,
    z: u32,
) {
    let desc = wgpu::ComputePassDescriptor { label: None, timestamp_writes: None };
    let mut pass = encoder.begin_compute_pass(&desc);
    pass.set_pipeline(stage);
    pass.set_bind_group(0, group, &[]);
    pass.dispatch_workgroups(x, y, z);
}

/// Relies on wgpu::CommandEncoder::copy_buffer_to_buffer: appends a copy of
/// `bytes` bytes from the start of `src` to the start of `dst`.
#[verifier::external_body]
pub(crate) fn encode_copy(
    encoder: &mut wgpu::CommandEncoder,
    src: &wgpu::Buffer,
    dst: &wgpu::Buffer,
    bytes: u64,
) {
    encoder.copy_buffer_to_buffer(src, 0, dst, 0, bytes);
}

/// Relies on wgpu::CommandEncoder::finish: closes the encoder into one
/// command buffer.
#[verifier::external_body]
pub(crate) fn finish_encoder(encoder: wgpu::CommandEncoder) -> (commands: wgpu::CommandBuffer) {
    encoder.finish()
}

/// Relies on wgpu::Queue::submit: hands the one command buffer to the queue
/// as a single submission, the unit of ordering on the device.
#[verifier::external_body]
pub(crate) fn submit(queue: &wgpu::Queue, commands: wgpu::CommandBuffer) {
    queue.submit(Some(commands));
}

/// Relies on wgpu::Queue::write_buffer: enqueues a copy of `data` into
/// `buffer` at offset zero, ordered before later submissions on this queue.
/// The verified callers only pass data exactly as long as the buffer.
#[verifier::external_body]
pub(crate) fn queue_write_buffer(queue: &wgpu::Queue, buffer: &wgpu::Buffer, data: &Vec<u8>) {
    queue.write_buffer(buffer, 0, data);
}

/// Relies on flume::bounded and wgpu::BufferSlice::map_async: registers a
/// read-mapping request for the whole buffer and returns the receiving end of
/// a one-shot channel that is sent `true` when the device reports the map
/// complete and `false` when it reports failure. The device may signal at any
/// later time, so nothing is promised of the returned channel's content. The
/// verified callers request at most one mapping per buffer at a time, which
/// map_async demands.
#[verifier::external_body]
pub(crate) fn begin_map_read(buffer: &wgpu::Buffer) -> (signal: flume::Receiver<bool>) {
    let (sender, receiver) = flume::bounded(1);
    let on_done = move |result: Result<(), wgpu::BufferAsyncError>| { let _ = sender.send(result.is_ok()); };
    buffer.slice(..).map_async(wgpu::MapMode::Read, on_done);
    receiver
}

/// Relies on wgpu::Device::poll with a blocking maintain: drives the device
/// until the queue is empty, which delivers every pending map callback.
#[verifier::external_body]
pub(crate) fn poll_wait(device: &wgpu::Device) {
    let _ = device.poll(wgpu::Maintain::Wait);
}

/// Relies on flume::Receiver::recv: blocks for the completion signal; None
/// when the sending side was dropped without a signal.
#[verifier::external_body]
pub(crate) fn recv_signal(signal: &flume::Receiver<bool>) -> (flag: Option<bool>) {
    signal.recv().ok()
}

/// Relies on wgpu::BufferSlice::get_mapped_range: copies the mapped bytes of
/// the whole buffer out to the host. The verified callers only call this
/// after the device confirmed the read mapping, which get_mapped_range
/// demands.
#[verifier::external_body]
pub(crate) fn mapped_bytes(buffer: &wgpu::Buffer) -> (bytes: Vec<u8>) {
    buffer.slice(..).get_mapped_range().to_vec()
}

/// Relies on wgpu::Buffer::unmap: releases the mapping back to the device.
#[verifier::external_body]
pub(crate) fn unmap_buffer(buffer: &wgpu::Buffer) {
    buffer.unmap();
}

} // verus!
