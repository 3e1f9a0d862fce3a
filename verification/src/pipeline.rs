//! The device context and the multi-stage compute pipeline: construction,
//! uniform writes, and the run protocol from input upload to mapped readback.

use vstd::prelude::*;

use crate::backend;
use crate::layout::{
    binding_slots, spec_binding_slots, usage_for_role, BindingSlot, BufferRole, TransferSchema,
};
use crate::protocol::{plan_run_commands, spec_run_commands, RunCommand, RunState};

verus! {

/// One compute stage: an optional label, the shader source text, and the
/// entry point to compile. Every stage of a pipeline binds the same layout,
/// so the shader text must follow the slot order the layout builder fixes.
#[derive(Clone, Copy, Debug)]
pub struct StageDesc {
    pub name: Option<&'static str>,
    pub shader: &'static str,
    pub entrypoint: &'static str,
}

/// The failures the library surfaces instead of panicking.
#[derive(Clone, Copy, Debug, PartialEq, Eq, Structural)]
pub enum GpuError {
    /// No compatible high-performance compute adapter exists; unrecoverable
    /// startup condition.
    NoAdapter,
    /// The adapter refused the device request; unrecoverable startup
    /// condition.
    DeviceRequestFailed,
    /// The device could not complete the read mapping of a result (device
    /// lost, allocation failure during readback); surfaced per run, never
    /// retried here.
    MapFailure,
}

/// The process-wide device context: one logical device and its command
/// queue, through which every buffer and pipeline is created and all work is
/// submitted. Created once; never mutated afterwards.
pub struct GpuCompute {
    device: wgpu::Device,
    queue: wgpu::Queue,
}

impl GpuCompute {
    /// Acquire the high-performance compute adapter and its device and
    /// queue. Whether an adapter exists is the machine's to decide, so no
    /// success is promised; each failure names its startup condition.
    pub fn new() -> (r: Result<GpuCompute, GpuError>)
        ensures
            r matches Err(e) ==> e == GpuError::NoAdapter || e == GpuError::DeviceRequestFailed,
    {
        match backend::request_adapter() {
            None => Err(GpuError::NoAdapter),
            Some(adapter) => match backend::request_device(&adapter) {
                None => Err(GpuError::DeviceRequestFailed),
                Some((device, queue)) => Ok(GpuCompute { device, queue }),
            },
        }
    }
}

/// A multi-stage compute pipeline: the five logical buffers, the one binding
/// layout shared by every stage, the compiled stages, and the pipeline's
/// position in the run protocol. It borrows the context it was created from
/// and cannot outlive it.
///
/// Every mutating operation takes the pipeline exclusively, so all mutating
/// calls on one pipeline are serialized, and the protocol state admits at
/// most one run in flight at a time; distinct pipelines, even on one
/// context, are independent.
pub struct Pipeline<'a> {
    ctx: &'a GpuCompute,
    uniform: Option<wgpu::Buffer>,
    input: wgpu::Buffer,
    scratchpad: Option<wgpu::Buffer>,
    staging: wgpu::Buffer,
    output: wgpu::Buffer,
    slots: Vec<BindingSlot>,
    bindgroup: wgpu::BindGroup,
    stages: Vec<wgpu::ComputePipeline>,
    schema: TransferSchema,
    scratchpad_bytes: Option<usize>,
    state: RunState,
}

impl<'a> Pipeline<'a> {
    /// The byte sizes of the uniform, input and output transfers, fixed at
    /// construction.
    pub closed spec fn schema(self) -> TransferSchema {
        self.schema
    }

    /// The scratchpad byte size the caller requested, or None when the
    /// pipeline has no scratchpad.
    pub closed spec fn scratchpad_bytes(self) -> Option<usize> {
        self.scratchpad_bytes
    }

    /// How many stages the pipeline dispatches per run.
    pub closed spec fn n_stages(self) -> nat {
        self.stages@.len()
    }

    /// Where the pipeline stands in the run protocol.
    pub closed spec fn state(self) -> RunState {
        self.state
    }

    /// The binding layout built once at construction.
    pub closed spec fn layout_slots(self) -> Seq<BindingSlot> {
        self.slots@
    }

    /// A uniform buffer exists exactly when the uniform size is non-zero.
    pub open spec fn has_uniform(self) -> bool {
        self.schema().uniform_bytes > 0
    }

    /// A scratchpad buffer exists exactly when a size was requested.
    pub open spec fn has_scratchpad(self) -> bool {
        self.scratchpad_bytes() is Some
    }

    /// No run is in flight.
    pub open spec fn is_idle(self) -> bool {
        self.state() is Idle
    }

    /// A run is submitted and waiting for its completion signal.
    pub open spec fn in_flight(self) -> bool {
        self.state() is MapRequested
    }

    /// The pipeline as it is, at another protocol state.
    pub closed spec fn with_state(self, s: RunState) -> Pipeline<'a> {
        Pipeline { state: s, ..self }
    }

    /// Well-formedness: each optional buffer is present exactly when its
    /// size says so, the binding layout is the one the presence flags
    /// determine, and every size respects the transfer alignment of the
    /// device (a positive multiple of four bytes where present).
    pub closed spec fn wf(self) -> bool {
        &&& (self.uniform is Some <==> self.schema.uniform_bytes > 0)
        &&& (self.scratchpad is Some <==> self.scratchpad_bytes is Some)
        &&& self.slots@ == spec_binding_slots(
            self.schema.uniform_bytes > 0,
            self.scratchpad_bytes is Some,
        )
        &&& self.schema.wf()
        &&& (self.scratchpad_bytes matches Some(n) ==> n > 0 && n % 4 == 0)
    }
}

impl GpuCompute {
    /// Build a pipeline: allocate the five buffers from the schema and the
    /// requested scratchpad size, build the one binding layout from the
    /// presence of the optional buffers, and compile every stage against it.
    /// A shader the backend rejects surfaces as a fatal device error, as at
    /// every construction failure; it is not a per-run condition.
    pub fn gen_pipeline<'a>(
        &'a self,
        scratchpad_size: Option<usize>,
        schema: TransferSchema,
        stages: Vec<StageDesc>,
    ) -> (p: Pipeline<'a>)
        requires
            schema.wf(),
            scratchpad_size matches Some(n) ==> n > 0 && n % 4 == 0,
        ensures
            p.wf(),
            p.schema() == schema,
            p.scratchpad_bytes() == scratchpad_size,
            p.has_scratchpad() == (scratchpad_size is Some),
            p.has_uniform() == (schema.uniform_bytes > 0),
            p.n_stages() == stages@.len(),
            p.is_idle(),
            p.layout_slots() == spec_binding_slots(
                schema.uniform_bytes > 0,
                scratchpad_size is Some,
            ),
    {
        let uniform_present = schema.uniform_bytes > 0;
        let uniform = if uniform_present {
            Some(
                backend::create_buffer(
                    &self.device,
                    schema.uniform_bytes as u64,
                    &usage_for_role(BufferRole::Uniform),
                ),
            )
        } else {
            None
        };
        let scratchpad = match scratchpad_size {
            Some(n) => Some(
                backend::create_buffer(&self.device, n as u64, &usage_for_role(BufferRole::Scratchpad)),
            ),
            None => None,
        };
        let input = backend::create_buffer(
            &self.device,
            schema.input_bytes as u64,
            &usage_for_role(BufferRole::Input),
        );
        let staging = backend::create_buffer(
            &self.device,
            schema.output_bytes as u64,
            &usage_for_role(BufferRole::Staging),
        );
        let output = backend::create_buffer(
            &self.device,
            schema.output_bytes as u64,
            &usage_for_role(BufferRole::Output),
        );
        let slots = binding_slots(uniform_present, scratchpad.is_some());
        let bind_layout = backend::create_bind_group_layout(&self.device, &slots);
        let bindgroup = backend::create_bind_group(
            &self.device,
            &bind_layout,
            &slots,
            &uniform,
            &scratchpad,
            &input,
            &staging,
        );
        let pipeline_layout = backend::create_pipeline_layout(&self.device, &bind_layout);
        let mut compiled: Vec<wgpu::ComputePipeline> = Vec::new();
        let mut i: usize = 0;
        while i < stages.len()
            invariant
                0 <= i <= stages@.len(),
                compiled@.len() == i,
            decreases stages@.len() - i,
        {
            let desc = stages[i];
            let module = backend::create_shader_module(&self.device, desc.name, desc.shader);
            let stage = backend::create_compute_pipeline(
                &self.device,
                &pipeline_layout,
                &module,
                desc.entrypoint,
                desc.name,
            );
            compiled.push(stage);
            i = i + 1;
        }
        Pipeline {
            ctx: self,
            uniform,
            input,
            scratchpad,
            staging,
            output,
            slots,
            bindgroup,
            stages: compiled,
            schema,
            scratchpad_bytes: scratchpad_size,
            state: RunState::Idle,
        }
    }
}

/// The binding layout of every well-formed pipeline is exactly the layout
/// its presence flags determine, whatever the pipeline has been through:
/// construction fixes it and no operation changes it.
pub proof fn lemma_layout_of_wf_pipeline(p: Pipeline)
    requires
        p.wf(),
    ensures
        p.layout_slots() == spec_binding_slots(
            p.schema().uniform_bytes > 0,
            p.scratchpad_bytes() is Some,
        ),
{
}

/// Accept or refuse one readback: the mapped bytes are the result exactly
/// when they have the promised length; anything else is a readback failure.
pub fn accept_readback(bytes: Vec<u8>, expected: usize) -> (r: Result<Vec<u8>, GpuError>)
    ensures
        bytes@.len() == expected ==> r == Ok::<Vec<u8>, GpuError>(bytes),
        bytes@.len() != expected ==> r == Err::<Vec<u8>, GpuError>(GpuError::MapFailure),
{
    if bytes.len() == expected {
        Ok(bytes)
    } else {
        Err(GpuError::MapFailure)
    }
}

/// Finish one read mapping of `buffer`: when the completion signal reports
/// success, take the mapped bytes, release the mapping, and accept the bytes
/// against the promised length; any other signal is a readback failure and
/// the buffer is left to the device.
fn finish_map_read(buffer: &wgpu::Buffer, expected: usize, signal: Option<bool>) -> (r: Result<
    Vec<u8>,
    GpuError,
>)
    ensures
        r matches Ok(b) ==> signal == Some(true) && b@.len() == expected,
        r matches Err(e) ==> e == GpuError::MapFailure,
        signal != Some(true) ==> r is Err,
{
    match signal {
        Some(true) => {
            let bytes = backend::mapped_bytes(buffer);
            backend::unmap_buffer(buffer);
            accept_readback(bytes, expected)
        },
        _ => Err(GpuError::MapFailure),
    }
}

impl<'a> Pipeline<'a> {
    /// Enqueue a byte-copy of a new uniform value. Asking this of a pipeline
    /// without a uniform buffer, with bytes of another length than the
    /// schema's, or while a run is in flight, is a programmer error that the
    /// precondition rejects; an unverified caller must test first. The
    /// pipeline itself is left exactly as it was; runs submitted after this
    /// call observe the new value.
    pub fn write_uniform(&mut self, data: &Vec<u8>)
        requires
            old(self).wf(),
            old(self).has_uniform(),
            old(self).is_idle(),
            data@.len() == old(self).schema().uniform_bytes,
        ensures
            *final(self) == *old(self),
    {
        if let Some(buffer) = &self.uniform {
            backend::queue_write_buffer(&self.ctx.queue, buffer, data);
        }
    }

    /// Submit one run: write the input bytes, record every stage's dispatch
    /// in declared order and then the staging-to-output copy, submit the one
    /// command buffer, and request the read mapping of the output buffer.
    /// Returns the channel that will carry the device's completion signal;
    /// the pipeline is in flight until `complete_readback` answers it.
    pub fn submit_run(&mut self, input: &Vec<u8>, workgroups: &Vec<(u32, u32, u32)>) -> (signal:
        flume::Receiver<bool>)
        requires
            old(self).wf(),
            old(self).is_idle(),
            input@.len() == old(self).schema().input_bytes,
            workgroups@.len() == old(self).n_stages(),
        ensures
            final(self).wf(),
            *final(self) == old(self).with_state(RunState::MapRequested),
            final(self).in_flight(),
    {
        // Idle -> InputWritten: queue-ordered write of the input bytes.
        backend::queue_write_buffer(&self.ctx.queue, &self.input, input);
        self.state = RunState::InputWritten;

        // InputWritten -> StagesDispatched: record the plan's dispatches,
        // front to back; the plan holds stage i's dispatch at position i.
        let plan = plan_run_commands(workgroups, self.schema.output_bytes);
        let ghost plan_spec = spec_run_commands(workgroups@, self.schema.output_bytes);
        let mut encoder = backend::create_command_encoder(&self.ctx.device);
        let n_dispatch = workgroups.len();
        let mut i: usize = 0;
        while i < n_dispatch
            invariant
                0 <= i <= n_dispatch,
                n_dispatch == self.stages@.len(),
                plan@ == plan_spec,
                plan_spec == spec_run_commands(workgroups@, self.schema.output_bytes),
                n_dispatch < plan@.len(),
            decreases n_dispatch - i,
        {
            proof {
                assert(plan_spec[i as int] == (RunCommand::Dispatch {
                    stage: i,
                    x: workgroups@[i as int].0,
                    y: workgroups@[i as int].1,
                    z: workgroups@[i as int].2,
                }));
            }
            if let RunCommand::Dispatch { stage, x, y, z } = plan[i] {
                backend::encode_stage(&mut encoder, &self.stages[stage], &self.bindgroup, x, y, z);
            }
            i = i + 1;
        }
        self.state = RunState::StagesDispatched;

        // StagesDispatched -> CopyQueued: the plan ends with the one copy of
        // the full output byte length from staging into output.
        proof {
            assert(plan@.last() == (RunCommand::CopyToOutput { bytes: self.schema.output_bytes }));
        }
        if let RunCommand::CopyToOutput { bytes } = plan[n_dispatch] {
            backend::encode_copy(&mut encoder, &self.staging, &self.output, bytes as u64);
        }
        self.state = RunState::CopyQueued;

        // CopyQueued -> Submitted: one command buffer, one submission.
        let commands = backend::finish_encoder(encoder);
        backend::submit(&self.ctx.queue, commands);
        self.state = RunState::Submitted;

        // Submitted -> MapRequested: ask for the read mapping of the output
        // buffer and hand back the completion channel.
        let signal = backend::begin_map_read(&self.output);
        self.state = RunState::MapRequested;
        signal
    }

    /// Answer the completion signal of the run in flight: on success read
    /// the mapped output bytes and release the mapping; on any other signal
    /// report the readback failure. Either way the pipeline returns to idle,
    /// configured exactly as before the run was submitted.
    pub fn complete_readback(&mut self, signal: Option<bool>) -> (r: Result<Vec<u8>, GpuError>)
        requires
            old(self).wf(),
            old(self).in_flight(),
        ensures
            final(self).wf(),
            *final(self) == old(self).with_state(RunState::Idle),
            final(self).is_idle(),
            r matches Ok(b) ==> signal == Some(true) && b@.len() == old(self).schema().output_bytes,
            r matches Err(e) ==> e == GpuError::MapFailure,
            signal != Some(true) ==> r is Err,
    {
        let r = finish_map_read(&self.output, self.schema.output_bytes, signal);
        self.state = RunState::Idle;
        r
    }

    /// Run the pipeline once, blocking: submit the run, drive the device to
    /// completion, and answer the completion signal. On success the result
    /// holds exactly the output buffer's bytes; on a readback failure the
    /// per-run error. The pipeline comes back exactly as it went in, so a
    /// second run with the same input finds the same configuration.
    pub fn run(&mut self, input: &Vec<u8>, workgroups: &Vec<(u32, u32, u32)>) -> (r: Result<
        Vec<u8>,
        GpuError,
    >)
        requires
            old(self).wf(),
            old(self).is_idle(),
            input@.len() == old(self).schema().input_bytes,
            workgroups@.len() == old(self).n_stages(),
        ensures
            final(self).wf(),
            *final(self) == *old(self),
            r matches Ok(b) ==> b@.len() == old(self).schema().output_bytes,
            r matches Err(e) ==> e == GpuError::MapFailure,
    {
        let signal = self.submit_run(input, workgroups);
        self.poll_device();
        let flag = backend::recv_signal(&signal);
        self.complete_readback(flag)
    }

    /// The transfer schema this pipeline was built with.
    pub fn transfer_schema(&self) -> (schema: TransferSchema)
        ensures
            schema == self.schema(),
    {
        self.schema
    }

    /// The scratchpad byte size, or None when the pipeline has none.
    pub fn scratchpad_size(&self) -> (size: Option<usize>)
        ensures
            size == self.scratchpad_bytes(),
    {
        self.scratchpad_bytes
    }

    /// How many stages one run dispatches.
    pub fn stage_count(&self) -> (n: usize)
        ensures
            n == self.n_stages(),
    {
        self.stages.len()
    }

    /// Whether the pipeline is idle, ready for a run or a uniform write.
    pub fn idle(&self) -> (b: bool)
        ensures
            b == self.is_idle(),
    {
        match self.state {
            RunState::Idle => true,
            _ => false,
        }
    }

    /// Drive the device until its pending work completes; the completion
    /// signal of a submitted run is delivered during this call. The blocking
    /// run calls it between submission and receiving the signal, and a
    /// cooperative caller does the same before awaiting the channel.
    pub fn poll_device(&self) {
        backend::poll_wait(&self.ctx.device);
    }

    /// The binding layout this pipeline was built with: one slot per
    /// present role, in the fixed order, densely numbered from zero (see
    /// `lemma_layout_of_wf_pipeline`).
    pub fn binding_layout(&self) -> (slots: &Vec<BindingSlot>)
        ensures
            slots@ == self.layout_slots(),
    {
        &self.slots
    }

    /// Download the scratchpad's bytes for diagnostic display: copy the
    /// scratchpad into a fresh host-readable buffer through its own
    /// submission, then run the same map-and-signal handshake a run's
    /// readback uses. A pipeline without a scratchpad, or with a run in
    /// flight, is rejected by the precondition.
    pub fn read_scratchpad(&mut self) -> (r: Result<Vec<u8>, GpuError>)
        requires
            old(self).wf(),
            old(self).has_scratchpad(),
            old(self).is_idle(),
        ensures
            *final(self) == *old(self),
            r matches Ok(b) ==> b@.len() == old(self).scratchpad_bytes()->Some_0,
            r matches Err(e) ==> e == GpuError::MapFailure,
    {
        if let Some(n) = self.scratchpad_bytes {
            let readback = backend::create_buffer(
                &self.ctx.device,
                n as u64,
                &usage_for_role(BufferRole::Output),
            );
            let mut encoder = backend::create_command_encoder(&self.ctx.device);
            if let Some(scratchpad) = &self.scratchpad {
                backend::encode_copy(&mut encoder, scratchpad, &readback, n as u64);
            }
            let commands = backend::finish_encoder(encoder);
            backend::submit(&self.ctx.queue, commands);
            let signal = backend::begin_map_read(&readback);
            self.poll_device();
            let flag = backend::recv_signal(&signal);
            finish_map_read(&readback, n, flag)
        } else {
            Err(GpuError::MapFailure)
        }
    }
}

} // verus!
