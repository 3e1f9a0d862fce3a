//! End-to-end scenarios against a real device. Machines without a compute
//! adapter skip the body of each scenario: the library surfaces that as an
//! error from `GpuCompute::new`, which is itself asserted.

use sgpu_compute::layout::{BufferRole, TransferSchema};
use sgpu_compute::pipeline::{GpuCompute, GpuError, StageDesc};

const IDENTITY_SHADER: &str = "
    @group(0) @binding(0) var<storage, read> input_data: array<u32>;
    @group(0) @binding(1) var<storage, read_write> output_data: array<u32>;

    @compute
    @workgroup_size(8, 1, 1)
    fn main(@builtin(global_invocation_id) global_id: vec3<u32>) {
        output_data[global_id.x] = input_data[global_id.x];
    }
";

const SCALE_SHADER: &str = "
    @group(0) @binding(0) var<uniform> coefficient: u32;
    @group(0) @binding(1) var<storage, read> input_data: array<u32>;
    @group(0) @binding(2) var<storage, read_write> output_data: array<u32>;

    @compute
    @workgroup_size(8, 1, 1)
    fn main(@builtin(global_invocation_id) global_id: vec3<u32>) {
        output_data[global_id.x] = coefficient * input_data[global_id.x];
    }
";

const STAGE_ONE_SHADER: &str = "
    @group(0) @binding(0) var<storage, read_write> pad: array<u32>;
    @group(0) @binding(1) var<storage, read> input_data: array<u32>;
    @group(0) @binding(2) var<storage, read_write> output_data: array<u32>;

    @compute
    @workgroup_size(8, 1, 1)
    fn main(@builtin(global_invocation_id) global_id: vec3<u32>) {
        pad[global_id.x] = input_data[global_id.x] + 10u;
    }
";

const STAGE_TWO_SHADER: &str = "
    @group(0) @binding(0) var<storage, read_write> pad: array<u32>;
    @group(0) @binding(1) var<storage, read> input_data: array<u32>;
    @group(0) @binding(2) var<storage, read_write> output_data: array<u32>;

    @compute
    @workgroup_size(8, 1, 1)
    fn main(@builtin(global_invocation_id) global_id: vec3<u32>) {
        output_data[global_id.x] = pad[global_id.x] * 2u;
    }
";

fn u32_schema(n: usize, with_uniform: bool) -> TransferSchema {
    TransferSchema {
        uniform_bytes: if with_uniform { 4 } else { 0 },
        input_bytes: 4 * n,
        output_bytes: 4 * n,
    }
}

fn u32s_to_bytes(values: &[u32]) -> Vec<u8> {
    bytemuck::cast_slice(values).to_vec()
}

fn bytes_to_u32s(bytes: &[u8]) -> Vec<u32> {
    bytes.chunks_exact(4).map(|c| u32::from_ne_bytes([c[0], c[1], c[2], c[3]])).collect()
}

fn try_gpu() -> Option<GpuCompute> {
    match GpuCompute::new() {
        Ok(gpu) => Some(gpu),
        Err(e) => {
            assert!(e == GpuError::NoAdapter || e == GpuError::DeviceRequestFailed);
            None
        }
    }
}

#[test]
fn round_trip_identity_shader() {
    let Some(gpu) = try_gpu() else { return };
    let mut pipeline = gpu.gen_pipeline(
        None,
        u32_schema(64, false),
        vec![StageDesc { name: Some("copy"), shader: IDENTITY_SHADER, entrypoint: "main" }],
    );
    let input: Vec<u32> = (0..64u32).map(|i| i.wrapping_mul(0x9e3779b9)).collect();
    let out = pipeline.run(&u32s_to_bytes(&input), &vec![(8, 1, 1)]).unwrap();
    assert_eq!(bytes_to_u32s(&out), input);
}

#[test]
fn uniform_application() {
    let Some(gpu) = try_gpu() else { return };
    let mut pipeline = gpu.gen_pipeline(
        None,
        u32_schema(64, true),
        vec![StageDesc { name: Some("scale"), shader: SCALE_SHADER, entrypoint: "main" }],
    );
    let input: Vec<u32> = (0..64u32).collect();
    for coefficient in [0u32, 1, 7, 42] {
        pipeline.write_uniform(&u32s_to_bytes(&[coefficient]));
        let out = pipeline.run(&u32s_to_bytes(&input), &vec![(8, 1, 1)]).unwrap();
        let expected: Vec<u32> = input.iter().map(|v| coefficient * v).collect();
        assert_eq!(bytes_to_u32s(&out), expected);
    }
}

#[test]
fn multi_stage_ordering() {
    let Some(gpu) = try_gpu() else { return };
    let stage_one = StageDesc { name: Some("one"), shader: STAGE_ONE_SHADER, entrypoint: "main" };
    let stage_two = StageDesc { name: Some("two"), shader: STAGE_TWO_SHADER, entrypoint: "main" };
    let input: Vec<u32> = (0..64u32).collect();
    let workgroups = vec![(8, 1, 1), (8, 1, 1)];

    let mut forward = gpu.gen_pipeline(
        Some(4 * 64),
        u32_schema(64, false),
        vec![stage_one, stage_two],
    );
    let layout_roles: Vec<_> = forward.binding_layout().iter().map(|s| s.role).collect();
    assert_eq!(
        layout_roles,
        vec![BufferRole::Scratchpad, BufferRole::Input, BufferRole::Staging]
    );
    let out = forward.run(&u32s_to_bytes(&input), &workgroups).unwrap();
    let expected: Vec<u32> = input.iter().map(|v| (v + 10) * 2).collect();
    assert_eq!(bytes_to_u32s(&out), expected);

    // With the stages swapped, stage two reads a scratchpad the first stage
    // has not written yet, which a stage-order-observable shader must show.
    let mut swapped = gpu.gen_pipeline(
        Some(4 * 64),
        u32_schema(64, false),
        vec![stage_two, stage_one],
    );
    let out_swapped = swapped.run(&u32s_to_bytes(&input), &workgroups).unwrap();
    assert_ne!(bytes_to_u32s(&out_swapped), expected);
}

#[test]
fn scratchpad_observes_stage_writes() {
    let Some(gpu) = try_gpu() else { return };
    let stage_one = StageDesc { name: Some("one"), shader: STAGE_ONE_SHADER, entrypoint: "main" };
    let mut pipeline = gpu.gen_pipeline(
        Some(4 * 64),
        u32_schema(64, false),
        vec![stage_one],
    );
    let input: Vec<u32> = (0..64u32).collect();
    pipeline.run(&u32s_to_bytes(&input), &vec![(8, 1, 1)]).unwrap();
    let pad = pipeline.read_scratchpad().unwrap();
    let expected: Vec<u32> = input.iter().map(|v| v + 10).collect();
    assert_eq!(bytes_to_u32s(&pad), expected);
}

#[test]
fn idempotence_of_repeated_runs() {
    let Some(gpu) = try_gpu() else { return };
    let mut pipeline = gpu.gen_pipeline(
        None,
        u32_schema(64, true),
        vec![StageDesc { name: Some("scale"), shader: SCALE_SHADER, entrypoint: "main" }],
    );
    pipeline.write_uniform(&u32s_to_bytes(&[13]));
    let input = u32s_to_bytes(&(0..64u32).collect::<Vec<u32>>());
    let first = pipeline.run(&input, &vec![(8, 1, 1)]).unwrap();
    let second = pipeline.run(&input, &vec![(8, 1, 1)]).unwrap();
    assert_eq!(first, second);
}
