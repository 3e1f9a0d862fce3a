//! The numerical-integration scenario: a normal-distribution CDF
//! approximation on the device, checked against a CPU Riemann-sum reference.
//! Machines without a compute adapter skip the device part.

use sgpu_compute::layout::TransferSchema;
use sgpu_compute::pipeline::{GpuCompute, GpuError, StageDesc};

const NORMAL_DISTRIBUTION_SHADER: &str = "
    @group(0) @binding(0) var<uniform> n_steps: u32;
    @group(0) @binding(1) var<storage, read> input_data: array<f32>;
    @group(0) @binding(2) var<storage, read_write> output_data: array<f32>;

    fn normal_distribution(x: f32) -> f32 {
        return exp(-0.5 * x * x) / sqrt(2.0 * 3.1415926535897932);
    }

    @compute
    @workgroup_size(10, 1, 1)
    fn main(@builtin(global_invocation_id) global_id: vec3<u32>) {
        let born = input_data[global_id.x];
        let width = born / f32(n_steps);
        var area: f32 = 0.0;
        for (var i: u32 = 0u; i < n_steps; i = i + 1u) {
            let x = f32(i) * width + 0.5 * width;
            area = area + width * normal_distribution(x);
        }
        output_data[global_id.x] = 0.5 + area;
    }
";

fn normal_distribution(x: f32) -> f32 {
    (-0.5 * x.powi(2)).exp() / (2.0 * std::f32::consts::PI).sqrt()
}

fn numerical_integration_cpu_single(born: f32) -> f32 {
    let mut area = 0.0;
    let width = born / 32768.0;
    for i in 0..32768 {
        let x = i as f32 * width + 0.5 * width;
        area += width * normal_distribution(x);
    }
    0.5 + area
}

fn numerical_integration_cpu(to_integrate: &[f32]) -> Vec<f32> {
    to_integrate.iter().map(|&x| numerical_integration_cpu_single(x)).collect()
}

#[test]
fn normal_distribution_compare() {
    const N: u32 = 1000;
    const WORKGROUP_SIZE: u32 = 10;
    const N_WORKGROUP: u32 = N / WORKGROUP_SIZE;
    let gpu_compute = match GpuCompute::new() {
        Ok(gpu) => gpu,
        Err(e) => {
            assert!(e == GpuError::NoAdapter || e == GpuError::DeviceRequestFailed);
            return;
        }
    };
    let mut pipeline = gpu_compute.gen_pipeline(
        None,
        TransferSchema {
            uniform_bytes: 4,
            input_bytes: 4 * N as usize,
            output_bytes: 4 * N as usize,
        },
        vec![StageDesc {
            name: Some("norm"),
            shader: NORMAL_DISTRIBUTION_SHADER,
            entrypoint: "main",
        }],
    );
    pipeline.write_uniform(&bytemuck::cast_slice(&[32768u32]).to_vec());
    let input: Vec<f32> = (0..N).map(|i| i as f32 / 300.0).collect();
    let cpu = numerical_integration_cpu(&input);
    let output_bytes = pipeline
        .run(&bytemuck::cast_slice(&input).to_vec(), &vec![(N_WORKGROUP, 1, 1)])
        .unwrap();
    let outputs: Vec<f32> = output_bytes
        .chunks_exact(4)
        .map(|c| f32::from_ne_bytes([c[0], c[1], c[2], c[3]]))
        .collect();
    assert_eq!(cpu.len(), outputs.len());
    for (a, b) in outputs.iter().zip(cpu) {
        assert!((a - b).abs() < 0.00001, "{} != {}", a, b);
    }
}
