//! The run protocol: the states a run moves through and the exact command
//! sequence one run records into its single submission.
//!
//! A run is one pass through
//! `Idle -> InputWritten -> StagesDispatched -> CopyQueued -> Submitted ->
//! MapRequested` and, once the completion signal is in hand, back to `Idle`.
//! The pipeline tracks its position in this cycle, so a second run cannot
//! start, and a uniform cannot be written, while one is in flight.

use vstd::prelude::*;

verus! {

/// Where a pipeline stands in the run protocol. Between public calls only
/// `Idle` and `MapRequested` occur; the other states are passed through
/// inside one submission step.
#[derive(Clone, Copy, Debug, PartialEq, Eq, Structural)]
pub enum RunState {
    /// No run in flight; the pipeline accepts a new run or a uniform write.
    Idle,
    /// The run's input bytes are enqueued for the input buffer.
    InputWritten,
    /// Every stage's compute pass is recorded, in stage order.
    StagesDispatched,
    /// The staging-to-output copy is recorded after the dispatches.
    CopyQueued,
    /// The command buffer is handed to the queue as one submission.
    Submitted,
    /// A read mapping of the output buffer is requested; the run finishes
    /// when the completion signal is answered.
    MapRequested,
}

/// One command of a run's submission, in the order it is recorded.
#[derive(Clone, Copy, Debug, PartialEq, Eq, Structural)]
pub enum RunCommand {
    /// One compute pass: bind the shared resources, select the stage's
    /// compiled pipeline, dispatch its workgroup counts.
    Dispatch { stage: usize, x: u32, y: u32, z: u32 },
    /// The final buffer-to-buffer copy from staging into output, sized to
    /// the full output byte length.
    CopyToOutput { bytes: usize },
}

/// The command sequence of one run: the stages' dispatches in array order,
/// one per stage with that stage's workgroup counts, then the one copy.
pub open spec fn spec_run_commands(workgroups: Seq<(u32, u32, u32)>, output_bytes: usize) -> Seq<
    RunCommand,
> {
    Seq::new(
        workgroups.len(),
        |i: int|
            RunCommand::Dispatch {
                stage: i as usize,
                x: workgroups[i].0,
                y: workgroups[i].1,
                z: workgroups[i].2,
            },
    ) + seq![RunCommand::CopyToOutput { bytes: output_bytes }]
}

/// Build the command plan of one run. The submission step executes exactly
/// this sequence, front to back.
pub fn plan_run_commands(workgroups: &Vec<(u32, u32, u32)>, output_bytes: usize) -> (plan: Vec<
    RunCommand,
>)
    ensures
        plan@ == spec_run_commands(workgroups@, output_bytes),
{
    let mut plan: Vec<RunCommand> = Vec::new();
    let mut i: usize = 0;
    while i < workgroups.len()
        invariant
            0 <= i <= workgroups@.len(),
            plan@.len() == i,
            forall|j: int|
                0 <= j < i ==> plan@[j] == #[trigger] spec_run_commands(
                    workgroups@,
                    output_bytes,
                )[j],
        decreases workgroups@.len() - i,
    {
        let (x, y, z) = workgroups[i];
        plan.push(RunCommand::Dispatch { stage: i, x, y, z });
        i = i + 1;
    }
    plan.push(RunCommand::CopyToOutput { bytes: output_bytes });
    proof {
        assert(plan@ =~= spec_run_commands(workgroups@, output_bytes));
    }
    plan
}

/// Multi-stage ordering: in every run's command sequence, stage `i`'s
/// dispatch stands at position `i`, so for any two stages the one declared
/// earlier is recorded, and therefore executed within the submission, before
/// the later one; each dispatch carries exactly the workgroup counts its
/// caller supplied for that stage; and the copy into the host-visible output
/// stands after every dispatch.
pub proof fn lemma_run_command_order(workgroups: Seq<(u32, u32, u32)>, output_bytes: usize)
    ensures
        spec_run_commands(workgroups, output_bytes).len() == workgroups.len() + 1,
        forall|i: int|
            0 <= i < workgroups.len() ==> #[trigger] spec_run_commands(workgroups, output_bytes)[i]
                == (RunCommand::Dispatch {
                stage: i as usize,
                x: workgroups[i].0,
                y: workgroups[i].1,
                z: workgroups[i].2,
            }),
        spec_run_commands(workgroups, output_bytes).last() == (RunCommand::CopyToOutput {
            bytes: output_bytes,
        }),
{
}

} // verus!
