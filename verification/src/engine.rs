//! The execution engine's decision core. Stages run strictly in order, and
//! operations strictly in order within their stage; the first failure halts
//! the run and names the failing stage and operation; nothing after the
//! failure point is ever handed out. Actually performing an operation —
//! spawning a process, touching the filesystem — is the caller's concern:
//! it asks for the next operation, performs it, and reports the outcome.

use vstd::prelude::*;
use crate::pipeline::{Operation, OperationView, Pipeline, StageKind, StageView};

verus! {

/// What one executed operation reported.
#[derive(Debug, PartialEq)]
pub struct OperationReport {
    pub stdout: String,
    pub stderr: String,
}

/// The report of a completed run: one entry per executed operation, in
/// execution order.
#[derive(Debug, PartialEq)]
pub struct ExecutionReport {
    pub outputs: Vec<OperationReport>,
}

/// The captured outputs of a report, in execution order.
pub open spec fn report_view(r: ExecutionReport) -> Seq<(Seq<char>, Seq<char>)> {
    Seq::new(r.outputs@.len(), |i: int| (r.outputs@[i].stdout@, r.outputs@[i].stderr@))
}

/// Where and why a run halted.
#[derive(Debug, PartialEq)]
pub struct PipelineError {
    pub stage: StageKind,
    pub operation_index: usize,
    pub message: String,
}

/// The operations of the first `s` stages, in order.
pub open spec fn ops_before(p: Seq<StageView>, s: int) -> Seq<OperationView>
    decreases s,
{
    if s <= 0 {
        Seq::empty()
    } else {
        ops_before(p, s - 1) + p[s - 1].operations
    }
}

/// All operations of a pipeline, stage by stage, in order.
pub open spec fn flat_ops(p: Seq<StageView>) -> Seq<OperationView> {
    ops_before(p, p.len() as int)
}

/// Where an operation of stage `s` stands in the flattened list.
proof fn lemma_ops_before_index(p: Seq<StageView>, s: int, k: int, m: int)
    requires
        0 <= s < p.len(),
        0 <= k < p[s].operations.len(),
        s < m <= p.len(),
    ensures
        ops_before(p, s).len() + k < ops_before(p, m).len(),
        ops_before(p, m)[ops_before(p, s).len() + k] == p[s].operations[k],
    decreases m,
{
    if m == s + 1 {
    } else {
        lemma_ops_before_index(p, s, k, m - 1);
    }
}

/// A consumed-once pipeline run: the engine hands operations out in
/// pipeline order and records each outcome, halting at the first failure.
pub struct PipelineRun {
    pipeline: Pipeline,
    stage_idx: usize,
    op_idx: usize,
    outputs: Vec<OperationReport>,
    failure: Option<PipelineError>,
}

impl PipelineRun {
    /// The stages this run executes.
    pub closed spec fn stages(&self) -> Seq<StageView> {
        self.pipeline@
    }

    /// How many operations have completed successfully.
    pub closed spec fn executed(&self) -> int {
        self.outputs@.len() as int
    }

    /// The recorded outputs, in execution order.
    pub closed spec fn outputs_view(&self) -> Seq<(Seq<char>, Seq<char>)> {
        Seq::new(self.outputs@.len(), |i: int| (self.outputs@[i].stdout@, self.outputs@[i].stderr@))
    }

    /// The failure recorded so far, if any.
    pub closed spec fn failed_with(&self) -> Option<PipelineError> {
        self.failure
    }

    /// Whether the run still hands operations out.
    pub closed spec fn active(&self) -> bool {
        self.failure is None && self.stage_idx < self.pipeline@.len()
    }

    /// The engine's internal consistency: the position is inside the
    /// pipeline and on a real operation, and counts exactly the executed
    /// operations.
    pub closed spec fn wf(&self) -> bool {
        &&& self.stage_idx <= self.pipeline@.len()
        &&& (self.stage_idx < self.pipeline@.len() ==> self.op_idx
            < self.pipeline@[self.stage_idx as int].operations.len())
        &&& (self.failure is None ==> self.executed() == ops_before(
            self.pipeline@,
            self.stage_idx as int,
        ).len() + (if self.stage_idx < self.pipeline@.len() {
            self.op_idx as int
        } else {
            0
        }))
    }

    /// Starts a run over a compiled pipeline.
    pub fn new(pipeline: Pipeline) -> (r: PipelineRun)
        ensures
            r.wf(),
            r.stages() == pipeline@,
            r.executed() == 0,
            r.failed_with() is None,
    {
        let mut run = PipelineRun {
            pipeline,
            stage_idx: 0,
            op_idx: 0,
            outputs: Vec::new(),
            failure: Option::None,
        };
        proof {
            assert(run.outputs_view() =~= Seq::<(Seq<char>, Seq<char>)>::empty());
        }
        run.normalize();
        run
    }

    /// Moves the position forward past exhausted stages, so that it either
    /// rests on a real operation or at the pipeline's end.
    #[verifier::loop_isolation(false)]
    fn normalize(&mut self)
        requires
            old(self).stage_idx <= old(self).pipeline@.len(),
            old(self).stage_idx < old(self).pipeline@.len() ==> old(self).op_idx <= old(
                self,
            ).pipeline@[old(self).stage_idx as int].operations.len(),
            old(self).failure is None ==> old(self).outputs@.len() as int == ops_before(
                old(self).pipeline@,
                old(self).stage_idx as int,
            ).len() + (if old(self).stage_idx < old(self).pipeline@.len() {
                old(self).op_idx as int
            } else {
                0
            }),
        ensures
            final(self).wf(),
            final(self).pipeline == old(self).pipeline,
            final(self).outputs == old(self).outputs,
            final(self).failure == old(self).failure,
    {
        while self.stage_idx < self.pipeline.stages.len() && self.op_idx
            == self.pipeline.stages[self.stage_idx].operations.len()
            invariant
                self.stage_idx <= self.pipeline@.len(),
                self.stage_idx < self.pipeline@.len() ==> self.op_idx
                    <= self.pipeline@[self.stage_idx as int].operations.len(),
                self.failure is None ==> self.outputs@.len() as int == ops_before(
                    self.pipeline@,
                    self.stage_idx as int,
                ).len() + (if self.stage_idx < self.pipeline@.len() {
                    self.op_idx as int
                } else {
                    0
                }),
                self.pipeline == old(self).pipeline,
                self.outputs == old(self).outputs,
                self.failure == old(self).failure,
            decreases self.pipeline@.len() - self.stage_idx,
        {
            proof {
                assert(self.pipeline@[self.stage_idx as int].operations
                    == self.pipeline.stages@[self.stage_idx as int]@.operations);
            }
            self.stage_idx = self.stage_idx + 1;
            self.op_idx = 0;
        }
        proof {
            assert(self.pipeline@.len() == self.pipeline.stages@.len());
        }
    }

    /// The operation to perform next: the next one in pipeline order, or
    /// nothing once the run has finished or failed.
    pub fn current_operation(&self) -> (r: Option<&Operation>)
        requires
            self.wf(),
        ensures
            match r {
                Option::Some(op) => self.active() && self.executed() < flat_ops(
                    self.stages(),
                ).len() && op@ == flat_ops(self.stages())[self.executed()],
                Option::None => !self.active(),
            },
    {
        if self.failure.is_some() {
            return Option::None;
        }
        if self.stage_idx < self.pipeline.stages.len() {
            let stage = &self.pipeline.stages[self.stage_idx];
            proof {
                assert(stage@ == self.pipeline@[self.stage_idx as int]);
                lemma_ops_before_index(
                    self.pipeline@,
                    self.stage_idx as int,
                    self.op_idx as int,
                    self.pipeline@.len() as int,
                );
            }
            Option::Some(&stage.operations[self.op_idx])
        } else {
            Option::None
        }
    }

    /// Records that the current operation succeeded, with its captured
    /// output, and moves to the next operation in pipeline order.
    pub fn record_success(&mut self, stdout: String, stderr: String)
        requires
            old(self).wf(),
            old(self).active(),
        ensures
            final(self).wf(),
            final(self).stages() == old(self).stages(),
            final(self).failed_with() == old(self).failed_with(),
            final(self).executed() == old(self).executed() + 1,
            final(self).outputs_view() =~= old(self).outputs_view().push((stdout@, stderr@)),
    {
        let ghost pre = self.outputs_view();
        self.outputs.push(OperationReport { stdout, stderr });
        let stage_len = self.pipeline.stages[self.stage_idx].operations.len();
        proof {
            assert(self.pipeline.stages@[self.stage_idx as int]@.operations
                == self.pipeline@[self.stage_idx as int].operations);
            assert(self.op_idx < stage_len);
        }
        self.op_idx = self.op_idx + 1;
        proof {
            assert(self.outputs_view() =~= pre.push(
                (self.outputs@.last().stdout@, self.outputs@.last().stderr@),
            ));
        }
        self.normalize();
    }

    /// Records that the current operation failed: the run halts, remembers
    /// which stage and operation failed and why, and hands out nothing
    /// further.
    pub fn record_failure(&mut self, message: String)
        requires
            old(self).wf(),
            old(self).active(),
        ensures
            final(self).wf(),
            final(self).stages() == old(self).stages(),
            !final(self).active(),
            final(self).failed_with() matches Option::Some(e) && e.stage == old(self).stages()[
                old(self).current_stage()].kind && e.operation_index as int == old(
                self,
            ).current_op_index() && e.message@ == message@,
    {
        let kind = self.pipeline.stages[self.stage_idx].kind;
        proof {
            assert(self.pipeline.stages@[self.stage_idx as int]@.kind == kind);
        }
        self.failure = Option::Some(
            PipelineError { stage: kind, operation_index: self.op_idx, message },
        );
    }

    /// The stage the run stands on.
    pub closed spec fn current_stage(&self) -> int {
        self.stage_idx as int
    }

    /// The operation index the run stands on, within its stage.
    pub closed spec fn current_op_index(&self) -> int {
        self.op_idx as int
    }

    /// Whether the run is over, by completion or failure.
    pub fn is_finished(&self) -> (r: bool)
        ensures
            r == !self.active(),
    {
        match &self.failure {
            Option::Some(_) => true,
            Option::None => self.stage_idx >= self.pipeline.stages.len(),
        }
    }

    /// Consumes a finished run: the report of a completed run, or the
    /// error that halted it.
    pub fn into_result(self) -> (r: Result<ExecutionReport, PipelineError>)
        requires
            self.wf(),
            !self.active(),
        ensures
            match r {
                Result::Ok(rep) => self.failed_with() is None && report_view(rep)
                    == self.outputs_view(),
                Result::Err(e) => self.failed_with() == Option::Some(e),
            },
    {
        match self.failure {
            Option::Some(e) => Result::Err(e),
            Option::None => {
                let rep = ExecutionReport { outputs: self.outputs };
                proof {
                    assert(report_view(rep) =~= self.outputs_view());
                }
                Result::Ok(rep)
            },
        }
    }
}

} // verus!
