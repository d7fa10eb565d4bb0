//! Outputs: deferred until their shape is known, then materialized.

use vstd::prelude::*;
use crate::array::{extents, extents_valid, shape_representable, shape_to_dims};
use crate::context::Api;
use crate::host::{
    acquisitions, lemma_run_releases_all, release_calls, run_log, run_result, HostCall, HostReply,
    Progress, Protocol,
};
use crate::status::Error;
use crate::tensor::DenseData;

verus! {

/// An output that has no tensor yet: it gets one when its shape is given.
#[derive(Debug)]
pub struct OutputValue<'s> {
    pub api: &'s Api,
    pub context: usize,
    pub index: u64,
}

/// How far the materialization of an output has come.
#[derive(Debug)]
pub enum OutputStage {
    Output,
    Info { value: usize },
    Count { value: usize, info: usize },
    Release { value: usize, info: usize, outcome: Result<u64, Error> },
    Data { value: usize, count: u64 },
}

/// Materializes an output: has the host make the tensor of the given shape,
/// learns from the tensor's own shape descriptor how many elements it has,
/// releases the descriptor, and asks where the data lies.
#[derive(Debug)]
pub struct Materialization {
    pub context: usize,
    pub index: u64,
    pub dims: Vec<i64>,
    pub stage: OutputStage,
}

impl OutputStage {
    /// The descriptor that is out at this stage.
    pub open spec fn holding(self) -> Option<usize> {
        match self {
            OutputStage::Count { info, .. } => Some(info),
            OutputStage::Release { info, .. } => Some(info),
            _ => None,
        }
    }
}

impl Protocol for Materialization {
    type Output = DenseData;

    open spec fn call(&self) -> HostCall {
        match self.stage {
            OutputStage::Output => HostCall::KernelContextGetOutput {
                context: self.context,
                index: self.index,
                dims: self.dims,
            },
            OutputStage::Info { value } => HostCall::GetTensorTypeAndShape { value },
            OutputStage::Count { info, .. } => HostCall::GetTensorShapeElementCount { info },
            OutputStage::Release { info, .. } => HostCall::ReleaseTensorTypeAndShapeInfo { info },
            OutputStage::Data { value, .. } => HostCall::GetTensorMutableData { value },
        }
    }

    open spec fn step(self, reply: HostReply) -> Progress<Self, DenseData> {
        let Materialization { context, index, dims, stage } = self;
        match stage {
            OutputStage::Output => match reply.handle_outcome() {
                Ok(value) => Progress::Pending(
                    Materialization { context, index, dims, stage: OutputStage::Info { value } },
                ),
                Err(e) => Progress::Finished(Err(e)),
            },
            OutputStage::Info { value } => match reply.handle_outcome() {
                Ok(info) => Progress::Pending(
                    Materialization {
                        context,
                        index,
                        dims,
                        stage: OutputStage::Count { value, info },
                    },
                ),
                Err(e) => Progress::Finished(Err(e)),
            },
            OutputStage::Count { value, info } => Progress::Pending(
                Materialization {
                    context,
                    index,
                    dims,
                    stage: OutputStage::Release { value, info, outcome: reply.count_outcome() },
                },
            ),
            OutputStage::Release { value, info, outcome } => match outcome {
                Ok(count) => Progress::Pending(
                    Materialization {
                        context,
                        index,
                        dims,
                        stage: OutputStage::Data { value, count },
                    },
                ),
                Err(e) => Progress::Finished(Err(e)),
            },
            OutputStage::Data { value, count } => Progress::Finished(
                if reply.status is Some {
                    Err(reply.error())
                } else {
                    Ok(DenseData { pointer: reply.handle, element_count: count, dims })
                },
            ),
        }
    }

    open spec fn holding(&self) -> Option<usize> {
        self.stage.holding()
    }

    open spec fn hands_over(output: DenseData) -> Option<usize> {
        None
    }

    fn request(&self) -> (c: HostCall) {
        match self.stage {
            OutputStage::Output => HostCall::KernelContextGetOutput {
                context: self.context,
                index: self.index,
                dims: self.dims.clone(),
            },
            OutputStage::Info { value } => HostCall::GetTensorTypeAndShape { value },
            OutputStage::Count { info, .. } => HostCall::GetTensorShapeElementCount { info },
            OutputStage::Release { info, .. } => HostCall::ReleaseTensorTypeAndShapeInfo { info },
            OutputStage::Data { value, .. } => HostCall::GetTensorMutableData { value },
        }
    }

    fn resume(self, reply: HostReply) -> (p: Progress<Self, DenseData>) {
        let Materialization { context, index, dims, stage } = self;
        let stage = match stage {
            OutputStage::Output => match reply.into_handle() {
                Ok(value) => OutputStage::Info { value },
                Err(e) => {
                    return Progress::Finished(Err(e));
                },
            },
            OutputStage::Info { value } => match reply.into_handle() {
                Ok(info) => OutputStage::Count { value, info },
                Err(e) => {
                    return Progress::Finished(Err(e));
                },
            },
            OutputStage::Count { value, info } => OutputStage::Release {
                value,
                info,
                outcome: reply.into_count(),
            },
            OutputStage::Release { value, info, outcome } => match outcome {
                Ok(count) => OutputStage::Data { value, count },
                Err(e) => {
                    return Progress::Finished(Err(e));
                },
            },
            OutputStage::Data { value, count } => {
                return Progress::Finished(
                    match reply.status {
                        Some(s) => Err(Error::NativeStatus { code: s.code, message: s.message }),
                        None => Ok(DenseData { pointer: reply.handle, element_count: count, dims }),
                    },
                );
            },
        };
        Progress::Pending(Materialization { context, index, dims, stage })
    }

    proof fn lemma_discipline(self, reply: HostReply) {
    }
}

impl<'s> OutputValue<'s> {
    /// Materializes the output in the shape `shape`. What the
    /// materialization gives is where the data lies and how many elements the
    /// host made: [`DenseData::view_mut`] makes the writable view of it, in
    /// the shape asked for here.
    pub fn get_tensor_data_mut(self, shape: &[usize]) -> (q: Materialization)
        requires
            shape_representable(shape@),
        ensures
            q.context == self.context,
            q.index == self.index,
            q.stage == OutputStage::Output,
            extents_valid(q.dims@),
            extents(q.dims@) == shape@,
    {
        Materialization {
            context: self.context,
            index: self.index,
            dims: shape_to_dims(shape),
            stage: OutputStage::Output,
        }
    }
}

/// Where the host reports success for an output and writes no handle, the
/// materialization ends there with [`Error::NullResult`]: it asks for no
/// further call, whatever replies might follow.
pub proof fn lemma_null_output_ends(start: Materialization, replies: Seq<HostReply>)
    requires
        start.stage == OutputStage::Output,
        replies.len() > 0,
        replies[0].status is None,
        replies[0].handle == 0,
    ensures
        start.step(replies[0]) == Progress::<Materialization, DenseData>::Finished(
            Err(Error::NullResult),
        ),
        run_log(start, replies).len() == 1,
{
}

/// A finished materialization has released every shape descriptor it
/// acquired, whatever the host replied and however it ended.
pub proof fn lemma_materialization_releases(
    start: Materialization,
    replies: Seq<HostReply>,
    r: Result<DenseData, Error>,
)
    requires
        start.stage == OutputStage::Output,
        run_result(start, replies) == Some(r),
    ensures
        acquisitions(run_log(start, replies)) == release_calls(run_log(start, replies)),
{
    lemma_run_releases_all(start, replies, r);
}

} // verus!
