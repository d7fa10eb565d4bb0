//! The vocabulary between this library and the host: the calls it asks
//! for, what a call leaves behind, and the record of both.

use vstd::prelude::*;
use crate::status::{Error, StatusPtr};

verus! {

/// One call into the host's function table, with its input arguments.
/// Handles are addresses; text is NUL-terminated UTF-8.
#[derive(Debug, Clone, PartialEq, Eq)]
pub enum HostCall {
    /// The entry point's request for the function table of a version.
    GetApi { api_base: usize, version: u32 },
    KernelContextGetInputCount { context: usize },
    KernelContextGetOutputCount { context: usize },
    KernelContextGetInput { context: usize, index: u64 },
    KernelContextGetOutput { context: usize, index: u64, dims: Vec<i64> },
    /// `capacity` is `None` for the size query, made with a null buffer.
    KernelInfoGetAttributeString { info: usize, name: Vec<u8>, capacity: Option<u64> },
    GetTensorTypeAndShape { value: usize },
    GetTensorShapeElementCount { info: usize },
    GetDimensionsCount { info: usize },
    GetDimensions { info: usize, count: u64 },
    ReleaseTensorTypeAndShapeInfo { info: usize },
    GetTensorMutableData { value: usize },
    GetStringTensorDataLength { value: usize },
    GetStringTensorContent { value: usize, byte_count: u64, item_count: u64 },
    CreateStatus { code: u32, message: Vec<u8> },
    CreateCustomOpDomain { name: Vec<u8> },
    CustomOpDomainAdd { domain: usize, op: usize },
    AddCustomOpDomain { options: usize, domain: usize },
}

/// What a host call left behind: its status and the output arguments it
/// wrote. An output that the call does not have keeps its zero or empty
/// value.
#[derive(Debug, Clone, PartialEq, Eq)]
pub struct HostReply {
    pub status: StatusPtr,
    /// The handle or data address written; 0 is null.
    pub handle: usize,
    /// The count or size written.
    pub count: u64,
    /// The byte buffer, as the call left it.
    pub bytes: Vec<u8>,
    /// The offsets buffer, as the call left it.
    pub offsets: Vec<usize>,
    /// The dimensions buffer, as the call left it.
    pub dims: Vec<i64>,
}

/// Where an operation stands after a reply: it waits for another call, or it
/// is done.
#[derive(Debug)]
pub enum Progress<S, T> {
    Pending(S),
    Finished(Result<T, Error>),
}

/// A call and the reply to it.
pub struct Exchange {
    pub call: HostCall,
    pub reply: HostReply,
}

impl HostReply {
    /// The error that the status stands for, where it is not null.
    pub open spec fn error(self) -> Error {
        Error::NativeStatus {
            code: self.status->Some_0.code,
            message: self.status->Some_0.message,
        }
    }

    /// The handle a call wrote: the host's error where it reports one,
    /// [`Error::NullResult`] where it reports success and wrote null.
    pub open spec fn handle_outcome(self) -> Result<usize, Error> {
        match self.status {
            Some(s) => Err(Error::NativeStatus { code: s.code, message: s.message }),
            None => if self.handle == 0 {
                Err(Error::NullResult)
            } else {
                Ok(self.handle)
            },
        }
    }

    /// The count a call wrote, or the host's error.
    pub open spec fn count_outcome(self) -> Result<u64, Error> {
        match self.status {
            Some(s) => Err(Error::NativeStatus { code: s.code, message: s.message }),
            None => Ok(self.count),
        }
    }

    /// The handle this reply gives.
    pub fn into_handle(self) -> (r: Result<usize, Error>)
        ensures
            r == self.handle_outcome(),
    {
        match self.status {
            Some(s) => Err(Error::NativeStatus { code: s.code, message: s.message }),
            None => if self.handle == 0 {
                Err(Error::NullResult)
            } else {
                Ok(self.handle)
            },
        }
    }

    /// The count this reply gives.
    pub fn into_count(self) -> (r: Result<u64, Error>)
        ensures
            r == self.count_outcome(),
    {
        match self.status {
            Some(s) => Err(Error::NativeStatus { code: s.code, message: s.message }),
            None => Ok(self.count),
        }
    }
}

impl HostCall {
    /// Two calls are the same call with the same arguments.
    pub open spec fn agrees(self, other: HostCall) -> bool {
        match (self, other) {
            (
                HostCall::KernelContextGetOutput { context, index, dims },
                HostCall::KernelContextGetOutput { context: c, index: i, dims: d },
            ) => context == c && index == i && dims@ == d@,
            (
                HostCall::KernelInfoGetAttributeString { info, name, capacity },
                HostCall::KernelInfoGetAttributeString { info: i, name: n, capacity: c },
            ) => info == i && name@ == n@ && capacity == c,
            (HostCall::CreateCustomOpDomain { name }, HostCall::CreateCustomOpDomain { name: n }) => name@
                == n@,
            (
                HostCall::CreateStatus { code, message },
                HostCall::CreateStatus { code: c, message: m },
            ) => code == c && message@ == m@,
            _ => self == other,
        }
    }
}

/// The exchange hands out a shape descriptor: the host was asked for one,
/// reported success and wrote a handle.
pub open spec fn acquires(e: Exchange) -> bool {
    e.call is GetTensorTypeAndShape && e.reply.status is None && e.reply.handle != 0
}

/// The exchange gives a shape descriptor back to the host.
pub open spec fn releases(e: Exchange) -> bool {
    e.call is ReleaseTensorTypeAndShapeInfo
}

/// How many shape descriptors the host handed out in `log`.
pub open spec fn acquisitions(log: Seq<Exchange>) -> nat
    decreases log.len(),
{
    if log.len() == 0 {
        0
    } else {
        acquisitions(log.drop_last()) + if acquires(log.last()) { 1nat } else { 0nat }
    }
}

/// How many release calls `log` holds.
pub open spec fn release_calls(log: Seq<Exchange>) -> nat
    decreases log.len(),
{
    if log.len() == 0 {
        0
    } else {
        release_calls(log.drop_last()) + if releases(log.last()) { 1nat } else { 0nat }
    }
}

/// Acquisitions and releases of two records add up when one follows the
/// other.
pub proof fn lemma_counts_concat(a: Seq<Exchange>, b: Seq<Exchange>)
    ensures
        acquisitions(a + b) == acquisitions(a) + acquisitions(b),
        release_calls(a + b) == release_calls(a) + release_calls(b),
    decreases b.len(),
{
    if b.len() == 0 {
        assert(a + b =~= a);
    } else {
        assert((a + b).drop_last() =~= a + b.drop_last());
        assert((a + b).last() == b.last());
        lemma_counts_concat(a, b.drop_last());
    }
}

/// The descriptor that is out after an exchange, where `held` was out
/// before it.
pub open spec fn settle(held: Option<usize>, e: Exchange) -> Option<usize> {
    if acquires(e) {
        Some(e.reply.handle)
    } else if releases(e) {
        None
    } else {
        held
    }
}

/// One (if a descriptor is held) or zero.
pub open spec fn one_if_held(held: Option<usize>) -> nat {
    if held is Some {
        1
    } else {
        0
    }
}

/// An operation on the host, as a protocol: a state names the call it waits
/// for and, given the reply, either moves on to the next state or finishes.
/// Whoever drives it performs the calls.
pub trait Protocol: Sized {
    /// What the operation gives when it finishes well.
    type Output;

    /// The call this state waits for.
    spec fn call(&self) -> HostCall;

    /// Where the reply to that call leads.
    spec fn step(self, reply: HostReply) -> Progress<Self, Self::Output>;

    /// The shape descriptor this state has acquired and not yet released.
    spec fn holding(&self) -> Option<usize>;

    /// The shape descriptor that an output hands on to its owner.
    spec fn hands_over(output: Self::Output) -> Option<usize>;

    /// The call to perform now.
    fn request(&self) -> (c: HostCall)
        ensures
            c.agrees(self.call()),
    ;

    /// Takes the reply to the call that `request` named.
    fn resume(self, reply: HostReply) -> (p: Progress<Self, Self::Output>)
        ensures
            p == self.step(reply),
    ;

    /// A descriptor is asked for only while none is held, a release names the
    /// one that is held, and what is held after the exchange is held by the
    /// next state or handed over with the output. On failure nothing is
    /// left.
    proof fn lemma_discipline(self, reply: HostReply)
        ensures
            self.call() is GetTensorTypeAndShape ==> self.holding() is None,
            self.call() matches HostCall::ReleaseTensorTypeAndShapeInfo { info }
                ==> self.holding() == Some(info),
            settle(self.holding(), Exchange { call: self.call(), reply }) == match self.step(reply) {
                Progress::Pending(next) => next.holding(),
                Progress::Finished(Ok(output)) => Self::hands_over(output),
                Progress::Finished(Err(_)) => None,
            },
    ;
}

/// The exchanges of a run: the operation starts in state `start` and meets
/// `replies` in turn, until it finishes or they run out.
pub open spec fn run_log<P: Protocol>(start: P, replies: Seq<HostReply>) -> Seq<Exchange>
    decreases replies.len(),
{
    if replies.len() == 0 {
        seq![]
    } else {
        let first = Exchange { call: start.call(), reply: replies[0] };
        match start.step(replies[0]) {
            Progress::Pending(next) => seq![first] + run_log(next, replies.skip(1)),
            Progress::Finished(_) => seq![first],
        }
    }
}

/// The result of a run, where the operation finishes on the last of
/// `replies`.
pub open spec fn run_result<P: Protocol>(start: P, replies: Seq<HostReply>) -> Option<
    Result<P::Output, Error>,
>
    decreases replies.len(),
{
    if replies.len() == 0 {
        None
    } else {
        match start.step(replies[0]) {
            Progress::Pending(next) => run_result(next, replies.skip(1)),
            Progress::Finished(r) => if replies.len() == 1 {
                Some(r)
            } else {
                None
            },
        }
    }
}

/// The descriptor that a result hands over.
pub open spec fn result_hands_over<P: Protocol>(r: Result<P::Output, Error>) -> Option<usize> {
    match r {
        Ok(output) => P::hands_over(output),
        Err(_) => None,
    }
}

/// Resource discipline. In every finished run of every operation, whatever
/// the host replied and whether the run failed or not, the descriptors held
/// at the start and those acquired on the way are as many as the release
/// calls made and the descriptors handed over at the end.
pub proof fn lemma_run_balanced<P: Protocol>(
    start: P,
    replies: Seq<HostReply>,
    r: Result<P::Output, Error>,
)
    requires
        run_result(start, replies) == Some(r),
    ensures
        one_if_held(start.holding()) + acquisitions(run_log(start, replies)) == release_calls(
            run_log(start, replies),
        ) + one_if_held(result_hands_over::<P>(r)),
    decreases replies.len(),
{
    let first = Exchange { call: start.call(), reply: replies[0] };
    start.lemma_discipline(replies[0]);
    assert(seq![first].drop_last() =~= Seq::<Exchange>::empty());
    assert(acquisitions(seq![first]) == if acquires(first) { 1nat } else { 0nat }) by {
        assert(acquisitions(seq![first].drop_last()) == 0);
    }
    assert(release_calls(seq![first]) == if releases(first) { 1nat } else { 0nat }) by {
        assert(release_calls(seq![first].drop_last()) == 0);
    }
    match start.step(replies[0]) {
        Progress::Pending(next) => {
            lemma_run_balanced(next, replies.skip(1), r);
            lemma_counts_concat(seq![first], run_log(next, replies.skip(1)));
        },
        Progress::Finished(_) => {},
    }
}

/// An operation that starts with no descriptor and hands none over has, when
/// it is finished, released every descriptor that the host gave it: the
/// record of its run holds as many release calls as acquisitions, on failure
/// as on success.
pub proof fn lemma_run_releases_all<P: Protocol>(
    start: P,
    replies: Seq<HostReply>,
    r: Result<P::Output, Error>,
)
    requires
        run_result(start, replies) == Some(r),
        start.holding() is None,
        result_hands_over::<P>(r) is None,
    ensures
        acquisitions(run_log(start, replies)) == release_calls(run_log(start, replies)),
{
    lemma_run_balanced(start, replies, r);
}

} // verus!
