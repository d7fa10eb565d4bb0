//! Tensor values and their shape descriptors.

use vstd::prelude::*;
use vstd::utf8::decode_utf8;
use crate::array::{
    array_items, array_shape, dims_to_shape, extents, extents_valid, shape_fits, shape_product,
    StringArray, TensorView, TensorViewMut,
};
use crate::context::{Api, CountQuery};
use crate::host::{
    acquisitions, lemma_run_releases_all, release_calls, run_log, run_result, HostCall, HostReply,
    Progress, Protocol,
};
use crate::status::Error;
use crate::text::{decode_strings, item_bytes, well_packed};

verus! {

/// One tensor that the host owns, borrowed for the invocation.
#[derive(Debug)]
pub struct Value<'s> {
    pub value: usize,
    pub api: &'s Api,
}

/// A shape descriptor of the host. Whoever holds one owes the host its
/// release, once.
#[derive(Debug)]
pub struct TensorTypeAndShapeInfo<'s> {
    pub api: &'s Api,
    pub info: usize,
}

/// Asks the host for the shape descriptor of a tensor.
#[derive(Debug)]
pub struct ShapeInfoQuery<'s> {
    pub api: &'s Api,
    pub value: usize,
}

/// Gives a shape descriptor back to the host.
#[derive(Debug)]
pub struct Release {
    pub info: usize,
}

/// Asks the host for the dimensions that a shape descriptor holds: first how
/// many, then the dimensions themselves.
#[derive(Debug)]
pub enum DimensionsQuery {
    Rank { info: usize },
    Extents { info: usize, rank: u64 },
}

/// Where the data of a dense tensor lies, how many elements the host says it
/// has, and the dimensions it is to be seen in.
#[derive(Debug, PartialEq, Eq)]
pub struct DenseData {
    pub pointer: usize,
    pub element_count: u64,
    pub dims: Vec<i64>,
}

/// The content of a string tensor as the host packs it: all bytes in one
/// buffer, the start of each item, and the dimensions.
#[derive(Debug, PartialEq, Eq)]
pub struct PackedStrings {
    pub bytes: Vec<u8>,
    pub offsets: Vec<usize>,
    pub dims: Vec<i64>,
}

/// How far the read of a dense tensor has come.
#[derive(Debug)]
pub enum DenseStage {
    Info,
    Count { info: usize },
    Data { info: usize, count: u64 },
    Rank { info: usize, count: u64, pointer: usize },
    Extents { info: usize, count: u64, pointer: usize, rank: u64 },
    Release { info: usize, outcome: Result<DenseData, Error> },
}

/// Reads a dense tensor: the element count from its shape descriptor, the
/// address of its data, then its dimensions. The descriptor is released
/// before the read finishes, also where a step failed.
#[derive(Debug)]
pub struct DenseRead {
    pub value: usize,
    pub stage: DenseStage,
}

/// How far the read of a string tensor has come.
#[derive(Debug)]
pub enum StringStage {
    Info,
    Count { info: usize },
    Length { info: usize, count: u64 },
    Content { info: usize, count: u64, length: u64 },
    Rank { info: usize, bytes: Vec<u8>, offsets: Vec<usize> },
    Extents { info: usize, bytes: Vec<u8>, offsets: Vec<usize>, rank: u64 },
    Release { info: usize, outcome: Result<PackedStrings, Error> },
}

/// Reads a string tensor: the number of items from its shape descriptor, the
/// length of all text together, the packed content, then the dimensions. The
/// descriptor is released before the read finishes, also where a step
/// failed.
#[derive(Debug)]
pub struct StringRead {
    pub value: usize,
    pub stage: StringStage,
}

impl<'s> Protocol for ShapeInfoQuery<'s> {
    type Output = TensorTypeAndShapeInfo<'s>;

    open spec fn call(&self) -> HostCall {
        HostCall::GetTensorTypeAndShape { value: self.value }
    }

    open spec fn step(self, reply: HostReply) -> Progress<Self, TensorTypeAndShapeInfo<'s>> {
        Progress::Finished(
            match reply.handle_outcome() {
                Ok(info) => Ok(TensorTypeAndShapeInfo { api: self.api, info }),
                Err(e) => Err(e),
            },
        )
    }

    open spec fn holding(&self) -> Option<usize> {
        None
    }

    open spec fn hands_over(output: TensorTypeAndShapeInfo<'s>) -> Option<usize> {
        Some(output.info)
    }

    fn request(&self) -> (c: HostCall) {
        HostCall::GetTensorTypeAndShape { value: self.value }
    }

    fn resume(self, reply: HostReply) -> (p: Progress<Self, TensorTypeAndShapeInfo<'s>>) {
        Progress::Finished(
            match reply.into_handle() {
                Ok(info) => Ok(TensorTypeAndShapeInfo { api: self.api, info }),
                Err(e) => Err(e),
            },
        )
    }

    proof fn lemma_discipline(self, reply: HostReply) {
    }
}

impl Protocol for Release {
    type Output = ();

    open spec fn call(&self) -> HostCall {
        HostCall::ReleaseTensorTypeAndShapeInfo { info: self.info }
    }

    open spec fn step(self, reply: HostReply) -> Progress<Self, ()> {
        Progress::Finished(Ok(()))
    }

    open spec fn holding(&self) -> Option<usize> {
        Some(self.info)
    }

    open spec fn hands_over(output: ()) -> Option<usize> {
        None
    }

    fn request(&self) -> (c: HostCall) {
        HostCall::ReleaseTensorTypeAndShapeInfo { info: self.info }
    }

    fn resume(self, reply: HostReply) -> (p: Progress<Self, ()>) {
        Progress::Finished(Ok(()))
    }

    proof fn lemma_discipline(self, reply: HostReply) {
    }
}

impl Protocol for DimensionsQuery {
    type Output = Vec<i64>;

    open spec fn call(&self) -> HostCall {
        match *self {
            DimensionsQuery::Rank { info } => HostCall::GetDimensionsCount { info },
            DimensionsQuery::Extents { info, rank } => HostCall::GetDimensions { info, count: rank },
        }
    }

    open spec fn step(self, reply: HostReply) -> Progress<Self, Vec<i64>> {
        match self {
            DimensionsQuery::Rank { info } => match reply.count_outcome() {
                Ok(rank) => Progress::Pending(DimensionsQuery::Extents { info, rank }),
                Err(e) => Progress::Finished(Err(e)),
            },
            DimensionsQuery::Extents { info, rank } => Progress::Finished(
                if reply.status is Some {
                    Err(reply.error())
                } else if reply.dims@.len() != rank {
                    Err(Error::InvalidData)
                } else {
                    Ok(reply.dims)
                },
            ),
        }
    }

    open spec fn holding(&self) -> Option<usize> {
        None
    }

    open spec fn hands_over(output: Vec<i64>) -> Option<usize> {
        None
    }

    fn request(&self) -> (c: HostCall) {
        match *self {
            DimensionsQuery::Rank { info } => HostCall::GetDimensionsCount { info },
            DimensionsQuery::Extents { info, rank } => HostCall::GetDimensions { info, count: rank },
        }
    }

    fn resume(self, reply: HostReply) -> (p: Progress<Self, Vec<i64>>) {
        match self {
            DimensionsQuery::Rank { info } => match reply.into_count() {
                Ok(rank) => Progress::Pending(DimensionsQuery::Extents { info, rank }),
                Err(e) => Progress::Finished(Err(e)),
            },
            DimensionsQuery::Extents { info, rank } => Progress::Finished(
                match reply.status {
                    Some(s) => Err(Error::NativeStatus { code: s.code, message: s.message }),
                    None => if reply.dims.len() as u64 != rank {
                        Err(Error::InvalidData)
                    } else {
                        Ok(reply.dims)
                    },
                },
            ),
        }
    }

    proof fn lemma_discipline(self, reply: HostReply) {
    }
}

impl<'s> TensorTypeAndShapeInfo<'s> {
    /// The dimensions, in the order of the axes.
    pub fn get_dimensions(&self) -> (q: DimensionsQuery)
        ensures
            q == (DimensionsQuery::Rank { info: self.info }),
    {
        DimensionsQuery::Rank { info: self.info }
    }

    /// The number of elements.
    pub fn get_tensor_shape_element_count(&self) -> (q: CountQuery)
        ensures
            q == (CountQuery::Elements { info: self.info }),
    {
        CountQuery::Elements { info: self.info }
    }

    /// The host's code of the element type. Not provided.
    pub fn get_tensor_element_type(&self) -> (r: Result<u32, Error>)
        ensures
            r == Err::<u32, Error>(Error::Unimplemented),
    {
        Err(Error::Unimplemented)
    }

    /// Ends the hold on the descriptor: the release that is owed to the host.
    pub fn release(self) -> (q: Release)
        ensures
            q.info == self.info,
    {
        Release { info: self.info }
    }
}

impl DenseStage {
    /// The descriptor that is out at this stage.
    pub open spec fn holding(self) -> Option<usize> {
        match self {
            DenseStage::Info => None,
            DenseStage::Count { info } => Some(info),
            DenseStage::Data { info, .. } => Some(info),
            DenseStage::Rank { info, .. } => Some(info),
            DenseStage::Extents { info, .. } => Some(info),
            DenseStage::Release { info, .. } => Some(info),
        }
    }
}

impl Protocol for DenseRead {
    type Output = DenseData;

    open spec fn call(&self) -> HostCall {
        match self.stage {
            DenseStage::Info => HostCall::GetTensorTypeAndShape { value: self.value },
            DenseStage::Count { info } => HostCall::GetTensorShapeElementCount { info },
            DenseStage::Data { .. } => HostCall::GetTensorMutableData { value: self.value },
            DenseStage::Rank { info, .. } => HostCall::GetDimensionsCount { info },
            DenseStage::Extents { info, rank, .. } => HostCall::GetDimensions { info, count: rank },
            DenseStage::Release { info, .. } => HostCall::ReleaseTensorTypeAndShapeInfo { info },
        }
    }

    open spec fn step(self, reply: HostReply) -> Progress<Self, DenseData> {
        let value = self.value;
        match self.stage {
            DenseStage::Info => match reply.handle_outcome() {
                Ok(info) => Progress::Pending(DenseRead { value, stage: DenseStage::Count { info } }),
                Err(e) => Progress::Finished(Err(e)),
            },
            DenseStage::Count { info } => Progress::Pending(
                DenseRead {
                    value,
                    stage: match reply.count_outcome() {
                        Ok(count) => DenseStage::Data { info, count },
                        Err(e) => DenseStage::Release { info, outcome: Err(e) },
                    },
                },
            ),
            DenseStage::Data { info, count } => Progress::Pending(
                DenseRead {
                    value,
                    stage: if reply.status is Some {
                        DenseStage::Release { info, outcome: Err(reply.error()) }
                    } else {
                        DenseStage::Rank { info, count, pointer: reply.handle }
                    },
                },
            ),
            DenseStage::Rank { info, count, pointer } => Progress::Pending(
                DenseRead {
                    value,
                    stage: match reply.count_outcome() {
                        Ok(rank) => DenseStage::Extents { info, count, pointer, rank },
                        Err(e) => DenseStage::Release { info, outcome: Err(e) },
                    },
                },
            ),
            DenseStage::Extents { info, count, pointer, rank } => Progress::Pending(
                DenseRead {
                    value,
                    stage: DenseStage::Release {
                        info,
                        outcome: if reply.status is Some {
                            Err(reply.error())
                        } else if reply.dims@.len() != rank {
                            Err(Error::InvalidData)
                        } else {
                            Ok(DenseData { pointer, element_count: count, dims: reply.dims })
                        },
                    },
                },
            ),
            DenseStage::Release { info, outcome } => Progress::Finished(outcome),
        }
    }

    open spec fn holding(&self) -> Option<usize> {
        self.stage.holding()
    }

    open spec fn hands_over(output: DenseData) -> Option<usize> {
        None
    }

    fn request(&self) -> (c: HostCall) {
        match self.stage {
            DenseStage::Info => HostCall::GetTensorTypeAndShape { value: self.value },
            DenseStage::Count { info } => HostCall::GetTensorShapeElementCount { info },
            DenseStage::Data { .. } => HostCall::GetTensorMutableData { value: self.value },
            DenseStage::Rank { info, .. } => HostCall::GetDimensionsCount { info },
            DenseStage::Extents { info, rank, .. } => HostCall::GetDimensions { info, count: rank },
            DenseStage::Release { info, .. } => HostCall::ReleaseTensorTypeAndShapeInfo { info },
        }
    }

    fn resume(self, reply: HostReply) -> (p: Progress<Self, DenseData>) {
        let value = self.value;
        let stage = match self.stage {
            DenseStage::Info => match reply.into_handle() {
                Ok(info) => DenseStage::Count { info },
                Err(e) => {
                    return Progress::Finished(Err(e));
                },
            },
            DenseStage::Count { info } => match reply.into_count() {
                Ok(count) => DenseStage::Data { info, count },
                Err(e) => DenseStage::Release { info, outcome: Err(e) },
            },
            DenseStage::Data { info, count } => match reply.status {
                Some(s) => DenseStage::Release {
                    info,
                    outcome: Err(Error::NativeStatus { code: s.code, message: s.message }),
                },
                None => DenseStage::Rank { info, count, pointer: reply.handle },
            },
            DenseStage::Rank { info, count, pointer } => match reply.into_count() {
                Ok(rank) => DenseStage::Extents { info, count, pointer, rank },
                Err(e) => DenseStage::Release { info, outcome: Err(e) },
            },
            DenseStage::Extents { info, count, pointer, rank } => DenseStage::Release {
                info,
                outcome: match reply.status {
                    Some(s) => Err(Error::NativeStatus { code: s.code, message: s.message }),
                    None => if reply.dims.len() as u64 != rank {
                        Err(Error::InvalidData)
                    } else {
                        Ok(DenseData { pointer, element_count: count, dims: reply.dims })
                    },
                },
            },
            DenseStage::Release { info, outcome } => {
                return Progress::Finished(outcome);
            },
        };
        Progress::Pending(DenseRead { value, stage })
    }

    proof fn lemma_discipline(self, reply: HostReply) {
    }
}

impl StringStage {
    /// The descriptor that is out at this stage.
    pub open spec fn holding(self) -> Option<usize> {
        match self {
            StringStage::Info => None,
            StringStage::Count { info } => Some(info),
            StringStage::Length { info, .. } => Some(info),
            StringStage::Content { info, .. } => Some(info),
            StringStage::Rank { info, .. } => Some(info),
            StringStage::Extents { info, .. } => Some(info),
            StringStage::Release { info, .. } => Some(info),
        }
    }
}

impl Protocol for StringRead {
    type Output = PackedStrings;

    open spec fn call(&self) -> HostCall {
        match self.stage {
            StringStage::Info => HostCall::GetTensorTypeAndShape { value: self.value },
            StringStage::Count { info } => HostCall::GetTensorShapeElementCount { info },
            StringStage::Length { .. } => HostCall::GetStringTensorDataLength { value: self.value },
            StringStage::Content { count, length, .. } => HostCall::GetStringTensorContent {
                value: self.value,
                byte_count: length,
                item_count: count,
            },
            StringStage::Rank { info, .. } => HostCall::GetDimensionsCount { info },
            StringStage::Extents { info, rank, .. } => HostCall::GetDimensions { info, count: rank },
            StringStage::Release { info, .. } => HostCall::ReleaseTensorTypeAndShapeInfo { info },
        }
    }

    open spec fn step(self, reply: HostReply) -> Progress<Self, PackedStrings> {
        let value = self.value;
        match self.stage {
            StringStage::Info => match reply.handle_outcome() {
                Ok(info) => Progress::Pending(
                    StringRead { value, stage: StringStage::Count { info } },
                ),
                Err(e) => Progress::Finished(Err(e)),
            },
            StringStage::Count { info } => Progress::Pending(
                StringRead {
                    value,
                    stage: match reply.count_outcome() {
                        Ok(count) => StringStage::Length { info, count },
                        Err(e) => StringStage::Release { info, outcome: Err(e) },
                    },
                },
            ),
            StringStage::Length { info, count } => Progress::Pending(
                StringRead {
                    value,
                    stage: match reply.count_outcome() {
                        Ok(length) => StringStage::Content { info, count, length },
                        Err(e) => StringStage::Release { info, outcome: Err(e) },
                    },
                },
            ),
            StringStage::Content { info, count, length } => Progress::Pending(
                StringRead {
                    value,
                    stage: if reply.status is Some {
                        StringStage::Release { info, outcome: Err(reply.error()) }
                    } else if reply.bytes@.len() != length || reply.offsets@.len() != count {
                        StringStage::Release { info, outcome: Err(Error::InvalidData) }
                    } else {
                        StringStage::Rank { info, bytes: reply.bytes, offsets: reply.offsets }
                    },
                },
            ),
            StringStage::Rank { info, bytes, offsets } => Progress::Pending(
                StringRead {
                    value,
                    stage: match reply.count_outcome() {
                        Ok(rank) => StringStage::Extents { info, bytes, offsets, rank },
                        Err(e) => StringStage::Release { info, outcome: Err(e) },
                    },
                },
            ),
            StringStage::Extents { info, bytes, offsets, rank } => Progress::Pending(
                StringRead {
                    value,
                    stage: StringStage::Release {
                        info,
                        outcome: if reply.status is Some {
                            Err(reply.error())
                        } else if reply.dims@.len() != rank {
                            Err(Error::InvalidData)
                        } else {
                            Ok(PackedStrings { bytes, offsets, dims: reply.dims })
                        },
                    },
                },
            ),
            StringStage::Release { info, outcome } => Progress::Finished(outcome),
        }
    }

    open spec fn holding(&self) -> Option<usize> {
        self.stage.holding()
    }

    open spec fn hands_over(output: PackedStrings) -> Option<usize> {
        None
    }

    fn request(&self) -> (c: HostCall) {
        match &self.stage {
            StringStage::Info => HostCall::GetTensorTypeAndShape { value: self.value },
            StringStage::Count { info } => HostCall::GetTensorShapeElementCount { info: *info },
            StringStage::Length { .. } => HostCall::GetStringTensorDataLength { value: self.value },
            StringStage::Content { count, length, .. } => HostCall::GetStringTensorContent {
                value: self.value,
                byte_count: *length,
                item_count: *count,
            },
            StringStage::Rank { info, .. } => HostCall::GetDimensionsCount { info: *info },
            StringStage::Extents { info, rank, .. } => HostCall::GetDimensions {
                info: *info,
                count: *rank,
            },
            StringStage::Release { info, .. } => HostCall::ReleaseTensorTypeAndShapeInfo {
                info: *info,
            },
        }
    }

    fn resume(self, reply: HostReply) -> (p: Progress<Self, PackedStrings>) {
        let value = self.value;
        let stage = match self.stage {
            StringStage::Info => match reply.into_handle() {
                Ok(info) => StringStage::Count { info },
                Err(e) => {
                    return Progress::Finished(Err(e));
                },
            },
            StringStage::Count { info } => match reply.into_count() {
                Ok(count) => StringStage::Length { info, count },
                Err(e) => StringStage::Release { info, outcome: Err(e) },
            },
            StringStage::Length { info, count } => match reply.into_count() {
                Ok(length) => StringStage::Content { info, count, length },
                Err(e) => StringStage::Release { info, outcome: Err(e) },
            },
            StringStage::Content { info, count, length } => match reply.status {
                Some(s) => StringStage::Release {
                    info,
                    outcome: Err(Error::NativeStatus { code: s.code, message: s.message }),
                },
                None => if reply.bytes.len() as u64 != length || reply.offsets.len() as u64
                    != count {
                    StringStage::Release { info, outcome: Err(Error::InvalidData) }
                } else {
                    StringStage::Rank { info, bytes: reply.bytes, offsets: reply.offsets }
                },
            },
            StringStage::Rank { info, bytes, offsets } => match reply.into_count() {
                Ok(rank) => StringStage::Extents { info, bytes, offsets, rank },
                Err(e) => StringStage::Release { info, outcome: Err(e) },
            },
            StringStage::Extents { info, bytes, offsets, rank } => StringStage::Release {
                info,
                outcome: match reply.status {
                    Some(s) => Err(Error::NativeStatus { code: s.code, message: s.message }),
                    None => if reply.dims.len() as u64 != rank {
                        Err(Error::InvalidData)
                    } else {
                        Ok(PackedStrings { bytes, offsets, dims: reply.dims })
                    },
                },
            },
            StringStage::Release { info, outcome } => {
                return Progress::Finished(outcome);
            },
        };
        Progress::Pending(StringRead { value, stage })
    }

    proof fn lemma_discipline(self, reply: HostReply) {
    }
}

/// A finished read of a dense tensor has released every shape descriptor it
/// acquired, whatever the host replied and however the read ended.
pub proof fn lemma_dense_read_releases(
    value: usize,
    replies: Seq<HostReply>,
    r: Result<DenseData, Error>,
)
    requires
        run_result(DenseRead { value, stage: DenseStage::Info }, replies) == Some(r),
    ensures
        acquisitions(run_log(DenseRead { value, stage: DenseStage::Info }, replies))
            == release_calls(run_log(DenseRead { value, stage: DenseStage::Info }, replies)),
{
    lemma_run_releases_all(DenseRead { value, stage: DenseStage::Info }, replies, r);
}

/// A finished read of a string tensor has released every shape descriptor it
/// acquired, whatever the host replied and however the read ended.
pub proof fn lemma_string_read_releases(
    value: usize,
    replies: Seq<HostReply>,
    r: Result<PackedStrings, Error>,
)
    requires
        run_result(StringRead { value, stage: StringStage::Info }, replies) == Some(r),
    ensures
        acquisitions(run_log(StringRead { value, stage: StringStage::Info }, replies))
            == release_calls(run_log(StringRead { value, stage: StringStage::Info }, replies)),
{
    lemma_run_releases_all(StringRead { value, stage: StringStage::Info }, replies, r);
}

impl<'s> Value<'s> {
    /// Reads the tensor as text. What the read gives is still packed:
    /// [`PackedStrings::decode`] makes the array of it.
    pub fn get_tensor_data_str(self) -> (q: StringRead)
        ensures
            q.value == self.value,
            q.stage == StringStage::Info,
    {
        StringRead { value: self.value, stage: StringStage::Info }
    }

    /// Reads the tensor as dense data. The read gives where the data lies and
    /// in which shape: [`DenseData::view`] makes the view of it.
    pub fn get_tensor_data(self) -> (q: DenseRead)
        ensures
            q.value == self.value,
            q.stage == DenseStage::Info,
    {
        DenseRead { value: self.value, stage: DenseStage::Info }
    }

    /// The shape descriptor of the tensor. Its holder owes its release.
    pub fn get_tensor_type_and_shape(&self) -> (q: ShapeInfoQuery<'s>)
        ensures
            q.api == self.api,
            q.value == self.value,
    {
        ShapeInfoQuery { api: self.api, value: self.value }
    }

    /// The host's code of what kind of value this is. Not provided.
    pub fn get_value_type(&self) -> (r: Result<u32, Error>)
        ensures
            r == Err::<u32, Error>(Error::Unimplemented),
    {
        Err(Error::Unimplemented)
    }
}

impl DenseData {
    /// The buffer `data` is the tensor's: it has the number of elements that
    /// the host gave, the dimensions are extents, and their shape fits.
    pub open spec fn describes<T>(self, data: Seq<T>) -> bool {
        &&& data.len() == self.element_count
        &&& extents_valid(self.dims@)
        &&& shape_fits(extents(self.dims@), data.len())
    }

    /// The read-only view of `data`, the tensor's elements, in the tensor's
    /// shape.
    pub fn view<'a, T>(&self, data: &'a [T]) -> (r: Result<TensorView<'a, T>, Error>)
        ensures
            match r {
                Ok(v) => {
                    &&& self.describes(data@)
                    &&& v.dims() == extents(self.dims@)
                    &&& v.elements() == data@
                    &&& shape_product(v.dims()) == self.element_count
                },
                Err(e) => e == Error::ShapeMismatch && !self.describes(data@),
            },
    {
        if data.len() as u64 != self.element_count {
            return Err(Error::ShapeMismatch);
        }
        let shape = dims_to_shape(&self.dims)?;
        TensorView::new(data, shape)
    }

    /// The writable view of `data`, the tensor's elements, in the tensor's
    /// shape.
    pub fn view_mut<'a, T>(&self, data: &'a mut [T]) -> (r: Result<TensorViewMut<'a, T>, Error>)
        ensures
            match r {
                Ok(v) => {
                    &&& self.describes(old(data)@)
                    &&& v.dims() == extents(self.dims@)
                    &&& v.elements() == old(data)@
                    &&& shape_product(v.dims()) == self.element_count
                },
                Err(e) => e == Error::ShapeMismatch && !self.describes(old(data)@),
            },
    {
        if data.len() as u64 != self.element_count {
            return Err(Error::ShapeMismatch);
        }
        let shape = dims_to_shape(&self.dims)?;
        TensorViewMut::new(data, shape)
    }
}

impl PackedStrings {
    /// The text of item `i`.
    pub open spec fn item(self, i: int) -> Seq<char> {
        decode_utf8(item_bytes(self.bytes@, self.offsets@, i))
    }

    /// The text of all items, in order.
    pub open spec fn items(self) -> Seq<Seq<char>> {
        Seq::new(self.offsets@.len(), |i: int| self.item(i))
    }

    /// The dimensions are extents, and their shape fits the number of items.
    pub open spec fn shaped(self) -> bool {
        extents_valid(self.dims@) && shape_fits(extents(self.dims@), self.offsets@.len())
    }

    /// Takes the content apart and gives the items the tensor's shape.
    pub fn decode(self) -> (r: Result<StringArray, Error>)
        ensures
            match r {
                Ok(a) => {
                    &&& well_packed(self.bytes@, self.offsets@)
                    &&& self.shaped()
                    &&& array_shape(a) == extents(self.dims@)
                    &&& array_items(a) == self.items()
                },
                Err(Error::InvalidData) => !well_packed(self.bytes@, self.offsets@),
                Err(Error::ShapeMismatch) => well_packed(self.bytes@, self.offsets@)
                    && !self.shaped(),
                Err(_) => false,
            },
    {
        let items = decode_strings(self.bytes.as_slice(), self.offsets.as_slice())?;
        let shape = dims_to_shape(&self.dims)?;
        let ghost texts = crate::array::texts(items@);
        assert(texts =~= self.items());
        StringArray::from_shape_vec(items, shape)
    }
}

} // verus!
