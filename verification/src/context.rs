//! What an invocation starts from: the host's function table, the kernel
//! context and the kernel's configuration.

use vstd::prelude::*;
use vstd::string::StringSliceAdditionalSpecFns;
use vstd::utf8::decode_utf8;
use crate::host::{HostCall, HostReply, Progress, Protocol};
use crate::status::Error;
use crate::output::OutputValue;
use crate::tensor::Value;
use crate::text::{is_c_text, nul_free, str_to_c_char_ptr, string_from_c_chars};

verus! {

/// The host's function table: borrowed, never changed, valid for as long as
/// the process runs.
#[derive(Debug)]
pub struct Api {
    pub api: usize,
}

/// The context of one invocation. What is derived from it lives no longer
/// than it does.
#[derive(Debug)]
pub struct KernelContext<'s> {
    pub context: usize,
    pub api: &'s Api,
}

/// The configuration of the operator that is being invoked.
#[derive(Debug)]
pub struct KernelInfo<'s> {
    pub api: &'s Api,
    pub info: usize,
}

/// Asks the host for a text attribute, in two calls: the first, with no
/// buffer, learns the size that the text needs, its NUL included; the second
/// has a buffer of that size filled.
#[derive(Debug)]
pub enum AttributeQuery {
    Size { info: usize, name: Vec<u8> },
    Content { info: usize, name: Vec<u8>, size: u64 },
}

/// The buffer that the host filled with an attribute's text, and the size it
/// reported with it.
#[derive(Debug, PartialEq, Eq)]
pub struct AttributeBuffer {
    pub bytes: Vec<u8>,
    pub size: u64,
}

/// Asks the host for a count.
#[derive(Debug)]
pub enum CountQuery {
    /// The number of inputs of an invocation.
    Inputs { context: usize },
    /// The number of outputs of an invocation.
    Outputs { context: usize },
    /// The number of elements that a shape descriptor stands for.
    Elements { info: usize },
}

/// Asks the host for one input of an invocation.
#[derive(Debug)]
pub struct InputValueQuery<'s> {
    pub api: &'s Api,
    pub context: usize,
    pub index: u64,
}

impl Api {
    /// Wraps the address of the function table.
    pub fn from_raw(api: usize) -> (r: Api)
        ensures
            r.api == api,
    {
        Api { api }
    }

    /// The call that makes a host status of `code` and `msg`, for a failure
    /// that was found on this side of the interface.
    pub fn create_error_status(&self, code: u32, msg: &str) -> (c: HostCall)
        requires
            nul_free(msg.spec_bytes()),
        ensures
            c matches HostCall::CreateStatus { code: k, message } && k == code && message@
                == msg.spec_bytes().push(0u8),
    {
        HostCall::CreateStatus { code, message: str_to_c_char_ptr(msg) }
    }
}

impl Protocol for CountQuery {
    type Output = u64;

    open spec fn call(&self) -> HostCall {
        match *self {
            CountQuery::Inputs { context } => HostCall::KernelContextGetInputCount { context },
            CountQuery::Outputs { context } => HostCall::KernelContextGetOutputCount { context },
            CountQuery::Elements { info } => HostCall::GetTensorShapeElementCount { info },
        }
    }

    open spec fn step(self, reply: HostReply) -> Progress<Self, u64> {
        Progress::Finished(reply.count_outcome())
    }

    open spec fn holding(&self) -> Option<usize> {
        None
    }

    open spec fn hands_over(output: u64) -> Option<usize> {
        None
    }

    fn request(&self) -> (c: HostCall) {
        match *self {
            CountQuery::Inputs { context } => HostCall::KernelContextGetInputCount { context },
            CountQuery::Outputs { context } => HostCall::KernelContextGetOutputCount { context },
            CountQuery::Elements { info } => HostCall::GetTensorShapeElementCount { info },
        }
    }

    fn resume(self, reply: HostReply) -> (p: Progress<Self, u64>) {
        Progress::Finished(reply.into_count())
    }

    proof fn lemma_discipline(self, reply: HostReply) {
    }
}

impl<'s> Protocol for InputValueQuery<'s> {
    type Output = Value<'s>;

    open spec fn call(&self) -> HostCall {
        HostCall::KernelContextGetInput { context: self.context, index: self.index }
    }

    open spec fn step(self, reply: HostReply) -> Progress<Self, Value<'s>> {
        Progress::Finished(
            match reply.handle_outcome() {
                Ok(value) => Ok(Value { value, api: self.api }),
                Err(e) => Err(e),
            },
        )
    }

    open spec fn holding(&self) -> Option<usize> {
        None
    }

    open spec fn hands_over(output: Value<'s>) -> Option<usize> {
        None
    }

    fn request(&self) -> (c: HostCall) {
        HostCall::KernelContextGetInput { context: self.context, index: self.index }
    }

    fn resume(self, reply: HostReply) -> (p: Progress<Self, Value<'s>>) {
        Progress::Finished(
            match reply.into_handle() {
                Ok(value) => Ok(Value { value, api: self.api }),
                Err(e) => Err(e),
            },
        )
    }

    proof fn lemma_discipline(self, reply: HostReply) {
    }
}

impl<'s> KernelContext<'s> {
    /// The context of the invocation that the host started with `context`.
    pub fn from_raw(api: &'s Api, context: usize) -> (r: Self)
        ensures
            r.api == api,
            r.context == context,
    {
        KernelContext { context, api }
    }

    /// The input at `index`. The host's refusal fails it, and so does a null
    /// handle where the host reported success.
    pub fn get_input_value(&self, index: u64) -> (q: InputValueQuery<'s>)
        ensures
            q.api == self.api,
            q.context == self.context,
            q.index == index,
    {
        InputValueQuery { api: self.api, context: self.context, index }
    }

    /// The output at `index`, still without a tensor. No host call is made
    /// for it.
    pub fn get_safe_output(self, index: u64) -> (r: OutputValue<'s>)
        ensures
            r.api == self.api,
            r.context == self.context,
            r.index == index,
    {
        OutputValue { api: self.api, context: self.context, index }
    }

    /// The number of outputs.
    pub fn get_output_count(&self) -> (q: CountQuery)
        ensures
            q == (CountQuery::Outputs { context: self.context }),
    {
        CountQuery::Outputs { context: self.context }
    }

    /// The number of inputs.
    pub fn get_input_count(&self) -> (q: CountQuery)
        ensures
            q == (CountQuery::Inputs { context: self.context }),
    {
        CountQuery::Inputs { context: self.context }
    }
}

impl Protocol for AttributeQuery {
    type Output = AttributeBuffer;

    open spec fn call(&self) -> HostCall {
        match *self {
            AttributeQuery::Size { info, name } => HostCall::KernelInfoGetAttributeString {
                info,
                name,
                capacity: None,
            },
            AttributeQuery::Content { info, name, size } => HostCall::KernelInfoGetAttributeString {
                info,
                name,
                capacity: Some(size),
            },
        }
    }

    open spec fn step(self, reply: HostReply) -> Progress<Self, AttributeBuffer> {
        match self {
            AttributeQuery::Size { info, name } => match reply.count_outcome() {
                Ok(size) => Progress::Pending(AttributeQuery::Content { info, name, size }),
                Err(e) => Progress::Finished(Err(e)),
            },
            AttributeQuery::Content { info, name, size } => Progress::Finished(
                if reply.status is Some {
                    Err(reply.error())
                } else if reply.count > size {
                    Err(Error::InvalidData)
                } else {
                    Ok(AttributeBuffer { bytes: reply.bytes, size: reply.count })
                },
            ),
        }
    }

    open spec fn holding(&self) -> Option<usize> {
        None
    }

    open spec fn hands_over(output: AttributeBuffer) -> Option<usize> {
        None
    }

    fn request(&self) -> (c: HostCall) {
        match self {
            AttributeQuery::Size { info, name } => HostCall::KernelInfoGetAttributeString {
                info: *info,
                name: name.clone(),
                capacity: None,
            },
            AttributeQuery::Content { info, name, size } => HostCall::KernelInfoGetAttributeString {
                info: *info,
                name: name.clone(),
                capacity: Some(*size),
            },
        }
    }

    fn resume(self, reply: HostReply) -> (p: Progress<Self, AttributeBuffer>) {
        match self {
            AttributeQuery::Size { info, name } => match reply.into_count() {
                Ok(size) => Progress::Pending(AttributeQuery::Content { info, name, size }),
                Err(e) => Progress::Finished(Err(e)),
            },
            AttributeQuery::Content { info, name, size } => Progress::Finished(
                match reply.status {
                    Some(s) => Err(Error::NativeStatus { code: s.code, message: s.message }),
                    None => if reply.count > size {
                        Err(Error::InvalidData)
                    } else {
                        Ok(AttributeBuffer { bytes: reply.bytes, size: reply.count })
                    },
                },
            ),
        }
    }

    proof fn lemma_discipline(self, reply: HostReply) {
    }
}

/// Where the attribute query gives a buffer, the host reported success on
/// both calls, and the size it reported with the second call, which is the
/// buffer's, is no more than the size it reported with the first.
pub proof fn lemma_attribute_size_bounded(
    info: usize,
    name: Vec<u8>,
    first: HostReply,
    second: HostReply,
    buffer: AttributeBuffer,
)
    requires
        crate::host::run_result(AttributeQuery::Size { info, name }, seq![first, second]) == Some(
            Ok::<AttributeBuffer, Error>(buffer),
        ),
    ensures
        first.status is None,
        second.status is None,
        buffer.size == second.count,
        buffer.size <= first.count,
        buffer.bytes == second.bytes,
{
    let start = AttributeQuery::Size { info, name };
    let replies = seq![first, second];
    assert(replies.skip(1) =~= seq![second]);
    assert(replies[0] == first);
    assert(seq![second][0] == second);
    reveal_with_fuel(crate::host::run_result, 3);
}

impl AttributeBuffer {
    /// What the host filled: the first `size` bytes of the buffer.
    pub open spec fn filled(self) -> Seq<u8> {
        self.bytes@.take(self.size as int)
    }

    /// The host filled no more than the buffer, and what it filled is a C
    /// string of UTF-8.
    pub open spec fn holds_text(self) -> bool {
        self.size <= self.bytes@.len() && is_c_text(self.filled())
    }

    /// The attribute's text: what the host filled, without its NUL.
    pub fn into_string(self) -> (r: Result<String, Error>)
        ensures
            match r {
                Ok(text) => self.holds_text() && text@ == decode_utf8(self.filled().drop_last()),
                Err(e) => e == Error::InvalidData && !self.holds_text(),
            },
    {
        let mut bytes = self.bytes;
        if self.size > bytes.len() as u64 {
            return Err(Error::InvalidData);
        }
        bytes.truncate(self.size as usize);
        assert(bytes@ == self.filled());
        string_from_c_chars(bytes)
    }
}

impl<'s> KernelInfo<'s> {
    /// The configuration that the host handed over as `info`.
    pub fn from_ort<'inner>(api: &'inner Api, info: usize) -> (r: KernelInfo<'inner>)
        ensures
            r.api == api,
            r.info == info,
    {
        KernelInfo { api, info }
    }

    /// The text attribute `name`. What the query gives is the filled buffer:
    /// [`AttributeBuffer::into_string`] makes the text of it.
    pub fn get_attribute_string(&self, name: &str) -> (q: AttributeQuery)
        requires
            nul_free(name.spec_bytes()),
        ensures
            q matches AttributeQuery::Size { info, name: n } && info == self.info && n@
                == name.spec_bytes().push(0u8),
    {
        AttributeQuery::Size { info: self.info, name: str_to_c_char_ptr(name) }
    }

    /// The array attribute `name`. Not provided: how the host encodes
    /// attribute arrays is not settled.
    pub fn get_attribute_array<T>(&self, name: &str) -> (r: Result<Vec<T>, Error>)
        ensures
            r == Err::<Vec<T>, Error>(Error::Unimplemented),
    {
        Err(Error::Unimplemented)
    }
}

} // verus!
