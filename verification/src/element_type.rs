//! The element types of tensors and the host's codes for them.

use vstd::prelude::*;
use vstd::string::StringSliceAdditionalSpecFns;
use crate::text::{is_c_text, nul_free, str_to_c_char_ptr};

verus! {

pub const ONNX_TENSOR_ELEMENT_DATA_TYPE_FLOAT: u32 = 1;

pub const ONNX_TENSOR_ELEMENT_DATA_TYPE_INT32: u32 = 6;

pub const ONNX_TENSOR_ELEMENT_DATA_TYPE_INT64: u32 = 7;

pub const ONNX_TENSOR_ELEMENT_DATA_TYPE_STRING: u32 = 8;

pub const ONNX_TENSOR_ELEMENT_DATA_TYPE_DOUBLE: u32 = 11;

/// The element types that tensors of this library have.
#[derive(Debug, Clone, Copy, PartialEq, Eq)]
pub enum ElementType {
    F32,
    F64,
    I32,
    I64,
    String,
}

/// Where the host runs a graph.
#[derive(Debug, Clone, Copy, PartialEq, Eq)]
pub enum ExecutionProviders {
    Cpu,
}

impl ElementType {
    /// The host's code of an element type.
    pub open spec fn code(self) -> u32 {
        match self {
            ElementType::F32 => ONNX_TENSOR_ELEMENT_DATA_TYPE_FLOAT,
            ElementType::F64 => ONNX_TENSOR_ELEMENT_DATA_TYPE_DOUBLE,
            ElementType::I32 => ONNX_TENSOR_ELEMENT_DATA_TYPE_INT32,
            ElementType::I64 => ONNX_TENSOR_ELEMENT_DATA_TYPE_INT64,
            ElementType::String => ONNX_TENSOR_ELEMENT_DATA_TYPE_STRING,
        }
    }

    /// The host's code of this element type.
    pub fn to_ort_encoding(&self) -> (r: u32)
        ensures
            r == self.code(),
    {
        match self {
            ElementType::F32 => ONNX_TENSOR_ELEMENT_DATA_TYPE_FLOAT,
            ElementType::F64 => ONNX_TENSOR_ELEMENT_DATA_TYPE_DOUBLE,
            ElementType::I32 => ONNX_TENSOR_ELEMENT_DATA_TYPE_INT32,
            ElementType::I64 => ONNX_TENSOR_ELEMENT_DATA_TYPE_INT64,
            ElementType::String => ONNX_TENSOR_ELEMENT_DATA_TYPE_STRING,
        }
    }
}

impl ExecutionProviders {
    /// The name by which the host knows the provider, as a C string.
    pub fn as_c_char_ptr(&self) -> (r: Vec<u8>)
        ensures
            r@ == "CPUExecutionProvider".spec_bytes().push(0u8),
            is_c_text(r@),
    {
        let name = "CPUExecutionProvider";
        proof {
            broadcast use vstd::string::is_ascii_spec_bytes;

            reveal_strlit("CPUExecutionProvider");
            assert(name.is_ascii());
            assert(nul_free(name.spec_bytes()));
        }
        match self {
            ExecutionProviders::Cpu => str_to_c_char_ptr(name),
        }
    }
}

/// No two element types share a code.
pub proof fn lemma_codes_distinct(a: ElementType, b: ElementType)
    requires
        a.code() == b.code(),
    ensures
        a == b,
{
}

} // verus!
