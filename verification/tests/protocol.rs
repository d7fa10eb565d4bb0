use onnx_custom_op::context::{Api, AttributeQuery, CountQuery, KernelContext, KernelInfo};
use onnx_custom_op::host::{HostCall, HostReply, Progress, Protocol};
use onnx_custom_op::session::{CustomOpDomain, Registration, SessionOptions, API_VERSION};
use onnx_custom_op::status::{Error, Status};
use onnx_custom_op::tensor::{DenseData, PackedStrings, TensorTypeAndShapeInfo, Value};

fn ok() -> HostReply {
    HostReply {
        status: None,
        handle: 0,
        count: 0,
        bytes: Vec::new(),
        offsets: Vec::new(),
        dims: Vec::new(),
    }
}

fn handle(handle: usize) -> HostReply {
    HostReply { handle, ..ok() }
}

fn count(count: u64) -> HostReply {
    HostReply { count, ..ok() }
}

fn dims(dims: &[i64]) -> HostReply {
    HostReply { dims: dims.to_vec(), ..ok() }
}

fn failed(code: u32, message: &str) -> HostReply {
    HostReply { status: Some(Status { code, message: message.to_string() }), ..ok() }
}

fn native(code: u32, message: &str) -> Error {
    Error::NativeStatus { code, message: message.to_string() }
}

/// Runs an operation against the replies of a scripted host. Gives the calls
/// that the operation asked for and, where it finished, its result.
fn drive<P: Protocol>(start: P, replies: Vec<HostReply>) -> (Vec<HostCall>, Option<Result<P::Output, Error>>) {
    let mut calls = Vec::new();
    let mut state = start;
    for reply in replies {
        calls.push(state.request());
        match state.resume(reply) {
            Progress::Pending(next) => state = next,
            Progress::Finished(r) => return (calls, Some(r)),
        }
    }
    (calls, None)
}

fn acquisitions(calls: &[HostCall], replies: &[HostReply]) -> usize {
    calls
        .iter()
        .zip(replies.iter())
        .filter(|(c, r)| {
            matches!(c, HostCall::GetTensorTypeAndShape { .. }) && r.status.is_none() && r.handle != 0
        })
        .count()
}

fn releases(calls: &[HostCall]) -> usize {
    calls.iter().filter(|c| matches!(c, HostCall::ReleaseTensorTypeAndShapeInfo { .. })).count()
}

fn failure_of<T>(r: Option<Result<T, Error>>) -> Option<Error> {
    match r {
        Some(Err(e)) => Some(e),
        _ => None,
    }
}

#[test]
fn input_count_passes_through() {
    let api = Api::from_raw(0x10);
    let context = KernelContext::from_raw(&api, 0x20);
    let (calls, r) = drive(context.get_input_count(), vec![count(3)]);
    assert_eq!(calls, vec![HostCall::KernelContextGetInputCount { context: 0x20 }]);
    assert_eq!(r, Some(Ok(3)));
}

#[test]
fn output_count_passes_through() {
    let api = Api::from_raw(0x10);
    let context = KernelContext::from_raw(&api, 0x20);
    let (calls, r) = drive(context.get_output_count(), vec![count(2)]);
    assert_eq!(calls, vec![HostCall::KernelContextGetOutputCount { context: 0x20 }]);
    assert_eq!(r, Some(Ok(2)));
}

#[test]
fn count_fails_with_the_host() {
    let api = Api::from_raw(0x10);
    let context = KernelContext::from_raw(&api, 0x20);
    let (_, r) = drive(context.get_input_count(), vec![failed(1, "no context")]);
    assert_eq!(r, Some(Err(native(1, "no context"))));
}

#[test]
fn input_value_is_the_handle_the_host_wrote() {
    let api = Api::from_raw(0x10);
    let context = KernelContext::from_raw(&api, 0x20);
    let (calls, r) = drive(context.get_input_value(1), vec![handle(0x300)]);
    assert_eq!(calls, vec![HostCall::KernelContextGetInput { context: 0x20, index: 1 }]);
    let value = r.unwrap().unwrap();
    assert_eq!(value.value, 0x300);
    assert_eq!(value.api.api, 0x10);
}

#[test]
fn input_value_fails_with_the_host() {
    let api = Api::from_raw(0x10);
    let context = KernelContext::from_raw(&api, 0x20);
    let (_, r) = drive(context.get_input_value(9), vec![failed(2, "index out of range")]);
    assert_eq!(failure_of(r), Some(native(2, "index out of range")));
}

#[test]
fn null_input_value_is_a_null_result() {
    let api = Api::from_raw(0x10);
    let context = KernelContext::from_raw(&api, 0x20);
    let (_, r) = drive(context.get_input_value(0), vec![handle(0)]);
    assert_eq!(failure_of(r), Some(Error::NullResult));
}

#[test]
fn safe_output_makes_no_call() {
    let api = Api::from_raw(0x10);
    let context = KernelContext::from_raw(&api, 0x20);
    let output = context.get_safe_output(4);
    assert_eq!(output.context, 0x20);
    assert_eq!(output.index, 4);
    assert_eq!(output.api.api, 0x10);
}

#[test]
fn error_status_call_carries_code_and_message() {
    let api = Api::from_raw(0x10);
    assert_eq!(
        api.create_error_status(1, "Failed to get input"),
        HostCall::CreateStatus { code: 1, message: b"Failed to get input\0".to_vec() }
    );
}

#[test]
fn attribute_round_trip() {
    let api = Api::from_raw(0x10);
    let info = KernelInfo::from_ort(&api, 0x40);
    let second = HostReply { count: 4, bytes: b"val\0\0".to_vec(), ..ok() };
    let (calls, r) = drive(info.get_attribute_string("name"), vec![count(5), second]);
    assert_eq!(
        calls,
        vec![
            HostCall::KernelInfoGetAttributeString {
                info: 0x40,
                name: b"name\0".to_vec(),
                capacity: None
            },
            HostCall::KernelInfoGetAttributeString {
                info: 0x40,
                name: b"name\0".to_vec(),
                capacity: Some(5)
            },
        ]
    );
    let buffer = r.unwrap().unwrap();
    assert!(buffer.size <= 5);
    assert_eq!(buffer.into_string(), Ok("val".to_string()));
}

#[test]
fn attribute_that_fills_the_whole_buffer() {
    let api = Api::from_raw(0x10);
    let info = KernelInfo::from_ort(&api, 0x40);
    let second = HostReply { count: 6, bytes: b"hello\0".to_vec(), ..ok() };
    let (_, r) = drive(info.get_attribute_string("greeting"), vec![count(6), second]);
    assert_eq!(r.unwrap().unwrap().into_string(), Ok("hello".to_string()));
}

#[test]
fn attribute_size_query_fails_with_the_host() {
    let api = Api::from_raw(0x10);
    let info = KernelInfo::from_ort(&api, 0x40);
    let (calls, r) = drive(info.get_attribute_string("name"), vec![failed(1, "no attribute")]);
    assert_eq!(calls.len(), 1);
    assert_eq!(r, Some(Err(native(1, "no attribute"))));
}

#[test]
fn attribute_fill_fails_with_the_host() {
    let api = Api::from_raw(0x10);
    let info = KernelInfo::from_ort(&api, 0x40);
    let (calls, r) =
        drive(info.get_attribute_string("name"), vec![count(5), failed(2, "buffer too small")]);
    assert_eq!(calls.len(), 2);
    assert_eq!(r, Some(Err(native(2, "buffer too small"))));
}

#[test]
fn attribute_second_size_may_not_exceed_the_first() {
    let api = Api::from_raw(0x10);
    let info = KernelInfo::from_ort(&api, 0x40);
    let second = HostReply { count: 6, bytes: b"val\0\0".to_vec(), ..ok() };
    let (_, r) = drive(info.get_attribute_string("name"), vec![count(5), second]);
    assert_eq!(r, Some(Err(Error::InvalidData)));
}

#[test]
fn attribute_without_terminator_is_refused() {
    let api = Api::from_raw(0x10);
    let info = KernelInfo::from_ort(&api, 0x40);
    let second = HostReply { count: 3, bytes: b"val".to_vec(), ..ok() };
    let (_, r) = drive(info.get_attribute_string("name"), vec![count(3), second]);
    assert_eq!(r.unwrap().unwrap().into_string(), Err(Error::InvalidData));
}

#[test]
fn attribute_that_is_not_utf8_is_refused() {
    let api = Api::from_raw(0x10);
    let info = KernelInfo::from_ort(&api, 0x40);
    let second = HostReply { count: 3, bytes: vec![0xff, 0xfe, 0], ..ok() };
    let (_, r) = drive(info.get_attribute_string("name"), vec![count(3), second]);
    assert_eq!(r.unwrap().unwrap().into_string(), Err(Error::InvalidData));
}

#[test]
fn attribute_size_beyond_the_buffer_is_refused() {
    let api = Api::from_raw(0x10);
    let info = KernelInfo::from_ort(&api, 0x40);
    let second = HostReply { count: 5, bytes: b"val\0".to_vec(), ..ok() };
    let (_, r) = drive(info.get_attribute_string("name"), vec![count(5), second]);
    assert_eq!(r.unwrap().unwrap().into_string(), Err(Error::InvalidData));
}

#[test]
fn attribute_query_starts_with_the_size() {
    let api = Api::from_raw(0x10);
    let info = KernelInfo::from_ort(&api, 0x40);
    match info.get_attribute_string("axis") {
        AttributeQuery::Size { info, name } => {
            assert_eq!(info, 0x40);
            assert_eq!(name, b"axis\0".to_vec());
        }
        AttributeQuery::Content { .. } => panic!("the size was not asked for"),
    }
}

#[test]
fn attribute_arrays_are_not_provided() {
    let api = Api::from_raw(0x10);
    let info = KernelInfo::from_ort(&api, 0x40);
    assert_eq!(info.get_attribute_array::<i64>("pads"), Err(Error::Unimplemented));
}

#[test]
fn value_type_is_not_provided() {
    let api = Api::from_raw(0x10);
    let value = Value { value: 0x300, api: &api };
    assert_eq!(value.get_value_type(), Err(Error::Unimplemented));
}

#[test]
fn element_type_of_a_shape_is_not_provided() {
    let api = Api::from_raw(0x10);
    let info = TensorTypeAndShapeInfo { api: &api, info: 0x500 };
    assert_eq!(info.get_tensor_element_type(), Err(Error::Unimplemented));
}

#[test]
fn shape_descriptor_is_acquired_and_released() {
    let api = Api::from_raw(0x10);
    let value = Value { value: 0x300, api: &api };
    let (calls, r) = drive(value.get_tensor_type_and_shape(), vec![handle(0x500)]);
    assert_eq!(calls, vec![HostCall::GetTensorTypeAndShape { value: 0x300 }]);
    let info = r.unwrap().unwrap();
    assert_eq!(info.info, 0x500);

    let (calls, r) = drive(info.get_tensor_shape_element_count(), vec![count(6)]);
    assert_eq!(calls, vec![HostCall::GetTensorShapeElementCount { info: 0x500 }]);
    assert_eq!(r, Some(Ok(6)));

    let (calls, r) = drive(info.get_dimensions(), vec![count(2), dims(&[2, 3])]);
    assert_eq!(
        calls,
        vec![
            HostCall::GetDimensionsCount { info: 0x500 },
            HostCall::GetDimensions { info: 0x500, count: 2 },
        ]
    );
    assert_eq!(r, Some(Ok(vec![2i64, 3])));

    let (calls, r) = drive(info.release(), vec![ok()]);
    assert_eq!(calls, vec![HostCall::ReleaseTensorTypeAndShapeInfo { info: 0x500 }]);
    assert_eq!(r, Some(Ok(())));
}

#[test]
fn shape_descriptor_that_is_null_is_a_null_result() {
    let api = Api::from_raw(0x10);
    let value = Value { value: 0x300, api: &api };
    let (_, r) = drive(value.get_tensor_type_and_shape(), vec![handle(0)]);
    assert_eq!(failure_of(r), Some(Error::NullResult));
    let (_, r) = drive(value.get_tensor_type_and_shape(), vec![failed(1, "not a tensor")]);
    assert_eq!(failure_of(r), Some(native(1, "not a tensor")));
}

#[test]
fn dimensions_of_other_length_than_announced_are_refused() {
    let api = Api::from_raw(0x10);
    let info = TensorTypeAndShapeInfo { api: &api, info: 0x500 };
    let (_, r) = drive(info.get_dimensions(), vec![count(3), dims(&[2, 3])]);
    assert_eq!(r, Some(Err(Error::InvalidData)));
    let (calls, r) = drive(info.get_dimensions(), vec![failed(1, "bad info")]);
    assert_eq!(calls.len(), 1);
    assert_eq!(r, Some(Err(native(1, "bad info"))));
    let (_, r) = drive(info.get_dimensions(), vec![count(2), failed(1, "bad info")]);
    assert_eq!(r, Some(Err(native(1, "bad info"))));
}

#[test]
fn element_count_query_names_the_descriptor() {
    let api = Api::from_raw(0x10);
    let info = TensorTypeAndShapeInfo { api: &api, info: 0x500 };
    assert!(matches!(
        info.get_tensor_shape_element_count(),
        CountQuery::Elements { info: 0x500 }
    ));
}

#[test]
fn dense_read_asks_count_data_dimensions() {
    let api = Api::from_raw(0x10);
    let value = Value { value: 0x300, api: &api };
    let replies = vec![handle(0x500), count(6), handle(0x7000), count(2), dims(&[2, 3]), ok()];
    let (calls, r) = drive(value.get_tensor_data(), replies.clone());
    assert_eq!(
        calls,
        vec![
            HostCall::GetTensorTypeAndShape { value: 0x300 },
            HostCall::GetTensorShapeElementCount { info: 0x500 },
            HostCall::GetTensorMutableData { value: 0x300 },
            HostCall::GetDimensionsCount { info: 0x500 },
            HostCall::GetDimensions { info: 0x500, count: 2 },
            HostCall::ReleaseTensorTypeAndShapeInfo { info: 0x500 },
        ]
    );
    assert_eq!(r, Some(Ok(DenseData { pointer: 0x7000, element_count: 6, dims: vec![2, 3] })));
    assert_eq!(acquisitions(&calls, &replies), 1);
    assert_eq!(releases(&calls), 1);
}

#[test]
fn dense_read_then_view() {
    let api = Api::from_raw(0x10);
    let value = Value { value: 0x300, api: &api };
    let replies = vec![handle(0x500), count(6), handle(0x7000), count(2), dims(&[2, 3]), ok()];
    let (_, r) = drive(value.get_tensor_data(), replies);
    let dense = r.unwrap().unwrap();
    let data = [1i64, 2, 3, 4, 5, 6];
    let view = dense.view(&data).unwrap();
    assert_eq!(view.shape(), &vec![2usize, 3]);
    assert_eq!(view.as_slice(), &[1i64, 2, 3, 4, 5, 6]);
}

#[test]
fn dense_read_without_descriptor_releases_nothing() {
    let api = Api::from_raw(0x10);
    let value = Value { value: 0x300, api: &api };
    let replies = vec![failed(1, "not a tensor")];
    let (calls, r) = drive(value.get_tensor_data(), replies.clone());
    assert_eq!(r, Some(Err(native(1, "not a tensor"))));
    assert_eq!(calls.len(), 1);
    assert_eq!(acquisitions(&calls, &replies), 0);
    assert_eq!(releases(&calls), 0);

    let value = Value { value: 0x300, api: &api };
    let (calls, r) = drive(value.get_tensor_data(), vec![handle(0)]);
    assert_eq!(r, Some(Err(Error::NullResult)));
    assert_eq!(releases(&calls), 0);
}

#[test]
fn dense_read_releases_after_each_failure() {
    let api = Api::from_raw(0x10);
    let happy = vec![handle(0x500), count(6), handle(0x7000), count(2), dims(&[2, 3]), ok()];
    for failing in 1..5 {
        let mut replies: Vec<HostReply> = happy[..failing].to_vec();
        replies.push(failed(7, "broken"));
        replies.push(ok());
        let value = Value { value: 0x300, api: &api };
        let (calls, r) = drive(value.get_tensor_data(), replies.clone());
        assert_eq!(r, Some(Err(native(7, "broken"))));
        assert_eq!(calls.len(), failing + 2);
        assert_eq!(calls.last(), Some(&HostCall::ReleaseTensorTypeAndShapeInfo { info: 0x500 }));
        assert_eq!(acquisitions(&calls, &replies), 1);
        assert_eq!(releases(&calls), 1);
    }
}

#[test]
fn dense_read_does_not_finish_before_the_release() {
    let api = Api::from_raw(0x10);
    let value = Value { value: 0x300, api: &api };
    let replies = vec![handle(0x500), count(6), handle(0x7000), count(2), dims(&[2, 3])];
    let (calls, r) = drive(value.get_tensor_data(), replies);
    assert_eq!(calls.len(), 5);
    assert_eq!(r, None);
}

#[test]
fn string_read_asks_count_length_content_dimensions() {
    let api = Api::from_raw(0x10);
    let value = Value { value: 0x300, api: &api };
    let content = HostReply { bytes: b"abbc".to_vec(), offsets: vec![0, 1, 3], ..ok() };
    let replies = vec![handle(0x500), count(3), count(4), content, count(1), dims(&[3]), ok()];
    let (calls, r) = drive(value.get_tensor_data_str(), replies.clone());
    assert_eq!(
        calls,
        vec![
            HostCall::GetTensorTypeAndShape { value: 0x300 },
            HostCall::GetTensorShapeElementCount { info: 0x500 },
            HostCall::GetStringTensorDataLength { value: 0x300 },
            HostCall::GetStringTensorContent { value: 0x300, byte_count: 4, item_count: 3 },
            HostCall::GetDimensionsCount { info: 0x500 },
            HostCall::GetDimensions { info: 0x500, count: 1 },
            HostCall::ReleaseTensorTypeAndShapeInfo { info: 0x500 },
        ]
    );
    assert_eq!(acquisitions(&calls, &replies), 1);
    assert_eq!(releases(&calls), 1);
    let packed = r.unwrap().unwrap();
    assert_eq!(
        packed,
        PackedStrings { bytes: b"abbc".to_vec(), offsets: vec![0, 1, 3], dims: vec![3] }
    );
    let array = packed.decode().unwrap();
    assert_eq!(array.shape(), vec![3usize]);
    assert_eq!(array.to_vec(), vec!["a".to_string(), "bb".to_string(), "c".to_string()]);
}

#[test]
fn string_read_releases_after_each_failure() {
    let api = Api::from_raw(0x10);
    let content = HostReply { bytes: b"abbc".to_vec(), offsets: vec![0, 1, 3], ..ok() };
    let happy = vec![handle(0x500), count(3), count(4), content, count(1), dims(&[3]), ok()];
    for failing in 1..6 {
        let mut replies: Vec<HostReply> = happy[..failing].to_vec();
        replies.push(failed(7, "broken"));
        replies.push(ok());
        let value = Value { value: 0x300, api: &api };
        let (calls, r) = drive(value.get_tensor_data_str(), replies.clone());
        assert_eq!(r, Some(Err(native(7, "broken"))));
        assert_eq!(calls.len(), failing + 2);
        assert_eq!(acquisitions(&calls, &replies), 1);
        assert_eq!(releases(&calls), 1);
    }
}

#[test]
fn string_read_refuses_buffers_of_other_length() {
    let api = Api::from_raw(0x10);
    let value = Value { value: 0x300, api: &api };
    let content = HostReply { bytes: b"abbc".to_vec(), offsets: vec![0, 1], ..ok() };
    let replies = vec![handle(0x500), count(3), count(4), content, ok()];
    let (calls, r) = drive(value.get_tensor_data_str(), replies);
    assert_eq!(r, Some(Err(Error::InvalidData)));
    assert_eq!(releases(&calls), 1);

    let value = Value { value: 0x300, api: &api };
    let content = HostReply { bytes: b"abb".to_vec(), offsets: vec![0, 1, 3], ..ok() };
    let replies = vec![handle(0x500), count(3), count(4), content, ok()];
    let (_, r) = drive(value.get_tensor_data_str(), replies);
    assert_eq!(r, Some(Err(Error::InvalidData)));
}

#[test]
fn materialization_asks_output_count_data() {
    let api = Api::from_raw(0x10);
    let context = KernelContext::from_raw(&api, 0x20);
    let output = context.get_safe_output(0);
    let replies = vec![handle(0x900), handle(0x500), count(6), ok(), handle(0x8000)];
    let (calls, r) = drive(output.get_tensor_data_mut(&[2, 3]), replies.clone());
    assert_eq!(
        calls,
        vec![
            HostCall::KernelContextGetOutput { context: 0x20, index: 0, dims: vec![2, 3] },
            HostCall::GetTensorTypeAndShape { value: 0x900 },
            HostCall::GetTensorShapeElementCount { info: 0x500 },
            HostCall::ReleaseTensorTypeAndShapeInfo { info: 0x500 },
            HostCall::GetTensorMutableData { value: 0x900 },
        ]
    );
    assert_eq!(acquisitions(&calls, &replies), 1);
    assert_eq!(releases(&calls), 1);
    let dense = r.unwrap().unwrap();
    assert_eq!(dense, DenseData { pointer: 0x8000, element_count: 6, dims: vec![2, 3] });
    let mut data = [0i32; 6];
    let view = dense.view_mut(&mut data).unwrap();
    assert_eq!(view.shape(), &vec![2usize, 3]);
}

#[test]
fn null_output_is_a_null_result_and_the_last_call() {
    let api = Api::from_raw(0x10);
    let context = KernelContext::from_raw(&api, 0x20);
    let output = context.get_safe_output(1);
    let replies = vec![handle(0), handle(0x500), count(6), ok(), handle(0x8000)];
    let (calls, r) = drive(output.get_tensor_data_mut(&[2, 3]), replies);
    assert_eq!(
        calls,
        vec![HostCall::KernelContextGetOutput { context: 0x20, index: 1, dims: vec![2, 3] }]
    );
    assert_eq!(r, Some(Err(Error::NullResult)));
}

#[test]
fn materialization_fails_with_the_host() {
    let api = Api::from_raw(0x10);
    let context = KernelContext::from_raw(&api, 0x20);
    let output = context.get_safe_output(5);
    let (calls, r) = drive(output.get_tensor_data_mut(&[1]), vec![failed(2, "no such output")]);
    assert_eq!(calls.len(), 1);
    assert_eq!(r, Some(Err(native(2, "no such output"))));
}

#[test]
fn materialization_releases_when_the_count_fails() {
    let api = Api::from_raw(0x10);
    let context = KernelContext::from_raw(&api, 0x20);
    let output = context.get_safe_output(0);
    let replies = vec![handle(0x900), handle(0x500), failed(3, "no count"), ok()];
    let (calls, r) = drive(output.get_tensor_data_mut(&[2, 3]), replies.clone());
    assert_eq!(r, Some(Err(native(3, "no count"))));
    assert_eq!(calls.last(), Some(&HostCall::ReleaseTensorTypeAndShapeInfo { info: 0x500 }));
    assert_eq!(acquisitions(&calls, &replies), 1);
    assert_eq!(releases(&calls), 1);
}

#[test]
fn materialization_takes_the_count_from_the_host() {
    let api = Api::from_raw(0x10);
    let context = KernelContext::from_raw(&api, 0x20);
    let output = context.get_safe_output(0);
    let replies = vec![handle(0x900), handle(0x500), count(4), ok(), handle(0x8000)];
    let (_, r) = drive(output.get_tensor_data_mut(&[2, 3]), replies);
    let dense = r.unwrap().unwrap();
    assert_eq!(dense.element_count, 4);
    let mut data = [0i32; 4];
    assert!(matches!(dense.view_mut(&mut data), Err(Error::ShapeMismatch)));
}

#[test]
fn session_setup_asks_for_the_version() {
    assert_eq!(API_VERSION, 12);
    let (calls, r) = drive(SessionOptions::from_ort(0x50, 0x60), vec![handle(0x10)]);
    assert_eq!(calls, vec![HostCall::GetApi { api_base: 0x50, version: 12 }]);
    let options = r.unwrap().unwrap();
    assert_eq!(options.api.api, 0x10);
    assert_eq!(options.session_options, 0x60);
}

#[test]
fn session_setup_without_table_is_a_null_result() {
    let (_, r) = drive(SessionOptions::from_ort(0x50, 0x60), vec![handle(0)]);
    assert_eq!(failure_of(r), Some(Error::NullResult));
}

#[test]
fn two_operators_in_one_domain_attached_once() {
    let options = SessionOptions { api: Api::from_raw(0x10), session_options: 0x60 };
    let (calls, r) = drive(options.create_custom_op_domain("my.ops"), vec![handle(0x700)]);
    assert_eq!(calls, vec![HostCall::CreateCustomOpDomain { name: b"my.ops\0".to_vec() }]);
    let mut domain: CustomOpDomain = r.unwrap().unwrap();
    assert_eq!(domain.custom_op_domain, 0x700);

    let (calls, r) = drive(domain.add_op_to_domain(0xa00), vec![ok()]);
    assert_eq!(calls, vec![HostCall::CustomOpDomainAdd { domain: 0x700, op: 0xa00 }]);
    assert_eq!(r, Some(Ok(())));
    let (calls, r) = drive(domain.add_op_to_domain(0xb00), vec![ok()]);
    assert_eq!(calls, vec![HostCall::CustomOpDomainAdd { domain: 0x700, op: 0xb00 }]);
    assert_eq!(r, Some(Ok(())));

    let (calls, r) = drive(options.attach_domain_to_session(&domain), vec![ok()]);
    assert_eq!(calls, vec![HostCall::AddCustomOpDomain { options: 0x60, domain: 0x700 }]);
    assert_eq!(r, Some(Ok(())));

    let (calls, r) =
        drive(options.attach_domain_to_session(&domain), vec![failed(2, "domain already attached")]);
    assert_eq!(calls, vec![HostCall::AddCustomOpDomain { options: 0x60, domain: 0x700 }]);
    assert_eq!(r, Some(Err(native(2, "domain already attached"))));
}

#[test]
fn domain_creation_fails_with_the_host() {
    let options = SessionOptions { api: Api::from_raw(0x10), session_options: 0x60 };
    let (_, r) = drive(options.create_custom_op_domain("my.ops"), vec![failed(1, "out of memory")]);
    assert_eq!(failure_of(r), Some(native(1, "out of memory")));
    let (_, r) = drive(options.create_custom_op_domain("my.ops"), vec![handle(0)]);
    assert_eq!(failure_of(r), Some(Error::NullResult));
}

#[test]
fn operator_registration_fails_with_the_host() {
    let api = Api::from_raw(0x10);
    let mut domain = CustomOpDomain { api: &api, custom_op_domain: 0x700 };
    let (_, r) = drive(domain.add_op_to_domain(0xa00), vec![failed(2, "operator name taken")]);
    assert_eq!(r, Some(Err(native(2, "operator name taken"))));
    assert!(matches!(
        domain.add_op_to_domain(0xa00),
        Registration::AddOp { domain: 0x700, op: 0xa00 }
    ));
}
