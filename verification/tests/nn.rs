use chibiwasm::execution::error::RuntimeError;
use chibiwasm::execution::module::InternalMemoryInst;
use chibiwasm::wasi::wasi_ephemeral_nn::{
    parse_model_spec, read_model_name, Backend, Device, ModelSpecError, WasiEphemeralNn,
};

const LLAMA: &str = "default:GGML:AUTO:llama-2-7b-chat-q5_k_m.gguf";

#[test]
fn a_model_string_names_model_device_and_path() {
    let m = parse_model_spec(LLAMA).unwrap();
    assert_eq!(m.name, "default");
    assert_eq!(m.backend, Backend::GGML);
    assert_eq!(m.device, Device::AUTO);
    assert_eq!(m.path, "llama-2-7b-chat-q5_k_m.gguf");
    // the device is read in any case; a fifth field is ignored
    let m = parse_model_spec("m:GGML:Gpu:a.gguf:extra").unwrap();
    assert_eq!(m.device, Device::GPU);
    assert_eq!(m.path, "a.gguf");
    // empty fields are fields
    let m = parse_model_spec(":GGML:cpu:").unwrap();
    assert_eq!(m.name, "");
    assert_eq!(m.path, "");
}

#[test]
fn bad_model_strings_are_refused() {
    assert_eq!(parse_model_spec("default").unwrap_err(), ModelSpecError::MissingBackend);
    assert_eq!(parse_model_spec("").unwrap_err(), ModelSpecError::MissingBackend);
    assert_eq!(parse_model_spec("default:ggml:AUTO:x").unwrap_err(), ModelSpecError::UnsupportedBackend);
    assert_eq!(parse_model_spec("default:ONNX:AUTO:x").unwrap_err(), ModelSpecError::UnsupportedBackend);
    assert_eq!(parse_model_spec("default:GGML").unwrap_err(), ModelSpecError::MissingDevice);
    assert_eq!(parse_model_spec("default:GGML:AUTO").unwrap_err(), ModelSpecError::MissingPath);
    assert_eq!(parse_model_spec("default:GGML:NPU:x").unwrap_err(), ModelSpecError::UnknownDevice);
}

#[test]
fn backends_and_devices_by_name() {
    assert_eq!(Backend::from_name("openvino"), Some(Backend::OpenVINO));
    assert_eq!(Backend::from_name("tensorflowlite"), Some(Backend::TensorflowLite));
    assert_eq!(Backend::from_name("tensorflow"), Some(Backend::Tensorflow));
    assert_eq!(Backend::from_name("ggml"), Some(Backend::GGML));
    assert_eq!(Backend::from_name("GGML"), None);
    assert_eq!(Device::from_name("tpu"), Some(Device::TPU));
    assert_eq!(Device::from_name("auto"), Some(Device::AUTO));
    assert_eq!(Device::from_name("AUTO"), None);
}

#[test]
fn the_host_knows_its_model_to_preload() {
    let nn = WasiEphemeralNn::new(LLAMA);
    assert_eq!(nn.model_path, LLAMA);
    assert!(nn.model_map.is_empty());
    assert_eq!(nn.raw_model_map.len(), 1);
    let (name, model) = &nn.raw_model_map[0];
    assert_eq!(name, "default");
    assert_eq!(model.data, b"preload:llama-2-7b-chat-q5_k_m.gguf".to_vec());
    assert_eq!(model.backend, Backend::GGML);
    assert_eq!(model.device, Device::AUTO);
}

#[test]
fn load_by_name_puts_the_graph_handle() {
    let nn = WasiEphemeralNn::new(LLAMA);
    let mut mem = InternalMemoryInst { data: vec![0xff; 32], max: None };
    mem.data[0..7].copy_from_slice(b"default");
    assert_eq!(read_model_name(&mem, 0, 7).as_deref(), Some("default"));
    assert_eq!(nn.load_by_name(&mut mem, 0, 7, 16), Ok(0));
    assert_eq!(&mem.data[16..20], &[0, 0, 0, 0]);
    assert_eq!(mem.data[20], 0xff);
    // a handle that does not fit is an error, and nothing changes
    let before = mem.data.clone();
    assert_eq!(nn.load_by_name(&mut mem, 0, 7, 30), Err(RuntimeError::OutOfBoundsMemoryAccess));
    assert_eq!(mem.data, before);
    // a kept handle is used, most significant byte first
    let mut nn = nn;
    nn.model_map.push(("default".to_string(), 0x0102_0304));
    assert_eq!(nn.load_by_name(&mut mem, 0, 7, 8), Ok(0));
    assert_eq!(&mem.data[8..12], &[1, 2, 3, 4]);
}

#[test]
fn a_model_name_must_be_in_memory_and_utf8() {
    let mut mem = InternalMemoryInst { data: vec![0; 8], max: None };
    mem.data[0] = 0xff;
    assert_eq!(read_model_name(&mem, 0, 1), None);
    assert_eq!(read_model_name(&mem, 4, 5), None);
    assert_eq!(read_model_name(&mem, 1, 2).as_deref(), Some("\0\0"));
}

#[test]
fn the_other_functions_answer_zero() {
    let nn = WasiEphemeralNn::new(LLAMA);
    assert_eq!(nn.build_model(&"default".to_string()), 0);
    assert_eq!(nn.init_execution_context(0, 4), 0);
    assert_eq!(nn.compute(1), 0);
    assert_eq!(nn.get_output(1, 0, 8, 16, 24), 0);
    assert_eq!(nn.set_input(1, 0, 8), 0);
}
