//! Devices, the storages they make, and errors.
use openvino_backend::cpu_storage::CpuStorage;
use openvino_backend::device::{npu_name, preferred_device, DeviceLocation, OpenVinoDevice};
use openvino_backend::dtype::DType;
use openvino_backend::error::{from_ov_error, Error, OpenVinoError, OpenVinoResult};
use openvino_backend::layout::{Layout, Shape};

fn device(name: &str, ordinal: usize) -> OpenVinoDevice<()> {
    OpenVinoDevice::with_runtime((), name.to_string(), ordinal)
}

fn names(list: &[&str]) -> Vec<String> {
    list.iter().map(|name| name.to_string()).collect()
}

#[test]
fn npus_are_named_by_ordinal() {
    assert_eq!(npu_name(0), "NPU");
    assert_eq!(npu_name(1), "NPU.1");
    assert_eq!(npu_name(3), "NPU.3");
    assert_eq!(npu_name(1024), "NPU.1024");
}

#[test]
fn npus_have_names_of_their_own() {
    let mut seen: Vec<String> = Vec::new();
    for ordinal in 0..120 {
        let name = npu_name(ordinal);
        assert!(!seen.contains(&name));
        seen.push(name);
    }
}

#[test]
fn npu_is_preferred_to_gpu_and_gpu_to_cpu() {
    assert_eq!(preferred_device(&names(&["CPU", "GPU", "NPU"])), Some("NPU"));
    assert_eq!(preferred_device(&names(&["CPU", "GPU"])), Some("GPU"));
    assert_eq!(preferred_device(&names(&["CPU", "GPU.1"])), Some("CPU"));
    assert_eq!(preferred_device(&names(&["GNA", "NPU.1"])), None);
    assert_eq!(preferred_device(&names(&[])), None);
}

#[test]
fn device_tells_its_parts() {
    let d = device("GPU", 2);
    assert_eq!(d.device_name(), "GPU");
    assert_eq!(d.location(), DeviceLocation::Npu { device_id: 2 });
    assert_eq!(d.debug_string(), "OpenVinoDevice(device=GPU, ordinal=2)");
}

#[test]
fn a_clone_is_the_same_device() {
    let d = device("NPU", 0);
    let copy = d.clone();
    assert!(d.same_device(&copy));
    assert!(copy.same_device(&d));
    assert!(d.same_device(&d));
}

#[test]
fn devices_with_runtimes_of_their_own_differ() {
    assert!(!device("NPU", 0).same_device(&device("NPU", 0)));
}

#[test]
fn sameness_is_an_equivalence() {
    let (a, other) = (device("NPU", 0), device("NPU", 0));
    let b = a.clone();
    let c = b.clone();
    assert!(a.same_device(&b) && b.same_device(&c) && a.same_device(&c) && c.same_device(&a));
    for d in [&a, &b, &c] {
        assert!(!d.same_device(&other) && !other.same_device(d));
    }
}

#[test]
fn names_and_ordinals_matter() {
    assert!(!device("NPU", 0).same_device(&device("GPU", 0)));
    assert!(!device("NPU", 0).same_device(&device("NPU", 1)));
}

#[test]
fn zeros_are_zero() {
    let d = device("NPU", 0);
    let shape = Shape { dims: vec![2, 3] };
    let s = d.zeros_impl(&shape, DType::F64).unwrap();
    assert_eq!(s.bytes(), &[0u8; 48][..]);
    assert_eq!(s.to_cpu_storage(), Ok(CpuStorage::F64(vec![0.0f64.to_bits(); 6])));
    let s = d.zeros_impl(&shape, DType::I32).unwrap();
    assert_eq!(s.to_cpu(&Layout::contiguous(shape)), Ok(CpuStorage::I32(vec![0; 6])));
    assert!(s.device().same_device(&d));
}

#[test]
fn types_without_a_size_get_no_bytes() {
    let d = device("NPU", 0);
    let s = d.zeros_impl(&Shape { dims: vec![4] }, DType::F4).unwrap();
    assert_eq!(s.bytes().len(), 0);
    assert_eq!(s.dtype(), DType::F4);
}

#[test]
fn uninitialised_storage_has_the_right_size() {
    let d = device("NPU", 0);
    let s = d.alloc_uninit(&Shape { dims: vec![3, 5] }, DType::BF16).unwrap();
    assert_eq!(s.bytes().len(), 30);
    assert_eq!(s.dtype(), DType::BF16);
}

#[test]
fn slices_become_storages() {
    let d = device("NPU", 0);
    let s = d.storage_from_slice(&[1u32, 258]).unwrap();
    assert_eq!(s.dtype(), DType::U32);
    assert_eq!(s.bytes(), &[1u8, 0, 0, 0, 2, 1, 0, 0][..]);
    assert_eq!(d.storage_from_slice(&[1u8, 2]).unwrap().dtype(), DType::U8);
    assert_eq!(d.storage_from_slice(&[1i16]).unwrap().bytes(), &[1u8, 0][..]);
    assert_eq!(d.storage_from_slice(&[-1i32]).unwrap().bytes(), &[0xffu8; 4][..]);
    assert_eq!(d.storage_from_slice(&[-1i64]).unwrap().dtype(), DType::I64);
}

#[test]
fn typed_buffers_become_storages() {
    let d = device("NPU", 0);
    let cpu = CpuStorage::F32(vec![1.0f32.to_bits(), 2.0f32.to_bits()]);
    let s = d.storage_from_cpu_storage(&cpu).unwrap();
    assert_eq!(s.to_cpu_storage(), Ok(cpu.clone()));
    let s = d.storage_from_cpu_storage_owned(cpu.clone()).unwrap();
    assert_eq!(s.to_cpu_storage(), Ok(cpu));
    assert_eq!(s.debug_string(), "OpenVinoStorage(dtype=F32)");
}

#[test]
fn seeds_are_the_cpus_business() {
    let d = device("NPU", 0);
    assert_eq!(d.set_seed(299792458), Ok(()));
    let text = "get_current_seed is not supported for the OpenVINO backend";
    assert_eq!(d.get_current_seed(), Err(Error::Msg(text.to_string())));
    assert_eq!(d.synchronize(), Ok(()));
}

#[test]
fn errors_are_shown_with_their_origin() {
    assert_eq!(OpenVinoError::Message("no".to_string()).display(), "no");
    assert_eq!(
        OpenVinoError::Runtime("no".to_string()).display(),
        "OpenVINO runtime error: no"
    );
    assert_eq!(OpenVinoError::from("no"), OpenVinoError::Message("no".to_string()));
    assert_eq!(
        OpenVinoError::from("yes".to_string()),
        OpenVinoError::Message("yes".to_string())
    );
    let r: OpenVinoResult<()> = Err(from_ov_error(17));
    assert_eq!(r, Err(OpenVinoError::Runtime("17".to_string())));
}

#[test]
fn runtime_errors_keep_their_text() {
    let e = openvino::InferenceError {
        kind: openvino::InferenceErrorKind::NotFound,
        message: Some("no such device".to_string()),
    };
    assert_eq!(
        from_ov_error(e),
        OpenVinoError::Runtime("not found: no such device".to_string())
    );
}

#[test]
fn a_device_without_a_runtime_is_a_runtime_error() {
    match OpenVinoDevice::new_with_device("CPU".to_string(), 1) {
        Ok(d) => {
            assert_eq!(d.device_name(), "CPU");
            assert_eq!(d.location(), DeviceLocation::Npu { device_id: 1 });
        }
        Err(e) => assert!(matches!(e, Error::OpenVino(OpenVinoError::Runtime(_)))),
    }
    match OpenVinoDevice::new(1) {
        Ok(d) => assert_eq!(d.device_name(), "NPU.1"),
        Err(e) => assert!(matches!(e, Error::OpenVino(OpenVinoError::Runtime(_)))),
    }
}
