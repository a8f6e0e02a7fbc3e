//! Conversion between typed buffers and raw bytes.
use openvino_backend::cpu_storage::CpuStorage;
use openvino_backend::dtype::DType;
use openvino_backend::error::{Error, OpenVinoError};
use openvino_backend::layout::{Layout, Shape};
use openvino_backend::utils::{
    bytecast, bytes_to_cpu_storage, cast_slice, check_len, cpu_storage_to_bytes,
};

fn vector(n: usize) -> Layout {
    Layout::contiguous(Shape::from(n))
}

fn samples() -> Vec<CpuStorage> {
    vec![
        CpuStorage::U8(vec![0, 1, 255]),
        CpuStorage::U32(vec![0, 1, u32::MAX]),
        CpuStorage::I16(vec![0, -1, i16::MIN]),
        CpuStorage::I32(vec![0, -1, i32::MIN]),
        CpuStorage::I64(vec![0, -1, i64::MIN]),
        CpuStorage::BF16(vec![0, 0x3f80, 0xffff]),
        CpuStorage::F16(vec![0, 0x3c00, 0xffff]),
        CpuStorage::F32(vec![0, 1.0f32.to_bits(), f32::NAN.to_bits()]),
        CpuStorage::F64(vec![0, 1.0f64.to_bits(), f64::NAN.to_bits()]),
        CpuStorage::F8E4M3(vec![0, 0x38, 0x7f]),
        CpuStorage::F6E2M3(vec![0, 1, 63]),
        CpuStorage::F6E3M2(vec![0, 1, 63]),
        CpuStorage::F4(vec![0, 1, 15]),
        CpuStorage::F8E8M0(vec![0, 127, 255]),
    ]
}

#[test]
fn bytes_are_little_endian() {
    let u32s = CpuStorage::U32(vec![0x04030201, 0x08070605]);
    assert_eq!(cpu_storage_to_bytes(&u32s), Ok(vec![1, 2, 3, 4, 5, 6, 7, 8]));
    let i16s = CpuStorage::I16(vec![-2, 0x0102]);
    assert_eq!(cpu_storage_to_bytes(&i16s), Ok(vec![0xfe, 0xff, 2, 1]));
    let i32s = CpuStorage::I32(vec![-2]);
    assert_eq!(cpu_storage_to_bytes(&i32s), Ok(vec![0xfe, 0xff, 0xff, 0xff]));
    let i64s = CpuStorage::I64(vec![i64::MIN]);
    assert_eq!(cpu_storage_to_bytes(&i64s), Ok(vec![0, 0, 0, 0, 0, 0, 0, 0x80]));
    let f64s = CpuStorage::F64(vec![1.0f64.to_bits()]);
    assert_eq!(cpu_storage_to_bytes(&f64s), Ok(1.0f64.to_le_bytes().to_vec()));
}

#[test]
fn float_buffers_have_the_bytes_of_the_floats() {
    let f32s = CpuStorage::F32(vec![1.5f32.to_bits(), (-2.25f32).to_bits()]);
    let mut expected = 1.5f32.to_le_bytes().to_vec();
    expected.extend((-2.25f32).to_le_bytes());
    assert_eq!(cpu_storage_to_bytes(&f32s), Ok(expected));
    let half_one = half::f16::from_f32(1.0);
    let f16s = CpuStorage::F16(vec![half_one.to_bits()]);
    assert_eq!(cpu_storage_to_bytes(&f16s), Ok(half_one.to_le_bytes().to_vec()));
    let brain_one = half::bf16::from_f32(1.0);
    let bf16s = CpuStorage::BF16(vec![brain_one.to_bits()]);
    assert_eq!(cpu_storage_to_bytes(&bf16s), Ok(brain_one.to_le_bytes().to_vec()));
}

#[test]
fn every_type_survives_the_round_trip() {
    for sample in samples() {
        let bytes = cpu_storage_to_bytes(&sample).unwrap();
        let back = bytes_to_cpu_storage(&bytes, sample.dtype(), &vector(3));
        assert_eq!(back, Ok(sample));
    }
}

#[test]
fn reading_keeps_the_bytes() {
    let bytes: Vec<u8> = (0..48).collect();
    for sample in samples() {
        let dtype = sample.dtype();
        let cpu = bytes_to_cpu_storage(&bytes, dtype, &vector(6)).unwrap();
        let written = cpu_storage_to_bytes(&cpu).unwrap();
        let width = if dtype.size_in_bytes() == 0 { 1 } else { dtype.size_in_bytes() };
        assert_eq!(written, bytes[..6 * width].to_vec());
    }
}

#[test]
fn same_bytes_mean_same_elements() {
    let a = CpuStorage::I32(vec![7, -7]);
    let b = CpuStorage::I32(vec![7, -8]);
    assert_ne!(cpu_storage_to_bytes(&a), cpu_storage_to_bytes(&b));
}

#[test]
fn eight_bit_floats_keep_their_pattern() {
    let patterns: Vec<u8> = (0..=255).collect();
    let cpu = bytes_to_cpu_storage(&patterns, DType::F8E4M3, &vector(256)).unwrap();
    assert_eq!(cpu, CpuStorage::F8E4M3(patterns.clone()));
    assert_eq!(cpu_storage_to_bytes(&cpu), Ok(patterns));
    assert_eq!(float8::F8E4M3::from_f32(1.0).to_bits(), 0x38);
}

#[test]
fn layout_is_only_counted() {
    let bytes = vec![1u8, 0, 0, 0, 2, 0, 0, 0, 3, 0, 0, 0, 4, 0, 0, 0];
    let transposed = Layout::new(Shape { dims: vec![2, 2] }, vec![1, 2], 1);
    let expected = Ok(CpuStorage::U32(vec![1, 2, 3, 4]));
    assert_eq!(bytes_to_cpu_storage(&bytes, DType::U32, &transposed), expected);
    assert_eq!(bytes_to_cpu_storage(&bytes, DType::U32, &vector(4)), expected);
}

#[test]
fn surplus_bytes_are_left_alone() {
    let bytes = vec![1u8, 0, 2, 0, 9];
    assert_eq!(
        bytes_to_cpu_storage(&bytes, DType::I16, &vector(2)),
        Ok(CpuStorage::I16(vec![1, 2]))
    );
    assert_eq!(
        bytes_to_cpu_storage(&bytes, DType::F8E8M0, &vector(2)),
        Ok(CpuStorage::F8E8M0(vec![1, 0]))
    );
    assert_eq!(
        bytes_to_cpu_storage(&bytes, DType::U8, &vector(0)),
        Ok(CpuStorage::U8(vec![]))
    );
}

#[test]
fn short_buffer_is_reported() {
    let r = bytes_to_cpu_storage(&[0; 5], DType::F32, &vector(3));
    let text = "buffer too small: need 12 bytes for 3 elements of size 4, got 5";
    assert_eq!(r, Err(Error::OpenVino(OpenVinoError::Message(text.to_string()))));
}

#[test]
fn check_len_accepts_what_fits() {
    assert_eq!(check_len(&[0; 12], 3, 4), Ok(()));
    assert_eq!(check_len(&[0; 13], 3, 4), Ok(()));
    assert_eq!(check_len(&[], 0, 8), Ok(()));
    let text = "buffer too small: need 16 bytes for 2 elements of size 8, got 15";
    assert_eq!(
        check_len(&[0; 15], 2, 8),
        Err(Error::OpenVino(OpenVinoError::Message(text.to_string())))
    );
}

#[test]
fn casts_are_inverse() {
    let values = [i64::MIN, -1, 0, 1, i64::MAX];
    let bytes = bytecast(&values);
    assert_eq!(bytes.len(), 40);
    assert_eq!(cast_slice::<i64>(&bytes, 5), values.to_vec());
    assert_eq!(cast_slice::<i64>(&bytes, 2), values[..2].to_vec());
    assert_eq!(cast_slice::<u16>(&[0x34, 0x12, 0xff], 1), vec![0x1234]);
}

#[test]
fn sizes_of_element_types() {
    let sizes = [
        (DType::U8, 1),
        (DType::U32, 4),
        (DType::I16, 2),
        (DType::I32, 4),
        (DType::I64, 8),
        (DType::BF16, 2),
        (DType::F16, 2),
        (DType::F32, 4),
        (DType::F64, 8),
        (DType::F8E4M3, 1),
        (DType::F6E2M3, 0),
        (DType::F6E3M2, 0),
        (DType::F4, 0),
        (DType::F8E8M0, 1),
    ];
    for (dtype, size) in sizes {
        assert_eq!(dtype.size_in_bytes(), size);
    }
}

#[test]
fn contiguous_strides() {
    let l = Layout::contiguous(Shape { dims: vec![2, 3, 4] });
    assert_eq!(l.stride, vec![12, 4, 1]);
    assert_eq!(l.start_offset, 0);
    assert_eq!(l.shape().elem_count(), 24);
    let scalar = Layout::contiguous(Shape { dims: vec![] });
    assert_eq!(scalar.stride, Vec::<usize>::new());
    assert_eq!(scalar.shape().elem_count(), 1);
    assert_eq!(Shape { dims: vec![5, 0, 7] }.elem_count(), 0);
    assert_eq!(Shape::from(9).dims, vec![9]);
}
