//! Programs that use the backend, with kernels for the elements that they need.
use openvino_backend::backend::{BinaryOpT, CpuBackend, UnaryOpT};
use openvino_backend::cpu_storage::CpuStorage;
use openvino_backend::device::OpenVinoDevice;
use openvino_backend::dtype::DType;
use openvino_backend::error::{Error, OpenVinoError, Result};
use openvino_backend::inference::InferenceJob;
use openvino_backend::layout::{Layout, Shape};
use openvino_backend::matmul::{first_output, matmul_job, matmul_model, ov_element, MatMulPlan};
use openvino_backend::runtime::OvElement;
use openvino_backend::storage::OpenVinoStorage;

struct Host;

struct Add;

struct Mul;

struct Relu;

impl BinaryOpT for Add {
    fn apply(_dtype: DType, x: u64, y: u64) -> u64 {
        (f32::from_bits(x as u32) + f32::from_bits(y as u32)).to_bits() as u64
    }
}

impl BinaryOpT for Mul {
    fn apply(_dtype: DType, x: u64, y: u64) -> u64 {
        (f32::from_bits(x as u32) * f32::from_bits(y as u32)).to_bits() as u64
    }
}

impl UnaryOpT for Relu {
    fn apply(_dtype: DType, x: u64) -> u64 {
        f32::from_bits(x as u32).max(0.0).to_bits() as u64
    }
}

fn f32s(cpu: &CpuStorage) -> Vec<u32> {
    match cpu {
        CpuStorage::F32(v) => v.clone(),
        _ => panic!("unexpected buffer {cpu:?}"),
    }
}

fn i64s(cpu: &CpuStorage) -> Vec<i64> {
    match cpu {
        CpuStorage::I64(v) => v.clone(),
        _ => panic!("unexpected buffer {cpu:?}"),
    }
}

fn u8s(cpu: &CpuStorage) -> Vec<u8> {
    match cpu {
        CpuStorage::U8(v) => v.clone(),
        _ => panic!("unexpected buffer {cpu:?}"),
    }
}

fn u32s(cpu: &CpuStorage) -> Vec<u32> {
    match cpu {
        CpuStorage::U32(v) => v.clone(),
        _ => panic!("unexpected buffer {cpu:?}"),
    }
}

/// Where the elements that a layout shows lie, in row-major order.
fn positions(l: &Layout) -> Vec<usize> {
    let mut all = vec![l.start_offset];
    for (d, stride) in l.shape.dims.iter().zip(&l.stride) {
        all = all.iter().flat_map(|at| (0..*d).map(move |i| at + i * stride)).collect();
    }
    all
}

fn shown<T: Copy>(v: &[T], l: &Layout) -> Vec<T> {
    positions(l).into_iter().map(|at| v[at]).collect()
}

fn missing() -> Result<CpuStorage> {
    Err(Error::Msg("no such kernel".to_string()))
}

impl CpuBackend for Host {
    type Float = f64;
    type ReduceOp = ();
    type CmpOp = ();
    type Scalar = u8;
    type ParamsConv1D = ();
    type ParamsConvTranspose1D = ();
    type ParamsConv2D = ();
    type ParamsConvTranspose2D = ();

    fn affine(_cpu: &CpuStorage, _l: &Layout, _mul: f64, _add: f64) -> Result<CpuStorage> {
        missing()
    }

    fn powf(_cpu: &CpuStorage, _l: &Layout, _alpha: f64) -> Result<CpuStorage> {
        missing()
    }

    fn elu(_cpu: &CpuStorage, _l: &Layout, _alpha: f64) -> Result<CpuStorage> {
        missing()
    }

    fn reduce_op(cpu: &CpuStorage, _op: (), l: &Layout, dims: &[usize]) -> Result<CpuStorage> {
        // Sums over the last dimension.
        let row = l.shape.dims[dims[0]];
        let out = shown(&f32s(cpu), l);
        let sums = out.chunks(row).map(|r| r.iter().map(|x| f32::from_bits(*x)).sum::<f32>().to_bits());
        Ok(CpuStorage::F32(sums.collect()))
    }

    fn cmp(_lhs: &CpuStorage, _op: (), _rhs: &CpuStorage, _lhs_l: &Layout, _rhs_l: &Layout) -> Result<CpuStorage> {
        missing()
    }

    fn to_dtype(cpu: &CpuStorage, l: &Layout, dtype: DType) -> Result<CpuStorage> {
        let out = shown(&f32s(cpu), l).into_iter();
        assert_eq!(dtype, DType::F16);
        Ok(CpuStorage::F16(out.map(|x| half::f16::from_f32(f32::from_bits(x)).to_bits()).collect()))
    }

    fn unary_impl<B: UnaryOpT>(cpu: &CpuStorage, l: &Layout) -> Result<CpuStorage> {
        let out = shown(&f32s(cpu), l).into_iter().map(|x| B::apply(DType::F32, x as u64) as u32);
        Ok(CpuStorage::F32(out.collect()))
    }

    fn binary_impl<B: BinaryOpT>(lhs: &CpuStorage, rhs: &CpuStorage, lhs_l: &Layout, rhs_l: &Layout) -> Result<CpuStorage> {
        let (a, b) = (shown(&f32s(lhs), lhs_l), shown(&f32s(rhs), rhs_l));
        let out = a.into_iter().zip(b).map(|(x, y)| B::apply(DType::F32, x as u64, y as u64) as u32);
        Ok(CpuStorage::F32(out.collect()))
    }

    fn where_cond(_cond: &CpuStorage, _l: &Layout, _t: &CpuStorage, _t_l: &Layout, _f: &CpuStorage, _f_l: &Layout) -> Result<CpuStorage> {
        missing()
    }

    fn conv1d(_inp: &CpuStorage, _l: &Layout, _kernel: &CpuStorage, _kernel_l: &Layout, _params: &()) -> Result<CpuStorage> {
        missing()
    }

    fn conv_transpose1d(_inp: &CpuStorage, _l: &Layout, _kernel: &CpuStorage, _kernel_l: &Layout, _params: &()) -> Result<CpuStorage> {
        missing()
    }

    fn conv2d(_inp: &CpuStorage, _l: &Layout, _kernel: &CpuStorage, _kernel_l: &Layout, _params: &()) -> Result<CpuStorage> {
        missing()
    }

    fn conv_transpose2d(_inp: &CpuStorage, _l: &Layout, _kernel: &CpuStorage, _kernel_l: &Layout, _params: &()) -> Result<CpuStorage> {
        missing()
    }

    fn avg_pool2d(_cpu: &CpuStorage, _l: &Layout, _ks: (usize, usize), _stride: (usize, usize)) -> Result<CpuStorage> {
        missing()
    }

    fn max_pool2d(_cpu: &CpuStorage, _l: &Layout, _ks: (usize, usize), _stride: (usize, usize)) -> Result<CpuStorage> {
        missing()
    }

    fn upsample_nearest1d(_cpu: &CpuStorage, _l: &Layout, _sz: usize) -> Result<CpuStorage> {
        missing()
    }

    fn upsample_nearest2d(_cpu: &CpuStorage, _l: &Layout, _h: usize, _w: usize) -> Result<CpuStorage> {
        missing()
    }

    fn upsample_bilinear2d(_cpu: &CpuStorage, _l: &Layout, _h: usize, _w: usize, _align_corners: bool, _scale_h: Option<f64>, _scale_w: Option<f64>) -> Result<CpuStorage> {
        missing()
    }

    fn gather(_src: &CpuStorage, _l: &Layout, _indices: &CpuStorage, _indices_l: &Layout, _d: usize) -> Result<CpuStorage> {
        missing()
    }

    fn scatter_set(dst: CpuStorage, l: &Layout, indices: &CpuStorage, indices_l: &Layout, src: &CpuStorage, src_l: &Layout, d: usize) -> Result<CpuStorage> {
        let mut out = u32s(&dst);
        assert_eq!(d, 0);
        for (at, x) in shown(&u32s(indices), indices_l).into_iter().zip(shown(&u32s(src), src_l)) {
            out[l.position_of(at as usize)] = x;
        }
        Ok(CpuStorage::U32(out))
    }

    fn scatter_add_set(dst: CpuStorage, l: &Layout, indices: &CpuStorage, indices_l: &Layout, src: &CpuStorage, src_l: &Layout, d: usize) -> Result<CpuStorage> {
        let mut out = u32s(&dst);
        assert_eq!(d, 0);
        for (at, x) in shown(&u32s(indices), indices_l).into_iter().zip(shown(&u32s(src), src_l)) {
            out[l.position_of(at as usize)] += x;
        }
        Ok(CpuStorage::U32(out))
    }

    fn index_select(_src: &CpuStorage, _indices: &CpuStorage, _l: &Layout, _indices_l: &Layout, _d: usize) -> Result<CpuStorage> {
        missing()
    }

    fn index_add(_dst: &CpuStorage, _l: &Layout, _indices: &CpuStorage, _indices_l: &Layout, _src: &CpuStorage, _src_l: &Layout, _d: usize) -> Result<CpuStorage> {
        missing()
    }

    fn matmul(lhs: &CpuStorage, rhs: &CpuStorage, bmnk: (usize, usize, usize, usize), lhs_l: &Layout, rhs_l: &Layout) -> Result<CpuStorage> {
        let (batch, m, n, k) = bmnk;
        let (a, b) = (shown(&i64s(lhs), lhs_l), shown(&i64s(rhs), rhs_l));
        let mut out = Vec::new();
        for i in 0..batch * m {
            for j in 0..n {
                let at = i / m * k * n + j;
                out.push((0..k).map(|x| a[i * k + x] * b[at + x * n]).sum());
            }
        }
        Ok(CpuStorage::I64(out))
    }

    fn copy_strided_src(src: &CpuStorage, dst: CpuStorage, dst_offset: usize, src_l: &Layout) -> Result<CpuStorage> {
        let mut out = u32s(&dst);
        for (i, x) in shown(&u32s(src), src_l).into_iter().enumerate() {
            out[dst_offset + i] = x;
        }
        Ok(CpuStorage::U32(out))
    }

    fn copy2d(src: &CpuStorage, dst: CpuStorage, d1: usize, d2: usize, src_s: usize, dst_s: usize, src_o: usize, dst_o: usize) -> Result<CpuStorage> {
        let (from, mut out) = (u32s(src), u32s(&dst));
        for i in 0..d1 {
            for j in 0..d2 {
                out[dst_o + i * dst_s + j] = from[src_o + i * src_s + j];
            }
        }
        Ok(CpuStorage::U32(out))
    }

    fn const_set(cpu: CpuStorage, v: u8, l: &Layout) -> Result<CpuStorage> {
        let mut out = u8s(&cpu);
        for at in positions(l) {
            out[at] = v;
        }
        Ok(CpuStorage::U8(out))
    }

    fn rand_uniform(_shape: &Shape, _dtype: DType, _lo: f64, _hi: f64) -> Result<CpuStorage> {
        missing()
    }

    fn rand_normal(_shape: &Shape, _dtype: DType, _mean: f64, _std_dev: f64) -> Result<CpuStorage> {
        missing()
    }
}

fn device() -> OpenVinoDevice<()> {
    OpenVinoDevice::with_runtime((), "CPU".to_string(), 0)
}

fn tensor(values: &[f32]) -> OpenVinoStorage<()> {
    let cpu = CpuStorage::F32(values.iter().map(|x| x.to_bits()).collect());
    device().storage_from_cpu_storage(&cpu).unwrap()
}

fn integers(values: impl Iterator<Item = i64>) -> OpenVinoStorage<()> {
    device().storage_from_slice(&values.collect::<Vec<i64>>()).unwrap()
}

fn words(values: &[u32]) -> OpenVinoStorage<()> {
    device().storage_from_slice(values).unwrap()
}

fn strided(dims: &[usize], stride: &[usize], start_offset: usize) -> Layout {
    Layout::new(Shape { dims: dims.to_vec() }, stride.to_vec(), start_offset)
}

fn shaped(dims: &[usize]) -> Layout {
    Layout::contiguous(Shape { dims: dims.to_vec() })
}

fn floats(s: &OpenVinoStorage<()>) -> Vec<f32> {
    f32s(&s.to_cpu_storage().unwrap()).into_iter().map(f32::from_bits).collect()
}

fn job(plan: Result<MatMulPlan>) -> InferenceJob {
    match plan {
        Ok(MatMulPlan::OpenVino(job)) => job,
        _ => panic!("no job"),
    }
}

#[test]
fn element_wise_operations() {
    let l = shaped(&[2, 2]);
    let a = tensor(&[1.0, 2.0, 3.0, 4.0]);
    let b = tensor(&[10.0, 20.0, 30.0, 40.0]);
    let sum = a.binary_impl::<Host, Add>(&b, &l, &l).unwrap();
    assert_eq!(floats(&sum), vec![11.0, 22.0, 33.0, 44.0]);
    let product = a.binary_impl::<Host, Mul>(&b, &l, &l).unwrap();
    assert_eq!(floats(&product), vec![10.0, 40.0, 90.0, 160.0]);
    let neg = tensor(&[-1.0, 2.0, -3.0, 4.0]);
    let relu = neg.unary_impl::<Host, Relu>(&l).unwrap();
    assert_eq!(floats(&relu), vec![0.0, 2.0, 0.0, 4.0]);
    let sums = a.reduce_op::<Host>((), &l, &[1]).unwrap();
    assert_eq!(floats(&sums), vec![3.0, 7.0]);
}

#[test]
fn fallback_leaves_the_operands_alone() {
    let l = shaped(&[2, 2]);
    let a = tensor(&[1.0, 2.0, 3.0, 4.0]);
    let b = tensor(&[10.0, 20.0, 30.0, 40.0]);
    a.binary_impl::<Host, Add>(&b, &l, &l).unwrap();
    assert_eq!(floats(&a), vec![1.0, 2.0, 3.0, 4.0]);
    assert_eq!(floats(&b), vec![10.0, 20.0, 30.0, 40.0]);
    assert_eq!(a.affine::<Host>(&l, 1.0, 2.0).err(), missing().err());
}

#[test]
fn round_trip_from_the_cpu_to_the_device_and_back() {
    assert_eq!(floats(&tensor(&[1.0, 2.0, 3.0])), vec![1.0, 2.0, 3.0]);
}

#[test]
fn conversion_changes_the_element_type() {
    let h = tensor(&[1.0, -2.0]).to_dtype::<Host>(&shaped(&[2]), DType::F16).unwrap();
    assert_eq!(h.dtype(), DType::F16);
    assert_eq!(h.to_cpu_storage(), Ok(CpuStorage::F16(vec![0x3c00, 0xc000])));
}

#[test]
fn a_broadcast_operand() {
    let a = tensor(&[1.0, 2.0, 3.0, 4.0]);
    let row = tensor(&[10.0, 20.0]);
    let broadcast = strided(&[2, 2], &[0, 1], 0);
    let sum = a.binary_impl::<Host, Add>(&row, &shaped(&[2, 2]), &broadcast).unwrap();
    assert_eq!(floats(&sum), vec![11.0, 22.0, 13.0, 24.0]);
}

#[test]
fn an_operand_that_starts_later() {
    let a = tensor(&[-9.0, 9.0, -1.0, 2.0]);
    let relu = a.unary_impl::<Host, Relu>(&strided(&[2], &[1], 2)).unwrap();
    assert_eq!(floats(&relu), vec![0.0, 2.0]);
}

#[test]
fn a_fill_leaves_other_elements_alone() {
    let mut s = device().storage_from_slice(&[1u8, 2, 3, 4]).unwrap();
    assert_eq!(s.const_set::<Host>(9, &shaped(&[2])), Ok(()));
    assert_eq!(s.to_cpu_storage(), Ok(CpuStorage::U8(vec![9, 9, 3, 4])));
    assert_eq!(s.const_set::<Host>(7, &strided(&[2], &[2], 1)), Ok(()));
    assert_eq!(s.to_cpu_storage(), Ok(CpuStorage::U8(vec![9, 7, 3, 7])));
}

#[test]
fn copies_take_the_shown_elements() {
    let s = words(&[1, 2, 3, 4]);
    let mut dst = words(&[0, 0]);
    assert_eq!(s.copy_strided_src::<Host>(&mut dst, 0, &strided(&[2], &[1], 2)), Ok(()));
    assert_eq!(dst.to_cpu_storage(), Ok(CpuStorage::U32(vec![3, 4])));
    let mut dst = words(&[9, 9, 9, 9, 9]);
    assert_eq!(s.copy2d::<Host>(&mut dst, 2, 1, 2, 3, 1, 0), Ok(()));
    assert_eq!(dst.to_cpu_storage(), Ok(CpuStorage::U32(vec![2, 9, 9, 4, 9])));
}

#[test]
fn scattering_leaves_other_elements_alone() {
    let mut s = words(&[1, 2, 3, 4]);
    let (at, src) = (words(&[1]), words(&[50, 60]));
    let l = shaped(&[2]);
    let last = strided(&[1], &[1], 1);
    assert_eq!(s.scatter_set::<Host>(&l, &at, &shaped(&[1]), &src, &last, 0), Ok(()));
    assert_eq!(s.to_cpu_storage(), Ok(CpuStorage::U32(vec![1, 60, 3, 4])));
    assert_eq!(s.scatter_add_set::<Host>(&l, &at, &shaped(&[1]), &src, &last, 0), Ok(()));
    assert_eq!(s.to_cpu_storage(), Ok(CpuStorage::U32(vec![1, 120, 3, 4])));
}

#[test]
fn replacing_the_contents() {
    let mut s = tensor(&[1.0, 2.0]);
    assert_eq!(s.replace_storage_from_cpu(CpuStorage::I16(vec![4, 5, 6])), Ok(()));
    assert_eq!(s.dtype(), DType::I16);
    assert_eq!(s.to_cpu_storage(), Ok(CpuStorage::I16(vec![4, 5, 6])));
    assert_eq!(s.device().device_name(), "CPU");
}

#[test]
fn a_copy_holds_the_shown_elements() {
    let s = device().storage_from_slice(&[10u8, 20, 30, 40]).unwrap();
    let tail = s.try_clone(&strided(&[2], &[1], 2)).unwrap();
    assert_eq!(tail.to_cpu_storage(), Ok(CpuStorage::U8(vec![30, 40])));
    let transposed = s.try_clone(&strided(&[2, 2], &[1, 2], 0)).unwrap();
    assert_eq!(transposed.to_cpu_storage(), Ok(CpuStorage::U8(vec![10, 30, 20, 40])));
    assert_eq!(transposed.visible_cpu(&shaped(&[2, 2])), s.visible_cpu(&strided(&[2, 2], &[1, 2], 0)));
    let repeated = s.try_clone(&strided(&[2, 3], &[0, 1], 1)).unwrap();
    assert_eq!(repeated.to_cpu_storage(), Ok(CpuStorage::U8(vec![20, 30, 40, 20, 30, 40])));
    let none = s.try_clone(&strided(&[0], &[1], 9)).unwrap();
    assert_eq!(none.to_cpu_storage(), Ok(CpuStorage::U8(vec![])));
    assert!(tail.device().same_device(s.device()));
}

#[test]
fn a_layout_that_reaches_past_the_end_is_reported() {
    let s = tensor(&[1.0, 2.0, 3.0]);
    let text = "buffer too small: need 16 bytes for 4 elements of size 4, got 12";
    let expected = Some(Error::OpenVino(OpenVinoError::Message(text.to_string())));
    assert_eq!(s.try_clone(&shaped(&[2, 2])).err(), expected);
    assert_eq!(s.try_clone(&strided(&[2], &[1], 2)).err(), expected);
    assert_eq!(s.visible_cpu(&strided(&[2], &[3], 0)).err(), expected);
    assert_eq!(strided(&[2, 2], &[0, 1], 0).required_len(), 2);
    assert_eq!(strided(&[2, 3], &[5, 1], 4).position_of(4), 10);
}

#[test]
fn full_read_drops_a_broken_last_element() {
    let s = tensor(&[1.0]).finish_matmul(Ok(vec![1, 0, 0, 0, 2])).unwrap();
    assert_eq!(s.to_cpu_storage(), Ok(CpuStorage::F32(vec![1])));
}

#[test]
fn native_element_types() {
    assert_eq!(ov_element(DType::F32), Some(OvElement::F32));
    assert_eq!(ov_element(DType::F16), Some(OvElement::F16));
    assert_eq!(ov_element(DType::BF16), Some(OvElement::BF16));
    for dtype in [DType::U8, DType::U32, DType::I64, DType::F64, DType::F8E4M3, DType::F4] {
        assert_eq!(ov_element(dtype), None);
    }
}

#[test]
fn integers_are_multiplied_on_the_cpu() {
    let (lhs, rhs) = (integers(1..=6), integers(7..=18));
    let (lhs_l, rhs_l) = (shaped(&[2, 3]), shaped(&[3, 4]));
    assert!(matches!(
        lhs.matmul_plan(&rhs, (1, 2, 4, 3), &lhs_l, &rhs_l),
        Ok(MatMulPlan::Cpu)
    ));
    let out = lhs.matmul_cpu::<Host>(&rhs, (1, 2, 4, 3), &lhs_l, &rhs_l).unwrap();
    let expected = vec![74, 80, 86, 92, 173, 188, 203, 218];
    assert_eq!(out.to_cpu_storage(), Ok(CpuStorage::I64(expected)));
}

#[test]
fn batches_are_multiplied_one_by_one() {
    let (lhs, rhs) = (integers(1..=12), integers(1..=24));
    let (lhs_l, rhs_l) = (shaped(&[2, 2, 3]), shaped(&[2, 3, 4]));
    let out = lhs.matmul_cpu::<Host>(&rhs, (2, 2, 4, 3), &lhs_l, &rhs_l).unwrap();
    let expected = vec![
        38, 44, 50, 56, 83, 98, 113, 128, 416, 440, 464, 488, 569, 602, 635, 668,
    ];
    assert_eq!(out.to_cpu_storage(), Ok(CpuStorage::I64(expected)));
}

#[test]
fn floats_are_multiplied_by_openvino() {
    let lhs = tensor(&[1.0, 2.0, 3.0, 4.0, 5.0, 6.0]);
    let rhs = tensor(&[7.0, 8.0, 9.0, 10.0, 11.0, 12.0, 13.0, 14.0, 15.0, 16.0, 17.0, 18.0]);
    let plan = lhs.matmul_plan(&rhs, (1, 2, 4, 3), &shaped(&[2, 3]), &shaped(&[3, 4]));
    let job = job(plan);
    assert_eq!(job.model, matmul_model(OvElement::F32, 1, 2, 4, 3));
    assert_eq!(job.inputs.len(), 2);
    assert_eq!(job.inputs[0].name, "lhs");
    assert_eq!(job.inputs[0].element, OvElement::F32);
    assert_eq!(job.inputs[0].dims, vec![1, 2, 3]);
    assert_eq!(job.inputs[0].bytes, lhs.bytes().to_vec());
    assert_eq!(job.inputs[1].name, "rhs");
    assert_eq!(job.inputs[1].element, OvElement::F32);
    assert_eq!(job.inputs[1].dims, vec![1, 3, 4]);
    assert_eq!(job.inputs[1].bytes, rhs.bytes().to_vec());
}

#[test]
fn multiplication_takes_the_shown_elements() {
    let lhs = tensor(&[1.0, 2.0, 3.0, 4.0]);
    let rhs = tensor(&[5.0, 6.0, 7.0, 8.0]);
    let transposed = strided(&[2, 2], &[1, 2], 0);
    let job = job(lhs.matmul_plan(&rhs, (1, 2, 2, 2), &shaped(&[2, 2]), &transposed));
    assert_eq!(job.inputs[0].bytes, lhs.bytes().to_vec());
    assert_eq!(job.inputs[1].bytes, tensor(&[5.0, 7.0, 6.0, 8.0]).bytes().to_vec());
    let short = lhs.matmul_plan(&rhs, (1, 1, 1, 3), &shaped(&[1, 3]), &strided(&[3, 1], &[1, 1], 2));
    let text = "buffer too small: need 20 bytes for 5 elements of size 4, got 16";
    assert_eq!(
        short.err(),
        Some(Error::OpenVino(OpenVinoError::Message(text.to_string())))
    );
}

#[test]
fn a_transposed_operand_on_the_cpu() {
    let (lhs, rhs) = (integers(1..=4), integers(5..=8));
    let transposed = strided(&[2, 2], &[1, 2], 0);
    let out = lhs.matmul_cpu::<Host>(&rhs, (1, 2, 2, 2), &shaped(&[2, 2]), &transposed).unwrap();
    assert_eq!(out.to_cpu_storage(), Ok(CpuStorage::I64(vec![17, 23, 39, 53])));
}

#[test]
fn product_is_made_of_what_the_runtime_returns() {
    let lhs = tensor(&[1.0, 2.0]);
    let bytes = 5.0f32.to_le_bytes().to_vec();
    let s = lhs.finish_matmul(Ok(bytes)).unwrap();
    assert_eq!(floats(&s), vec![5.0]);
    assert!(s.device().same_device(lhs.device()));
    let failure = OpenVinoError::Runtime("busy".to_string());
    assert_eq!(
        lhs.finish_matmul(Err(failure.clone())).err(),
        Some(Error::OpenVino(failure))
    );
}

#[test]
fn a_model_without_outputs_has_no_product() {
    let failure = OpenVinoError::Runtime("the model has no output".to_string());
    assert_eq!(first_output(&Vec::new()), Err(failure));
}

#[test]
fn description_of_the_model() {
    let expected = expected_model();
    assert_eq!(matmul_model(OvElement::F16, 1, 2, 4, 3), expected);
    let job = matmul_job(OvElement::BF16, (5, 6, 7, 8), vec![1], vec![2]);
    assert_eq!(job.model, matmul_model(OvElement::BF16, 5, 6, 7, 8));
    assert_eq!(job.inputs[0].dims, vec![5, 6, 8]);
    assert_eq!(job.inputs[1].dims, vec![5, 8, 7]);
}

fn expected_model() -> String {
    let lines = [
        r#"<?xml version="1.0"?><net name="candle_matmul" version="11"><layers>"#,
        r#"<layer id="0" name="lhs" type="Parameter" version="opset1">"#,
        r#"<data shape="1,2,3" element_type="f16"/>"#,
        r#"<output><port id="0" names="lhs" precision="FP16">"#,
        r#"<dim>1</dim><dim>2</dim><dim>3</dim></port></output></layer>"#,
        r#"<layer id="1" name="rhs" type="Parameter" version="opset1">"#,
        r#"<data shape="1,3,4" element_type="f16"/>"#,
        r#"<output><port id="0" names="rhs" precision="FP16">"#,
        r#"<dim>1</dim><dim>3</dim><dim>4</dim></port></output></layer>"#,
        r#"<layer id="2" name="matmul" type="MatMul" version="opset1">"#,
        r#"<data transpose_a="false" transpose_b="false"/><input>"#,
        r#"<port id="0" precision="FP16"><dim>1</dim><dim>2</dim><dim>3</dim></port>"#,
        r#"<port id="1" precision="FP16"><dim>1</dim><dim>3</dim><dim>4</dim></port></input>"#,
        r#"<output><port id="2" names="out" precision="FP16">"#,
        r#"<dim>1</dim><dim>2</dim><dim>4</dim></port></output></layer>"#,
        r#"<layer id="3" name="result" type="Result" version="opset1"><input>"#,
        r#"<port id="0" precision="FP16"><dim>1</dim><dim>2</dim><dim>4</dim></port>"#,
        r#"</input></layer></layers><edges>"#,
        r#"<edge from-layer="0" from-port="0" to-layer="2" to-port="0"/>"#,
        r#"<edge from-layer="1" from-port="0" to-layer="2" to-port="1"/>"#,
        r#"<edge from-layer="2" from-port="2" to-layer="3" to-port="0"/></edges></net>"#,
    ];
    lines.concat()
}

#[test]
fn a_device_with_a_runtime_multiplies() {
    // Runs the model where OpenVINO is installed; elsewhere there is no device to run it on.
    let device = match OpenVinoDevice::new_with_device("CPU".to_string(), 0) {
        Ok(device) => device,
        Err(_) => return,
    };
    let lhs: Vec<u32> = (1..=6).map(|x| (x as f32).to_bits()).collect();
    let rhs: Vec<u32> = (7..=18).map(|x| (x as f32).to_bits()).collect();
    let lhs = device.storage_from_cpu_storage(&CpuStorage::F32(lhs)).unwrap();
    let rhs = device.storage_from_cpu_storage(&CpuStorage::F32(rhs)).unwrap();
    let out = lhs.matmul::<Host>(&rhs, (1, 2, 4, 3), &shaped(&[2, 3]), &shaped(&[3, 4]));
    let out = f32s(&out.unwrap().to_cpu_storage().unwrap());
    let expected = [74.0, 80.0, 86.0, 92.0, 173.0, 188.0, 203.0, 218.0f32];
    for (value, exact) in out.into_iter().zip(expected) {
        assert!((f32::from_bits(value) - exact).abs() <= 1e-4);
    }
}
