//! Which kernel an operation calls, with which operands and parameters, and what becomes of the result.
use openvino_backend::backend::{BinaryOpT, CpuBackend, UnaryOpT};
use openvino_backend::cpu_storage::CpuStorage;
use openvino_backend::device::OpenVinoDevice;
use openvino_backend::dtype::DType;
use openvino_backend::error::{Error, OpenVinoError, Result};
use openvino_backend::layout::{Layout, Shape};
use openvino_backend::storage::OpenVinoStorage;

/// Kernels that return what they were called with.
struct Probe;

/// Kernels that refuse.
struct Refusing;

struct Increment;

struct Sum;

impl UnaryOpT for Increment {
    fn apply(_dtype: DType, x: u64) -> u64 {
        x + 1
    }
}

impl BinaryOpT for Sum {
    fn apply(_dtype: DType, x: u64, y: u64) -> u64 {
        x + y
    }
}

fn values(cpu: &CpuStorage) -> Vec<i64> {
    match cpu {
        CpuStorage::I64(v) => v.clone(),
        CpuStorage::U8(v) => v.iter().map(|x| *x as i64).collect(),
        CpuStorage::U32(v) => v.iter().map(|x| *x as i64).collect(),
        _ => panic!("unexpected buffer {cpu:?}"),
    }
}

/// The number of a kernel, the elements of the operands, the first strides of the layouts, the
/// parameters: with -7 between the parts.
fn report(kernel: i64, operands: &[&CpuStorage], layouts: &[&Layout], parameters: &[i64]) -> Result<CpuStorage> {
    let mut out = vec![kernel];
    for operand in operands {
        out.push(-7);
        out.extend(values(operand));
    }
    out.push(-7);
    for l in layouts {
        out.push(l.stride[0] as i64);
    }
    out.push(-7);
    out.extend(parameters);
    Ok(CpuStorage::I64(out))
}

fn refusal() -> Result<CpuStorage> {
    Err(Error::Msg("not today".to_string()))
}

impl CpuBackend for Probe {
    type Float = i64;
    type ReduceOp = i64;
    type CmpOp = i64;
    type Scalar = i64;
    type ParamsConv1D = i64;
    type ParamsConvTranspose1D = i64;
    type ParamsConv2D = i64;
    type ParamsConvTranspose2D = i64;

    fn affine(cpu: &CpuStorage, l: &Layout, mul: i64, add: i64) -> Result<CpuStorage> {
        report(1, &[cpu], &[l], &[mul, add])
    }

    fn powf(cpu: &CpuStorage, l: &Layout, alpha: i64) -> Result<CpuStorage> {
        report(2, &[cpu], &[l], &[alpha])
    }

    fn elu(cpu: &CpuStorage, l: &Layout, alpha: i64) -> Result<CpuStorage> {
        report(3, &[cpu], &[l], &[alpha])
    }

    fn reduce_op(cpu: &CpuStorage, op: i64, l: &Layout, dims: &[usize]) -> Result<CpuStorage> {
        report(4, &[cpu], &[l], &[op, dims[0] as i64])
    }

    fn cmp(lhs: &CpuStorage, op: i64, rhs: &CpuStorage, lhs_l: &Layout, rhs_l: &Layout) -> Result<CpuStorage> {
        report(5, &[lhs, rhs], &[lhs_l, rhs_l], &[op])
    }

    fn to_dtype(cpu: &CpuStorage, l: &Layout, dtype: DType) -> Result<CpuStorage> {
        report(6, &[cpu], &[l], &[dtype.size_in_bytes() as i64])
    }

    fn unary_impl<B: UnaryOpT>(cpu: &CpuStorage, l: &Layout) -> Result<CpuStorage> {
        report(7, &[cpu], &[l], &[B::apply(DType::I64, 40) as i64])
    }

    fn binary_impl<B: BinaryOpT>(lhs: &CpuStorage, rhs: &CpuStorage, lhs_l: &Layout, rhs_l: &Layout) -> Result<CpuStorage> {
        report(8, &[lhs, rhs], &[lhs_l, rhs_l], &[B::apply(DType::I64, 40, 2) as i64])
    }

    fn where_cond(cond: &CpuStorage, l: &Layout, t: &CpuStorage, t_l: &Layout, f: &CpuStorage, f_l: &Layout) -> Result<CpuStorage> {
        report(9, &[cond, t, f], &[l, t_l, f_l], &[])
    }

    fn conv1d(inp: &CpuStorage, l: &Layout, kernel: &CpuStorage, kernel_l: &Layout, params: &i64) -> Result<CpuStorage> {
        report(10, &[inp, kernel], &[l, kernel_l], &[*params])
    }

    fn conv_transpose1d(inp: &CpuStorage, l: &Layout, kernel: &CpuStorage, kernel_l: &Layout, params: &i64) -> Result<CpuStorage> {
        report(11, &[inp, kernel], &[l, kernel_l], &[*params])
    }

    fn conv2d(inp: &CpuStorage, l: &Layout, kernel: &CpuStorage, kernel_l: &Layout, params: &i64) -> Result<CpuStorage> {
        report(12, &[inp, kernel], &[l, kernel_l], &[*params])
    }

    fn conv_transpose2d(inp: &CpuStorage, l: &Layout, kernel: &CpuStorage, kernel_l: &Layout, params: &i64) -> Result<CpuStorage> {
        report(13, &[inp, kernel], &[l, kernel_l], &[*params])
    }

    fn avg_pool2d(cpu: &CpuStorage, l: &Layout, ks: (usize, usize), stride: (usize, usize)) -> Result<CpuStorage> {
        report(14, &[cpu], &[l], &[ks.0 as i64, ks.1 as i64, stride.0 as i64, stride.1 as i64])
    }

    fn max_pool2d(cpu: &CpuStorage, l: &Layout, ks: (usize, usize), stride: (usize, usize)) -> Result<CpuStorage> {
        report(15, &[cpu], &[l], &[ks.0 as i64, ks.1 as i64, stride.0 as i64, stride.1 as i64])
    }

    fn upsample_nearest1d(cpu: &CpuStorage, l: &Layout, sz: usize) -> Result<CpuStorage> {
        report(16, &[cpu], &[l], &[sz as i64])
    }

    fn upsample_nearest2d(cpu: &CpuStorage, l: &Layout, h: usize, w: usize) -> Result<CpuStorage> {
        report(17, &[cpu], &[l], &[h as i64, w as i64])
    }

    fn upsample_bilinear2d(cpu: &CpuStorage, l: &Layout, h: usize, w: usize, align_corners: bool, scale_h: Option<i64>, scale_w: Option<i64>) -> Result<CpuStorage> {
        report(18, &[cpu], &[l], &[h as i64, w as i64, align_corners as i64, scale_h.unwrap_or(-1), scale_w.unwrap_or(-1)])
    }

    fn gather(src: &CpuStorage, l: &Layout, indices: &CpuStorage, indices_l: &Layout, d: usize) -> Result<CpuStorage> {
        report(19, &[src, indices], &[l, indices_l], &[d as i64])
    }

    fn scatter_set(dst: CpuStorage, l: &Layout, indices: &CpuStorage, indices_l: &Layout, src: &CpuStorage, src_l: &Layout, d: usize) -> Result<CpuStorage> {
        report(20, &[&dst, indices, src], &[l, indices_l, src_l], &[d as i64])
    }

    fn scatter_add_set(dst: CpuStorage, l: &Layout, indices: &CpuStorage, indices_l: &Layout, src: &CpuStorage, src_l: &Layout, d: usize) -> Result<CpuStorage> {
        report(21, &[&dst, indices, src], &[l, indices_l, src_l], &[d as i64])
    }

    fn index_select(src: &CpuStorage, indices: &CpuStorage, l: &Layout, indices_l: &Layout, d: usize) -> Result<CpuStorage> {
        report(22, &[src, indices], &[l, indices_l], &[d as i64])
    }

    fn index_add(dst: &CpuStorage, l: &Layout, indices: &CpuStorage, indices_l: &Layout, src: &CpuStorage, src_l: &Layout, d: usize) -> Result<CpuStorage> {
        report(23, &[dst, indices, src], &[l, indices_l, src_l], &[d as i64])
    }

    fn matmul(lhs: &CpuStorage, rhs: &CpuStorage, bmnk: (usize, usize, usize, usize), lhs_l: &Layout, rhs_l: &Layout) -> Result<CpuStorage> {
        report(24, &[lhs, rhs], &[lhs_l, rhs_l], &[bmnk.0 as i64, bmnk.1 as i64, bmnk.2 as i64, bmnk.3 as i64])
    }

    fn copy_strided_src(src: &CpuStorage, dst: CpuStorage, dst_offset: usize, src_l: &Layout) -> Result<CpuStorage> {
        report(25, &[src, &dst], &[src_l], &[dst_offset as i64])
    }

    fn copy2d(src: &CpuStorage, dst: CpuStorage, d1: usize, d2: usize, src_s: usize, dst_s: usize, src_o: usize, dst_o: usize) -> Result<CpuStorage> {
        report(26, &[src, &dst], &[], &[d1 as i64, d2 as i64, src_s as i64, dst_s as i64, src_o as i64, dst_o as i64])
    }

    fn const_set(cpu: CpuStorage, v: i64, l: &Layout) -> Result<CpuStorage> {
        report(27, &[&cpu], &[l], &[v])
    }

    fn rand_uniform(shape: &Shape, dtype: DType, lo: i64, hi: i64) -> Result<CpuStorage> {
        report(28, &[], &[], &[shape.elem_count() as i64, dtype.size_in_bytes() as i64, lo, hi])
    }

    fn rand_normal(shape: &Shape, dtype: DType, mean: i64, std_dev: i64) -> Result<CpuStorage> {
        report(29, &[], &[], &[shape.elem_count() as i64, dtype.size_in_bytes() as i64, mean, std_dev])
    }
}

impl CpuBackend for Refusing {
    type Float = i64;
    type ReduceOp = i64;
    type CmpOp = i64;
    type Scalar = i64;
    type ParamsConv1D = i64;
    type ParamsConvTranspose1D = i64;
    type ParamsConv2D = i64;
    type ParamsConvTranspose2D = i64;

    fn affine(_cpu: &CpuStorage, _l: &Layout, _mul: i64, _add: i64) -> Result<CpuStorage> {
        refusal()
    }

    fn powf(_cpu: &CpuStorage, _l: &Layout, _alpha: i64) -> Result<CpuStorage> {
        refusal()
    }

    fn elu(_cpu: &CpuStorage, _l: &Layout, _alpha: i64) -> Result<CpuStorage> {
        refusal()
    }

    fn reduce_op(_cpu: &CpuStorage, _op: i64, _l: &Layout, _dims: &[usize]) -> Result<CpuStorage> {
        refusal()
    }

    fn cmp(_lhs: &CpuStorage, _op: i64, _rhs: &CpuStorage, _lhs_l: &Layout, _rhs_l: &Layout) -> Result<CpuStorage> {
        refusal()
    }

    fn to_dtype(_cpu: &CpuStorage, _l: &Layout, _dtype: DType) -> Result<CpuStorage> {
        refusal()
    }

    fn unary_impl<B: UnaryOpT>(_cpu: &CpuStorage, _l: &Layout) -> Result<CpuStorage> {
        refusal()
    }

    fn binary_impl<B: BinaryOpT>(_lhs: &CpuStorage, _rhs: &CpuStorage, _lhs_l: &Layout, _rhs_l: &Layout) -> Result<CpuStorage> {
        refusal()
    }

    fn where_cond(_cond: &CpuStorage, _l: &Layout, _t: &CpuStorage, _t_l: &Layout, _f: &CpuStorage, _f_l: &Layout) -> Result<CpuStorage> {
        refusal()
    }

    fn conv1d(_inp: &CpuStorage, _l: &Layout, _kernel: &CpuStorage, _kernel_l: &Layout, _params: &i64) -> Result<CpuStorage> {
        refusal()
    }

    fn conv_transpose1d(_inp: &CpuStorage, _l: &Layout, _kernel: &CpuStorage, _kernel_l: &Layout, _params: &i64) -> Result<CpuStorage> {
        refusal()
    }

    fn conv2d(_inp: &CpuStorage, _l: &Layout, _kernel: &CpuStorage, _kernel_l: &Layout, _params: &i64) -> Result<CpuStorage> {
        refusal()
    }

    fn conv_transpose2d(_inp: &CpuStorage, _l: &Layout, _kernel: &CpuStorage, _kernel_l: &Layout, _params: &i64) -> Result<CpuStorage> {
        refusal()
    }

    fn avg_pool2d(_cpu: &CpuStorage, _l: &Layout, _ks: (usize, usize), _stride: (usize, usize)) -> Result<CpuStorage> {
        refusal()
    }

    fn max_pool2d(_cpu: &CpuStorage, _l: &Layout, _ks: (usize, usize), _stride: (usize, usize)) -> Result<CpuStorage> {
        refusal()
    }

    fn upsample_nearest1d(_cpu: &CpuStorage, _l: &Layout, _sz: usize) -> Result<CpuStorage> {
        refusal()
    }

    fn upsample_nearest2d(_cpu: &CpuStorage, _l: &Layout, _h: usize, _w: usize) -> Result<CpuStorage> {
        refusal()
    }

    fn upsample_bilinear2d(_cpu: &CpuStorage, _l: &Layout, _h: usize, _w: usize, _align_corners: bool, _scale_h: Option<i64>, _scale_w: Option<i64>) -> Result<CpuStorage> {
        refusal()
    }

    fn gather(_src: &CpuStorage, _l: &Layout, _indices: &CpuStorage, _indices_l: &Layout, _d: usize) -> Result<CpuStorage> {
        refusal()
    }

    fn scatter_set(_dst: CpuStorage, _l: &Layout, _indices: &CpuStorage, _indices_l: &Layout, _src: &CpuStorage, _src_l: &Layout, _d: usize) -> Result<CpuStorage> {
        refusal()
    }

    fn scatter_add_set(_dst: CpuStorage, _l: &Layout, _indices: &CpuStorage, _indices_l: &Layout, _src: &CpuStorage, _src_l: &Layout, _d: usize) -> Result<CpuStorage> {
        refusal()
    }

    fn index_select(_src: &CpuStorage, _indices: &CpuStorage, _l: &Layout, _indices_l: &Layout, _d: usize) -> Result<CpuStorage> {
        refusal()
    }

    fn index_add(_dst: &CpuStorage, _l: &Layout, _indices: &CpuStorage, _indices_l: &Layout, _src: &CpuStorage, _src_l: &Layout, _d: usize) -> Result<CpuStorage> {
        refusal()
    }

    fn matmul(_lhs: &CpuStorage, _rhs: &CpuStorage, _bmnk: (usize, usize, usize, usize), _lhs_l: &Layout, _rhs_l: &Layout) -> Result<CpuStorage> {
        refusal()
    }

    fn copy_strided_src(_src: &CpuStorage, _dst: CpuStorage, _dst_offset: usize, _src_l: &Layout) -> Result<CpuStorage> {
        refusal()
    }

    fn copy2d(_src: &CpuStorage, _dst: CpuStorage, _d1: usize, _d2: usize, _src_s: usize, _dst_s: usize, _src_o: usize, _dst_o: usize) -> Result<CpuStorage> {
        refusal()
    }

    fn const_set(_cpu: CpuStorage, _v: i64, _l: &Layout) -> Result<CpuStorage> {
        refusal()
    }

    fn rand_uniform(_shape: &Shape, _dtype: DType, _lo: i64, _hi: i64) -> Result<CpuStorage> {
        refusal()
    }

    fn rand_normal(_shape: &Shape, _dtype: DType, _mean: i64, _std_dev: i64) -> Result<CpuStorage> {
        refusal()
    }
}

type Device = OpenVinoDevice<()>;

type Storage = OpenVinoStorage<()>;

fn device() -> Device {
    OpenVinoDevice::with_runtime((), "CPU".to_string(), 2)
}

fn stored(v: &[i64]) -> Storage {
    device().storage_from_slice(v).unwrap()
}

fn indices(v: &[u32]) -> Storage {
    device().storage_from_slice(v).unwrap()
}

/// Counts `n` elements; `stride` tells layouts apart.
fn layout(n: usize, stride: usize) -> Layout {
    Layout::new(Shape { dims: vec![n] }, vec![stride], 0)
}

fn elements(r: Result<Storage>) -> Vec<i64> {
    let s = r.unwrap();
    assert_eq!(s.dtype(), DType::I64);
    assert_eq!(s.device().device_name(), "CPU");
    assert_eq!(s.device().debug_string(), "OpenVinoDevice(device=CPU, ordinal=2)");
    values(&s.to_cpu_storage().unwrap())
}

fn too_small(count: usize, size: usize, len: usize) -> Error {
    Error::OpenVino(OpenVinoError::Message(format!(
        "buffer too small: need {} bytes for {count} elements of size {size}, got {len}",
        count * size
    )))
}

#[test]
fn affine_goes_to_its_kernel() {
    let s = stored(&[5, 6, 7]);
    assert_eq!(elements(s.affine::<Probe>(&layout(2, 9), 3, 4)), vec![1, -7, 5, 6, 7, -7, 9, -7, 3, 4]);
    assert_eq!(elements(s.affine::<Probe>(&layout(40, 9), 3, 4))[..7], [1, -7, 5, 6, 7, -7, 9]);
    assert_eq!(s.affine::<Refusing>(&layout(2, 9), 3, 4).err(), refusal().err());
}

#[test]
fn powf_goes_to_its_kernel() {
    let s = stored(&[5, 6, 7]);
    assert_eq!(elements(s.powf::<Probe>(&layout(2, 9), 3)), vec![2, -7, 5, 6, 7, -7, 9, -7, 3]);
    assert_eq!(elements(s.powf::<Probe>(&layout(40, 9), 3))[..7], [2, -7, 5, 6, 7, -7, 9]);
    assert_eq!(s.powf::<Refusing>(&layout(2, 9), 3).err(), refusal().err());
}

#[test]
fn elu_goes_to_its_kernel() {
    let s = stored(&[5, 6, 7]);
    assert_eq!(elements(s.elu::<Probe>(&layout(2, 9), 3)), vec![3, -7, 5, 6, 7, -7, 9, -7, 3]);
    assert_eq!(elements(s.elu::<Probe>(&layout(40, 9), 3))[..7], [3, -7, 5, 6, 7, -7, 9]);
    assert_eq!(s.elu::<Refusing>(&layout(2, 9), 3).err(), refusal().err());
}

#[test]
fn reduce_op_goes_to_its_kernel() {
    let s = stored(&[5, 6, 7]);
    assert_eq!(elements(s.reduce_op::<Probe>(11, &layout(2, 9), &[1])), vec![4, -7, 5, 6, 7, -7, 9, -7, 11, 1]);
    assert_eq!(elements(s.reduce_op::<Probe>(11, &layout(40, 9), &[1]))[..7], [4, -7, 5, 6, 7, -7, 9]);
    assert_eq!(s.reduce_op::<Refusing>(11, &layout(2, 9), &[1]).err(), refusal().err());
}

#[test]
fn to_dtype_goes_to_its_kernel() {
    let s = stored(&[5, 6, 7]);
    assert_eq!(elements(s.to_dtype::<Probe>(&layout(2, 9), DType::F16)), vec![6, -7, 5, 6, 7, -7, 9, -7, 2]);
    assert_eq!(elements(s.to_dtype::<Probe>(&layout(40, 9), DType::F16))[..7], [6, -7, 5, 6, 7, -7, 9]);
    assert_eq!(s.to_dtype::<Refusing>(&layout(2, 9), DType::F16).err(), refusal().err());
}

#[test]
fn unary_impl_goes_to_its_kernel() {
    let s = stored(&[5, 6, 7]);
    assert_eq!(elements(s.unary_impl::<Probe, Increment>(&layout(2, 9))), vec![7, -7, 5, 6, 7, -7, 9, -7, 41]);
    assert_eq!(elements(s.unary_impl::<Probe, Increment>(&layout(40, 9)))[..7], [7, -7, 5, 6, 7, -7, 9]);
    assert_eq!(s.unary_impl::<Refusing, Increment>(&layout(2, 9)).err(), refusal().err());
}

#[test]
fn avg_pool2d_goes_to_its_kernel() {
    let s = stored(&[5, 6, 7]);
    assert_eq!(elements(s.avg_pool2d::<Probe>(&layout(2, 9), (1, 2), (3, 4))), vec![14, -7, 5, 6, 7, -7, 9, -7, 1, 2, 3, 4]);
    assert_eq!(elements(s.avg_pool2d::<Probe>(&layout(40, 9), (1, 2), (3, 4)))[..7], [14, -7, 5, 6, 7, -7, 9]);
    assert_eq!(s.avg_pool2d::<Refusing>(&layout(2, 9), (1, 2), (3, 4)).err(), refusal().err());
}

#[test]
fn max_pool2d_goes_to_its_kernel() {
    let s = stored(&[5, 6, 7]);
    assert_eq!(elements(s.max_pool2d::<Probe>(&layout(2, 9), (1, 2), (3, 4))), vec![15, -7, 5, 6, 7, -7, 9, -7, 1, 2, 3, 4]);
    assert_eq!(elements(s.max_pool2d::<Probe>(&layout(40, 9), (1, 2), (3, 4)))[..7], [15, -7, 5, 6, 7, -7, 9]);
    assert_eq!(s.max_pool2d::<Refusing>(&layout(2, 9), (1, 2), (3, 4)).err(), refusal().err());
}

#[test]
fn upsample_nearest1d_goes_to_its_kernel() {
    let s = stored(&[5, 6, 7]);
    assert_eq!(elements(s.upsample_nearest1d::<Probe>(&layout(2, 9), 3)), vec![16, -7, 5, 6, 7, -7, 9, -7, 3]);
    assert_eq!(elements(s.upsample_nearest1d::<Probe>(&layout(40, 9), 3))[..7], [16, -7, 5, 6, 7, -7, 9]);
    assert_eq!(s.upsample_nearest1d::<Refusing>(&layout(2, 9), 3).err(), refusal().err());
}

#[test]
fn upsample_nearest2d_goes_to_its_kernel() {
    let s = stored(&[5, 6, 7]);
    assert_eq!(elements(s.upsample_nearest2d::<Probe>(&layout(2, 9), 3, 4)), vec![17, -7, 5, 6, 7, -7, 9, -7, 3, 4]);
    assert_eq!(elements(s.upsample_nearest2d::<Probe>(&layout(40, 9), 3, 4))[..7], [17, -7, 5, 6, 7, -7, 9]);
    assert_eq!(s.upsample_nearest2d::<Refusing>(&layout(2, 9), 3, 4).err(), refusal().err());
}

#[test]
fn upsample_bilinear2d_goes_to_its_kernel() {
    let s = stored(&[5, 6, 7]);
    assert_eq!(elements(s.upsample_bilinear2d::<Probe>(&layout(2, 9), 3, 4, true, None, Some(5))), vec![18, -7, 5, 6, 7, -7, 9, -7, 3, 4, 1, -1, 5]);
    assert_eq!(elements(s.upsample_bilinear2d::<Probe>(&layout(40, 9), 3, 4, true, None, Some(5)))[..7], [18, -7, 5, 6, 7, -7, 9]);
    assert_eq!(s.upsample_bilinear2d::<Refusing>(&layout(2, 9), 3, 4, true, None, Some(5)).err(), refusal().err());
}

#[test]
fn cmp_goes_to_its_kernel() {
    let s = stored(&[5, 6, 7]);
    let o = indices(&[1, 0]);
    assert_eq!(elements(s.cmp::<Probe>(11, &o, &layout(2, 9), &layout(1, 8))), vec![5, -7, 5, 6, 7, -7, 1, 0, -7, 9, 8, -7, 11]);
    assert_eq!(elements(s.cmp::<Probe>(11, &o, &layout(40, 9), &layout(30, 8)))[..8], [5, -7, 5, 6, 7, -7, 1, 0]);
    assert_eq!(s.cmp::<Refusing>(11, &o, &layout(2, 9), &layout(1, 8)).err(), refusal().err());
}

#[test]
fn binary_impl_goes_to_its_kernel() {
    let s = stored(&[5, 6, 7]);
    let o = indices(&[1, 0]);
    assert_eq!(elements(s.binary_impl::<Probe, Sum>(&o, &layout(2, 9), &layout(1, 8))), vec![8, -7, 5, 6, 7, -7, 1, 0, -7, 9, 8, -7, 42]);
    assert_eq!(elements(s.binary_impl::<Probe, Sum>(&o, &layout(40, 9), &layout(30, 8)))[..8], [8, -7, 5, 6, 7, -7, 1, 0]);
    assert_eq!(s.binary_impl::<Refusing, Sum>(&o, &layout(2, 9), &layout(1, 8)).err(), refusal().err());
}

#[test]
fn conv1d_goes_to_its_kernel() {
    let s = stored(&[5, 6, 7]);
    let o = indices(&[1, 0]);
    assert_eq!(elements(s.conv1d::<Probe>(&layout(2, 9), &o, &layout(1, 8), &12)), vec![10, -7, 5, 6, 7, -7, 1, 0, -7, 9, 8, -7, 12]);
    assert_eq!(elements(s.conv1d::<Probe>(&layout(40, 9), &o, &layout(30, 8), &12))[..8], [10, -7, 5, 6, 7, -7, 1, 0]);
    assert_eq!(s.conv1d::<Refusing>(&layout(2, 9), &o, &layout(1, 8), &12).err(), refusal().err());
}

#[test]
fn conv_transpose1d_goes_to_its_kernel() {
    let s = stored(&[5, 6, 7]);
    let o = indices(&[1, 0]);
    assert_eq!(elements(s.conv_transpose1d::<Probe>(&layout(2, 9), &o, &layout(1, 8), &12)), vec![11, -7, 5, 6, 7, -7, 1, 0, -7, 9, 8, -7, 12]);
    assert_eq!(elements(s.conv_transpose1d::<Probe>(&layout(40, 9), &o, &layout(30, 8), &12))[..8], [11, -7, 5, 6, 7, -7, 1, 0]);
    assert_eq!(s.conv_transpose1d::<Refusing>(&layout(2, 9), &o, &layout(1, 8), &12).err(), refusal().err());
}

#[test]
fn conv2d_goes_to_its_kernel() {
    let s = stored(&[5, 6, 7]);
    let o = indices(&[1, 0]);
    assert_eq!(elements(s.conv2d::<Probe>(&layout(2, 9), &o, &layout(1, 8), &12)), vec![12, -7, 5, 6, 7, -7, 1, 0, -7, 9, 8, -7, 12]);
    assert_eq!(elements(s.conv2d::<Probe>(&layout(40, 9), &o, &layout(30, 8), &12))[..8], [12, -7, 5, 6, 7, -7, 1, 0]);
    assert_eq!(s.conv2d::<Refusing>(&layout(2, 9), &o, &layout(1, 8), &12).err(), refusal().err());
}

#[test]
fn conv_transpose2d_goes_to_its_kernel() {
    let s = stored(&[5, 6, 7]);
    let o = indices(&[1, 0]);
    assert_eq!(elements(s.conv_transpose2d::<Probe>(&layout(2, 9), &o, &layout(1, 8), &12)), vec![13, -7, 5, 6, 7, -7, 1, 0, -7, 9, 8, -7, 12]);
    assert_eq!(elements(s.conv_transpose2d::<Probe>(&layout(40, 9), &o, &layout(30, 8), &12))[..8], [13, -7, 5, 6, 7, -7, 1, 0]);
    assert_eq!(s.conv_transpose2d::<Refusing>(&layout(2, 9), &o, &layout(1, 8), &12).err(), refusal().err());
}

#[test]
fn gather_goes_to_its_kernel() {
    let s = stored(&[5, 6, 7]);
    let o = indices(&[1, 0]);
    assert_eq!(elements(s.gather::<Probe>(&layout(2, 9), &o, &layout(1, 8), 1)), vec![19, -7, 5, 6, 7, -7, 1, 0, -7, 9, 8, -7, 1]);
    assert_eq!(elements(s.gather::<Probe>(&layout(40, 9), &o, &layout(30, 8), 1))[..8], [19, -7, 5, 6, 7, -7, 1, 0]);
    assert_eq!(s.gather::<Refusing>(&layout(2, 9), &o, &layout(1, 8), 1).err(), refusal().err());
}

#[test]
fn index_select_goes_to_its_kernel() {
    let s = stored(&[5, 6, 7]);
    let o = indices(&[1, 0]);
    assert_eq!(elements(s.index_select::<Probe>(&o, &layout(2, 9), &layout(1, 8), 1)), vec![22, -7, 5, 6, 7, -7, 1, 0, -7, 9, 8, -7, 1]);
    assert_eq!(elements(s.index_select::<Probe>(&o, &layout(40, 9), &layout(30, 8), 1))[..8], [22, -7, 5, 6, 7, -7, 1, 0]);
    assert_eq!(s.index_select::<Refusing>(&o, &layout(2, 9), &layout(1, 8), 1).err(), refusal().err());
}

#[test]
fn matmul_cpu_goes_to_its_kernel() {
    let s = stored(&[5, 6, 7]);
    let o = indices(&[1, 0]);
    assert_eq!(elements(s.matmul_cpu::<Probe>(&o, (1, 2, 3, 4), &layout(2, 9), &layout(1, 8))), vec![24, -7, 5, 6, 7, -7, 1, 0, -7, 9, 8, -7, 1, 2, 3, 4]);
    assert_eq!(elements(s.matmul_cpu::<Probe>(&o, (1, 2, 3, 4), &layout(40, 9), &layout(30, 8)))[..8], [24, -7, 5, 6, 7, -7, 1, 0]);
    assert_eq!(s.matmul_cpu::<Refusing>(&o, (1, 2, 3, 4), &layout(2, 9), &layout(1, 8)).err(), refusal().err());
}

#[test]
fn where_cond_goes_to_its_kernel() {
    let s = stored(&[5, 6, 7]);
    let o = indices(&[1, 0]);
    let p = stored(&[30]);
    assert_eq!(elements(s.where_cond::<Probe>(&layout(2, 9), &o, &layout(1, 8), &p, &layout(1, 6))), vec![9, -7, 5, 6, 7, -7, 1, 0, -7, 30, -7, 9, 8, 6, -7]);
    assert_eq!(elements(s.where_cond::<Probe>(&layout(40, 9), &o, &layout(30, 8), &p, &layout(20, 6)))[..10], [9, -7, 5, 6, 7, -7, 1, 0, -7, 30]);
    assert_eq!(s.where_cond::<Refusing>(&layout(2, 9), &o, &layout(1, 8), &p, &layout(1, 6)).err(), refusal().err());
}

#[test]
fn index_add_goes_to_its_kernel() {
    let s = stored(&[5, 6, 7]);
    let o = indices(&[1, 0]);
    let p = stored(&[30]);
    assert_eq!(elements(s.index_add::<Probe>(&layout(2, 9), &o, &layout(1, 8), &p, &layout(1, 6), 1)), vec![23, -7, 5, 6, 7, -7, 1, 0, -7, 30, -7, 9, 8, 6, -7, 1]);
    assert_eq!(elements(s.index_add::<Probe>(&layout(40, 9), &o, &layout(30, 8), &p, &layout(20, 6), 1))[..10], [23, -7, 5, 6, 7, -7, 1, 0, -7, 30]);
    assert_eq!(s.index_add::<Refusing>(&layout(2, 9), &o, &layout(1, 8), &p, &layout(1, 6), 1).err(), refusal().err());
}

#[test]
fn scatter_set_replaces_the_data() {
    let mut s = stored(&[5, 6, 7]);
    let o = indices(&[1, 0]);
    let p = stored(&[30]);
    assert_eq!(s.scatter_set::<Refusing>(&layout(2, 9), &o, &layout(1, 8), &p, &layout(1, 6), 1).err(), refusal().err());
    assert_eq!(s.to_cpu_storage(), Ok(CpuStorage::I64(vec![5, 6, 7])));
    assert_eq!(s.scatter_set::<Probe>(&layout(2, 9), &o, &layout(1, 8), &p, &layout(1, 6), 1), Ok(()));
    assert_eq!(elements(Ok(s)), vec![20, -7, 5, 6, 7, -7, 1, 0, -7, 30, -7, 9, 8, 6, -7, 1]);
}

#[test]
fn scatter_add_set_replaces_the_data() {
    let mut s = stored(&[5, 6, 7]);
    let o = indices(&[1, 0]);
    let p = stored(&[30]);
    assert_eq!(s.scatter_add_set::<Refusing>(&layout(2, 9), &o, &layout(1, 8), &p, &layout(1, 6), 1).err(), refusal().err());
    assert_eq!(s.to_cpu_storage(), Ok(CpuStorage::I64(vec![5, 6, 7])));
    assert_eq!(s.scatter_add_set::<Probe>(&layout(2, 9), &o, &layout(1, 8), &p, &layout(1, 6), 1), Ok(()));
    assert_eq!(elements(Ok(s)), vec![21, -7, 5, 6, 7, -7, 1, 0, -7, 30, -7, 9, 8, 6, -7, 1]);
}

#[test]
fn const_set_replaces_the_data() {
    let mut s = stored(&[5, 6, 7]);
    assert_eq!(s.const_set::<Refusing>(3, &layout(2, 9)).err(), refusal().err());
    assert_eq!(s.to_cpu_storage(), Ok(CpuStorage::I64(vec![5, 6, 7])));
    assert_eq!(s.const_set::<Probe>(3, &layout(2, 9)), Ok(()));
    assert_eq!(elements(Ok(s)), vec![27, -7, 5, 6, 7, -7, 9, -7, 3]);
}

#[test]
fn copy_strided_src_replaces_the_destination() {
    let s = stored(&[5, 6, 7]);
    let mut dst = stored(&[1, 2]);
    let refused = s.copy_strided_src::<Refusing>(&mut dst, 1, &layout(2, 9));
    assert_eq!(refused.err(), refusal().err());
    assert_eq!(dst.to_cpu_storage(), Ok(CpuStorage::I64(vec![1, 2])));
    assert_eq!(s.copy_strided_src::<Probe>(&mut dst, 1, &layout(2, 9)), Ok(()));
    assert_eq!(elements(Ok(dst)), vec![25, -7, 5, 6, 7, -7, 1, 2, -7, 9, -7, 1]);
}

#[test]
fn destination_is_counted_in_its_own_elements() {
    let s = indices(&[3]);
    let mut narrow = device().storage_from_slice(&[1u8, 2, 3, 4]).unwrap();
    assert_eq!(s.copy_strided_src::<Probe>(&mut narrow, 0, &layout(1, 9)), Ok(()));
    assert_eq!(narrow.dtype(), DType::U8);
    let report = [25, -7, 3, -7, 1, 2, 3, 4, -7, 9, -7, 0i64];
    let bytes: Vec<u8> = report.iter().flat_map(|x| x.to_le_bytes()).collect();
    assert_eq!(narrow.bytes(), &bytes[..]);
    let mut wide = stored(&[1, 2]);
    assert_eq!(s.copy2d::<Probe>(&mut wide, 1, 1, 1, 1, 0, 0), Ok(()));
    assert_eq!(elements(Ok(wide)), vec![26, -7, 3, -7, 1, 2, -7, -7, 1, 1, 1, 1, 0, 0]);
}

#[test]
fn types_of_fewer_than_eight_bits_are_read_byte_by_byte() {
    let s = device().storage_from_cpu_storage(&CpuStorage::F4(vec![1, 2, 3])).unwrap();
    assert_eq!(s.whole_cpu(), Ok(CpuStorage::F4(vec![1, 2, 3])));
    let copy = s.try_clone(&Layout::new(Shape::from(2), vec![2], 0)).unwrap();
    assert_eq!(copy.whole_cpu(), Ok(CpuStorage::F4(vec![1, 3])));
}

#[test]
fn copy2d_replaces_the_destination() {
    let s = stored(&[5, 6, 7]);
    let mut dst = stored(&[1, 2]);
    let refused = s.copy2d::<Refusing>(&mut dst, 1, 2, 3, 4, 5, 6);
    assert_eq!(refused.err(), refusal().err());
    assert_eq!(dst.to_cpu_storage(), Ok(CpuStorage::I64(vec![1, 2])));
    assert_eq!(s.copy2d::<Probe>(&mut dst, 1, 2, 3, 4, 5, 6), Ok(()));
    assert_eq!(elements(Ok(dst)), vec![26, -7, 5, 6, 7, -7, 1, 2, -7, -7, 1, 2, 3, 4, 5, 6]);
}

#[test]
fn in_place_operations_keep_the_element_type() {
    // The kernel returns I64 elements; the storage goes on to read its bytes as U32.
    let mut s = indices(&[5]);
    assert_eq!(s.const_set::<Probe>(3, &layout(1, 9)), Ok(()));
    assert_eq!(s.dtype(), DType::U32);
    assert_eq!(s.bytes().len(), 8 * 7);
    assert_eq!(s.bytes()[0], 27);
}

#[test]
fn random_elements_come_from_the_cpu() {
    let shape = Shape { dims: vec![2, 3] };
    let uniform = device().rand_uniform::<Probe>(&shape, DType::F32, 3, 4);
    assert_eq!(elements(uniform), vec![28, -7, -7, 6, 4, 3, 4]);
    let normal = device().rand_normal::<Probe>(&shape, DType::F64, 3, 4);
    assert_eq!(elements(normal), vec![29, -7, -7, 6, 8, 3, 4]);
    let refused = device().rand_uniform::<Refusing>(&shape, DType::F32, 3, 4);
    assert_eq!(refused.err(), refusal().err());
    let refused = device().rand_normal::<Refusing>(&shape, DType::F32, 3, 4);
    assert_eq!(refused.err(), refusal().err());
}

#[test]
fn a_kernel_of_ones_own_can_be_used() {
    let s = stored(&[5, 6, 7]);
    let doubled = s.cpu_op(&layout(3, 1), |cpu| {
        Ok(CpuStorage::I64(values(&cpu).iter().map(|x| 2 * x).collect()))
    });
    assert_eq!(elements(doubled), vec![10, 12, 14]);
    let o = indices(&[1, 2]);
    let joined = s.cpu_binary_op(&o, &layout(2, 1), &layout(2, 1), |a, b, _, _| {
        Ok(CpuStorage::I64(values(&a).into_iter().chain(values(b)).collect()))
    });
    assert_eq!(elements(joined), vec![5, 6, 1, 2]);
    assert_eq!(s.cpu_op(&layout(4, 1), |cpu| Ok(cpu)).err(), Some(too_small(4, 8, 24)));
    assert_eq!(s.cpu_op(&layout(3, 1), |_| refusal()).err(), refusal().err());
}
