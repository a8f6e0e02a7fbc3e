//! What the backend takes from elsewhere: the CPU kernels that it falls back to, and the element
//! types of plain slices.
use crate::cpu_storage::{CpuData, CpuStorage};
use crate::dtype::DType;
use crate::error::Result;
use crate::layout::{Layout, Shape};
use vstd::prelude::*;

verus! {

/// A unary element-wise operation, for the kernels to apply.
pub trait UnaryOpT {
    /// The operation on one element of type `dtype`, given and returned as its bit pattern.
    fn apply(dtype: DType, x: u64) -> u64;
}

/// A binary element-wise operation, for the kernels to apply.
pub trait BinaryOpT {
    /// The operation on two elements of type `dtype`, given and returned as bit patterns.
    fn apply(dtype: DType, x: u64, y: u64) -> u64;
}

/// The kernels of the CPU backend.
///
/// The OpenVINO backend reads the full buffers of its operands into [`CpuStorage`] values, calls one
/// of these kernels with them and with the layouts given, and stores what the kernel returns. It
/// passes the parameters of a kernel on as they are, which is why their types are left to the
/// kernels.
///
/// A kernel that updates a buffer takes the buffer and returns it.
pub trait CpuBackend {
    /// A floating-point parameter.
    type Float;

    /// Names a reduction.
    type ReduceOp;

    /// Names a comparison.
    type CmpOp;

    /// A single element.
    type Scalar;

    type ParamsConv1D;

    type ParamsConvTranspose1D;

    type ParamsConv2D;

    type ParamsConvTranspose2D;

    fn affine(cpu: &CpuStorage, l: &Layout, mul: Self::Float, add: Self::Float) -> Result<
        CpuStorage,
    >;

    fn powf(cpu: &CpuStorage, l: &Layout, alpha: Self::Float) -> Result<CpuStorage>;

    fn elu(cpu: &CpuStorage, l: &Layout, alpha: Self::Float) -> Result<CpuStorage>;

    fn reduce_op(cpu: &CpuStorage, op: Self::ReduceOp, l: &Layout, dims: &[usize]) -> Result<
        CpuStorage,
    >;

    fn cmp(
        lhs: &CpuStorage,
        op: Self::CmpOp,
        rhs: &CpuStorage,
        lhs_l: &Layout,
        rhs_l: &Layout,
    ) -> Result<CpuStorage>;

    fn to_dtype(cpu: &CpuStorage, l: &Layout, dtype: DType) -> Result<CpuStorage>;

    fn unary_impl<B: UnaryOpT>(cpu: &CpuStorage, l: &Layout) -> Result<CpuStorage>;

    fn binary_impl<B: BinaryOpT>(
        lhs: &CpuStorage,
        rhs: &CpuStorage,
        lhs_l: &Layout,
        rhs_l: &Layout,
    ) -> Result<CpuStorage>;

    fn where_cond(
        cond: &CpuStorage,
        l: &Layout,
        t: &CpuStorage,
        t_l: &Layout,
        f: &CpuStorage,
        f_l: &Layout,
    ) -> Result<CpuStorage>;

    fn conv1d(
        inp: &CpuStorage,
        l: &Layout,
        kernel: &CpuStorage,
        kernel_l: &Layout,
        params: &Self::ParamsConv1D,
    ) -> Result<CpuStorage>;

    fn conv_transpose1d(
        inp: &CpuStorage,
        l: &Layout,
        kernel: &CpuStorage,
        kernel_l: &Layout,
        params: &Self::ParamsConvTranspose1D,
    ) -> Result<CpuStorage>;

    fn conv2d(
        inp: &CpuStorage,
        l: &Layout,
        kernel: &CpuStorage,
        kernel_l: &Layout,
        params: &Self::ParamsConv2D,
    ) -> Result<CpuStorage>;

    fn conv_transpose2d(
        inp: &CpuStorage,
        l: &Layout,
        kernel: &CpuStorage,
        kernel_l: &Layout,
        params: &Self::ParamsConvTranspose2D,
    ) -> Result<CpuStorage>;

    fn avg_pool2d(
        cpu: &CpuStorage,
        l: &Layout,
        ks: (usize, usize),
        stride: (usize, usize),
    ) -> Result<CpuStorage>;

    fn max_pool2d(
        cpu: &CpuStorage,
        l: &Layout,
        ks: (usize, usize),
        stride: (usize, usize),
    ) -> Result<CpuStorage>;

    fn upsample_nearest1d(cpu: &CpuStorage, l: &Layout, sz: usize) -> Result<CpuStorage>;

    fn upsample_nearest2d(cpu: &CpuStorage, l: &Layout, h: usize, w: usize) -> Result<CpuStorage>;

    fn upsample_bilinear2d(
        cpu: &CpuStorage,
        l: &Layout,
        h: usize,
        w: usize,
        align_corners: bool,
        scale_h: Option<Self::Float>,
        scale_w: Option<Self::Float>,
    ) -> Result<CpuStorage>;

    fn gather(
        src: &CpuStorage,
        l: &Layout,
        indices: &CpuStorage,
        indices_l: &Layout,
        d: usize,
    ) -> Result<CpuStorage>;

    fn scatter_set(
        dst: CpuStorage,
        l: &Layout,
        indices: &CpuStorage,
        indices_l: &Layout,
        src: &CpuStorage,
        src_l: &Layout,
        d: usize,
    ) -> Result<CpuStorage>;

    fn scatter_add_set(
        dst: CpuStorage,
        l: &Layout,
        indices: &CpuStorage,
        indices_l: &Layout,
        src: &CpuStorage,
        src_l: &Layout,
        d: usize,
    ) -> Result<CpuStorage>;

    fn index_select(
        src: &CpuStorage,
        indices: &CpuStorage,
        l: &Layout,
        indices_l: &Layout,
        d: usize,
    ) -> Result<CpuStorage>;

    fn index_add(
        dst: &CpuStorage,
        l: &Layout,
        indices: &CpuStorage,
        indices_l: &Layout,
        src: &CpuStorage,
        src_l: &Layout,
        d: usize,
    ) -> Result<CpuStorage>;

    fn matmul(
        lhs: &CpuStorage,
        rhs: &CpuStorage,
        bmnk: (usize, usize, usize, usize),
        lhs_l: &Layout,
        rhs_l: &Layout,
    ) -> Result<CpuStorage>;

    fn copy_strided_src(
        src: &CpuStorage,
        dst: CpuStorage,
        dst_offset: usize,
        src_l: &Layout,
    ) -> Result<CpuStorage>;

    fn copy2d(
        src: &CpuStorage,
        dst: CpuStorage,
        d1: usize,
        d2: usize,
        src_s: usize,
        dst_s: usize,
        src_o: usize,
        dst_o: usize,
    ) -> Result<CpuStorage>;

    fn const_set(cpu: CpuStorage, v: Self::Scalar, l: &Layout) -> Result<CpuStorage>;

    fn rand_uniform(shape: &Shape, dtype: DType, lo: Self::Float, hi: Self::Float) -> Result<
        CpuStorage,
    >;

    fn rand_normal(shape: &Shape, dtype: DType, mean: Self::Float, std_dev: Self::Float) -> Result<
        CpuStorage,
    >;
}

/// A type whose slices can be made a typed buffer.
pub trait WithDType: Copy {
    /// The buffer with the elements of `data`.
    spec fn buffer(data: Seq<Self>) -> CpuData;

    /// The buffer with the elements of `data`.
    fn to_cpu_storage(data: &[Self]) -> (r: CpuStorage)
        ensures
            r@ == Self::buffer(data@),
    ;
}

impl WithDType for u8 {
    open spec fn buffer(data: Seq<u8>) -> CpuData {
        CpuData::U8(data)
    }

    fn to_cpu_storage(data: &[u8]) -> (r: CpuStorage) {
        CpuStorage::U8(vstd::slice::slice_to_vec(data))
    }
}

impl WithDType for u32 {
    open spec fn buffer(data: Seq<u32>) -> CpuData {
        CpuData::U32(data)
    }

    fn to_cpu_storage(data: &[u32]) -> (r: CpuStorage) {
        CpuStorage::U32(vstd::slice::slice_to_vec(data))
    }
}

impl WithDType for i16 {
    open spec fn buffer(data: Seq<i16>) -> CpuData {
        CpuData::I16(data)
    }

    fn to_cpu_storage(data: &[i16]) -> (r: CpuStorage) {
        CpuStorage::I16(vstd::slice::slice_to_vec(data))
    }
}

impl WithDType for i32 {
    open spec fn buffer(data: Seq<i32>) -> CpuData {
        CpuData::I32(data)
    }

    fn to_cpu_storage(data: &[i32]) -> (r: CpuStorage) {
        CpuStorage::I32(vstd::slice::slice_to_vec(data))
    }
}

impl WithDType for i64 {
    open spec fn buffer(data: Seq<i64>) -> CpuData {
        CpuData::I64(data)
    }

    fn to_cpu_storage(data: &[i64]) -> (r: CpuStorage) {
        CpuStorage::I64(vstd::slice::slice_to_vec(data))
    }
}

} // verus!
