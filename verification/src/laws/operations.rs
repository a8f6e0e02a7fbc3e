//! Operations: each hands the full buffers of its operands to its own CPU kernel, with the layouts and
//! the parameters given, and carries what the kernel returns.
use crate::backend::{BinaryOpT, CpuBackend, UnaryOpT};
use crate::cpu_storage::CpuStorage;
use crate::dtype::DType;
use crate::error::{Error, OpenVinoError, Result};
use crate::laws::storages::{carries, lemma_carries, lemma_takes, takes};
use crate::layout::Layout;
use crate::storage::{answers, updates, OpenVinoStorage};
use vstd::prelude::*;

verus! {

/// `matmul_cpu` is what its kernel makes of the full buffers.
pub proof fn law_matmul_cpu<R, K: CpuBackend>(
    s: &OpenVinoStorage<R>,
    rhs: &OpenVinoStorage<R>,
    bmnk: (usize, usize, usize, usize),
    lhs_l: &Layout,
    rhs_l: &Layout,
    lhs_cpu_read: CpuStorage,
    rhs_cpu_read: CpuStorage,
    r: Result<OpenVinoStorage<R>>,
)
    requires
        call_ensures(OpenVinoStorage::<R>::matmul_cpu::<K>, (s, rhs, bmnk, lhs_l, rhs_l), r),
        call_ensures(OpenVinoStorage::<R>::whole_cpu, (s,), Ok(lhs_cpu_read)),
        call_ensures(OpenVinoStorage::<R>::whole_cpu, (rhs,), Ok(rhs_cpu_read)),
    ensures
        exists|lhs_cpu: CpuStorage, rhs_cpu: CpuStorage, k: Result<CpuStorage>|
            lhs_cpu@ == lhs_cpu_read@ && rhs_cpu@ == rhs_cpu_read@ && #[trigger] call_ensures(
                K::matmul,
                (&lhs_cpu, &rhs_cpu, bmnk, lhs_l, rhs_l),
                k,
            ) && carries(k, r, s.on()),
{
    let (lhs_cpu, rhs_cpu, k) = choose|lhs_cpu: CpuStorage, rhs_cpu: CpuStorage, k: Result<CpuStorage>|
        lhs_cpu@ == s.whole() && rhs_cpu@ == rhs.whole() && #[trigger] call_ensures(
            K::matmul,
            (&lhs_cpu, &rhs_cpu, bmnk, lhs_l, rhs_l),
            k,
        ) && answers(k, r, s.on());
    lemma_carries(k, r, s.on());
}

/// `affine` is what its kernel makes of the full buffers.
pub proof fn law_affine<R, K: CpuBackend>(
    s: &OpenVinoStorage<R>,
    l: &Layout,
    mul: K::Float,
    add: K::Float,
    cpu_read: CpuStorage,
    r: Result<OpenVinoStorage<R>>,
)
    requires
        call_ensures(OpenVinoStorage::<R>::affine::<K>, (s, l, mul, add), r),
        call_ensures(OpenVinoStorage::<R>::whole_cpu, (s,), Ok(cpu_read)),
    ensures
        exists|cpu: CpuStorage, k: Result<CpuStorage>|
            cpu@ == cpu_read@ && #[trigger] call_ensures(
                K::affine,
                (&cpu, l, mul, add),
                k,
            ) && carries(k, r, s.on()),
{
    let (cpu, k) = choose|cpu: CpuStorage, k: Result<CpuStorage>|
        cpu@ == s.whole() && #[trigger] call_ensures(
            K::affine,
            (&cpu, l, mul, add),
            k,
        ) && answers(k, r, s.on());
    lemma_carries(k, r, s.on());
}

/// `powf` is what its kernel makes of the full buffers.
pub proof fn law_powf<R, K: CpuBackend>(
    s: &OpenVinoStorage<R>,
    l: &Layout,
    alpha: K::Float,
    cpu_read: CpuStorage,
    r: Result<OpenVinoStorage<R>>,
)
    requires
        call_ensures(OpenVinoStorage::<R>::powf::<K>, (s, l, alpha), r),
        call_ensures(OpenVinoStorage::<R>::whole_cpu, (s,), Ok(cpu_read)),
    ensures
        exists|cpu: CpuStorage, k: Result<CpuStorage>|
            cpu@ == cpu_read@ && #[trigger] call_ensures(
                K::powf,
                (&cpu, l, alpha),
                k,
            ) && carries(k, r, s.on()),
{
    let (cpu, k) = choose|cpu: CpuStorage, k: Result<CpuStorage>|
        cpu@ == s.whole() && #[trigger] call_ensures(
            K::powf,
            (&cpu, l, alpha),
            k,
        ) && answers(k, r, s.on());
    lemma_carries(k, r, s.on());
}

/// `elu` is what its kernel makes of the full buffers.
pub proof fn law_elu<R, K: CpuBackend>(
    s: &OpenVinoStorage<R>,
    l: &Layout,
    alpha: K::Float,
    cpu_read: CpuStorage,
    r: Result<OpenVinoStorage<R>>,
)
    requires
        call_ensures(OpenVinoStorage::<R>::elu::<K>, (s, l, alpha), r),
        call_ensures(OpenVinoStorage::<R>::whole_cpu, (s,), Ok(cpu_read)),
    ensures
        exists|cpu: CpuStorage, k: Result<CpuStorage>|
            cpu@ == cpu_read@ && #[trigger] call_ensures(
                K::elu,
                (&cpu, l, alpha),
                k,
            ) && carries(k, r, s.on()),
{
    let (cpu, k) = choose|cpu: CpuStorage, k: Result<CpuStorage>|
        cpu@ == s.whole() && #[trigger] call_ensures(
            K::elu,
            (&cpu, l, alpha),
            k,
        ) && answers(k, r, s.on());
    lemma_carries(k, r, s.on());
}

/// `reduce_op` is what its kernel makes of the full buffers.
pub proof fn law_reduce_op<R, K: CpuBackend>(
    s: &OpenVinoStorage<R>,
    op: K::ReduceOp,
    l: &Layout,
    dims: &[usize],
    cpu_read: CpuStorage,
    r: Result<OpenVinoStorage<R>>,
)
    requires
        call_ensures(OpenVinoStorage::<R>::reduce_op::<K>, (s, op, l, dims), r),
        call_ensures(OpenVinoStorage::<R>::whole_cpu, (s,), Ok(cpu_read)),
    ensures
        exists|cpu: CpuStorage, k: Result<CpuStorage>|
            cpu@ == cpu_read@ && #[trigger] call_ensures(
                K::reduce_op,
                (&cpu, op, l, dims),
                k,
            ) && carries(k, r, s.on()),
{
    let (cpu, k) = choose|cpu: CpuStorage, k: Result<CpuStorage>|
        cpu@ == s.whole() && #[trigger] call_ensures(
            K::reduce_op,
            (&cpu, op, l, dims),
            k,
        ) && answers(k, r, s.on());
    lemma_carries(k, r, s.on());
}

/// `cmp` is what its kernel makes of the full buffers.
pub proof fn law_cmp<R, K: CpuBackend>(
    s: &OpenVinoStorage<R>,
    op: K::CmpOp,
    rhs: &OpenVinoStorage<R>,
    lhs_l: &Layout,
    rhs_l: &Layout,
    lhs_cpu_read: CpuStorage,
    rhs_cpu_read: CpuStorage,
    r: Result<OpenVinoStorage<R>>,
)
    requires
        call_ensures(OpenVinoStorage::<R>::cmp::<K>, (s, op, rhs, lhs_l, rhs_l), r),
        call_ensures(OpenVinoStorage::<R>::whole_cpu, (s,), Ok(lhs_cpu_read)),
        call_ensures(OpenVinoStorage::<R>::whole_cpu, (rhs,), Ok(rhs_cpu_read)),
    ensures
        exists|lhs_cpu: CpuStorage, rhs_cpu: CpuStorage, k: Result<CpuStorage>|
            lhs_cpu@ == lhs_cpu_read@ && rhs_cpu@ == rhs_cpu_read@ && #[trigger] call_ensures(
                K::cmp,
                (&lhs_cpu, op, &rhs_cpu, lhs_l, rhs_l),
                k,
            ) && carries(k, r, s.on()),
{
    let (lhs_cpu, rhs_cpu, k) = choose|lhs_cpu: CpuStorage, rhs_cpu: CpuStorage, k: Result<CpuStorage>|
        lhs_cpu@ == s.whole() && rhs_cpu@ == rhs.whole() && #[trigger] call_ensures(
            K::cmp,
            (&lhs_cpu, op, &rhs_cpu, lhs_l, rhs_l),
            k,
        ) && answers(k, r, s.on());
    lemma_carries(k, r, s.on());
}

/// `to_dtype` is what its kernel makes of the full buffers.
pub proof fn law_to_dtype<R, K: CpuBackend>(
    s: &OpenVinoStorage<R>,
    l: &Layout,
    dtype: DType,
    cpu_read: CpuStorage,
    r: Result<OpenVinoStorage<R>>,
)
    requires
        call_ensures(OpenVinoStorage::<R>::to_dtype::<K>, (s, l, dtype), r),
        call_ensures(OpenVinoStorage::<R>::whole_cpu, (s,), Ok(cpu_read)),
    ensures
        exists|cpu: CpuStorage, k: Result<CpuStorage>|
            cpu@ == cpu_read@ && #[trigger] call_ensures(
                K::to_dtype,
                (&cpu, l, dtype),
                k,
            ) && carries(k, r, s.on()),
{
    let (cpu, k) = choose|cpu: CpuStorage, k: Result<CpuStorage>|
        cpu@ == s.whole() && #[trigger] call_ensures(
            K::to_dtype,
            (&cpu, l, dtype),
            k,
        ) && answers(k, r, s.on());
    lemma_carries(k, r, s.on());
}

/// `unary_impl` is what its kernel makes of the full buffers.
pub proof fn law_unary_impl<R, K: CpuBackend, B: UnaryOpT>(
    s: &OpenVinoStorage<R>,
    l: &Layout,
    cpu_read: CpuStorage,
    r: Result<OpenVinoStorage<R>>,
)
    requires
        call_ensures(OpenVinoStorage::<R>::unary_impl::<K, B>, (s, l), r),
        call_ensures(OpenVinoStorage::<R>::whole_cpu, (s,), Ok(cpu_read)),
    ensures
        exists|cpu: CpuStorage, k: Result<CpuStorage>|
            cpu@ == cpu_read@ && #[trigger] call_ensures(
                K::unary_impl::<B>,
                (&cpu, l),
                k,
            ) && carries(k, r, s.on()),
{
    let (cpu, k) = choose|cpu: CpuStorage, k: Result<CpuStorage>|
        cpu@ == s.whole() && #[trigger] call_ensures(
            K::unary_impl::<B>,
            (&cpu, l),
            k,
        ) && answers(k, r, s.on());
    lemma_carries(k, r, s.on());
}

/// `binary_impl` is what its kernel makes of the full buffers.
pub proof fn law_binary_impl<R, K: CpuBackend, B: BinaryOpT>(
    s: &OpenVinoStorage<R>,
    rhs: &OpenVinoStorage<R>,
    lhs_l: &Layout,
    rhs_l: &Layout,
    lhs_cpu_read: CpuStorage,
    rhs_cpu_read: CpuStorage,
    r: Result<OpenVinoStorage<R>>,
)
    requires
        call_ensures(OpenVinoStorage::<R>::binary_impl::<K, B>, (s, rhs, lhs_l, rhs_l), r),
        call_ensures(OpenVinoStorage::<R>::whole_cpu, (s,), Ok(lhs_cpu_read)),
        call_ensures(OpenVinoStorage::<R>::whole_cpu, (rhs,), Ok(rhs_cpu_read)),
    ensures
        exists|lhs_cpu: CpuStorage, rhs_cpu: CpuStorage, k: Result<CpuStorage>|
            lhs_cpu@ == lhs_cpu_read@ && rhs_cpu@ == rhs_cpu_read@ && #[trigger] call_ensures(
                K::binary_impl::<B>,
                (&lhs_cpu, &rhs_cpu, lhs_l, rhs_l),
                k,
            ) && carries(k, r, s.on()),
{
    let (lhs_cpu, rhs_cpu, k) = choose|lhs_cpu: CpuStorage, rhs_cpu: CpuStorage, k: Result<CpuStorage>|
        lhs_cpu@ == s.whole() && rhs_cpu@ == rhs.whole() && #[trigger] call_ensures(
            K::binary_impl::<B>,
            (&lhs_cpu, &rhs_cpu, lhs_l, rhs_l),
            k,
        ) && answers(k, r, s.on());
    lemma_carries(k, r, s.on());
}

/// `where_cond` is what its kernel makes of the full buffers.
pub proof fn law_where_cond<R, K: CpuBackend>(
    s: &OpenVinoStorage<R>,
    l: &Layout,
    t: &OpenVinoStorage<R>,
    t_l: &Layout,
    f: &OpenVinoStorage<R>,
    f_l: &Layout,
    cond_cpu_read: CpuStorage,
    t_cpu_read: CpuStorage,
    f_cpu_read: CpuStorage,
    r: Result<OpenVinoStorage<R>>,
)
    requires
        call_ensures(OpenVinoStorage::<R>::where_cond::<K>, (s, l, t, t_l, f, f_l), r),
        call_ensures(OpenVinoStorage::<R>::whole_cpu, (s,), Ok(cond_cpu_read)),
        call_ensures(OpenVinoStorage::<R>::whole_cpu, (t,), Ok(t_cpu_read)),
        call_ensures(OpenVinoStorage::<R>::whole_cpu, (f,), Ok(f_cpu_read)),
    ensures
        exists|cond_cpu: CpuStorage, t_cpu: CpuStorage, f_cpu: CpuStorage, k: Result<CpuStorage>|
            cond_cpu@ == cond_cpu_read@ && t_cpu@ == t_cpu_read@ && f_cpu@ == f_cpu_read@ && #[trigger] call_ensures(
                K::where_cond,
                (&cond_cpu, l, &t_cpu, t_l, &f_cpu, f_l),
                k,
            ) && carries(k, r, s.on()),
{
    let (cond_cpu, t_cpu, f_cpu, k) = choose|cond_cpu: CpuStorage, t_cpu: CpuStorage, f_cpu: CpuStorage, k: Result<CpuStorage>|
        cond_cpu@ == s.whole() && t_cpu@ == t.whole() && f_cpu@ == f.whole() && #[trigger] call_ensures(
            K::where_cond,
            (&cond_cpu, l, &t_cpu, t_l, &f_cpu, f_l),
            k,
        ) && answers(k, r, s.on());
    lemma_carries(k, r, s.on());
}

/// `conv1d` is what its kernel makes of the full buffers.
pub proof fn law_conv1d<R, K: CpuBackend>(
    s: &OpenVinoStorage<R>,
    l: &Layout,
    kernel: &OpenVinoStorage<R>,
    kernel_l: &Layout,
    params: &K::ParamsConv1D,
    inp_cpu_read: CpuStorage,
    ker_cpu_read: CpuStorage,
    r: Result<OpenVinoStorage<R>>,
)
    requires
        call_ensures(OpenVinoStorage::<R>::conv1d::<K>, (s, l, kernel, kernel_l, params), r),
        call_ensures(OpenVinoStorage::<R>::whole_cpu, (s,), Ok(inp_cpu_read)),
        call_ensures(OpenVinoStorage::<R>::whole_cpu, (kernel,), Ok(ker_cpu_read)),
    ensures
        exists|inp_cpu: CpuStorage, ker_cpu: CpuStorage, k: Result<CpuStorage>|
            inp_cpu@ == inp_cpu_read@ && ker_cpu@ == ker_cpu_read@ && #[trigger] call_ensures(
                K::conv1d,
                (&inp_cpu, l, &ker_cpu, kernel_l, params),
                k,
            ) && carries(k, r, s.on()),
{
    let (inp_cpu, ker_cpu, k) = choose|inp_cpu: CpuStorage, ker_cpu: CpuStorage, k: Result<CpuStorage>|
        inp_cpu@ == s.whole() && ker_cpu@ == kernel.whole() && #[trigger] call_ensures(
            K::conv1d,
            (&inp_cpu, l, &ker_cpu, kernel_l, params),
            k,
        ) && answers(k, r, s.on());
    lemma_carries(k, r, s.on());
}

/// `conv_transpose1d` is what its kernel makes of the full buffers.
pub proof fn law_conv_transpose1d<R, K: CpuBackend>(
    s: &OpenVinoStorage<R>,
    l: &Layout,
    kernel: &OpenVinoStorage<R>,
    kernel_l: &Layout,
    params: &K::ParamsConvTranspose1D,
    inp_cpu_read: CpuStorage,
    ker_cpu_read: CpuStorage,
    r: Result<OpenVinoStorage<R>>,
)
    requires
        call_ensures(OpenVinoStorage::<R>::conv_transpose1d::<K>, (s, l, kernel, kernel_l, params), r),
        call_ensures(OpenVinoStorage::<R>::whole_cpu, (s,), Ok(inp_cpu_read)),
        call_ensures(OpenVinoStorage::<R>::whole_cpu, (kernel,), Ok(ker_cpu_read)),
    ensures
        exists|inp_cpu: CpuStorage, ker_cpu: CpuStorage, k: Result<CpuStorage>|
            inp_cpu@ == inp_cpu_read@ && ker_cpu@ == ker_cpu_read@ && #[trigger] call_ensures(
                K::conv_transpose1d,
                (&inp_cpu, l, &ker_cpu, kernel_l, params),
                k,
            ) && carries(k, r, s.on()),
{
    let (inp_cpu, ker_cpu, k) = choose|inp_cpu: CpuStorage, ker_cpu: CpuStorage, k: Result<CpuStorage>|
        inp_cpu@ == s.whole() && ker_cpu@ == kernel.whole() && #[trigger] call_ensures(
            K::conv_transpose1d,
            (&inp_cpu, l, &ker_cpu, kernel_l, params),
            k,
        ) && answers(k, r, s.on());
    lemma_carries(k, r, s.on());
}

/// `conv2d` is what its kernel makes of the full buffers.
pub proof fn law_conv2d<R, K: CpuBackend>(
    s: &OpenVinoStorage<R>,
    l: &Layout,
    kernel: &OpenVinoStorage<R>,
    kernel_l: &Layout,
    params: &K::ParamsConv2D,
    inp_cpu_read: CpuStorage,
    ker_cpu_read: CpuStorage,
    r: Result<OpenVinoStorage<R>>,
)
    requires
        call_ensures(OpenVinoStorage::<R>::conv2d::<K>, (s, l, kernel, kernel_l, params), r),
        call_ensures(OpenVinoStorage::<R>::whole_cpu, (s,), Ok(inp_cpu_read)),
        call_ensures(OpenVinoStorage::<R>::whole_cpu, (kernel,), Ok(ker_cpu_read)),
    ensures
        exists|inp_cpu: CpuStorage, ker_cpu: CpuStorage, k: Result<CpuStorage>|
            inp_cpu@ == inp_cpu_read@ && ker_cpu@ == ker_cpu_read@ && #[trigger] call_ensures(
                K::conv2d,
                (&inp_cpu, l, &ker_cpu, kernel_l, params),
                k,
            ) && carries(k, r, s.on()),
{
    let (inp_cpu, ker_cpu, k) = choose|inp_cpu: CpuStorage, ker_cpu: CpuStorage, k: Result<CpuStorage>|
        inp_cpu@ == s.whole() && ker_cpu@ == kernel.whole() && #[trigger] call_ensures(
            K::conv2d,
            (&inp_cpu, l, &ker_cpu, kernel_l, params),
            k,
        ) && answers(k, r, s.on());
    lemma_carries(k, r, s.on());
}

/// `conv_transpose2d` is what its kernel makes of the full buffers.
pub proof fn law_conv_transpose2d<R, K: CpuBackend>(
    s: &OpenVinoStorage<R>,
    l: &Layout,
    kernel: &OpenVinoStorage<R>,
    kernel_l: &Layout,
    params: &K::ParamsConvTranspose2D,
    inp_cpu_read: CpuStorage,
    ker_cpu_read: CpuStorage,
    r: Result<OpenVinoStorage<R>>,
)
    requires
        call_ensures(OpenVinoStorage::<R>::conv_transpose2d::<K>, (s, l, kernel, kernel_l, params), r),
        call_ensures(OpenVinoStorage::<R>::whole_cpu, (s,), Ok(inp_cpu_read)),
        call_ensures(OpenVinoStorage::<R>::whole_cpu, (kernel,), Ok(ker_cpu_read)),
    ensures
        exists|inp_cpu: CpuStorage, ker_cpu: CpuStorage, k: Result<CpuStorage>|
            inp_cpu@ == inp_cpu_read@ && ker_cpu@ == ker_cpu_read@ && #[trigger] call_ensures(
                K::conv_transpose2d,
                (&inp_cpu, l, &ker_cpu, kernel_l, params),
                k,
            ) && carries(k, r, s.on()),
{
    let (inp_cpu, ker_cpu, k) = choose|inp_cpu: CpuStorage, ker_cpu: CpuStorage, k: Result<CpuStorage>|
        inp_cpu@ == s.whole() && ker_cpu@ == kernel.whole() && #[trigger] call_ensures(
            K::conv_transpose2d,
            (&inp_cpu, l, &ker_cpu, kernel_l, params),
            k,
        ) && answers(k, r, s.on());
    lemma_carries(k, r, s.on());
}

/// `avg_pool2d` is what its kernel makes of the full buffers.
pub proof fn law_avg_pool2d<R, K: CpuBackend>(
    s: &OpenVinoStorage<R>,
    l: &Layout,
    ks: (usize, usize),
    stride: (usize, usize),
    cpu_read: CpuStorage,
    r: Result<OpenVinoStorage<R>>,
)
    requires
        call_ensures(OpenVinoStorage::<R>::avg_pool2d::<K>, (s, l, ks, stride), r),
        call_ensures(OpenVinoStorage::<R>::whole_cpu, (s,), Ok(cpu_read)),
    ensures
        exists|cpu: CpuStorage, k: Result<CpuStorage>|
            cpu@ == cpu_read@ && #[trigger] call_ensures(
                K::avg_pool2d,
                (&cpu, l, ks, stride),
                k,
            ) && carries(k, r, s.on()),
{
    let (cpu, k) = choose|cpu: CpuStorage, k: Result<CpuStorage>|
        cpu@ == s.whole() && #[trigger] call_ensures(
            K::avg_pool2d,
            (&cpu, l, ks, stride),
            k,
        ) && answers(k, r, s.on());
    lemma_carries(k, r, s.on());
}

/// `max_pool2d` is what its kernel makes of the full buffers.
pub proof fn law_max_pool2d<R, K: CpuBackend>(
    s: &OpenVinoStorage<R>,
    l: &Layout,
    ks: (usize, usize),
    stride: (usize, usize),
    cpu_read: CpuStorage,
    r: Result<OpenVinoStorage<R>>,
)
    requires
        call_ensures(OpenVinoStorage::<R>::max_pool2d::<K>, (s, l, ks, stride), r),
        call_ensures(OpenVinoStorage::<R>::whole_cpu, (s,), Ok(cpu_read)),
    ensures
        exists|cpu: CpuStorage, k: Result<CpuStorage>|
            cpu@ == cpu_read@ && #[trigger] call_ensures(
                K::max_pool2d,
                (&cpu, l, ks, stride),
                k,
            ) && carries(k, r, s.on()),
{
    let (cpu, k) = choose|cpu: CpuStorage, k: Result<CpuStorage>|
        cpu@ == s.whole() && #[trigger] call_ensures(
            K::max_pool2d,
            (&cpu, l, ks, stride),
            k,
        ) && answers(k, r, s.on());
    lemma_carries(k, r, s.on());
}

/// `upsample_nearest1d` is what its kernel makes of the full buffers.
pub proof fn law_upsample_nearest1d<R, K: CpuBackend>(
    s: &OpenVinoStorage<R>,
    l: &Layout,
    sz: usize,
    cpu_read: CpuStorage,
    r: Result<OpenVinoStorage<R>>,
)
    requires
        call_ensures(OpenVinoStorage::<R>::upsample_nearest1d::<K>, (s, l, sz), r),
        call_ensures(OpenVinoStorage::<R>::whole_cpu, (s,), Ok(cpu_read)),
    ensures
        exists|cpu: CpuStorage, k: Result<CpuStorage>|
            cpu@ == cpu_read@ && #[trigger] call_ensures(
                K::upsample_nearest1d,
                (&cpu, l, sz),
                k,
            ) && carries(k, r, s.on()),
{
    let (cpu, k) = choose|cpu: CpuStorage, k: Result<CpuStorage>|
        cpu@ == s.whole() && #[trigger] call_ensures(
            K::upsample_nearest1d,
            (&cpu, l, sz),
            k,
        ) && answers(k, r, s.on());
    lemma_carries(k, r, s.on());
}

/// `upsample_nearest2d` is what its kernel makes of the full buffers.
pub proof fn law_upsample_nearest2d<R, K: CpuBackend>(
    s: &OpenVinoStorage<R>,
    l: &Layout,
    h: usize,
    w: usize,
    cpu_read: CpuStorage,
    r: Result<OpenVinoStorage<R>>,
)
    requires
        call_ensures(OpenVinoStorage::<R>::upsample_nearest2d::<K>, (s, l, h, w), r),
        call_ensures(OpenVinoStorage::<R>::whole_cpu, (s,), Ok(cpu_read)),
    ensures
        exists|cpu: CpuStorage, k: Result<CpuStorage>|
            cpu@ == cpu_read@ && #[trigger] call_ensures(
                K::upsample_nearest2d,
                (&cpu, l, h, w),
                k,
            ) && carries(k, r, s.on()),
{
    let (cpu, k) = choose|cpu: CpuStorage, k: Result<CpuStorage>|
        cpu@ == s.whole() && #[trigger] call_ensures(
            K::upsample_nearest2d,
            (&cpu, l, h, w),
            k,
        ) && answers(k, r, s.on());
    lemma_carries(k, r, s.on());
}

/// `upsample_bilinear2d` is what its kernel makes of the full buffers.
pub proof fn law_upsample_bilinear2d<R, K: CpuBackend>(
    s: &OpenVinoStorage<R>,
    l: &Layout,
    h: usize,
    w: usize,
    align_corners: bool,
    scale_h: Option<K::Float>,
    scale_w: Option<K::Float>,
    cpu_read: CpuStorage,
    r: Result<OpenVinoStorage<R>>,
)
    requires
        call_ensures(OpenVinoStorage::<R>::upsample_bilinear2d::<K>, (s, l, h, w, align_corners, scale_h, scale_w), r),
        call_ensures(OpenVinoStorage::<R>::whole_cpu, (s,), Ok(cpu_read)),
    ensures
        exists|cpu: CpuStorage, k: Result<CpuStorage>|
            cpu@ == cpu_read@ && #[trigger] call_ensures(
                K::upsample_bilinear2d,
                (&cpu, l, h, w, align_corners, scale_h, scale_w),
                k,
            ) && carries(k, r, s.on()),
{
    let (cpu, k) = choose|cpu: CpuStorage, k: Result<CpuStorage>|
        cpu@ == s.whole() && #[trigger] call_ensures(
            K::upsample_bilinear2d,
            (&cpu, l, h, w, align_corners, scale_h, scale_w),
            k,
        ) && answers(k, r, s.on());
    lemma_carries(k, r, s.on());
}

/// `gather` is what its kernel makes of the full buffers.
pub proof fn law_gather<R, K: CpuBackend>(
    s: &OpenVinoStorage<R>,
    l: &Layout,
    indices: &OpenVinoStorage<R>,
    indices_l: &Layout,
    d: usize,
    src_cpu_read: CpuStorage,
    idx_cpu_read: CpuStorage,
    r: Result<OpenVinoStorage<R>>,
)
    requires
        call_ensures(OpenVinoStorage::<R>::gather::<K>, (s, l, indices, indices_l, d), r),
        call_ensures(OpenVinoStorage::<R>::whole_cpu, (s,), Ok(src_cpu_read)),
        call_ensures(OpenVinoStorage::<R>::whole_cpu, (indices,), Ok(idx_cpu_read)),
    ensures
        exists|src_cpu: CpuStorage, idx_cpu: CpuStorage, k: Result<CpuStorage>|
            src_cpu@ == src_cpu_read@ && idx_cpu@ == idx_cpu_read@ && #[trigger] call_ensures(
                K::gather,
                (&src_cpu, l, &idx_cpu, indices_l, d),
                k,
            ) && carries(k, r, s.on()),
{
    let (src_cpu, idx_cpu, k) = choose|src_cpu: CpuStorage, idx_cpu: CpuStorage, k: Result<CpuStorage>|
        src_cpu@ == s.whole() && idx_cpu@ == indices.whole() && #[trigger] call_ensures(
            K::gather,
            (&src_cpu, l, &idx_cpu, indices_l, d),
            k,
        ) && answers(k, r, s.on());
    lemma_carries(k, r, s.on());
}

/// `scatter_set` is what its kernel makes of the full buffers.
pub proof fn law_scatter_set<R, K: CpuBackend>(
    s: &mut OpenVinoStorage<R>,
    l: &Layout,
    indices: &OpenVinoStorage<R>,
    indices_l: &Layout,
    src: &OpenVinoStorage<R>,
    src_l: &Layout,
    d: usize,
    dst_cpu_read: CpuStorage,
    idx_cpu_read: CpuStorage,
    src_cpu_read: CpuStorage,
    r: Result<()>,
)
    requires
        call_ensures(OpenVinoStorage::<R>::scatter_set::<K>, (s, l, indices, indices_l, src, src_l, d), r),
        call_ensures(OpenVinoStorage::<R>::whole_cpu, (&*old(s),), Ok(dst_cpu_read)),
        call_ensures(OpenVinoStorage::<R>::whole_cpu, (indices,), Ok(idx_cpu_read)),
        call_ensures(OpenVinoStorage::<R>::whole_cpu, (src,), Ok(src_cpu_read)),
    ensures
        exists|dst_cpu: CpuStorage, idx_cpu: CpuStorage, src_cpu: CpuStorage, k: Result<CpuStorage>|
            dst_cpu@ == dst_cpu_read@ && idx_cpu@ == idx_cpu_read@ && src_cpu@ == src_cpu_read@ && #[trigger] call_ensures(
                K::scatter_set,
                (dst_cpu, l, &idx_cpu, indices_l, &src_cpu, src_l, d),
                k,
            ) && takes(k, *old(s), *final(s), r),
{
    let (dst_cpu, idx_cpu, src_cpu, k) = choose|dst_cpu: CpuStorage, idx_cpu: CpuStorage, src_cpu: CpuStorage, k: Result<CpuStorage>|
        dst_cpu@ == old(s).whole() && idx_cpu@ == indices.whole() && src_cpu@ == src.whole() && #[trigger] call_ensures(
            K::scatter_set,
            (dst_cpu, l, &idx_cpu, indices_l, &src_cpu, src_l, d),
            k,
        ) && updates(k, *old(s), *final(s), r);
    lemma_takes(k, *old(s), *final(s), r);
}

/// `scatter_add_set` is what its kernel makes of the full buffers.
pub proof fn law_scatter_add_set<R, K: CpuBackend>(
    s: &mut OpenVinoStorage<R>,
    l: &Layout,
    indices: &OpenVinoStorage<R>,
    indices_l: &Layout,
    src: &OpenVinoStorage<R>,
    src_l: &Layout,
    d: usize,
    dst_cpu_read: CpuStorage,
    idx_cpu_read: CpuStorage,
    src_cpu_read: CpuStorage,
    r: Result<()>,
)
    requires
        call_ensures(OpenVinoStorage::<R>::scatter_add_set::<K>, (s, l, indices, indices_l, src, src_l, d), r),
        call_ensures(OpenVinoStorage::<R>::whole_cpu, (&*old(s),), Ok(dst_cpu_read)),
        call_ensures(OpenVinoStorage::<R>::whole_cpu, (indices,), Ok(idx_cpu_read)),
        call_ensures(OpenVinoStorage::<R>::whole_cpu, (src,), Ok(src_cpu_read)),
    ensures
        exists|dst_cpu: CpuStorage, idx_cpu: CpuStorage, src_cpu: CpuStorage, k: Result<CpuStorage>|
            dst_cpu@ == dst_cpu_read@ && idx_cpu@ == idx_cpu_read@ && src_cpu@ == src_cpu_read@ && #[trigger] call_ensures(
                K::scatter_add_set,
                (dst_cpu, l, &idx_cpu, indices_l, &src_cpu, src_l, d),
                k,
            ) && takes(k, *old(s), *final(s), r),
{
    let (dst_cpu, idx_cpu, src_cpu, k) = choose|dst_cpu: CpuStorage, idx_cpu: CpuStorage, src_cpu: CpuStorage, k: Result<CpuStorage>|
        dst_cpu@ == old(s).whole() && idx_cpu@ == indices.whole() && src_cpu@ == src.whole() && #[trigger] call_ensures(
            K::scatter_add_set,
            (dst_cpu, l, &idx_cpu, indices_l, &src_cpu, src_l, d),
            k,
        ) && updates(k, *old(s), *final(s), r);
    lemma_takes(k, *old(s), *final(s), r);
}

/// `index_select` is what its kernel makes of the full buffers.
pub proof fn law_index_select<R, K: CpuBackend>(
    s: &OpenVinoStorage<R>,
    indices: &OpenVinoStorage<R>,
    l: &Layout,
    indices_l: &Layout,
    d: usize,
    src_cpu_read: CpuStorage,
    idx_cpu_read: CpuStorage,
    r: Result<OpenVinoStorage<R>>,
)
    requires
        call_ensures(OpenVinoStorage::<R>::index_select::<K>, (s, indices, l, indices_l, d), r),
        call_ensures(OpenVinoStorage::<R>::whole_cpu, (s,), Ok(src_cpu_read)),
        call_ensures(OpenVinoStorage::<R>::whole_cpu, (indices,), Ok(idx_cpu_read)),
    ensures
        exists|src_cpu: CpuStorage, idx_cpu: CpuStorage, k: Result<CpuStorage>|
            src_cpu@ == src_cpu_read@ && idx_cpu@ == idx_cpu_read@ && #[trigger] call_ensures(
                K::index_select,
                (&src_cpu, &idx_cpu, l, indices_l, d),
                k,
            ) && carries(k, r, s.on()),
{
    let (src_cpu, idx_cpu, k) = choose|src_cpu: CpuStorage, idx_cpu: CpuStorage, k: Result<CpuStorage>|
        src_cpu@ == s.whole() && idx_cpu@ == indices.whole() && #[trigger] call_ensures(
            K::index_select,
            (&src_cpu, &idx_cpu, l, indices_l, d),
            k,
        ) && answers(k, r, s.on());
    lemma_carries(k, r, s.on());
}

/// `index_add` is what its kernel makes of the full buffers.
pub proof fn law_index_add<R, K: CpuBackend>(
    s: &OpenVinoStorage<R>,
    l: &Layout,
    indices: &OpenVinoStorage<R>,
    indices_l: &Layout,
    src: &OpenVinoStorage<R>,
    src_l: &Layout,
    d: usize,
    dst_cpu_read: CpuStorage,
    idx_cpu_read: CpuStorage,
    src_cpu_read: CpuStorage,
    r: Result<OpenVinoStorage<R>>,
)
    requires
        call_ensures(OpenVinoStorage::<R>::index_add::<K>, (s, l, indices, indices_l, src, src_l, d), r),
        call_ensures(OpenVinoStorage::<R>::whole_cpu, (s,), Ok(dst_cpu_read)),
        call_ensures(OpenVinoStorage::<R>::whole_cpu, (indices,), Ok(idx_cpu_read)),
        call_ensures(OpenVinoStorage::<R>::whole_cpu, (src,), Ok(src_cpu_read)),
    ensures
        exists|dst_cpu: CpuStorage, idx_cpu: CpuStorage, src_cpu: CpuStorage, k: Result<CpuStorage>|
            dst_cpu@ == dst_cpu_read@ && idx_cpu@ == idx_cpu_read@ && src_cpu@ == src_cpu_read@ && #[trigger] call_ensures(
                K::index_add,
                (&dst_cpu, l, &idx_cpu, indices_l, &src_cpu, src_l, d),
                k,
            ) && carries(k, r, s.on()),
{
    let (dst_cpu, idx_cpu, src_cpu, k) = choose|dst_cpu: CpuStorage, idx_cpu: CpuStorage, src_cpu: CpuStorage, k: Result<CpuStorage>|
        dst_cpu@ == s.whole() && idx_cpu@ == indices.whole() && src_cpu@ == src.whole() && #[trigger] call_ensures(
            K::index_add,
            (&dst_cpu, l, &idx_cpu, indices_l, &src_cpu, src_l, d),
            k,
        ) && answers(k, r, s.on());
    lemma_carries(k, r, s.on());
}

/// `const_set` is what its kernel makes of the full buffers.
pub proof fn law_const_set<R, K: CpuBackend>(
    s: &mut OpenVinoStorage<R>,
    v: K::Scalar,
    l: &Layout,
    cpu_read: CpuStorage,
    r: Result<()>,
)
    requires
        call_ensures(OpenVinoStorage::<R>::const_set::<K>, (s, v, l), r),
        call_ensures(OpenVinoStorage::<R>::whole_cpu, (&*old(s),), Ok(cpu_read)),
    ensures
        exists|cpu: CpuStorage, k: Result<CpuStorage>|
            cpu@ == cpu_read@ && #[trigger] call_ensures(
                K::const_set,
                (cpu, v, l),
                k,
            ) && takes(k, *old(s), *final(s), r),
{
    let (cpu, k) = choose|cpu: CpuStorage, k: Result<CpuStorage>|
        cpu@ == old(s).whole() && #[trigger] call_ensures(
            K::const_set,
            (cpu, v, l),
            k,
        ) && updates(k, *old(s), *final(s), r);
    lemma_takes(k, *old(s), *final(s), r);
}

/// `copy_strided_src` is what its kernel makes of the full buffers.
pub proof fn law_copy_strided_src<R, K: CpuBackend>(
    s: &OpenVinoStorage<R>,
    dst: &mut OpenVinoStorage<R>,
    dst_offset: usize,
    src_l: &Layout,
    src_cpu_read: CpuStorage,
    dst_cpu_read: CpuStorage,
    r: Result<()>,
)
    requires
        call_ensures(OpenVinoStorage::<R>::copy_strided_src::<K>, (s, dst, dst_offset, src_l), r),
        call_ensures(OpenVinoStorage::<R>::whole_cpu, (s,), Ok(src_cpu_read)),
        call_ensures(OpenVinoStorage::<R>::whole_cpu, (&*old(dst),), Ok(dst_cpu_read)),
    ensures
        exists|src_cpu: CpuStorage, dst_cpu: CpuStorage, k: Result<CpuStorage>|
            src_cpu@ == src_cpu_read@ && dst_cpu@ == dst_cpu_read@ && #[trigger] call_ensures(
                K::copy_strided_src,
                (&src_cpu, dst_cpu, dst_offset, src_l),
                k,
            ) && takes(k, *old(dst), *final(dst), r),
{
    let (src_cpu, dst_cpu, k) = choose|src_cpu: CpuStorage, dst_cpu: CpuStorage, k: Result<CpuStorage>|
        src_cpu@ == s.whole() && dst_cpu@ == old(dst).whole() && #[trigger] call_ensures(
            K::copy_strided_src,
            (&src_cpu, dst_cpu, dst_offset, src_l),
            k,
        ) && updates(k, *old(dst), *final(dst), r);
    lemma_takes(k, *old(dst), *final(dst), r);
}

/// `copy2d` is what its kernel makes of the full buffers.
pub proof fn law_copy2d<R, K: CpuBackend>(
    s: &OpenVinoStorage<R>,
    dst: &mut OpenVinoStorage<R>,
    d1: usize,
    d2: usize,
    src_s: usize,
    dst_s: usize,
    src_o: usize,
    dst_o: usize,
    src_cpu_read: CpuStorage,
    dst_cpu_read: CpuStorage,
    r: Result<()>,
)
    requires
        call_ensures(OpenVinoStorage::<R>::copy2d::<K>, (s, dst, d1, d2, src_s, dst_s, src_o, dst_o), r),
        call_ensures(OpenVinoStorage::<R>::whole_cpu, (s,), Ok(src_cpu_read)),
        call_ensures(OpenVinoStorage::<R>::whole_cpu, (&*old(dst),), Ok(dst_cpu_read)),
    ensures
        exists|src_cpu: CpuStorage, dst_cpu: CpuStorage, k: Result<CpuStorage>|
            src_cpu@ == src_cpu_read@ && dst_cpu@ == dst_cpu_read@ && #[trigger] call_ensures(
                K::copy2d,
                (&src_cpu, dst_cpu, d1, d2, src_s, dst_s, src_o, dst_o),
                k,
            ) && takes(k, *old(dst), *final(dst), r),
{
    let (src_cpu, dst_cpu, k) = choose|src_cpu: CpuStorage, dst_cpu: CpuStorage, k: Result<CpuStorage>|
        src_cpu@ == s.whole() && dst_cpu@ == old(dst).whole() && #[trigger] call_ensures(
            K::copy2d,
            (&src_cpu, dst_cpu, d1, d2, src_s, dst_s, src_o, dst_o),
            k,
        ) && updates(k, *old(dst), *final(dst), r);
    lemma_takes(k, *old(dst), *final(dst), r);
}

/// An operation of one's own on the counted elements is what the kernel makes of them.
pub proof fn law_cpu_op<R, F: FnOnce(CpuStorage) -> Result<CpuStorage>>(
    s: &OpenVinoStorage<R>,
    l: &Layout,
    f: F,
    read: Result<CpuStorage>,
    r: Result<OpenVinoStorage<R>>,
)
    requires
        call_ensures(OpenVinoStorage::<R>::cpu_op::<F>, (s, l, f), r),
        call_ensures(OpenVinoStorage::<R>::to_cpu, (s, l), read),
    ensures
        read matches Ok(x) ==> exists|cpu: CpuStorage, k: Result<CpuStorage>|
            cpu@ == x@ && #[trigger] call_ensures(f, (cpu,), k) && carries(k, r, s.on()),
        read matches Err(e) ==> (r matches Err(e2) && same_message(e, e2)),
{
    if read is Ok {
        let (cpu, k) = choose|cpu: CpuStorage, k: Result<CpuStorage>|
            cpu@ == s.elems(l) && #[trigger] call_ensures(f, (cpu,), k) && answers(k, r, s.on());
        lemma_carries(k, r, s.on());
    }
}

/// An operation of one's own on the counted elements of two storages is what the kernel makes of them,
/// the left ones first.
pub proof fn law_cpu_binary_op<
    R,
    F: FnOnce(CpuStorage, &CpuStorage, &Layout, &Layout) -> Result<CpuStorage>,
>(
    s: &OpenVinoStorage<R>,
    rhs: &OpenVinoStorage<R>,
    lhs_l: &Layout,
    rhs_l: &Layout,
    f: F,
    lhs_read: Result<CpuStorage>,
    rhs_read: Result<CpuStorage>,
    r: Result<OpenVinoStorage<R>>,
)
    requires
        call_ensures(OpenVinoStorage::<R>::cpu_binary_op::<F>, (s, rhs, lhs_l, rhs_l, f), r),
        call_ensures(OpenVinoStorage::<R>::to_cpu, (s, lhs_l), lhs_read),
        call_ensures(OpenVinoStorage::<R>::to_cpu, (rhs, rhs_l), rhs_read),
    ensures
        lhs_read is Ok && rhs_read is Ok ==> exists|
            a: CpuStorage,
            b: CpuStorage,
            k: Result<CpuStorage>,
        |
            a@ == lhs_read->Ok_0@ && b@ == rhs_read->Ok_0@ && #[trigger] call_ensures(
                f,
                (a, &b, lhs_l, rhs_l),
                k,
            ) && carries(k, r, s.on()),
        lhs_read matches Err(e) ==> (r matches Err(e2) && same_message(e, e2)),
        lhs_read is Ok ==> (rhs_read matches Err(e) ==> (r matches Err(e2) && same_message(e, e2))),
{
    if lhs_read is Ok && rhs_read is Ok {
        let (a, b, k) = choose|a: CpuStorage, b: CpuStorage, k: Result<CpuStorage>|
            a@ == s.elems(lhs_l) && b@ == rhs.elems(rhs_l) && #[trigger] call_ensures(
                f,
                (a, &b, lhs_l, rhs_l),
                k,
            ) && answers(k, r, s.on());
        lemma_carries(k, r, s.on());
    }
}

/// Whether two errors are the same message of the backend.
pub open spec fn same_message(a: Error, b: Error) -> bool {
    a matches Error::OpenVino(OpenVinoError::Message(s)) && (b matches Error::OpenVino(
        OpenVinoError::Message(t),
    ) && s@ == t@)
}

} // verus!
