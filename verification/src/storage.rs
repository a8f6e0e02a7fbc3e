//! Tensor storage of an OpenVINO device.
use crate::backend::{BinaryOpT, CpuBackend, UnaryOpT};
use crate::cpu_storage::{CpuData, CpuStorage};
use crate::device::OpenVinoDevice;
use crate::dtype::DType;
use crate::error::{Error, Result};
use crate::layout::{lemma_vector_count, product, vector_dims, Layout, Shape};
use crate::utils::{
    bytes_to_cpu_storage, check_len, convertible, cpu_storage_to_bytes, holds, is_short_buffer,
};
use vstd::prelude::*;
use vstd::string::StringExecFns;

verus! {

/// NPU-resident tensor storage.
///
/// Data is kept as a flat `Vec<u8>` of raw bytes in host memory (the NPU always DMA-copies from
/// host memory on inference anyway, and OpenVINO manages its own internal device buffers). The storage
/// owns its bytes, and every change takes `&mut self`, so that no lock guards them.
#[verifier::reject_recursive_types(R)]
pub struct OpenVinoStorage<R = openvino::Core> {
    data: Vec<u8>,
    dtype: DType,
    device: OpenVinoDevice<R>,
}

impl<R> OpenVinoStorage<R> {
    /// The raw bytes.
    pub closed spec fn data(&self) -> Seq<u8> {
        self.data@
    }

    /// The element type.
    pub closed spec fn elem_type(&self) -> DType {
        self.dtype
    }

    /// The device.
    pub closed spec fn on(&self) -> OpenVinoDevice<R> {
        self.device
    }

    /// Whether the storage holds the elements of `d` on the given device.
    pub open spec fn stores(&self, d: CpuData, device: OpenVinoDevice<R>) -> bool {
        &&& self.data() == d.to_bytes()
        &&& self.elem_type() == d.dtype()
        &&& self.on() == device
    }

    /// Whether the storage is in all respects as `other` is.
    pub open spec fn same_as(&self, other: Self) -> bool {
        &&& self.data() == other.data()
        &&& self.elem_type() == other.elem_type()
        &&& self.on() == other.on()
    }

    /// How many whole elements of `size` bytes the storage holds.
    pub open spec fn whole_elems(&self, size: nat) -> nat {
        self.data().len() / size
    }

    /// The elements of the full buffer.
    pub open spec fn whole(&self) -> CpuData {
        CpuData::from_bytes(
            self.data(),
            self.elem_type(),
            self.whole_elems(self.elem_type().width()),
        )
    }

    /// Whether the storage holds every element that `l` shows.
    pub open spec fn spans(&self, l: &Layout) -> bool {
        holds(self.data().len(), self.elem_type(), l.reach())
    }

    /// Whether the storage can be asked for the elements that `l` shows: their number and the number
    /// of bytes they take are in range, and a raw-byte type, of which the length is not checked,
    /// finds its bytes.
    pub open spec fn addressable(&self, l: &Layout) -> bool {
        &&& l.shape.countable()
        &&& l.count() * self.elem_type().width() <= usize::MAX
        &&& convertible(self.data().len(), self.elem_type(), l.reach())
    }

    /// The elements that `l` shows, in row-major order.
    pub open spec fn visible(&self, l: &Layout) -> CpuData {
        self.whole().visible(*l)
    }

    /// Whether `r` reports that `l` reaches past the end of the storage.
    pub open spec fn misses<T>(&self, l: &Layout, r: Result<T>) -> bool {
        r matches Err(e) && is_short_buffer(
            e,
            l.reach(),
            self.elem_type().width(),
            self.data().len(),
        )
    }

    /// Whether the storage can be asked for as many elements as `l` counts.
    pub open spec fn accepts(&self, l: &Layout) -> bool {
        &&& l.shape.countable()
        &&& convertible(self.data().len(), self.elem_type(), l.count())
    }

    /// Whether the storage holds as many elements as `l` counts.
    pub open spec fn covers(&self, l: &Layout) -> bool {
        holds(self.data().len(), self.elem_type(), l.count())
    }

    /// The first elements of the storage, as many as `l` counts.
    pub open spec fn elems(&self, l: &Layout) -> CpuData {
        CpuData::from_bytes(self.data(), self.elem_type(), l.count())
    }

    /// Whether `r` reports that the storage holds fewer elements than `l` counts.
    pub open spec fn refuses<T>(&self, l: &Layout, r: Result<T>) -> bool {
        r matches Err(e) && is_short_buffer(
            e,
            l.count(),
            self.elem_type().width(),
            self.data().len(),
        )
    }

    pub(crate) fn from_parts(data: Vec<u8>, dtype: DType, device: OpenVinoDevice<R>) -> (r: Self)
        ensures
            r.data() == data@,
            r.elem_type() == dtype,
            r.on() == device,
    {
        OpenVinoStorage { data, dtype, device }
    }
}

/// Whether `r` is what an operation makes of the result `k` of its kernel: the buffer of the kernel,
/// stored on the device, or the error of the kernel.
pub open spec fn answers<R>(
    k: Result<CpuStorage>,
    r: Result<OpenVinoStorage<R>>,
    device: OpenVinoDevice<R>,
) -> bool {
    match k {
        Ok(cpu) => r matches Ok(s) && s.stores(cpu@, device),
        Err(e) => r == Err::<OpenVinoStorage<R>, Error>(e),
    }
}

/// Whether `new` and `r` are what an in-place operation makes of the storage `old` with the result
/// `k` of its kernel: the buffer of the kernel replaces the data, or the storage stays as it is and
/// the error of the kernel is returned. Element type and device stay in any case.
pub open spec fn updates<R>(
    k: Result<CpuStorage>,
    old: OpenVinoStorage<R>,
    new: OpenVinoStorage<R>,
    r: Result<()>,
) -> bool {
    match k {
        Ok(cpu) => {
            &&& r is Ok
            &&& new.data() == cpu@.to_bytes()
            &&& new.elem_type() == old.elem_type()
            &&& new.on() == old.on()
        },
        Err(e) => r == Err::<(), Error>(e) && new.same_as(old),
    }
}

impl<R> OpenVinoStorage<R> {
    /// Replace the underlying storage bytes with the contents of a [`CpuStorage`]. Used by in-place
    /// operations that round-trip through the CPU.
    pub fn replace_storage_from_cpu(&mut self, cpu: CpuStorage) -> (r: Result<()>)
        ensures
            r is Ok,
            final(self).stores(cpu@, old(self).on()),
    {
        let new_bytes = cpu_storage_to_bytes(&cpu)?;
        self.data = new_bytes;
        self.dtype = cpu.dtype();
        Ok(())
    }

    /// Borrow raw bytes immutably.
    pub fn bytes(&self) -> (r: &[u8])
        ensures
            r@ == self.data(),
    {
        self.data.as_slice()
    }

    /// Convert the elements that `layout` counts to a [`CpuStorage`].
    pub fn to_cpu(&self, layout: &Layout) -> (r: Result<CpuStorage>)
        requires
            self.accepts(layout),
        ensures
            !self.covers(layout) ==> self.refuses(layout, r),
            self.covers(layout) ==> (r matches Ok(cpu) && cpu@ == self.elems(layout)),
    {
        bytes_to_cpu_storage(self.data.as_slice(), self.dtype, layout)
    }

    /// Convert the full buffer to a [`CpuStorage`].
    pub fn whole_cpu(&self) -> (r: Result<CpuStorage>)
        ensures
            r matches Ok(cpu) && cpu@ == self.whole(),
    {
        let width: usize = self.dtype.buffer_width();
        let elem_count: usize = self.data.len() / width;
        let layout = vector_layout(elem_count);
        proof {
            lemma_whole_elems(self.data().len(), self.elem_type().width());
        }
        bytes_to_cpu_storage(self.data.as_slice(), self.dtype, &layout)
    }

    /// Convert the elements that `layout` shows to a [`CpuStorage`], in row-major order.
    pub fn visible_cpu(&self, layout: &Layout) -> (r: Result<CpuStorage>)
        requires
            self.addressable(layout),
        ensures
            !self.spans(layout) ==> self.misses(layout, r),
            self.spans(layout) ==> (r matches Ok(cpu) && cpu@ == self.visible(layout)),
    {
        let width: usize = self.dtype.buffer_width();
        proof {
            lemma_factor(layout.reach(), self.elem_type().width());
        }
        let needed: usize = layout.required_len();
        check_len(self.data.as_slice(), needed, width)?;
        proof {
            lemma_whole_count(self.data().len(), self.elem_type().width(), layout.reach());
        }
        let cpu = self.whole_cpu()?;
        Ok(cpu.visible(layout))
    }

    /// Round-trip an operation through the CPU backend.
    pub fn cpu_op<F: FnOnce(CpuStorage) -> Result<CpuStorage>>(&self, layout: &Layout, f: F) -> (r:
        Result<Self>)
        requires
            self.accepts(layout),
            forall|cpu: CpuStorage| cpu@ == self.elems(layout) ==> #[trigger] call_requires(f, (cpu,)),
        ensures
            !self.covers(layout) ==> self.refuses(layout, r),
            self.covers(layout) ==> exists|cpu: CpuStorage, k: Result<CpuStorage>|
                cpu@ == self.elems(layout) && #[trigger] call_ensures(f, (cpu,), k) && answers(
                    k,
                    r,
                    self.on(),
                ),
    {
        let cpu = self.to_cpu(layout)?;
        let out_cpu = f(cpu)?;
        self.device.storage_from_cpu_storage(&out_cpu)
    }

    /// Round-trip an operation with two operands through the CPU backend.
    pub fn cpu_binary_op<
        F: FnOnce(CpuStorage, &CpuStorage, &Layout, &Layout) -> Result<CpuStorage>,
    >(&self, rhs: &Self, lhs_l: &Layout, rhs_l: &Layout, f: F) -> (r: Result<Self>)
        requires
            self.accepts(lhs_l),
            rhs.accepts(rhs_l),
            forall|a: CpuStorage, b: CpuStorage|
                a@ == self.elems(lhs_l) && b@ == rhs.elems(rhs_l) ==> #[trigger] call_requires(
                    f,
                    (a, &b, lhs_l, rhs_l),
                ),
        ensures
            !self.covers(lhs_l) ==> self.refuses(lhs_l, r),
            self.covers(lhs_l) && !rhs.covers(rhs_l) ==> rhs.refuses(rhs_l, r),
            self.covers(lhs_l) && rhs.covers(rhs_l) ==> exists|
                a: CpuStorage,
                b: CpuStorage,
                k: Result<CpuStorage>,
            |
                a@ == self.elems(lhs_l) && b@ == rhs.elems(rhs_l) && #[trigger] call_ensures(
                    f,
                    (a, &b, lhs_l, rhs_l),
                    k,
                ) && answers(k, r, self.on()),
    {
        let lhs_cpu = self.to_cpu(lhs_l)?;
        let rhs_cpu = rhs.to_cpu(rhs_l)?;
        let out_cpu = f(lhs_cpu, &rhs_cpu, lhs_l, rhs_l)?;
        self.device.storage_from_cpu_storage(&out_cpu)
    }

    /// CPU fallback for matmul.
    pub fn matmul_cpu<K: CpuBackend>(
        &self,
        rhs: &Self,
        bmnk: (usize, usize, usize, usize),
        lhs_l: &Layout,
        rhs_l: &Layout,
    ) -> (r: Result<Self>)
        ensures
            exists|lhs_cpu: CpuStorage, rhs_cpu: CpuStorage, k: Result<CpuStorage>|
                lhs_cpu@ == self.whole() && rhs_cpu@ == rhs.whole() && #[trigger] call_ensures(
                    K::matmul,
                    (&lhs_cpu, &rhs_cpu, bmnk, lhs_l, rhs_l),
                    k,
                ) && answers(k, r, self.on()),
    {
        let lhs_cpu = self.whole_cpu()?;
        let rhs_cpu = rhs.whole_cpu()?;
        let out_cpu = K::matmul(&lhs_cpu, &rhs_cpu, bmnk, lhs_l, rhs_l)?;
        self.device.storage_from_cpu_storage_owned(out_cpu)
    }

    /// What a storage looks like in a log.
    pub open spec fn debug_text(&self) -> Seq<char> {
        "OpenVinoStorage(dtype="@ + self.elem_type().name_text() + ")"@
    }

    /// What a storage looks like in a log.
    pub fn debug_string(&self) -> (r: String)
        ensures
            r@ == self.debug_text(),
    {
        let mut s = String::from_str("OpenVinoStorage(dtype=");
        s.append(self.dtype.name());
        s.append(")");
        s
    }

    /// A full contiguous copy of the elements that `layout` shows.
    pub fn try_clone(&self, layout: &Layout) -> (r: Result<Self>)
        requires
            self.addressable(layout),
        ensures
            !self.spans(layout) ==> self.misses(layout, r),
            self.spans(layout) ==> (r matches Ok(s) && s.stores(self.visible(layout), self.on())),
    {
        let cpu = self.visible_cpu(layout)?;
        self.device.storage_from_cpu_storage(&cpu)
    }

    /// The element type.
    pub fn dtype(&self) -> (r: DType)
        ensures
            r == self.elem_type(),
    {
        self.dtype
    }

    /// The device.
    pub fn device(&self) -> (r: &OpenVinoDevice<R>)
        ensures
            *r == self.on(),
    {
        &self.device
    }

    /// The full underlying buffer as a [`CpuStorage`].
    pub fn to_cpu_storage(&self) -> (r: Result<CpuStorage>)
        requires
            self.elem_type().size() > 0,
        ensures
            r matches Ok(cpu) && cpu@ == CpuData::from_bytes(
                self.data(),
                self.elem_type(),
                self.whole_elems(self.elem_type().size()),
            ),
            r matches Ok(cpu) && cpu@ == self.whole(),
    {
        self.whole_cpu()
    }
}

/// The layout of a contiguous buffer of `n` elements.
fn vector_layout(n: usize) -> (l: Layout)
    ensures
        l.shape@ == vector_dims(n),
        l.shape.countable(),
        l.count() == n,
{
    let shape = Shape::vector(n);
    proof {
        lemma_vector_count(n);
        assert forall|i: int| 0 <= i <= shape@.len() implies #[trigger] product(shape@.take(i))
            <= usize::MAX by {
            assert(i == 0 ==> shape@.take(i) =~= seq![]);
            assert(i == 1 ==> shape@.take(i) =~= shape@);
        }
        assert forall|i: int| 0 <= i <= shape@.len() implies #[trigger] product(shape@.skip(i))
            <= usize::MAX by {
            assert(i == 0 ==> shape@.skip(i) =~= shape@);
            assert(i == 1 ==> shape@.skip(i) =~= seq![]);
        }
    }
    Layout::contiguous(shape)
}

proof fn lemma_whole_elems(len: nat, size: nat)
    requires
        size > 0,
    ensures
        (len / size) * size <= len,
        len / size <= len,
{
    assert((len / size) * size <= len && len / size <= len) by (nonlinear_arith)
        requires
            size > 0,
    ;
}

proof fn lemma_factor(n: nat, width: nat)
    requires
        width > 0,
    ensures
        n <= n * width,
{
    assert(n <= n * width) by (nonlinear_arith)
        requires
            width > 0,
    ;
}

proof fn lemma_whole_count(len: nat, width: nat, n: nat)
    requires
        width > 0,
    ensures
        n * width <= len <==> n <= len / width,
{
    assert(n * width <= len <==> n <= len / width) by (nonlinear_arith)
        requires
            width > 0,
    ;
}

/// Element-wise operations, on the CPU.
impl<R> OpenVinoStorage<R> {
    /// `x * mul + add` for every element `x`.
    pub fn affine<K: CpuBackend>(
        &self,
        l: &Layout,
        mul: K::Float,
        add: K::Float,
    ) -> (r: Result<Self>)
        ensures
            exists|cpu: CpuStorage, k: Result<CpuStorage>|
                cpu@ == self.whole()
                    && #[trigger] call_ensures(
                    K::affine,
                    (&cpu, l, mul, add),
                    k,
                ) && answers(k, r, self.on()),
    {
        let cpu = self.whole_cpu()?;
        let out_cpu = K::affine(&cpu, l, mul, add)?;
        self.device.storage_from_cpu_storage_owned(out_cpu)
    }

    /// Every element raised to the power `alpha`.
    pub fn powf<K: CpuBackend>(
        &self,
        l: &Layout,
        alpha: K::Float,
    ) -> (r: Result<Self>)
        ensures
            exists|cpu: CpuStorage, k: Result<CpuStorage>|
                cpu@ == self.whole()
                    && #[trigger] call_ensures(
                    K::powf,
                    (&cpu, l, alpha),
                    k,
                ) && answers(k, r, self.on()),
    {
        let cpu = self.whole_cpu()?;
        let out_cpu = K::powf(&cpu, l, alpha)?;
        self.device.storage_from_cpu_storage_owned(out_cpu)
    }

    /// The exponential linear unit of every element.
    pub fn elu<K: CpuBackend>(
        &self,
        l: &Layout,
        alpha: K::Float,
    ) -> (r: Result<Self>)
        ensures
            exists|cpu: CpuStorage, k: Result<CpuStorage>|
                cpu@ == self.whole()
                    && #[trigger] call_ensures(
                    K::elu,
                    (&cpu, l, alpha),
                    k,
                ) && answers(k, r, self.on()),
    {
        let cpu = self.whole_cpu()?;
        let out_cpu = K::elu(&cpu, l, alpha)?;
        self.device.storage_from_cpu_storage_owned(out_cpu)
    }

    /// Reduces the dimensions `dims`.
    pub fn reduce_op<K: CpuBackend>(
        &self,
        op: K::ReduceOp,
        l: &Layout,
        dims: &[usize],
    ) -> (r: Result<Self>)
        ensures
            exists|cpu: CpuStorage, k: Result<CpuStorage>|
                cpu@ == self.whole()
                    && #[trigger] call_ensures(
                    K::reduce_op,
                    (&cpu, op, l, dims),
                    k,
                ) && answers(k, r, self.on()),
    {
        let cpu = self.whole_cpu()?;
        let out_cpu = K::reduce_op(&cpu, op, l, dims)?;
        self.device.storage_from_cpu_storage_owned(out_cpu)
    }

    /// Compares the elements of two storages.
    pub fn cmp<K: CpuBackend>(
        &self,
        op: K::CmpOp,
        rhs: &Self,
        lhs_l: &Layout,
        rhs_l: &Layout,
    ) -> (r: Result<Self>)
        ensures
            exists|lhs_cpu: CpuStorage, rhs_cpu: CpuStorage, k: Result<CpuStorage>|
                lhs_cpu@ == self.whole() && rhs_cpu@ == rhs.whole()
                    && #[trigger] call_ensures(
                    K::cmp,
                    (&lhs_cpu, op, &rhs_cpu, lhs_l, rhs_l),
                    k,
                ) && answers(k, r, self.on()),
    {
        let lhs_cpu = self.whole_cpu()?;
        let rhs_cpu = rhs.whole_cpu()?;
        let out_cpu = K::cmp(&lhs_cpu, op, &rhs_cpu, lhs_l, rhs_l)?;
        self.device.storage_from_cpu_storage_owned(out_cpu)
    }

    /// Converts every element to another type.
    pub fn to_dtype<K: CpuBackend>(
        &self,
        l: &Layout,
        dtype: DType,
    ) -> (r: Result<Self>)
        ensures
            exists|cpu: CpuStorage, k: Result<CpuStorage>|
                cpu@ == self.whole()
                    && #[trigger] call_ensures(
                    K::to_dtype,
                    (&cpu, l, dtype),
                    k,
                ) && answers(k, r, self.on()),
    {
        let cpu = self.whole_cpu()?;
        let out_cpu = K::to_dtype(&cpu, l, dtype)?;
        self.device.storage_from_cpu_storage_owned(out_cpu)
    }

    /// Applies a unary operation to every element.
    pub fn unary_impl<K: CpuBackend, B: UnaryOpT>(
        &self,
        l: &Layout,
    ) -> (r: Result<Self>)
        ensures
            exists|cpu: CpuStorage, k: Result<CpuStorage>|
                cpu@ == self.whole()
                    && #[trigger] call_ensures(
                    K::unary_impl::<B>,
                    (&cpu, l),
                    k,
                ) && answers(k, r, self.on()),
    {
        let cpu = self.whole_cpu()?;
        let out_cpu = K::unary_impl::<B>(&cpu, l)?;
        self.device.storage_from_cpu_storage_owned(out_cpu)
    }

    /// Applies a binary operation to the elements of two storages.
    pub fn binary_impl<K: CpuBackend, B: BinaryOpT>(
        &self,
        rhs: &Self,
        lhs_l: &Layout,
        rhs_l: &Layout,
    ) -> (r: Result<Self>)
        ensures
            exists|lhs_cpu: CpuStorage, rhs_cpu: CpuStorage, k: Result<CpuStorage>|
                lhs_cpu@ == self.whole() && rhs_cpu@ == rhs.whole()
                    && #[trigger] call_ensures(
                    K::binary_impl::<B>,
                    (&lhs_cpu, &rhs_cpu, lhs_l, rhs_l),
                    k,
                ) && answers(k, r, self.on()),
    {
        let lhs_cpu = self.whole_cpu()?;
        let rhs_cpu = rhs.whole_cpu()?;
        let out_cpu = K::binary_impl::<B>(&lhs_cpu, &rhs_cpu, lhs_l, rhs_l)?;
        self.device.storage_from_cpu_storage_owned(out_cpu)
    }

    /// Picks every element from `t` or from `f`, as the storage says.
    pub fn where_cond<K: CpuBackend>(
        &self,
        l: &Layout,
        t: &Self,
        t_l: &Layout,
        f: &Self,
        f_l: &Layout,
    ) -> (r: Result<Self>)
        ensures
            exists|cond_cpu: CpuStorage, t_cpu: CpuStorage, f_cpu: CpuStorage, k: Result<CpuStorage>|
                cond_cpu@ == self.whole() && t_cpu@ == t.whole() && f_cpu@ == f.whole()
                    && #[trigger] call_ensures(
                    K::where_cond,
                    (&cond_cpu, l, &t_cpu, t_l, &f_cpu, f_l),
                    k,
                ) && answers(k, r, self.on()),
    {
        let cond_cpu = self.whole_cpu()?;
        let t_cpu = t.whole_cpu()?;
        let f_cpu = f.whole_cpu()?;
        let out_cpu = K::where_cond(&cond_cpu, l, &t_cpu, t_l, &f_cpu, f_l)?;
        self.device.storage_from_cpu_storage_owned(out_cpu)
    }
}

/// Convolution, on the CPU.
impl<R> OpenVinoStorage<R> {
    /// One-dimensional convolution.
    pub fn conv1d<K: CpuBackend>(
        &self,
        l: &Layout,
        kernel: &Self,
        kernel_l: &Layout,
        params: &K::ParamsConv1D,
    ) -> (r: Result<Self>)
        ensures
            exists|inp_cpu: CpuStorage, ker_cpu: CpuStorage, k: Result<CpuStorage>|
                inp_cpu@ == self.whole() && ker_cpu@ == kernel.whole()
                    && #[trigger] call_ensures(
                    K::conv1d,
                    (&inp_cpu, l, &ker_cpu, kernel_l, params),
                    k,
                ) && answers(k, r, self.on()),
    {
        let inp_cpu = self.whole_cpu()?;
        let ker_cpu = kernel.whole_cpu()?;
        let out_cpu = K::conv1d(&inp_cpu, l, &ker_cpu, kernel_l, params)?;
        self.device.storage_from_cpu_storage_owned(out_cpu)
    }

    /// One-dimensional transposed convolution.
    pub fn conv_transpose1d<K: CpuBackend>(
        &self,
        l: &Layout,
        kernel: &Self,
        kernel_l: &Layout,
        params: &K::ParamsConvTranspose1D,
    ) -> (r: Result<Self>)
        ensures
            exists|inp_cpu: CpuStorage, ker_cpu: CpuStorage, k: Result<CpuStorage>|
                inp_cpu@ == self.whole() && ker_cpu@ == kernel.whole()
                    && #[trigger] call_ensures(
                    K::conv_transpose1d,
                    (&inp_cpu, l, &ker_cpu, kernel_l, params),
                    k,
                ) && answers(k, r, self.on()),
    {
        let inp_cpu = self.whole_cpu()?;
        let ker_cpu = kernel.whole_cpu()?;
        let out_cpu = K::conv_transpose1d(&inp_cpu, l, &ker_cpu, kernel_l, params)?;
        self.device.storage_from_cpu_storage_owned(out_cpu)
    }

    /// Two-dimensional convolution.
    pub fn conv2d<K: CpuBackend>(
        &self,
        l: &Layout,
        kernel: &Self,
        kernel_l: &Layout,
        params: &K::ParamsConv2D,
    ) -> (r: Result<Self>)
        ensures
            exists|inp_cpu: CpuStorage, ker_cpu: CpuStorage, k: Result<CpuStorage>|
                inp_cpu@ == self.whole() && ker_cpu@ == kernel.whole()
                    && #[trigger] call_ensures(
                    K::conv2d,
                    (&inp_cpu, l, &ker_cpu, kernel_l, params),
                    k,
                ) && answers(k, r, self.on()),
    {
        let inp_cpu = self.whole_cpu()?;
        let ker_cpu = kernel.whole_cpu()?;
        let out_cpu = K::conv2d(&inp_cpu, l, &ker_cpu, kernel_l, params)?;
        self.device.storage_from_cpu_storage_owned(out_cpu)
    }

    /// Two-dimensional transposed convolution.
    pub fn conv_transpose2d<K: CpuBackend>(
        &self,
        l: &Layout,
        kernel: &Self,
        kernel_l: &Layout,
        params: &K::ParamsConvTranspose2D,
    ) -> (r: Result<Self>)
        ensures
            exists|inp_cpu: CpuStorage, ker_cpu: CpuStorage, k: Result<CpuStorage>|
                inp_cpu@ == self.whole() && ker_cpu@ == kernel.whole()
                    && #[trigger] call_ensures(
                    K::conv_transpose2d,
                    (&inp_cpu, l, &ker_cpu, kernel_l, params),
                    k,
                ) && answers(k, r, self.on()),
    {
        let inp_cpu = self.whole_cpu()?;
        let ker_cpu = kernel.whole_cpu()?;
        let out_cpu = K::conv_transpose2d(&inp_cpu, l, &ker_cpu, kernel_l, params)?;
        self.device.storage_from_cpu_storage_owned(out_cpu)
    }
}

/// Pooling and upsampling, on the CPU.
impl<R> OpenVinoStorage<R> {
    /// Average pooling.
    pub fn avg_pool2d<K: CpuBackend>(
        &self,
        l: &Layout,
        ks: (usize, usize),
        stride: (usize, usize),
    ) -> (r: Result<Self>)
        ensures
            exists|cpu: CpuStorage, k: Result<CpuStorage>|
                cpu@ == self.whole()
                    && #[trigger] call_ensures(
                    K::avg_pool2d,
                    (&cpu, l, ks, stride),
                    k,
                ) && answers(k, r, self.on()),
    {
        let cpu = self.whole_cpu()?;
        let out_cpu = K::avg_pool2d(&cpu, l, ks, stride)?;
        self.device.storage_from_cpu_storage_owned(out_cpu)
    }

    /// Maximum pooling.
    pub fn max_pool2d<K: CpuBackend>(
        &self,
        l: &Layout,
        ks: (usize, usize),
        stride: (usize, usize),
    ) -> (r: Result<Self>)
        ensures
            exists|cpu: CpuStorage, k: Result<CpuStorage>|
                cpu@ == self.whole()
                    && #[trigger] call_ensures(
                    K::max_pool2d,
                    (&cpu, l, ks, stride),
                    k,
                ) && answers(k, r, self.on()),
    {
        let cpu = self.whole_cpu()?;
        let out_cpu = K::max_pool2d(&cpu, l, ks, stride)?;
        self.device.storage_from_cpu_storage_owned(out_cpu)
    }

    /// One-dimensional upsampling to the nearest element.
    pub fn upsample_nearest1d<K: CpuBackend>(
        &self,
        l: &Layout,
        sz: usize,
    ) -> (r: Result<Self>)
        ensures
            exists|cpu: CpuStorage, k: Result<CpuStorage>|
                cpu@ == self.whole()
                    && #[trigger] call_ensures(
                    K::upsample_nearest1d,
                    (&cpu, l, sz),
                    k,
                ) && answers(k, r, self.on()),
    {
        let cpu = self.whole_cpu()?;
        let out_cpu = K::upsample_nearest1d(&cpu, l, sz)?;
        self.device.storage_from_cpu_storage_owned(out_cpu)
    }

    /// Two-dimensional upsampling to the nearest element.
    pub fn upsample_nearest2d<K: CpuBackend>(
        &self,
        l: &Layout,
        h: usize,
        w: usize,
    ) -> (r: Result<Self>)
        ensures
            exists|cpu: CpuStorage, k: Result<CpuStorage>|
                cpu@ == self.whole()
                    && #[trigger] call_ensures(
                    K::upsample_nearest2d,
                    (&cpu, l, h, w),
                    k,
                ) && answers(k, r, self.on()),
    {
        let cpu = self.whole_cpu()?;
        let out_cpu = K::upsample_nearest2d(&cpu, l, h, w)?;
        self.device.storage_from_cpu_storage_owned(out_cpu)
    }

    /// Two-dimensional bilinear upsampling.
    pub fn upsample_bilinear2d<K: CpuBackend>(
        &self,
        l: &Layout,
        h: usize,
        w: usize,
        align_corners: bool,
        scale_h: Option<K::Float>,
        scale_w: Option<K::Float>,
    ) -> (r: Result<Self>)
        ensures
            exists|cpu: CpuStorage, k: Result<CpuStorage>|
                cpu@ == self.whole()
                    && #[trigger] call_ensures(
                    K::upsample_bilinear2d,
                    (&cpu, l, h, w, align_corners, scale_h, scale_w),
                    k,
                ) && answers(k, r, self.on()),
    {
        let cpu = self.whole_cpu()?;
        let out_cpu = K::upsample_bilinear2d(&cpu, l, h, w, align_corners, scale_h, scale_w)?;
        self.device.storage_from_cpu_storage_owned(out_cpu)
    }
}

/// Indexing, on the CPU.
impl<R> OpenVinoStorage<R> {
    /// Gathers elements along the dimension `d`.
    pub fn gather<K: CpuBackend>(
        &self,
        l: &Layout,
        indices: &Self,
        indices_l: &Layout,
        d: usize,
    ) -> (r: Result<Self>)
        ensures
            exists|src_cpu: CpuStorage, idx_cpu: CpuStorage, k: Result<CpuStorage>|
                src_cpu@ == self.whole() && idx_cpu@ == indices.whole()
                    && #[trigger] call_ensures(
                    K::gather,
                    (&src_cpu, l, &idx_cpu, indices_l, d),
                    k,
                ) && answers(k, r, self.on()),
    {
        let src_cpu = self.whole_cpu()?;
        let idx_cpu = indices.whole_cpu()?;
        let out_cpu = K::gather(&src_cpu, l, &idx_cpu, indices_l, d)?;
        self.device.storage_from_cpu_storage_owned(out_cpu)
    }

    /// Sets the indexed elements along the dimension `d`.
    pub fn scatter_set<K: CpuBackend>(
        &mut self,
        l: &Layout,
        indices: &Self,
        indices_l: &Layout,
        src: &Self,
        src_l: &Layout,
        d: usize,
    ) -> (r: Result<()>)
        ensures
            exists|dst_cpu: CpuStorage, idx_cpu: CpuStorage, src_cpu: CpuStorage, k: Result<CpuStorage>|
                dst_cpu@ == old(self).whole() && idx_cpu@ == indices.whole() && src_cpu@ == src.whole()
                    && #[trigger] call_ensures(
                    K::scatter_set,
                    (dst_cpu, l, &idx_cpu, indices_l, &src_cpu, src_l, d),
                    k,
                ) && updates(k, *old(self), *final(self), r),
    {
        let dst_cpu = self.whole_cpu()?;
        let idx_cpu = indices.whole_cpu()?;
        let src_cpu = src.whole_cpu()?;
        let out_cpu = K::scatter_set(dst_cpu, l, &idx_cpu, indices_l, &src_cpu, src_l, d)?;
        let new_bytes = cpu_storage_to_bytes(&out_cpu)?;
        self.data = new_bytes;
        Ok(())
    }

    /// Adds to the indexed elements along the dimension `d`.
    pub fn scatter_add_set<K: CpuBackend>(
        &mut self,
        l: &Layout,
        indices: &Self,
        indices_l: &Layout,
        src: &Self,
        src_l: &Layout,
        d: usize,
    ) -> (r: Result<()>)
        ensures
            exists|dst_cpu: CpuStorage, idx_cpu: CpuStorage, src_cpu: CpuStorage, k: Result<CpuStorage>|
                dst_cpu@ == old(self).whole() && idx_cpu@ == indices.whole() && src_cpu@ == src.whole()
                    && #[trigger] call_ensures(
                    K::scatter_add_set,
                    (dst_cpu, l, &idx_cpu, indices_l, &src_cpu, src_l, d),
                    k,
                ) && updates(k, *old(self), *final(self), r),
    {
        let dst_cpu = self.whole_cpu()?;
        let idx_cpu = indices.whole_cpu()?;
        let src_cpu = src.whole_cpu()?;
        let out_cpu = K::scatter_add_set(dst_cpu, l, &idx_cpu, indices_l, &src_cpu, src_l, d)?;
        let new_bytes = cpu_storage_to_bytes(&out_cpu)?;
        self.data = new_bytes;
        Ok(())
    }

    /// Selects the indexed slices along the dimension `d`.
    pub fn index_select<K: CpuBackend>(
        &self,
        indices: &Self,
        l: &Layout,
        indices_l: &Layout,
        d: usize,
    ) -> (r: Result<Self>)
        ensures
            exists|src_cpu: CpuStorage, idx_cpu: CpuStorage, k: Result<CpuStorage>|
                src_cpu@ == self.whole() && idx_cpu@ == indices.whole()
                    && #[trigger] call_ensures(
                    K::index_select,
                    (&src_cpu, &idx_cpu, l, indices_l, d),
                    k,
                ) && answers(k, r, self.on()),
    {
        let src_cpu = self.whole_cpu()?;
        let idx_cpu = indices.whole_cpu()?;
        let out_cpu = K::index_select(&src_cpu, &idx_cpu, l, indices_l, d)?;
        self.device.storage_from_cpu_storage_owned(out_cpu)
    }

    /// Adds to the indexed slices along the dimension `d`.
    pub fn index_add<K: CpuBackend>(
        &self,
        l: &Layout,
        indices: &Self,
        indices_l: &Layout,
        src: &Self,
        src_l: &Layout,
        d: usize,
    ) -> (r: Result<Self>)
        ensures
            exists|dst_cpu: CpuStorage, idx_cpu: CpuStorage, src_cpu: CpuStorage, k: Result<CpuStorage>|
                dst_cpu@ == self.whole() && idx_cpu@ == indices.whole() && src_cpu@ == src.whole()
                    && #[trigger] call_ensures(
                    K::index_add,
                    (&dst_cpu, l, &idx_cpu, indices_l, &src_cpu, src_l, d),
                    k,
                ) && answers(k, r, self.on()),
    {
        let dst_cpu = self.whole_cpu()?;
        let idx_cpu = indices.whole_cpu()?;
        let src_cpu = src.whole_cpu()?;
        let out_cpu = K::index_add(&dst_cpu, l, &idx_cpu, indices_l, &src_cpu, src_l, d)?;
        self.device.storage_from_cpu_storage_owned(out_cpu)
    }
}

/// Copies and fills, on the CPU.
impl<R> OpenVinoStorage<R> {
    /// Sets the elements that `l` shows to `v`.
    pub fn const_set<K: CpuBackend>(
        &mut self,
        v: K::Scalar,
        l: &Layout,
    ) -> (r: Result<()>)
        ensures
            exists|cpu: CpuStorage, k: Result<CpuStorage>|
                cpu@ == old(self).whole()
                    && #[trigger] call_ensures(
                    K::const_set,
                    (cpu, v, l),
                    k,
                ) && updates(k, *old(self), *final(self), r),
    {
        let cpu = self.whole_cpu()?;
        let out_cpu = K::const_set(cpu, v, l)?;
        let new_bytes = cpu_storage_to_bytes(&out_cpu)?;
        self.data = new_bytes;
        Ok(())
    }

    /// Copies the elements that `src_l` shows to `dst`, from `dst_offset` on.
    pub fn copy_strided_src<K: CpuBackend>(&self, dst: &mut Self, dst_offset: usize, src_l: &Layout)
        -> (r: Result<()>)
        ensures
            exists|src_cpu: CpuStorage, dst_cpu: CpuStorage, k: Result<CpuStorage>|
                src_cpu@ == self.whole() && dst_cpu@ == old(dst).whole() && #[trigger] call_ensures(
                    K::copy_strided_src,
                    (&src_cpu, dst_cpu, dst_offset, src_l),
                    k,
                ) && updates(k, *old(dst), *final(dst), r),
    {
        let src_cpu = self.whole_cpu()?;
        let dst_cpu = dst.whole_cpu()?;
        let out_cpu = K::copy_strided_src(&src_cpu, dst_cpu, dst_offset, src_l)?;
        let new_bytes = cpu_storage_to_bytes(&out_cpu)?;
        dst.data = new_bytes;
        Ok(())
    }

    /// Copies `d1` rows of `d2` elements to `dst`; `src_s` and `dst_s` are the distances between
    /// rows, `src_o` and `dst_o` the first elements.
    pub fn copy2d<K: CpuBackend>(
        &self,
        dst: &mut Self,
        d1: usize,
        d2: usize,
        src_s: usize,
        dst_s: usize,
        src_o: usize,
        dst_o: usize,
    ) -> (r: Result<()>)
        ensures
            exists|src_cpu: CpuStorage, dst_cpu: CpuStorage, k: Result<CpuStorage>|
                src_cpu@ == self.whole() && dst_cpu@ == old(dst).whole() && #[trigger] call_ensures(
                    K::copy2d,
                    (&src_cpu, dst_cpu, d1, d2, src_s, dst_s, src_o, dst_o),
                    k,
                ) && updates(k, *old(dst), *final(dst), r),
    {
        let src_cpu = self.whole_cpu()?;
        let dst_cpu = dst.whole_cpu()?;
        let out_cpu = K::copy2d(&src_cpu, dst_cpu, d1, d2, src_s, dst_s, src_o, dst_o)?;
        let new_bytes = cpu_storage_to_bytes(&out_cpu)?;
        dst.data = new_bytes;
        Ok(())
    }
}

} // verus!
