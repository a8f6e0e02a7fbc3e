//! A handle to an OpenVINO-backed hardware device.
use crate::backend::{CpuBackend, WithDType};
use crate::cpu_storage::CpuStorage;
use crate::dtype::DType;
use crate::error::{from_ov_error, Error, OpenVinoError, OpenVinoResult, Result};
use crate::inference::{make_tensors, run_job, InferenceJob};
use crate::layout::Shape;
use crate::runtime::{Call, CallLog};
use crate::shared::{allocate, locked, same_allocation, share, Shared};
use crate::storage::{answers, OpenVinoStorage};
use crate::text::{decimal, push_decimal};
use crate::utils::cpu_storage_to_bytes;
use std::sync::{Arc, Mutex, MutexGuard, PoisonError};
use vstd::prelude::*;
use vstd::string::StringExecFns;

verus! {

/// Shared state for a single OpenVINO hardware target.
#[verifier::reject_recursive_types(R)]
struct Inner<R> {
    /// The OpenVINO runtime core, behind a lock because it is not `Sync`.
    core: Shared<Mutex<R>>,
    /// OpenVINO device string, e.g. `"NPU"`, `"GPU"`, `"CPU"`.
    device_name: String,
    /// Logical device ordinal (used to distinguish multiple NPUs).
    ordinal: usize,
}

/// A handle to an OpenVINO-backed hardware device (Intel NPU by default).
///
/// Everything but running a model works with any runtime `R`.
#[verifier::reject_recursive_types(R)]
pub struct OpenVinoDevice<R = openvino::Core> {
    inner: Arc<Inner<R>>,
}

/// Where a device is.
#[derive(Clone, Copy, Debug, PartialEq, Eq, Structural)]
pub enum DeviceLocation {
    Npu { device_id: usize },
}

/// The name that OpenVINO gives the NPU with the given ordinal: `"NPU"` for the first, `"NPU.1"`,
/// `"NPU.2"`, … for the others.
pub open spec fn npu_name_text(ordinal: nat) -> Seq<char> {
    if ordinal == 0 {
        "NPU"@
    } else {
        "NPU."@ + decimal(ordinal)
    }
}

/// The name that OpenVINO gives the NPU with the given ordinal.
pub fn npu_name(ordinal: usize) -> (r: String)
    ensures
        r@ == npu_name_text(ordinal as nat),
{
    if ordinal == 0 {
        String::from_str("NPU")
    } else {
        let mut name = String::from_str("NPU.");
        push_decimal(&mut name, ordinal);
        name
    }
}

/// Whether a device with the given name is available.
pub open spec fn is_available(available: Seq<String>, name: Seq<char>) -> bool {
    exists|i: int| 0 <= i < available.len() && (#[trigger] available[i])@ == name
}

fn offers(available: &Vec<String>, name: &str) -> (r: bool)
    ensures
        r == is_available(available@, name@),
{
    let wanted = String::from_str(name);
    let mut i: usize = 0;
    while i < available.len()
        invariant
            i <= available@.len(),
            wanted@ == name@,
            forall|j: int| 0 <= j < i ==> (#[trigger] available@[j])@ != name@,
        decreases available.len() - i,
    {
        if available[i] == wanted {
            return true;
        }
        i = i + 1;
    }
    false
}

/// The best of the available devices: an NPU if there is one, else a GPU, else the CPU.
pub fn preferred_device(available: &Vec<String>) -> (r: Option<&'static str>)
    ensures
        match r {
            Some(name) => is_available(available@, name@) && {
                ||| name@ == "NPU"@
                ||| name@ == "GPU"@ && !is_available(available@, "NPU"@)
                ||| name@ == "CPU"@ && !is_available(available@, "NPU"@) && !is_available(
                    available@,
                    "GPU"@,
                )
            },
            None => !is_available(available@, "NPU"@) && !is_available(available@, "GPU"@)
                && !is_available(available@, "CPU"@),
        },
{
    if offers(available, "NPU") {
        Some("NPU")
    } else if offers(available, "GPU") {
        Some("GPU")
    } else if offers(available, "CPU") {
        Some("CPU")
    } else {
        None
    }
}

impl<R> Clone for OpenVinoDevice<R> {
    fn clone(&self) -> (r: Self)
        ensures
            r == *self,
    {
        OpenVinoDevice { inner: share(&self.inner) }
    }
}

impl<R> OpenVinoDevice<R> {
    /// The OpenVINO device name.
    pub closed spec fn name(&self) -> Seq<char> {
        self.inner.device_name@
    }

    /// The device ordinal.
    pub closed spec fn ordinal(&self) -> usize {
        self.inner.ordinal
    }

    /// A device with the given runtime, name and ordinal.
    pub fn with_runtime(runtime: R, device_name: String, ordinal: usize) -> (r: Self)
        ensures
            r.name() == device_name@,
            r.ordinal() == ordinal,
    {
        OpenVinoDevice {
            inner: Arc::new(
                Inner { core: allocate(Mutex::new(runtime)), device_name, ordinal },
            ),
        }
    }

    /// The OpenVINO device name (e.g. `"NPU"`, `"GPU"`, `"CPU"`).
    pub fn device_name(&self) -> (r: &str)
        ensures
            r@ == self.name(),
    {
        self.inner.device_name.as_str()
    }

    /// What a device looks like in a log.
    pub open spec fn debug_text(&self) -> Seq<char> {
        "OpenVinoDevice(device="@ + self.name() + ", ordinal="@ + decimal(self.ordinal() as nat) + ")"@
    }

    /// What a device looks like in a log.
    pub fn debug_string(&self) -> (r: String)
        ensures
            r@ == self.debug_text(),
    {
        let mut s = String::from_str("OpenVinoDevice(device=");
        s.append(self.inner.device_name.as_str());
        s.append(", ordinal=");
        push_decimal(&mut s, self.inner.ordinal);
        s.append(")");
        s
    }

    /// Where the device is: the NPU with the device's ordinal.
    pub fn location(&self) -> (r: DeviceLocation)
        ensures
            r == (DeviceLocation::Npu { device_id: self.ordinal() }),
    {
        DeviceLocation::Npu { device_id: self.inner.ordinal }
    }

    /// The identity of the runtime.
    pub closed spec fn runtime_id(&self) -> nat {
        self.inner.core.id()
    }

    /// Whether two handles stand for the same device: they share their runtime, and have one name and
    /// one ordinal.
    pub open spec fn is_same(&self, other: &Self) -> bool {
        &&& self.runtime_id() == other.runtime_id()
        &&& self.name() == other.name()
        &&& self.ordinal() == other.ordinal()
    }

    /// Whether two handles stand for the same device. Devices that do not share their runtime are
    /// different, whatever their names.
    pub fn same_device(&self, other: &Self) -> (r: bool)
        ensures
            r == self.is_same(other),
    {
        same_allocation(&self.inner.core, &other.inner.core) && self.inner.device_name
            == other.inner.device_name && self.inner.ordinal == other.inner.ordinal
    }
}

impl<R> OpenVinoDevice<R> {
    /// A storage for the elements of `shape`, all of them zero.
    pub fn zeros_impl(&self, shape: &Shape, dtype: DType) -> (r: Result<OpenVinoStorage<R>>)
        requires
            shape.countable(),
            shape.count() * dtype.size() <= isize::MAX,
        ensures
            r matches Ok(s) && {
                &&& s.data() == Seq::new(shape.count() * dtype.size(), |i: int| 0u8)
                &&& s.elem_type() == dtype
                &&& s.on() == *self
            },
    {
        let elem_count: usize = shape.elem_count();
        let data: Vec<u8> = vec![0; elem_count * dtype.size_in_bytes()];
        assert(data@ =~= Seq::new(shape.count() * dtype.size(), |i: int| 0u8));
        Ok(OpenVinoStorage::from_parts(data, dtype, self.clone()))
    }

    /// A storage for the elements of `shape`, to be filled by the caller.
    pub fn alloc_uninit(&self, shape: &Shape, dtype: DType) -> (r: Result<OpenVinoStorage<R>>)
        requires
            shape.countable(),
            shape.count() * dtype.size() <= isize::MAX,
        ensures
            r matches Ok(s) && {
                &&& s.data().len() == shape.count() * dtype.size()
                &&& s.elem_type() == dtype
                &&& s.on() == *self
            },
    {
        self.zeros_impl(shape, dtype)
    }

    /// A storage with the elements of a slice.
    pub fn storage_from_slice<T: WithDType>(&self, src: &[T]) -> (r: Result<OpenVinoStorage<R>>)
        ensures
            r matches Ok(s) && s.stores(T::buffer(src@), *self),
    {
        let cpu = T::to_cpu_storage(src);
        self.storage_from_cpu_storage(&cpu)
    }

    /// A storage with the elements of a typed buffer.
    pub fn storage_from_cpu_storage(&self, cpu: &CpuStorage) -> (r: Result<OpenVinoStorage<R>>)
        ensures
            r matches Ok(s) && s.stores(cpu@, *self),
    {
        let bytes = cpu_storage_to_bytes(cpu)?;
        Ok(OpenVinoStorage::from_parts(bytes, cpu.dtype(), self.clone()))
    }

    /// A storage with the elements of a typed buffer, which is given up.
    pub fn storage_from_cpu_storage_owned(&self, cpu: CpuStorage) -> (r: Result<OpenVinoStorage<R>>)
        ensures
            r matches Ok(s) && s.stores(cpu@, *self),
    {
        self.storage_from_cpu_storage(&cpu)
    }

    /// A storage with elements that the CPU draws from a uniform distribution.
    pub fn rand_uniform<K: CpuBackend>(
        &self,
        shape: &Shape,
        dtype: DType,
        lo: K::Float,
        hi: K::Float,
    ) -> (r: Result<OpenVinoStorage<R>>)
        ensures
            exists|k: Result<CpuStorage>| #[trigger]
                call_ensures(K::rand_uniform, (shape, dtype, lo, hi), k) && answers(k, r, *self),
    {
        let cpu_storage = K::rand_uniform(shape, dtype, lo, hi)?;
        self.storage_from_cpu_storage(&cpu_storage)
    }

    /// A storage with elements that the CPU draws from a normal distribution.
    pub fn rand_normal<K: CpuBackend>(
        &self,
        shape: &Shape,
        dtype: DType,
        mean: K::Float,
        std_dev: K::Float,
    ) -> (r: Result<OpenVinoStorage<R>>)
        ensures
            exists|k: Result<CpuStorage>| #[trigger]
                call_ensures(K::rand_normal, (shape, dtype, mean, std_dev), k) && answers(k, r, *self),
    {
        let cpu_storage = K::rand_normal(shape, dtype, mean, std_dev)?;
        self.storage_from_cpu_storage(&cpu_storage)
    }

    /// Random numbers are drawn on the CPU: the device has no seed to set.
    pub fn set_seed(&self, _seed: u64) -> (r: Result<()>)
        ensures
            r == Ok::<(), Error>(()),
    {
        Ok(())
    }

    /// Random numbers are drawn on the CPU: the device has no seed to tell.
    pub fn get_current_seed(&self) -> (r: Result<u64>)
        ensures
            r matches Err(Error::Msg(s)) && s@
                == "get_current_seed is not supported for the OpenVINO backend"@,
    {
        Err(
            Error::Msg(
                String::from_str("get_current_seed is not supported for the OpenVINO backend"),
            ),
        )
    }

    /// All inference is synchronous: there is nothing to wait for.
    pub fn synchronize(&self) -> (r: Result<()>)
        ensures
            r == Ok::<(), Error>(()),
    {
        Ok(())
    }
}

/// A result of the OpenVINO side as a result of the backend.
pub open spec fn from_openvino<T>(r: OpenVinoResult<T>) -> Result<T> {
    match r {
        Ok(t) => Ok(t),
        Err(e) => Err(Error::OpenVino(e)),
    }
}

impl<R> OpenVinoDevice<R> {
    /// Whether `r` reports that an earlier user of the runtime panicked, as the lock said.
    pub closed spec fn is_poisoned<T>(&self, r: Result<T>) -> bool {
        exists|e: PoisonError<MutexGuard<R>>, text: String| #[trigger]
            call_ensures(Mutex::<R>::lock, (&self.inner.core.value(),), Err(e))
                && #[trigger] vstd::string::to_string_from_display_ensures(&e, text) && (r matches Err(
                Error::OpenVino(OpenVinoError::Message(s)),
            ) && s@ == "mutex poisoned: "@ + text@)
    }

    /// A report that an earlier user of the runtime panicked is an error, and says so.
    pub proof fn lemma_poisoned<T>(&self, r: Result<T>)
        requires
            self.is_poisoned(r),
        ensures
            r matches Err(Error::OpenVino(OpenVinoError::Message(s)))
                && "mutex poisoned: "@.is_prefix_of(s@),
            exists|e: PoisonError<MutexGuard<R>>, text: String| #[trigger]
                vstd::string::to_string_from_display_ensures(&e, text) && (r matches Err(
                    Error::OpenVino(OpenVinoError::Message(s)),
                ) && s@ == "mutex poisoned: "@ + text@),
    {
        let s = r->Err_0->OpenVino_0->Message_0@;
        let prefix = "mutex poisoned: "@;
        assert(prefix =~= s.subrange(0, prefix.len() as int));
    }
}

/// Whether `r` is what loading the runtime for a device with the given name and ordinal gives: the
/// device, or the report that the runtime cannot be loaded.
pub open spec fn loads(
    device_name: Seq<char>,
    ordinal: usize,
    r: Result<OpenVinoDevice<openvino::Core>>,
) -> bool {
    exists|core: std::result::Result<openvino::Core, openvino::SetupError>| #[trigger]
        call_ensures(openvino::Core::new, (), core) && match core {
            Ok(_) => r matches Ok(device) && device.name() == device_name && device.ordinal() == ordinal,
            Err(e) => r matches Err(Error::OpenVino(OpenVinoError::Runtime(text)))
                && vstd::string::to_string_from_display_ensures(&e, text),
        }
}

impl OpenVinoDevice<openvino::Core> {
    /// Create a device targeting a specific OpenVINO device string and ordinal.
    ///
    /// `device_name` examples: `"NPU"`, `"GPU"`, `"CPU"`, `"AUTO"`. The device has a runtime of its
    /// own; if none can be loaded, the runtime's error is returned.
    pub fn new_with_device(device_name: String, ordinal: usize) -> (r: Result<Self>)
        ensures
            loads(device_name@, ordinal, r),
            r matches Ok(device) ==> device.name() == device_name@ && device.ordinal() == ordinal,
            r matches Err(e) ==> e matches Error::OpenVino(OpenVinoError::Runtime(_)),
    {
        match openvino::Core::new() {
            Ok(core) => Ok(Self::with_runtime(core, device_name, ordinal)),
            Err(e) => Err(Error::OpenVino(from_ov_error(e))),
        }
    }

    /// `ordinal` maps to the Nth NPU listed by OpenVINO when multiple are present.
    pub fn new(ordinal: usize) -> (r: Result<Self>)
        ensures
            loads(npu_name_text(ordinal as nat), ordinal, r),
            r matches Ok(device) ==> device.name() == npu_name_text(ordinal as nat)
                && device.ordinal() == ordinal,
            r matches Err(e) ==> e matches Error::OpenVino(OpenVinoError::Runtime(_)),
    {
        Self::new_with_device(npu_name(ordinal), ordinal)
    }

    /// Whether `r` is what running a job on the device gives: the outcome of `calls`, or the report that
    /// the runtime cannot be used, once the tensors are made.
    pub open spec fn infers(
        &self,
        job: InferenceJob,
        calls: Seq<Call>,
        r: Result<Vec<openvino::Tensor>>,
    ) -> bool {
        ||| self.is_poisoned(r) && job.prepared(self.name(), calls)
        ||| exists|k: OpenVinoResult<Vec<openvino::Tensor>>|
            #[trigger] job.runs(self.name(), calls, k) && r == from_openvino(k)
    }

    /// Runs a job on the device and returns the outputs of its model. Once the tensors are made, the
    /// runtime is locked; it is not used once a user of it has panicked.
    pub fn compile_and_infer(&self, job: &InferenceJob, log: &mut CallLog) -> (r: Result<
        Vec<openvino::Tensor>,
    >)
        requires
            !self.name().contains('\0'),
            job.well_named(),
            old(log)@.len() == 0,
        ensures
            self.infers(*job, final(log)@, r),
    {
        let device = self.inner.device_name.as_str();
        let tensors = match make_tensors(self.inner.core.get(), device, job, log) {
            Ok(tensors) => tensors,
            Err(e) => {
                let ghost k: OpenVinoResult<Vec<openvino::Tensor>> = Err(e);
                assert(job.runs(self.name(), log@, k));
                return Err(Error::OpenVino(e));
            },
        };
        match self.inner.core.get().lock() {
            Ok(mut guard) => {
                let core = locked(&mut guard);
                let k = run_job(core, device, job, &tensors, log);
                assert(job.runs(self.name(), log@, k));
                match k {
                    Ok(outputs) => Ok(outputs),
                    Err(e) => Err(Error::OpenVino(e)),
                }
            },
            Err(e) => {
                let mut s = String::from_str("mutex poisoned: ");
                s.append(e.to_string().as_str());
                Err(Error::OpenVino(OpenVinoError::Message(s)))
            },
        }
    }
}

} // verus!
