//! Devices and the storages that they make.
use crate::backend::{CpuBackend, WithDType};
use crate::cpu_storage::CpuStorage;
use crate::device::{npu_name, preferred_device, DeviceLocation, OpenVinoDevice};
use crate::dtype::DType;
use crate::error::{Error, OpenVinoError, Result};
use crate::laws::bytes::{lemma_i16_bytes, lemma_i32_bytes, lemma_i64_bytes, lemma_u32_bytes};
use crate::layout::Shape;
use crate::laws::lemma_whole_read;
use crate::laws::storages::{carries, lemma_carries, reads_back};
use crate::storage::{answers, OpenVinoStorage};
use crate::text::decimal;
use crate::utils::cpu_storage_to_bytes;
use vstd::prelude::*;

verus! {

/// The first NPU is named without a number, every other one with its ordinal.
pub proof fn law_npu_names(ordinal: usize, name: String)
    requires
        call_ensures(npu_name, (ordinal,), name),
    ensures
        ordinal == 0 ==> name@ == "NPU"@,
        ordinal > 0 ==> name@ == "NPU."@ + decimal(ordinal as nat),
{
}

/// Of the devices that are listed, an NPU is chosen; without one, a GPU; without either, the CPU; and
/// none where none of these is listed.
pub proof fn law_choice(available: &Vec<String>, r: Option<&'static str>)
    requires
        call_ensures(preferred_device, (available,), r),
    ensures
        ({
            let npu = exists|i: int| 0 <= i < available@.len() && (#[trigger] available@[i])@ == "NPU"@;
            let gpu = exists|i: int| 0 <= i < available@.len() && (#[trigger] available@[i])@ == "GPU"@;
            let cpu = exists|i: int| 0 <= i < available@.len() && (#[trigger] available@[i])@ == "CPU"@;
            &&& npu ==> (r matches Some(name) && name@ == "NPU"@)
            &&& !npu && gpu ==> (r matches Some(name) && name@ == "GPU"@)
            &&& !npu && !gpu && cpu ==> (r matches Some(name) && name@ == "CPU"@)
            &&& !npu && !gpu && !cpu ==> r is None
        }),
{
    reveal_strlit("NPU");
    reveal_strlit("GPU");
    reveal_strlit("CPU");
    assert("NPU"@[0] == 'N' && "GPU"@[0] == 'G' && "CPU"@[0] == 'C');
}

/// A device that was opened has the name and the ordinal that were asked for: it says so itself, and
/// lies at that ordinal.
pub proof fn law_opened_as_asked(
    name: String,
    ordinal: usize,
    device: OpenVinoDevice,
    told: &str,
    location: DeviceLocation,
)
    requires
        call_ensures(OpenVinoDevice::new_with_device, (name, ordinal), Ok(device)),
        call_ensures(OpenVinoDevice::<openvino::Core>::device_name, (&device,), told),
        call_ensures(OpenVinoDevice::<openvino::Core>::location, (&device,), location),
    ensures
        told@ == name@,
        location == (DeviceLocation::Npu { device_id: ordinal }),
        device.name() == name@,
        device.ordinal() == ordinal,
{
}

/// An NPU that was opened by its ordinal has that ordinal, and the name that belongs to it.
pub proof fn law_npu_opened(
    ordinal: usize,
    device: OpenVinoDevice,
    name: String,
    told: &str,
    location: DeviceLocation,
)
    requires
        call_ensures(OpenVinoDevice::new, (ordinal,), Ok(device)),
        call_ensures(npu_name, (ordinal,), name),
        call_ensures(OpenVinoDevice::<openvino::Core>::device_name, (&device,), told),
        call_ensures(OpenVinoDevice::<openvino::Core>::location, (&device,), location),
    ensures
        told@ == name@,
        location == (DeviceLocation::Npu { device_id: ordinal }),
{
}

/// Opening a device succeeds if the runtime can be loaded, and otherwise fails with the text of the
/// failure to load it.
pub proof fn law_opening_needs_the_runtime(name: String, ordinal: usize, r: Result<OpenVinoDevice>)
    requires
        call_ensures(OpenVinoDevice::new_with_device, (name, ordinal), r) || call_ensures(
            OpenVinoDevice::new,
            (ordinal,),
            r,
        ),
    ensures
        exists|core: std::result::Result<openvino::Core, openvino::SetupError>| #[trigger]
            call_ensures(openvino::Core::new, (), core) && match core {
                Ok(_) => r is Ok,
                Err(cause) => r matches Err(Error::OpenVino(OpenVinoError::Runtime(s)))
                    && vstd::string::to_string_from_display_ensures(&cause, s),
            },
{
}

/// A device with a given runtime tells the name and the ordinal that it was given.
pub proof fn law_made_as_asked<R>(
    runtime: R,
    name: String,
    ordinal: usize,
    device: OpenVinoDevice<R>,
    told: &str,
    location: DeviceLocation,
    shown: String,
)
    requires
        call_ensures(OpenVinoDevice::<R>::with_runtime, (runtime, name, ordinal), device),
        call_ensures(OpenVinoDevice::<R>::device_name, (&device,), told),
        call_ensures(OpenVinoDevice::<R>::location, (&device,), location),
        call_ensures(OpenVinoDevice::<R>::debug_string, (&device,), shown),
    ensures
        told@ == name@,
        location == (DeviceLocation::Npu { device_id: ordinal }),
        shown@ == "OpenVinoDevice(device="@ + name@ + ", ordinal="@ + decimal(ordinal as nat) + ")"@,
{
}

/// Every device tells its name and its ordinal.
pub proof fn law_devices_tell<R>(
    device: &OpenVinoDevice<R>,
    told: &str,
    location: DeviceLocation,
    shown: String,
)
    requires
        call_ensures(OpenVinoDevice::<R>::device_name, (device,), told),
        call_ensures(OpenVinoDevice::<R>::location, (device,), location),
        call_ensures(OpenVinoDevice::<R>::debug_string, (device,), shown),
    ensures
        told@ == device.name(),
        location == (DeviceLocation::Npu { device_id: device.ordinal() }),
        shown@ == "OpenVinoDevice(device="@ + told@ + ", ordinal="@ + decimal(device.ordinal() as nat)
            + ")"@,
{
}

/// A device is the same as a clone of it, whichever is asked; the answer does not depend on the order,
/// and carries over from device to device.
pub proof fn law_same_device<R>(
    a: &OpenVinoDevice<R>,
    b: &OpenVinoDevice<R>,
    c: &OpenVinoDevice<R>,
    copy: OpenVinoDevice<R>,
    ab: bool,
    ba: bool,
    bc: bool,
    ac: bool,
)
    requires
        call_ensures(<OpenVinoDevice<R> as Clone>::clone, (a,), copy),
        call_ensures(OpenVinoDevice::<R>::same_device, (a, b), ab),
        call_ensures(OpenVinoDevice::<R>::same_device, (b, a), ba),
        call_ensures(OpenVinoDevice::<R>::same_device, (b, c), bc),
        call_ensures(OpenVinoDevice::<R>::same_device, (a, c), ac),
    ensures
        forall|r: bool| #[trigger]
            call_ensures(OpenVinoDevice::<R>::same_device, (a, &copy), r) ==> r,
        forall|r: bool| #[trigger]
            call_ensures(OpenVinoDevice::<R>::same_device, (&copy, a), r) ==> r,
        ab == ba,
        ab && bc ==> ac,
{
}

/// Devices with different runtimes, names or ordinals are different; all three alike, they are the
/// same.
pub proof fn law_different_devices<R>(a: &OpenVinoDevice<R>, b: &OpenVinoDevice<R>, r: bool)
    requires
        call_ensures(OpenVinoDevice::<R>::same_device, (a, b), r),
    ensures
        a.runtime_id() != b.runtime_id() ==> !r,
        a.name() != b.name() ==> !r,
        a.ordinal() != b.ordinal() ==> !r,
        a.runtime_id() == b.runtime_id() && a.name() == b.name() && a.ordinal() == b.ordinal() ==> r,
{
}

/// Seeds are not kept: setting one is accepted, asking for one is refused, and there is nothing to
/// wait for.
pub proof fn law_seeds<R>(
    device: &OpenVinoDevice<R>,
    seed: u64,
    set: Result<()>,
    got: Result<u64>,
    waited: Result<()>,
)
    requires
        call_ensures(OpenVinoDevice::<R>::set_seed, (device, seed), set),
        call_ensures(OpenVinoDevice::<R>::get_current_seed, (device,), got),
        call_ensures(OpenVinoDevice::<R>::synchronize, (device,), waited),
    ensures
        set is Ok,
        got matches Err(Error::Msg(s)) && s@
            == "get_current_seed is not supported for the OpenVINO backend"@,
        waited is Ok,
{
}

/// A storage of zeros has a zero byte for every byte of the elements asked for, and no other.
pub proof fn law_zeros<R>(
    device: &OpenVinoDevice<R>,
    shape: &Shape,
    dtype: DType,
    n: usize,
    size: usize,
    r: Result<OpenVinoStorage<R>>,
)
    requires
        call_ensures(OpenVinoDevice::<R>::zeros_impl, (device, shape, dtype), r),
        call_ensures(Shape::elem_count, (shape,), n),
        call_ensures(DType::size_in_bytes, (&dtype,), size),
    ensures
        r matches Ok(s) && {
            &&& s.data().len() == n * size
            &&& forall|i: int| 0 <= i < n * size ==> #[trigger] s.data()[i] == 0
            &&& s.elem_type() == dtype
            &&& s.on() == *device
        },
{
}

/// A storage to be filled has room for the elements asked for.
pub proof fn law_room<R>(
    device: &OpenVinoDevice<R>,
    shape: &Shape,
    dtype: DType,
    n: usize,
    size: usize,
    r: Result<OpenVinoStorage<R>>,
)
    requires
        call_ensures(OpenVinoDevice::<R>::alloc_uninit, (device, shape, dtype), r),
        call_ensures(Shape::elem_count, (shape,), n),
        call_ensures(DType::size_in_bytes, (&dtype,), size),
    ensures
        r matches Ok(s) && s.data().len() == n * size && s.elem_type() == dtype && s.on() == *device,
{
}

/// A storage that is made of a typed buffer has the bytes of the buffer and its element type.
pub proof fn law_buffer_stored<R>(
    device: &OpenVinoDevice<R>,
    cpu: CpuStorage,
    bytes: Vec<u8>,
    dtype: DType,
    r: Result<OpenVinoStorage<R>>,
)
    requires
        call_ensures(OpenVinoDevice::<R>::storage_from_cpu_storage, (device, &cpu), r)
            || call_ensures(OpenVinoDevice::<R>::storage_from_cpu_storage_owned, (device, cpu), r),
        call_ensures(cpu_storage_to_bytes, (&cpu,), Ok(bytes)),
        call_ensures(CpuStorage::dtype, (&cpu,), dtype),
    ensures
        r matches Ok(s) && s.data() == bytes@ && s.elem_type() == dtype && s.on() == *device,
{
}

/// A storage that is made of a slice gives back the buffer that the elements become.
pub proof fn law_slice_stored<R, T: WithDType>(
    device: &OpenVinoDevice<R>,
    src: &[T],
    cpu: CpuStorage,
    r: Result<OpenVinoStorage<R>>,
)
    requires
        call_ensures(OpenVinoDevice::<R>::storage_from_slice::<T>, (device, src), r),
        call_ensures(T::to_cpu_storage, (src,), cpu),
    ensures
        r matches Ok(s) && reads_back(s, cpu) && s.on() == *device,
{
    lemma_whole_read(r->Ok_0, cpu@, *device);
}

/// A storage that is made of a slice of `u8` elements has the bytes of these, in order.
pub proof fn law_u8_slice_stored<R>(
    device: &OpenVinoDevice<R>,
    src: &[u8],
    r: Result<OpenVinoStorage<R>>,
)
    requires
        call_ensures(OpenVinoDevice::<R>::storage_from_slice::<u8>, (device, src), r),
    ensures
        r matches Ok(s) && s.elem_type() == DType::U8 && s.on() == *device && s.data() == src@,
{
}

/// A storage that is made of a slice of `u32` elements has the bytes of these, in order.
pub proof fn law_u32_slice_stored<R>(
    device: &OpenVinoDevice<R>,
    src: &[u32],
    r: Result<OpenVinoStorage<R>>,
)
    requires
        call_ensures(OpenVinoDevice::<R>::storage_from_slice::<u32>, (device, src), r),
    ensures
        r matches Ok(s) && s.elem_type() == DType::U32 && s.on() == *device && s.data().len() == 4 * src@.len() && forall|i: int| #![trigger src@[i]] 0 <= i < src@.len() ==> {
                &&& s.data()[4 * i + 0] as int == src@[i] as int % 256
                &&& s.data()[4 * i + 1] as int == src@[i] as int / 0x100 % 256
                &&& s.data()[4 * i + 2] as int == src@[i] as int / 0x1_0000 % 256
                &&& s.data()[4 * i + 3] as int == src@[i] as int / 0x100_0000 % 256
            },
{
    lemma_u32_bytes(src@);
}

/// A storage that is made of a slice of `i16` elements has the bytes of these, in order.
pub proof fn law_i16_slice_stored<R>(
    device: &OpenVinoDevice<R>,
    src: &[i16],
    r: Result<OpenVinoStorage<R>>,
)
    requires
        call_ensures(OpenVinoDevice::<R>::storage_from_slice::<i16>, (device, src), r),
    ensures
        r matches Ok(s) && s.elem_type() == DType::I16 && s.on() == *device && s.data().len() == 2 * src@.len() && forall|i: int| #![trigger src@[i]] 0 <= i < src@.len() ==> {
                &&& s.data()[2 * i + 0] as int == src@[i] as int % 256
                &&& s.data()[2 * i + 1] as int == src@[i] as int / 0x100 % 256
            },
{
    lemma_i16_bytes(src@);
}

/// A storage that is made of a slice of `i32` elements has the bytes of these, in order.
pub proof fn law_i32_slice_stored<R>(
    device: &OpenVinoDevice<R>,
    src: &[i32],
    r: Result<OpenVinoStorage<R>>,
)
    requires
        call_ensures(OpenVinoDevice::<R>::storage_from_slice::<i32>, (device, src), r),
    ensures
        r matches Ok(s) && s.elem_type() == DType::I32 && s.on() == *device && s.data().len() == 4 * src@.len() && forall|i: int| #![trigger src@[i]] 0 <= i < src@.len() ==> {
                &&& s.data()[4 * i + 0] as int == src@[i] as int % 256
                &&& s.data()[4 * i + 1] as int == src@[i] as int / 0x100 % 256
                &&& s.data()[4 * i + 2] as int == src@[i] as int / 0x1_0000 % 256
                &&& s.data()[4 * i + 3] as int == src@[i] as int / 0x100_0000 % 256
            },
{
    lemma_i32_bytes(src@);
}

/// A storage that is made of a slice of `i64` elements has the bytes of these, in order.
pub proof fn law_i64_slice_stored<R>(
    device: &OpenVinoDevice<R>,
    src: &[i64],
    r: Result<OpenVinoStorage<R>>,
)
    requires
        call_ensures(OpenVinoDevice::<R>::storage_from_slice::<i64>, (device, src), r),
    ensures
        r matches Ok(s) && s.elem_type() == DType::I64 && s.on() == *device && s.data().len() == 8 * src@.len() && forall|i: int| #![trigger src@[i]] 0 <= i < src@.len() ==> {
                &&& s.data()[8 * i + 0] as int == src@[i] as int % 256
                &&& s.data()[8 * i + 1] as int == src@[i] as int / 0x100 % 256
                &&& s.data()[8 * i + 2] as int == src@[i] as int / 0x1_0000 % 256
                &&& s.data()[8 * i + 3] as int == src@[i] as int / 0x100_0000 % 256
                &&& s.data()[8 * i + 4] as int == src@[i] as int / 0x1_0000_0000 % 256
                &&& s.data()[8 * i + 5] as int == src@[i] as int / 0x100_0000_0000 % 256
                &&& s.data()[8 * i + 6] as int == src@[i] as int / 0x1_0000_0000_0000 % 256
                &&& s.data()[8 * i + 7] as int == src@[i] as int / 0x100_0000_0000_0000 % 256
            },
{
    lemma_i64_bytes(src@);
}

/// Random elements are those that the CPU drew, with the parameters given.
pub proof fn law_rand_uniform<R, K: CpuBackend>(
    device: &OpenVinoDevice<R>,
    shape: &Shape,
    dtype: DType,
    lo: K::Float,
    hi: K::Float,
    r: Result<OpenVinoStorage<R>>,
)
    requires
        call_ensures(OpenVinoDevice::<R>::rand_uniform::<K>, (device, shape, dtype, lo, hi), r),
    ensures
        exists|k: Result<CpuStorage>| #[trigger]
            call_ensures(K::rand_uniform, (shape, dtype, lo, hi), k) && carries(k, r, *device),
{
    let k = choose|k: Result<CpuStorage>| #[trigger]
        call_ensures(K::rand_uniform, (shape, dtype, lo, hi), k) && answers(k, r, *device);
    lemma_carries(k, r, *device);
}

/// Random elements are those that the CPU drew, with the parameters given.
pub proof fn law_rand_normal<R, K: CpuBackend>(
    device: &OpenVinoDevice<R>,
    shape: &Shape,
    dtype: DType,
    mean: K::Float,
    std_dev: K::Float,
    r: Result<OpenVinoStorage<R>>,
)
    requires
        call_ensures(OpenVinoDevice::<R>::rand_normal::<K>, (device, shape, dtype, mean, std_dev), r),
    ensures
        exists|k: Result<CpuStorage>| #[trigger]
            call_ensures(K::rand_normal, (shape, dtype, mean, std_dev), k) && carries(k, r, *device),
{
    let k = choose|k: Result<CpuStorage>| #[trigger]
        call_ensures(K::rand_normal, (shape, dtype, mean, std_dev), k) && answers(k, r, *device);
    lemma_carries(k, r, *device);
}

} // verus!
