//! Matrix products: which are made by OpenVINO and which by the CPU, of what, and what they are.
use crate::backend::CpuBackend;
use crate::cpu_storage::CpuStorage;
use crate::dtype::DType;
use crate::error::{Error, OpenVinoError, OpenVinoResult, Result};
use crate::inference::InferenceJob;
use crate::laws::operations::same_message;
use crate::laws::storages::{carries, lemma_carries};
use crate::layout::Layout;
use crate::matmul::{
    first_output, is_first_output, is_matmul_job, matmul_job, matmul_model, native_element, ov_element,
    MatMulPlan,
};
use crate::runtime::{CallLog, OvElement, Program, Reply, Request, RunState, TensorDesc};
use crate::storage::{answers, OpenVinoStorage};
use crate::text::decimal;
use vstd::prelude::*;

verus! {

/// OpenVINO multiplies single, half and brain floats, each under its own name, and nothing else.
pub proof fn law_native_types(dtype: DType, r: Option<OvElement>)
    requires
        call_ensures(ov_element, (dtype,), r),
    ensures
        dtype == DType::F32 ==> r == Some(OvElement::F32),
        dtype == DType::F16 ==> r == Some(OvElement::F16),
        dtype == DType::BF16 ==> r == Some(OvElement::BF16),
        dtype != DType::F32 && dtype != DType::F16 && dtype != DType::BF16 ==> r is None,
{
}

/// The description of the model: two parameters, `lhs` of `b` matrices of `m` rows and `k` columns and
/// `rhs` of as many of `k` rows and `n` columns, a product that transposes neither, and its result of
/// `b` matrices of `m` rows and `n` columns; all of one element type.
pub proof fn law_model(e: OvElement, b: usize, m: usize, n: usize, k: usize, text: String)
    requires
        call_ensures(matmul_model, (e, b, m, n, k), text),
    ensures
        ({
            let element = match e {
                OvElement::F32 => "f32"@,
                OvElement::F16 => "f16"@,
                OvElement::BF16 => "bf16"@,
            };
            let precision = match e {
                OvElement::F32 => "FP32"@,
                OvElement::F16 => "FP16"@,
                OvElement::BF16 => "BF16"@,
            };
            let port = |attributes: Seq<char>, x: nat, y: nat, z: nat|
                "<port "@ + attributes + " precision=\""@ + precision + "\"><dim>"@ + decimal(x)
                    + "</dim><dim>"@ + decimal(y) + "</dim><dim>"@ + decimal(z) + "</dim></port>"@;
            let lhs = port("id=\"0\" names=\"lhs\""@, b as nat, m as nat, k as nat);
            let rhs = port("id=\"0\" names=\"rhs\""@, b as nat, k as nat, n as nat);
            text@ == "<?xml version=\"1.0\"?><net name=\"candle_matmul\" version=\"11\"><layers>"@ + (
            "<layer "@ + "id=\"0\" name=\"lhs\""@
                + " type=\"Parameter\" version=\"opset1\"><data shape=\""@ + decimal(b as nat) + ","@
                + decimal(m as nat) + ","@ + decimal(k as nat) + "\" element_type=\""@ + element
                + "\"/><output>"@ + lhs + "</output></layer>"@) + ("<layer "@
                + "id=\"1\" name=\"rhs\""@
                + " type=\"Parameter\" version=\"opset1\"><data shape=\""@ + decimal(b as nat) + ","@
                + decimal(k as nat) + ","@ + decimal(n as nat) + "\" element_type=\""@ + element
                + "\"/><output>"@ + rhs + "</output></layer>"@)
                + "<layer id=\"2\" name=\"matmul\" type=\"MatMul\" version=\"opset1\"><data transpose_a=\"false\" transpose_b=\"false\"/><input>"@
                + port("id=\"0\""@, b as nat, m as nat, k as nat) + port(
                "id=\"1\""@,
                b as nat,
                k as nat,
                n as nat,
            ) + "</input><output>"@ + port(
                "id=\"2\" names=\"out\""@,
                b as nat,
                m as nat,
                n as nat,
            )
                + "</output></layer><layer id=\"3\" name=\"result\" type=\"Result\" version=\"opset1\"><input>"@
                + port("id=\"0\""@, b as nat, m as nat, n as nat)
                + "</input></layer></layers><edges><edge from-layer=\"0\" from-port=\"0\" to-layer=\"2\" to-port=\"0\"/><edge from-layer=\"1\" from-port=\"0\" to-layer=\"2\" to-port=\"1\"/><edge from-layer=\"2\" from-port=\"2\" to-layer=\"3\" to-port=\"0\"/></edges></net>"@
        }),
{
}

/// The job of a product: the description of the model for its sizes, and the bytes of the two operands,
/// each for the input of its name, with its element type and dimensions.
pub proof fn law_job(
    e: OvElement,
    bmnk: (usize, usize, usize, usize),
    lhs: Vec<u8>,
    rhs: Vec<u8>,
    job: InferenceJob,
    text: String,
)
    requires
        call_ensures(matmul_job, (e, bmnk, lhs, rhs), job),
        call_ensures(matmul_model, (e, bmnk.0, bmnk.1, bmnk.2, bmnk.3), text),
    ensures
        job.model@ == text@,
        job.inputs@.len() == 2,
        job.inputs@[0].name@ == "lhs"@,
        job.inputs@[0].element == e,
        job.inputs@[0].dims@ == seq![bmnk.0 as i64, bmnk.1 as i64, bmnk.3 as i64],
        job.inputs@[0].bytes@ == lhs@,
        job.inputs@[1].name@ == "rhs"@,
        job.inputs@[1].element == e,
        job.inputs@[1].dims@ == seq![bmnk.0 as i64, bmnk.3 as i64, bmnk.2 as i64],
        job.inputs@[1].bytes@ == rhs@,
{
}

/// A product of elements that OpenVINO does not have is left to the CPU.
pub proof fn law_plan_for_the_cpu<R>(
    lhs: &OpenVinoStorage<R>,
    rhs: &OpenVinoStorage<R>,
    bmnk: (usize, usize, usize, usize),
    lhs_l: &Layout,
    rhs_l: &Layout,
    r: Result<MatMulPlan>,
)
    requires
        call_ensures(OpenVinoStorage::<R>::matmul_plan, (lhs, rhs, bmnk, lhs_l, rhs_l), r),
        call_ensures(ov_element, (lhs.elem_type(),), None),
    ensures
        r matches Ok(MatMulPlan::Cpu),
{
}

/// A product of elements that OpenVINO has is planned as the job with the bytes of contiguous copies of
/// the operands.
pub proof fn law_plan_for_openvino<R>(
    lhs: &OpenVinoStorage<R>,
    rhs: &OpenVinoStorage<R>,
    bmnk: (usize, usize, usize, usize),
    lhs_l: &Layout,
    rhs_l: &Layout,
    e: OvElement,
    a: OpenVinoStorage<R>,
    b: OpenVinoStorage<R>,
    text: String,
    r: Result<MatMulPlan>,
)
    requires
        call_ensures(OpenVinoStorage::<R>::matmul_plan, (lhs, rhs, bmnk, lhs_l, rhs_l), r),
        call_ensures(ov_element, (lhs.elem_type(),), Some(e)),
        call_ensures(OpenVinoStorage::<R>::try_clone, (lhs, lhs_l), Ok(a)),
        call_ensures(OpenVinoStorage::<R>::try_clone, (rhs, rhs_l), Ok(b)),
        call_ensures(matmul_model, (e, bmnk.0, bmnk.1, bmnk.2, bmnk.3), text),
    ensures
        r matches Ok(MatMulPlan::OpenVino(job)) && {
            &&& job.model@ == text@
            &&& job.inputs@.len() == 2
            &&& job.inputs@[0].name@ == "lhs"@
            &&& job.inputs@[0].element == e
            &&& job.inputs@[0].dims@ == seq![bmnk.0 as i64, bmnk.1 as i64, bmnk.3 as i64]
            &&& job.inputs@[0].bytes@ == a.data()
            &&& job.inputs@[1].name@ == "rhs"@
            &&& job.inputs@[1].element == e
            &&& job.inputs@[1].dims@ == seq![bmnk.0 as i64, bmnk.3 as i64, bmnk.2 as i64]
            &&& job.inputs@[1].bytes@ == b.data()
        },
{
    assert(lhs.spans(lhs_l));
    assert(rhs.spans(rhs_l));
}

/// An operand that is too small for its layout is reported as a copy of it would be, the left one
/// first.
pub proof fn law_plan_refused<R>(
    lhs: &OpenVinoStorage<R>,
    rhs: &OpenVinoStorage<R>,
    bmnk: (usize, usize, usize, usize),
    lhs_l: &Layout,
    rhs_l: &Layout,
    e: OvElement,
    a: Result<OpenVinoStorage<R>>,
    b: Result<OpenVinoStorage<R>>,
    r: Result<MatMulPlan>,
)
    requires
        call_ensures(OpenVinoStorage::<R>::matmul_plan, (lhs, rhs, bmnk, lhs_l, rhs_l), r),
        call_ensures(ov_element, (lhs.elem_type(),), Some(e)),
        call_ensures(OpenVinoStorage::<R>::try_clone, (lhs, lhs_l), a),
        call_ensures(OpenVinoStorage::<R>::try_clone, (rhs, rhs_l), b),
    ensures
        a is Err || b is Err ==> {
            let cause = if a is Err {
                a->Err_0
            } else {
                b->Err_0
            };
            r matches Err(e2) && same_message(cause, e2)
        },
{
}

/// The bytes of a product are those that the runtime lends of the first output, one for one; without
/// an output, or if the runtime does not lend them, there is no product.
pub proof fn law_first_output(outputs: &Vec<openvino::Tensor>, r: OpenVinoResult<Vec<u8>>)
    requires
        call_ensures(first_output, (outputs,), r),
    ensures
        outputs@.len() == 0 ==> (r matches Err(OpenVinoError::Runtime(s)) && s@
            == "the model has no output"@),
        outputs@.len() > 0 ==> exists|x: std::result::Result<&[u8], openvino::InferenceError>|
            #[trigger] call_ensures(openvino::Tensor::get_raw_data, (&outputs@[0],), x) && match x {
                Ok(lent) => r matches Ok(v) && v@.len() == lent@.len() && forall|i: int|
                    0 <= i < lent@.len() ==> v@[i] == #[trigger] lent@[i],
                Err(cause) => r matches Err(OpenVinoError::Runtime(s))
                    && vstd::string::to_string_from_display_ensures(&cause, s),
            },
{
}

/// The product has the bytes that were returned for it, the element type of the left operand, and its
/// device; without bytes, it is the failure.
pub proof fn law_product_made<R>(
    lhs: &OpenVinoStorage<R>,
    output: OpenVinoResult<Vec<u8>>,
    r: Result<OpenVinoStorage<R>>,
)
    requires
        call_ensures(OpenVinoStorage::<R>::finish_matmul, (lhs, output), r),
    ensures
        output matches Ok(v) ==> (r matches Ok(s) && s.data() == v@ && s.elem_type()
            == lhs.elem_type() && s.on() == lhs.on()),
        output matches Err(e) ==> r == Err::<OpenVinoStorage<R>, Error>(Error::OpenVino(e)),
{
}

/// Where OpenVINO does not have the element type of the left operand, the product is what the CPU kernel
/// makes of the full buffers of the left and of the right operand, in that order, and the runtime is
/// not called.
pub proof fn law_cpu_product<K: CpuBackend>(
    lhs: &OpenVinoStorage,
    rhs: &OpenVinoStorage,
    bmnk: (usize, usize, usize, usize),
    lhs_l: &Layout,
    rhs_l: &Layout,
    log: &mut CallLog,
    lhs_read: CpuStorage,
    rhs_read: CpuStorage,
    r: Result<OpenVinoStorage>,
)
    requires
        call_ensures(
            OpenVinoStorage::matmul_openvino::<K>,
            (lhs, rhs, bmnk, lhs_l, rhs_l, log),
            r,
        ),
        call_ensures(ov_element, (lhs.elem_type(),), None),
        call_ensures(OpenVinoStorage::<openvino::Core>::whole_cpu, (lhs,), Ok(lhs_read)),
        call_ensures(OpenVinoStorage::<openvino::Core>::whole_cpu, (rhs,), Ok(rhs_read)),
    ensures
        final(log)@.len() == 0,
        exists|a: CpuStorage, b: CpuStorage, k: Result<CpuStorage>|
            a@ == lhs_read@ && b@ == rhs_read@ && #[trigger] call_ensures(
                K::matmul,
                (&a, &b, bmnk, lhs_l, rhs_l),
                k,
            ) && carries(k, r, lhs.on()),
{
    let (a, b, k) = choose|a: CpuStorage, b: CpuStorage, k: Result<CpuStorage>|
        a@ == lhs.whole() && b@ == rhs.whole() && #[trigger] call_ensures(
            K::matmul,
            (&a, &b, bmnk, lhs_l, rhs_l),
            k,
        ) && answers(k, r, lhs.on());
    lemma_carries(k, r, lhs.on());
}

/// Where OpenVINO has the element type, a product that was made was made by these calls: a tensor with
/// the bytes of a contiguous copy of each operand; the model for the sizes, compiled for the device;
/// a run of it with both tensors; and its first output, whose bytes the product has, byte for byte.
pub proof fn law_openvino_product<K: CpuBackend>(
    lhs: &OpenVinoStorage,
    rhs: &OpenVinoStorage,
    bmnk: (usize, usize, usize, usize),
    lhs_l: &Layout,
    rhs_l: &Layout,
    log: &mut CallLog,
    e: OvElement,
    a: OpenVinoStorage,
    b: OpenVinoStorage,
    text: String,
    s: OpenVinoStorage,
)
    requires
        call_ensures(
            OpenVinoStorage::matmul_openvino::<K>,
            (lhs, rhs, bmnk, lhs_l, rhs_l, log),
            Ok(s),
        ),
        call_ensures(ov_element, (lhs.elem_type(),), Some(e)),
        call_ensures(OpenVinoStorage::<openvino::Core>::try_clone, (lhs, lhs_l), Ok(a)),
        call_ensures(OpenVinoStorage::<openvino::Core>::try_clone, (rhs, rhs_l), Ok(b)),
        call_ensures(matmul_model, (e, bmnk.0, bmnk.1, bmnk.2, bmnk.3), text),
    ensures
        ({
            let calls = final(log)@;
            let x = TensorDesc {
                element: e,
                dims: seq![bmnk.0 as i64, bmnk.1 as i64, bmnk.3 as i64],
                bytes: a.data(),
            };
            let y = TensorDesc {
                element: e,
                dims: seq![bmnk.0 as i64, bmnk.3 as i64, bmnk.2 as i64],
                bytes: b.data(),
            };
            let program = Program { text: text@, device: lhs.on().name() };
            let inputs = seq![("lhs"@, x), ("rhs"@, y)];
            &&& calls.len() >= 14
            &&& calls[0].request == Request::CreateShape { dims: x.dims }
            &&& calls[1].request == Request::CreateTensor { element: e, dims: x.dims }
            &&& calls[2].request == Request::LendTensor { element: e, dims: x.dims }
            &&& calls[2].reply == Reply::Lent(x.bytes)
            &&& calls[3].request == Request::CreateShape { dims: y.dims }
            &&& calls[4].request == Request::CreateTensor { element: e, dims: y.dims }
            &&& calls[5].request == Request::LendTensor { element: e, dims: y.dims }
            &&& calls[5].reply == Reply::Lent(y.bytes)
            &&& calls[6].request == Request::ReadModel { text: text@ }
            &&& calls[7].request == Request::CompileModel { program }
            &&& calls[8].request == Request::CreateInferRequest { program }
            &&& calls[9].request == Request::SetTensor {
                run: RunState { program, inputs: seq![], times_run: 0 },
                name: "lhs"@,
                tensor: x,
            }
            &&& calls[10].request == Request::SetTensor {
                run: RunState { program, inputs: seq![("lhs"@, x)], times_run: 0 },
                name: "rhs"@,
                tensor: y,
            }
            &&& calls[11].request == Request::Infer { run: RunState { program, inputs, times_run: 0 } }
            &&& calls[12].request == Request::CountOutputs { program }
            &&& calls[12].reply == Reply::Count((calls.len() - 13) as nat)
            &&& calls[13].request == Request::GetOutput {
                run: RunState { program, inputs, times_run: 1 },
                index: 0,
            }
            &&& forall|p: int| 0 <= p < calls.len() ==> !((#[trigger] calls[p]).reply is Failed)
        }),
        exists|t: openvino::Tensor, lent: &[u8]| #[trigger]
            call_ensures(openvino::Tensor::get_raw_data, (&t,), Ok(lent)) && final(log)@[13].reply
                == Reply::Output(t) && s.data().len() == lent@.len() && forall|i: int|
                0 <= i < lent@.len() ==> s.data()[i] == #[trigger] lent@[i],
        s.elem_type() == lhs.elem_type(),
        s.on() == lhs.on(),
{
    let calls = final(log)@;
    assert(lhs.spans(lhs_l));
    assert(rhs.spans(rhs_l));
    let r: Result<OpenVinoStorage> = Ok(s);
    let job = choose|job: InferenceJob|
        #[trigger] is_matmul_job(
            job,
            e,
            bmnk,
            lhs.visible(lhs_l).to_bytes(),
            rhs.visible(rhs_l).to_bytes(),
        ) && lhs.runs_to(job, calls, r);
    let outputs = choose|outputs: Result<Vec<openvino::Tensor>>|
        #[trigger] lhs.on().infers(job, calls, outputs) && match outputs {
            Ok(outputs) => exists|output: OpenVinoResult<Vec<u8>>| #[trigger]
                is_first_output(outputs@, output) && lhs.keeps_output(output, r),
            Err(e) => r == Err::<OpenVinoStorage, Error>(e),
        };
    let outs = outputs->Ok_0;
    crate::laws::lemma_success_needs_the_calls(lhs.on(), job, calls, outs);
    let output = choose|output: OpenVinoResult<Vec<u8>>| #[trigger]
        is_first_output(outs@, output) && lhs.keeps_output(output, r);
    let device = lhs.on().name();
    let n = job.inputs@.len();
    assert(n == 2);
    assert forall|p: int| 0 <= p < calls.len() implies (#[trigger] calls[p]).request
        == job.request_at(device, p) && job.goes_on(p, calls[p].reply) by {}
    assert(calls[0].request == job.request_at(device, 0));
    assert(calls[1].request == job.request_at(device, 1));
    assert(calls[2].request == job.request_at(device, 2));
    assert(calls[3].request == job.request_at(device, 3));
    assert(calls[4].request == job.request_at(device, 4));
    assert(calls[5].request == job.request_at(device, 5));
    assert(calls[9].request == job.request_at(device, 9));
    assert(calls[10].request == job.request_at(device, 10));
    assert(calls[11].request == job.request_at(device, 11));
    assert(calls[13].request == job.request_at(device, 13));
    assert(job.run_state(device, 0, 0).inputs =~= seq![]);
    assert(job.run_state(device, 1, 0).inputs =~= seq![("lhs"@, job.inputs@[0].desc())]);
    assert(job.run_state(device, 2, 0).inputs =~= seq![
        ("lhs"@, job.inputs@[0].desc()),
        ("rhs"@, job.inputs@[1].desc()),
    ]);
    assert(calls[13].reply == Reply::Output(outs@[0]));
}

/// A failure of the runtime while a product is made is the failure of the product.
pub proof fn law_product_failure<K: CpuBackend>(
    lhs: &OpenVinoStorage,
    rhs: &OpenVinoStorage,
    bmnk: (usize, usize, usize, usize),
    lhs_l: &Layout,
    rhs_l: &Layout,
    log: &mut CallLog,
    cause: openvino::InferenceError,
    r: Result<OpenVinoStorage>,
)
    requires
        call_ensures(
            OpenVinoStorage::matmul_openvino::<K>,
            (lhs, rhs, bmnk, lhs_l, rhs_l, log),
            r,
        ),
        final(log)@.len() > 0,
        final(log)@.last().reply == Reply::Failed(cause),
    ensures
        r matches Err(Error::OpenVino(OpenVinoError::Runtime(s)))
            && vstd::string::to_string_from_display_ensures(&cause, s),
{
    let calls = final(log)@;
    let e = native_element(lhs.elem_type())->Some_0;
    let job = choose|job: InferenceJob|
        #[trigger] is_matmul_job(
            job,
            e,
            bmnk,
            lhs.visible(lhs_l).to_bytes(),
            rhs.visible(rhs_l).to_bytes(),
        ) && lhs.runs_to(job, calls, r);
    assert(calls[calls.len() - 1].reply == Reply::Failed(cause));
}

/// A product by OpenVINO that went through all its calls, and whose first output is lent, is made.
pub proof fn law_product_succeeds<K: CpuBackend>(
    lhs: &OpenVinoStorage,
    rhs: &OpenVinoStorage,
    bmnk: (usize, usize, usize, usize),
    lhs_l: &Layout,
    rhs_l: &Layout,
    log: &mut CallLog,
    t: openvino::Tensor,
    r: Result<OpenVinoStorage>,
)
    requires
        call_ensures(
            OpenVinoStorage::matmul_openvino::<K>,
            (lhs, rhs, bmnk, lhs_l, rhs_l, log),
            r,
        ),
        final(log)@.len() >= 14,
        final(log)@[13].reply == Reply::Output(t),
        final(log)@.last().reply is Output,
        forall|x: std::result::Result<&[u8], openvino::InferenceError>| #[trigger]
            call_ensures(openvino::Tensor::get_raw_data, (&t,), x) ==> x is Ok,
    ensures
        r is Ok,
{
    let calls = final(log)@;
    let e = native_element(lhs.elem_type())->Some_0;
    let job = choose|job: InferenceJob|
        #[trigger] is_matmul_job(
            job,
            e,
            bmnk,
            lhs.visible(lhs_l).to_bytes(),
            rhs.visible(rhs_l).to_bytes(),
        ) && lhs.runs_to(job, calls, r);
    let outputs = choose|outputs: Result<Vec<openvino::Tensor>>|
        #[trigger] lhs.on().infers(job, calls, outputs) && match outputs {
            Ok(outputs) => exists|output: OpenVinoResult<Vec<u8>>| #[trigger]
                is_first_output(outputs@, output) && lhs.keeps_output(output, r),
            Err(e) => r == Err::<OpenVinoStorage, Error>(e),
        };
    if outputs is Ok {
        let outs = outputs->Ok_0;
        crate::laws::lemma_success_needs_the_calls(lhs.on(), job, calls, outs);
        let first = outs@[0];
        assert(calls[13].reply == Reply::Output(first));
    }
}

/// An operand that is too small for its layout is no product of OpenVINO's: it is reported as a copy of
/// it would be, the left one first, and the runtime is not called.
pub proof fn law_product_refused<K: CpuBackend>(
    lhs: &OpenVinoStorage,
    rhs: &OpenVinoStorage,
    bmnk: (usize, usize, usize, usize),
    lhs_l: &Layout,
    rhs_l: &Layout,
    log: &mut CallLog,
    e: OvElement,
    a: Result<OpenVinoStorage>,
    b: Result<OpenVinoStorage>,
    r: Result<OpenVinoStorage>,
)
    requires
        call_ensures(
            OpenVinoStorage::matmul_openvino::<K>,
            (lhs, rhs, bmnk, lhs_l, rhs_l, log),
            r,
        ),
        call_ensures(ov_element, (lhs.elem_type(),), Some(e)),
        call_ensures(OpenVinoStorage::<openvino::Core>::try_clone, (lhs, lhs_l), a),
        call_ensures(OpenVinoStorage::<openvino::Core>::try_clone, (rhs, rhs_l), b),
        a is Err || b is Err,
    ensures
        final(log)@.len() == 0,
        r matches Err(e2) && same_message(
            if a is Err {
                a->Err_0
            } else {
                b->Err_0
            },
            e2,
        ),
{
}

/// `matmul` returns what `matmul_openvino` returns of the same operands, sizes and layouts, with a log
/// of its own.
pub proof fn law_matmul<K: CpuBackend>(
    lhs: &OpenVinoStorage,
    rhs: &OpenVinoStorage,
    bmnk: (usize, usize, usize, usize),
    lhs_l: &Layout,
    rhs_l: &Layout,
    r: Result<OpenVinoStorage>,
)
    requires
        call_ensures(OpenVinoStorage::matmul::<K>, (lhs, rhs, bmnk, lhs_l, rhs_l), r),
    ensures
        exists|log: &mut CallLog| #[trigger]
            call_ensures(
                OpenVinoStorage::matmul_openvino::<K>,
                (lhs, rhs, bmnk, lhs_l, rhs_l, log),
                r,
            ) && log@.len() == 0,
{
}

} // verus!
