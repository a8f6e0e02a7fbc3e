//! Inferences: the calls to the runtime that run a job, one by one, and what becomes of the answers.
use crate::device::OpenVinoDevice;
use crate::error::{Error, OpenVinoError, Result};
use crate::inference::InferenceJob;
use crate::runtime::{CallLog, Program, Reply, Request, RunState, TensorDesc};
use crate::text::decimal;
use std::sync::{MutexGuard, PoisonError};
use vstd::prelude::*;

verus! {

proof fn lemma_course(
    device: &OpenVinoDevice,
    job: &InferenceJob,
    log: &mut CallLog,
    r: Result<Vec<openvino::Tensor>>,
    p: int,
)
    requires
        call_ensures(OpenVinoDevice::compile_and_infer, (device, job, log), r),
        0 <= p < final(log)@.len(),
    ensures
        final(log)@[p].request == job.request_at(device.name(), p),
        p < final(log)@.len() - 1 ==> job.goes_on(p, final(log)@[p].reply),
        r is Ok ==> job.goes_on(p, final(log)@[p].reply),
{
    let calls = final(log)@;
    if device.is_poisoned(r) {
        device.lemma_poisoned(r);
    }
    if p < calls.len() - 1 {
        assert(calls.drop_last()[p] == calls[p]);
    }
    assert(calls[p].request == job.request_at(device.name(), p));
}

/// The tensor of the input with the number `i` is made by three calls, of which the last one fills it
/// with the bytes of the input.
pub proof fn law_tensors_made(
    device: &OpenVinoDevice,
    job: &InferenceJob,
    log: &mut CallLog,
    r: Result<Vec<openvino::Tensor>>,
    i: int,
)
    requires
        call_ensures(OpenVinoDevice::compile_and_infer, (device, job, log), r),
        0 <= i < job.inputs@.len(),
    ensures
        ({
            let calls = final(log)@;
            let input = job.inputs@[i];
            &&& 3 * i < calls.len() ==> calls[3 * i].request == (Request::CreateShape {
                dims: input.dims@,
            })
            &&& 3 * i + 1 < calls.len() ==> calls[3 * i + 1].request == (Request::CreateTensor {
                element: input.element,
                dims: input.dims@,
            })
            &&& 3 * i + 2 < calls.len() ==> calls[3 * i + 2].request == (Request::LendTensor {
                element: input.element,
                dims: input.dims@,
            })
            &&& 3 * i + 3 < calls.len() || r is Ok ==> calls[3 * i + 2].reply == Reply::Lent(
                input.bytes@,
            )
        }),
{
    let calls = final(log)@;
    if 3 * i < calls.len() {
        lemma_course(device, job, log, r, 3 * i);
    }
    if 3 * i + 1 < calls.len() {
        lemma_course(device, job, log, r, 3 * i + 1);
    }
    if 3 * i + 2 < calls.len() {
        lemma_course(device, job, log, r, 3 * i + 2);
    }
    if r is Ok {
        law_outputs_returned(device, job, log, r->Ok_0, 0);
    }
}

/// Once the tensors are made, the model is read and compiled for the device, and a run of it is made.
pub proof fn law_model_compiled(
    device: &OpenVinoDevice,
    job: &InferenceJob,
    log: &mut CallLog,
    r: Result<Vec<openvino::Tensor>>,
)
    requires
        call_ensures(OpenVinoDevice::compile_and_infer, (device, job, log), r),
    ensures
        ({
            let calls = final(log)@;
            let at = (3 * job.inputs@.len()) as int;
            let program = Program { text: job.model@, device: device.name() };
            &&& at < calls.len() ==> calls[at].request == (Request::ReadModel { text: job.model@ })
            &&& at + 1 < calls.len() ==> calls[at + 1].request == (Request::CompileModel { program })
            &&& at + 2 < calls.len() ==> calls[at + 2].request == (Request::CreateInferRequest {
                program,
            })
        }),
{
    let calls = final(log)@;
    let at = (3 * job.inputs@.len()) as int;
    if at < calls.len() {
        lemma_course(device, job, log, r, at);
    }
    if at + 1 < calls.len() {
        lemma_course(device, job, log, r, at + 1);
    }
    if at + 2 < calls.len() {
        lemma_course(device, job, log, r, at + 2);
    }
}

/// The inputs are set on that run, in order, each with its tensor; `before` are those that come before
/// the one with the number `i`.
pub proof fn law_inputs_set(
    device: &OpenVinoDevice,
    job: &InferenceJob,
    log: &mut CallLog,
    r: Result<Vec<openvino::Tensor>>,
    i: int,
    before: Seq<(Seq<char>, TensorDesc)>,
)
    requires
        call_ensures(OpenVinoDevice::compile_and_infer, (device, job, log), r),
        0 <= i < job.inputs@.len(),
        before.len() == i,
        forall|j: int|
            0 <= j < i ==> #[trigger] before[j] == (
                job.inputs@[j].name@,
                TensorDesc {
                    element: job.inputs@[j].element,
                    dims: job.inputs@[j].dims@,
                    bytes: job.inputs@[j].bytes@,
                },
            ),
        3 * job.inputs@.len() + 3 + i < final(log)@.len(),
    ensures
        final(log)@[3 * job.inputs@.len() + 3 + i].request == (Request::SetTensor {
            run: RunState {
                program: Program { text: job.model@, device: device.name() },
                inputs: before,
                times_run: 0,
            },
            name: job.inputs@[i].name@,
            tensor: TensorDesc {
                element: job.inputs@[i].element,
                dims: job.inputs@[i].dims@,
                bytes: job.inputs@[i].bytes@,
            },
        }),
{
    lemma_course(device, job, log, r, 3 * job.inputs@.len() + 3 + i);
    assert(job.run_state(device.name(), i as nat, 0).inputs =~= before);
}

/// The model is run once, with all inputs set; then its outputs are counted; each output is fetched from
/// that very run, in order.
pub proof fn law_model_run(
    device: &OpenVinoDevice,
    job: &InferenceJob,
    log: &mut CallLog,
    r: Result<Vec<openvino::Tensor>>,
    inputs: Seq<(Seq<char>, TensorDesc)>,
    i: int,
)
    requires
        call_ensures(OpenVinoDevice::compile_and_infer, (device, job, log), r),
        inputs.len() == job.inputs@.len(),
        forall|j: int|
            0 <= j < inputs.len() ==> #[trigger] inputs[j] == (
                job.inputs@[j].name@,
                TensorDesc {
                    element: job.inputs@[j].element,
                    dims: job.inputs@[j].dims@,
                    bytes: job.inputs@[j].bytes@,
                },
            ),
        0 <= i,
    ensures
        ({
            let calls = final(log)@;
            let at = (4 * inputs.len() + 3) as int;
            let program = Program { text: job.model@, device: device.name() };
            &&& at < calls.len() ==> calls[at].request == (Request::Infer {
                run: RunState { program, inputs, times_run: 0 },
            })
            &&& at + 1 < calls.len() ==> calls[at + 1].request == (Request::CountOutputs { program })
            &&& at + 2 + i < calls.len() ==> calls[at + 2 + i].request == (Request::GetOutput {
                run: RunState { program, inputs, times_run: 1 },
                index: i as nat,
            })
        }),
{
    let calls = final(log)@;
    let n = inputs.len();
    let at = (4 * n + 3) as int;
    assert(job.run_state(device.name(), n, 0).inputs =~= inputs);
    assert(job.run_state(device.name(), n, 1).inputs =~= inputs);
    if at < calls.len() {
        lemma_course(device, job, log, r, at);
    }
    if at + 1 < calls.len() {
        lemma_course(device, job, log, r, at + 1);
    }
    if at + 2 + i < calls.len() {
        lemma_course(device, job, log, r, at + 2 + i);
    }
}

/// A job that succeeds returns as many outputs as the runtime counted, each as it was fetched, and makes
/// no other call.
pub proof fn law_outputs_returned(
    device: &OpenVinoDevice,
    job: &InferenceJob,
    log: &mut CallLog,
    outputs: Vec<openvino::Tensor>,
    i: int,
)
    requires
        call_ensures(OpenVinoDevice::compile_and_infer, (device, job, log), Ok(outputs)),
    ensures
        ({
            let calls = final(log)@;
            let at = (4 * job.inputs@.len() + 4) as int;
            &&& calls.len() == at + 1 + outputs@.len()
            &&& calls[at].reply == Reply::Count(outputs@.len())
            &&& 0 <= i < outputs@.len() ==> calls[at + 1 + i].reply == Reply::Output(outputs@[i])
        }),
{
    crate::laws::lemma_success_needs_the_calls(*device, *job, final(log)@, outputs);
    if 0 <= i < outputs@.len() {
        let t = outputs@[i];
        assert(final(log)@[job.run_position() + 1 + 1 + i].reply == Reply::Output(t));
    }
}

/// No call follows one that failed, and no job succeeds with one: its failure is the failure of the
/// job.
pub proof fn law_failure_ends_the_job(
    device: &OpenVinoDevice,
    job: &InferenceJob,
    log: &mut CallLog,
    r: Result<Vec<openvino::Tensor>>,
    p: int,
    cause: openvino::InferenceError,
)
    requires
        call_ensures(OpenVinoDevice::compile_and_infer, (device, job, log), r),
        0 <= p < final(log)@.len(),
        final(log)@[p].reply == Reply::Failed(cause),
    ensures
        p == final(log)@.len() - 1,
        r matches Err(Error::OpenVino(OpenVinoError::Runtime(s)))
            && vstd::string::to_string_from_display_ensures(&cause, s),
{
    lemma_course(device, job, log, r, p);
}

/// A tensor that has not the size of its input ends the job, with both sizes in the report.
pub proof fn law_misfit_ends_the_job(
    device: &OpenVinoDevice,
    job: &InferenceJob,
    log: &mut CallLog,
    r: Result<Vec<openvino::Tensor>>,
    i: int,
    lent: Seq<u8>,
)
    requires
        call_ensures(OpenVinoDevice::compile_and_infer, (device, job, log), r),
        0 <= i < job.inputs@.len(),
        3 * i + 2 < final(log)@.len(),
        final(log)@[3 * i + 2].reply == Reply::Lent(lent),
        lent.len() != job.inputs@[i].bytes@.len(),
    ensures
        final(log)@.len() == 3 * i + 3,
        r matches Err(Error::OpenVino(OpenVinoError::Runtime(s))) && s@ == "tensor takes "@ + decimal(
            lent.len(),
        ) + " bytes, got "@ + decimal(job.inputs@[i].bytes@.len()),
{
    lemma_course(device, job, log, r, 3 * i + 2);
}

/// A job that fails although no call failed and every tensor fits found that an earlier user of the
/// runtime had panicked: it made its tensors and no more.
pub proof fn law_poisoned_runtime(
    device: &OpenVinoDevice,
    job: &InferenceJob,
    log: &mut CallLog,
    e: Error,
)
    requires
        call_ensures(OpenVinoDevice::compile_and_infer, (device, job, log), Err(e)),
        forall|p: int| 0 <= p < final(log)@.len() ==> match (#[trigger] final(log)@[p]).reply {
            Reply::Failed(_) => false,
            Reply::Lent(lent) => lent.len() == job.inputs@[p / 3].bytes@.len(),
            _ => true,
        },
    ensures
        final(log)@.len() == 3 * job.inputs@.len(),
        exists|cause: PoisonError<MutexGuard<openvino::Core>>, text: String| #[trigger]
            vstd::string::to_string_from_display_ensures(&cause, text) && (e matches Error::OpenVino(
                OpenVinoError::Message(s),
            ) && s@ == "mutex poisoned: "@ + text@),
{
    let r: Result<Vec<openvino::Tensor>> = Err(e);
    let calls = final(log)@;
    if device.is_poisoned(r) && job.prepared(device.name(), calls) {
        device.lemma_poisoned(r);
    } else {
        assert(calls[calls.len() - 1] == calls.last());
    }
}

} // verus!
