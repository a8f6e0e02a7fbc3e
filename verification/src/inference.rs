//! The course of one inference: which calls to the runtime run a model on given tensors, and what
//! becomes of the answers.
use crate::error::{from_ov_error, OpenVinoError, OpenVinoResult};
use crate::runtime::{
    compile_model, create_infer_request, get_output, get_output_size, infer, new_shape, new_tensor,
    raw_data_mut, read_model, set_tensor, Call, CallLog, MadeTensor, OvElement, Program, Reply, Request,
    RunState, TensorDesc,
};
use crate::text::{decimal, push_decimal};
use std::sync::Mutex;
use vstd::prelude::*;
use vstd::string::StringExecFns;

verus! {

/// Whether `e` reports the failure `cause` of a call to the runtime.
pub open spec fn reports(e: OpenVinoError, cause: openvino::InferenceError) -> bool {
    e matches OpenVinoError::Runtime(text) && vstd::string::to_string_from_display_ensures(&cause, text)
}

/// The text of the error for a tensor of `size` bytes that should take `given` bytes.
pub open spec fn misfit_text(size: nat, given: nat) -> Seq<char> {
    "tensor takes "@ + decimal(size) + " bytes, got "@ + decimal(given)
}

/// An input of a job: the name of the model's input, and the tensor for it.
pub struct JobInput {
    pub name: String,
    pub element: OvElement,
    pub dims: Vec<i64>,
    pub bytes: Vec<u8>,
}

impl JobInput {
    /// What the tensor is made from.
    pub open spec fn desc(&self) -> TensorDesc {
        TensorDesc { element: self.element, dims: self.dims@, bytes: self.bytes@ }
    }
}

/// A model, as OpenVINO's description of it, and the tensors to run it on.
pub struct InferenceJob {
    pub model: String,
    pub inputs: Vec<JobInput>,
}

impl InferenceJob {
    /// No input has a NUL in its name.
    pub open spec fn well_named(&self) -> bool {
        forall|i: int| 0 <= i < self.inputs@.len() ==> !(#[trigger] self.inputs@[i]).name@.contains('\0')
    }

    /// The model of the job, for a device.
    pub open spec fn program(&self, device: Seq<char>) -> Program {
        Program { text: self.model@, device }
    }

    /// The state of a run of the job for which the first `n` inputs are set, after `times_run` runs.
    pub open spec fn run_state(&self, device: Seq<char>, n: nat, times_run: nat) -> RunState {
        RunState {
            program: self.program(device),
            inputs: Seq::new(n, |i: int| (self.inputs@[i].name@, self.inputs@[i].desc())),
            times_run,
        }
    }

    /// The position of the run of the model among the calls of the job.
    pub open spec fn run_position(&self) -> int {
        (4 * self.inputs@.len() + 3) as int
    }

    /// The request at position `p` among the calls that run the job on `device`: the tensors are
    /// made and filled, one input after the other; the model is read and compiled; on a new run, every
    /// input is set, in order; the model is run with all inputs set; the outputs are counted and
    /// fetched, in order, from that run, which was made once.
    pub open spec fn request_at(&self, device: Seq<char>, p: int) -> Request {
        let n = self.inputs@.len();
        let program = self.program(device);
        if p < 3 * n {
            let input = self.inputs@[p / 3];
            if p % 3 == 0 {
                Request::CreateShape { dims: input.dims@ }
            } else if p % 3 == 1 {
                Request::CreateTensor { element: input.element, dims: input.dims@ }
            } else {
                Request::LendTensor { element: input.element, dims: input.dims@ }
            }
        } else if p == 3 * n {
            Request::ReadModel { text: self.model@ }
        } else if p == 3 * n + 1 {
            Request::CompileModel { program }
        } else if p == 3 * n + 2 {
            Request::CreateInferRequest { program }
        } else if p < self.run_position() {
            let input = self.inputs@[p - (3 * n + 3)];
            Request::SetTensor {
                run: self.run_state(device, (p - (3 * n + 3)) as nat, 0),
                name: input.name@,
                tensor: input.desc(),
            }
        } else if p == self.run_position() {
            Request::Infer { run: self.run_state(device, n, 0) }
        } else if p == self.run_position() + 1 {
            Request::CountOutputs { program }
        } else {
            Request::GetOutput {
                run: self.run_state(device, n, 1),
                index: (p - self.run_position() - 2) as nat,
            }
        }
    }

    /// Whether the job goes on after the reply at position `p`: the call did not fail, and a tensor
    /// that was lent came back with the bytes of its input.
    pub open spec fn goes_on(&self, p: int, reply: Reply) -> bool {
        if p < 3 * self.inputs@.len() && p % 3 == 2 {
            reply == Reply::Lent(self.inputs@[p / 3].bytes@)
        } else {
            !(reply is Failed) && !(reply is Lent)
        }
    }

    /// Whether `e` is the error with which the job ends at the reply at position `p`: the failure of
    /// the call, or the report that the tensor of an input has another size than the bytes for it.
    pub open spec fn ends_with(&self, p: int, reply: Reply, e: OpenVinoError) -> bool {
        match reply {
            Reply::Failed(cause) => reports(e, cause),
            Reply::Lent(bytes) => {
                let given = self.inputs@[p / 3].bytes@.len();
                &&& bytes.len() != given
                &&& e matches OpenVinoError::Runtime(text) && text@ == misfit_text(bytes.len(), given)
            },
            _ => false,
        }
    }

    /// Whether `calls` are the first calls of the job, each of them answered.
    pub open spec fn on_course(&self, device: Seq<char>, calls: Seq<Call>) -> bool {
        forall|p: int|
            0 <= p < calls.len() ==> {
                &&& (#[trigger] calls[p]).request == self.request_at(device, p)
                &&& self.goes_on(p, calls[p].reply)
            }
    }

    /// Whether `calls` are the calls that make and fill the tensors of the job, each of them answered.
    pub open spec fn prepared(&self, device: Seq<char>, calls: Seq<Call>) -> bool {
        self.on_course(device, calls) && calls.len() == 3 * self.inputs@.len()
    }

    /// Whether `calls` are the calls of the job up to one that ended it with the error `e`.
    pub open spec fn failed_with(&self, device: Seq<char>, calls: Seq<Call>, e: OpenVinoError) -> bool {
        &&& calls.len() > 0
        &&& self.on_course(device, calls.drop_last())
        &&& calls.last().request == self.request_at(device, calls.len() - 1)
        &&& self.ends_with(calls.len() - 1, calls.last().reply, e)
    }

    /// Whether `calls` are all calls of the job, with as many outputs fetched as the runtime
    /// counted, and `outputs` are these.
    pub open spec fn finished_with(
        &self,
        device: Seq<char>,
        calls: Seq<Call>,
        outputs: Seq<openvino::Tensor>,
    ) -> bool {
        let at = self.run_position() + 1;
        &&& self.on_course(device, calls)
        &&& calls.len() == at + 1 + outputs.len()
        &&& calls[at].reply == Reply::Count(outputs.len())
        &&& forall|i: int|
            0 <= i < outputs.len() ==> calls[at + 1 + i].reply == Reply::Output(#[trigger] outputs[i])
    }

    /// Whether running the job on `device` with `calls` gives `r`.
    pub open spec fn runs(
        &self,
        device: Seq<char>,
        calls: Seq<Call>,
        r: OpenVinoResult<Vec<openvino::Tensor>>,
    ) -> bool {
        match r {
            Ok(outputs) => self.finished_with(device, calls, outputs@),
            Err(e) => self.failed_with(device, calls, e),
        }
    }
}

/// Fills the tensor for an input. A tensor of another size than the input is a failure.
fn write_tensor(made: &mut MadeTensor, job: &InferenceJob, i: usize, log: &mut CallLog) -> (r:
    OpenVinoResult<()>)
    requires
        i < job.inputs@.len(),
        old(log)@.len() == 3 * i + 2,
        old(made).log_mark() == old(log).mark(),
    ensures
        final(log).mark() == old(log).mark(),
        final(made).log_mark() == old(made).log_mark(),
        final(made).desc().element == old(made).desc().element,
        final(made).desc().dims == old(made).desc().dims,
        final(log)@.len() == old(log)@.len() + 1,
        final(log)@.drop_last() == old(log)@,
        final(log)@.last().request == (Request::LendTensor {
            element: old(made).desc().element,
            dims: old(made).desc().dims,
        }),
        match r {
            Ok(()) => {
                &&& final(made).desc().bytes == job.inputs@[i as int].bytes@
                &&& final(log)@.last().reply == Reply::Lent(job.inputs@[i as int].bytes@)
            },
            Err(e) => job.ends_with(3 * i + 2, final(log)@.last().reply, e),
        },
{
    let bytes = &job.inputs[i].bytes;
    match raw_data_mut(made, log) {
        Ok(raw) => {
            let size: usize = raw.len();
            if size != bytes.len() {
                let mut text = String::from_str("tensor takes ");
                push_decimal(&mut text, size);
                text.append(" bytes, got ");
                push_decimal(&mut text, bytes.len());
                Err(OpenVinoError::Runtime(text))
            } else {
                let mut j: usize = 0;
                while j < bytes.len()
                    invariant
                        j <= bytes@.len() == raw@.len(),
                        forall|k: int| 0 <= k < j ==> raw@[k] == bytes@[k],
                    decreases bytes.len() - j,
                {
                    raw[j] = bytes[j];
                    j = j + 1;
                }
                assert(raw@ =~= bytes@);
                Ok(())
            }
        },
        Err(e) => Err(from_ov_error(e)),
    }
}

/// Makes the tensor for an input: the calls at `3 * i`, `3 * i + 1` and `3 * i + 2`.
fn make_tensor(
    runtime: &Mutex<openvino::Core>,
    job: &InferenceJob,
    i: usize,
    device: &str,
    log: &mut CallLog,
) -> (r: OpenVinoResult<MadeTensor>)
    requires
        i < job.inputs@.len(),
        old(log)@.len() == 3 * i,
        job.on_course(device@, old(log)@),
    ensures
        final(log).mark() == old(log).mark(),
        r matches Ok(made) ==> {
            &&& made.log_mark() == old(log).mark()
            &&& made.desc() == job.inputs@[i as int].desc()
            &&& final(log)@.len() == 3 * i + 3
            &&& job.on_course(device@, final(log)@)
        },
        r matches Err(e) ==> job.failed_with(device@, final(log)@, e),
{
    let input = &job.inputs[i];
    let shape = match new_shape(runtime, &input.dims, log) {
        Ok(shape) => shape,
        Err(e) => {
            assert(log@.drop_last() =~= old(log)@);
            return Err(from_ov_error(e));
        },
    };
    let ghost before = log@;
    let mut made = match new_tensor(input.element, &shape, log) {
        Ok(made) => made,
        Err(e) => {
            assert(log@.drop_last() =~= before);
            return Err(from_ov_error(e));
        },
    };
    let ghost before = log@;
    write_tensor(&mut made, job, i, log)?;
    assert forall|p: int| 0 <= p < log@.len() implies {
        &&& (#[trigger] log@[p]).request == job.request_at(device@, p)
        &&& job.goes_on(p, log@[p].reply)
    } by {
        if p < before.len() {
            assert(log@.drop_last()[p] == log@[p]);
        }
    }
    Ok(made)
}

/// Makes and fills the tensors of a job. The first call that fails is the last one.
pub(crate) fn make_tensors(
    runtime: &Mutex<openvino::Core>,
    device: &str,
    job: &InferenceJob,
    log: &mut CallLog,
) -> (r: OpenVinoResult<Vec<MadeTensor>>)
    requires
        old(log)@.len() == 0,
    ensures
        final(log).mark() == old(log).mark(),
        match r {
            Ok(tensors) => {
                &&& job.prepared(device@, final(log)@)
                &&& tensors@.len() == job.inputs@.len()
                &&& forall|i: int|
                    0 <= i < tensors@.len() ==> (#[trigger] tensors@[i]).desc() == job.inputs@[i].desc()
                        && tensors@[i].log_mark() == old(log).mark()
            },
            Err(e) => job.failed_with(device@, final(log)@, e),
        },
{
    let n: usize = job.inputs.len();
    let mut tensors: Vec<MadeTensor> = Vec::new();
    let mut i: usize = 0;
    while i < n
        invariant
            i <= n == job.inputs@.len(),
            tensors@.len() == i,
            forall|j: int|
                0 <= j < i ==> (#[trigger] tensors@[j]).desc() == job.inputs@[j].desc()
                    && tensors@[j].log_mark() == old(log).mark(),
            log.mark() == old(log).mark(),
            log@.len() == 3 * i,
            job.on_course(device@, log@),
        decreases n - i,
    {
        let made = make_tensor(runtime, job, i, device, log)?;
        tensors.push(made);
        i = i + 1;
    }
    Ok(tensors)
}

/// Runs a job whose tensors are made on the device with the given name: reads and compiles the model,
/// sets every input, runs the model, and fetches every output. The first call that fails is the last
/// one.
pub(crate) fn run_job(
    core: &mut openvino::Core,
    device: &str,
    job: &InferenceJob,
    tensors: &Vec<MadeTensor>,
    log: &mut CallLog,
) -> (r: OpenVinoResult<Vec<openvino::Tensor>>)
    requires
        !device@.contains('\0'),
        job.well_named(),
        job.prepared(device@, old(log)@),
        tensors@.len() == job.inputs@.len(),
        forall|i: int|
            0 <= i < tensors@.len() ==> (#[trigger] tensors@[i]).desc() == job.inputs@[i].desc()
                && tensors@[i].log_mark() == old(log).mark(),
    ensures
        job.runs(device@, final(log)@, r),
{
    let n: usize = job.inputs.len();
    let ghost before = log@;
    let model = match read_model(core, &job.model, log) {
        Ok(model) => model,
        Err(e) => {
            assert(log@.drop_last() =~= before);
            return Err(from_ov_error(e));
        },
    };
    let ghost before = log@;
    let mut ready = match compile_model(core, &model, device, log) {
        Ok(ready) => ready,
        Err(e) => {
            assert(log@.drop_last() =~= before);
            return Err(from_ov_error(e));
        },
    };
    let ghost before = log@;
    let mut run = match create_infer_request(&mut ready, log) {
        Ok(run) => run,
        Err(e) => {
            assert(log@.drop_last() =~= before);
            return Err(from_ov_error(e));
        },
    };
    assert(run.state().inputs =~= job.run_state(device@, 0, 0).inputs);
    let mut i: usize = 0;
    while i < n
        invariant
            i <= n == job.inputs@.len() == tensors@.len(),
            job.well_named(),
            run.state() == job.run_state(device@, i as nat, 0),
            run.log_mark() == log.mark(),
            forall|j: int|
                0 <= j < n ==> (#[trigger] tensors@[j]).desc() == job.inputs@[j].desc()
                    && tensors@[j].log_mark() == log.mark(),
            log@.len() == 3 * n + 3 + i,
            job.on_course(device@, log@),
        decreases n - i,
    {
        let ghost before = log@;
        match set_tensor(&mut run, &job.inputs[i].name, &tensors[i], log) {
            Ok(()) => {},
            Err(e) => {
                assert(log@.drop_last() =~= before);
                return Err(from_ov_error(e));
            },
        }
        i = i + 1;
        assert(run.state().inputs =~= job.run_state(device@, i as nat, 0).inputs);
    }
    let ghost before = log@;
    match infer(&mut run, log) {
        Ok(()) => {},
        Err(e) => {
            assert(log@.drop_last() =~= before);
            return Err(from_ov_error(e));
        },
    }
    let ghost before = log@;
    let output_count: usize = match get_output_size(&ready, log) {
        Ok(count) => count,
        Err(e) => {
            assert(log@.drop_last() =~= before);
            return Err(from_ov_error(e));
        },
    };
    let ghost at = job.run_position() + 1;
    let mut outputs: Vec<openvino::Tensor> = Vec::new();
    let mut i: usize = 0;
    while i < output_count
        invariant
            i <= output_count,
            at == job.run_position() + 1,
            run.state() == job.run_state(device@, job.inputs@.len(), 1),
            outputs@.len() == i,
            log@.len() == at + 1 + i,
            job.on_course(device@, log@),
            log@[at].reply == Reply::Count(output_count as nat),
            forall|j: int|
                0 <= j < i ==> log@[at + 1 + j].reply == Reply::Output(#[trigger] outputs@[j]),
        decreases output_count - i,
    {
        let ghost before = log@;
        match get_output(&run, i, log) {
            Ok(t) => outputs.push(t),
            Err(e) => {
                assert(log@.drop_last() =~= before);
                return Err(from_ov_error(e));
            },
        }
        i = i + 1;
    }
    Ok(outputs)
}

} // verus!
