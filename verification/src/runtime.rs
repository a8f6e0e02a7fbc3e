//! The OpenVINO runtime: the calls that the backend makes to it.
//!
//! What the runtime answers rests on the machine, so nothing is claimed of it. Every call is entered in
//! a [`CallLog`] with its arguments, the object that it is made on and the answer, and what the runtime
//! makes is marked with what it was made from. Nothing outside this module can make an entry or a mark.
use openvino::Shape as OvShape;
use std::sync::Mutex;
use vstd::prelude::*;

verus! {

/// A handle to the loaded OpenVINO runtime.
#[verifier::external_type_specification]
#[verifier::external_body]
pub struct ExCore(openvino::Core);

/// A model that was read but not compiled.
#[verifier::external_type_specification]
#[verifier::external_body]
pub struct ExModel(openvino::Model);

/// A model that was compiled for a device.
#[verifier::external_type_specification]
#[verifier::external_body]
pub struct ExCompiledModel(openvino::CompiledModel);

/// One run of a compiled model.
#[verifier::external_type_specification]
#[verifier::external_body]
pub struct ExInferRequest(openvino::InferRequest);

/// A tensor that the runtime owns.
#[verifier::external_type_specification]
#[verifier::external_body]
pub struct ExTensor(openvino::Tensor);

/// The dimensions of a tensor that the runtime owns.
#[verifier::external_type_specification]
#[verifier::external_body]
pub struct ExOvShape(OvShape);

/// A failed call to the runtime.
#[verifier::external_type_specification]
#[verifier::external_body]
pub struct ExInferenceError(openvino::InferenceError);

/// A failure to load the runtime.
#[verifier::external_type_specification]
#[verifier::external_body]
pub struct ExSetupError(openvino::SetupError);

/// `openvino::Core::new` loads the OpenVINO library and makes a handle to it. Whether that succeeds
/// rests on the machine; nothing is claimed of the result.
pub assume_specification[ openvino::Core::new ]() -> (r: std::result::Result<
    openvino::Core,
    openvino::SetupError,
>)
;

/// `openvino::Tensor::get_raw_data` lends the bytes of a tensor. What an output holds is the runtime's
/// work; nothing is claimed of the result.
pub assume_specification[ openvino::Tensor::get_raw_data ](tensor: &openvino::Tensor) -> (r:
    std::result::Result<&[u8], openvino::InferenceError>)
;

/// An element type that OpenVINO multiplies natively.
#[derive(Clone, Copy, Debug, PartialEq, Eq, Structural)]
pub enum OvElement {
    F32,
    F16,
    BF16,
}

/// What a tensor of the runtime is made from, and the bytes that were written to it last.
pub struct TensorDesc {
    pub element: OvElement,
    pub dims: Seq<i64>,
    pub bytes: Seq<u8>,
}

/// A model, as OpenVINO's description of it, that was compiled for a device.
pub struct Program {
    pub text: Seq<char>,
    pub device: Seq<char>,
}

/// How far a run has come: its model, the tensors that were assigned to inputs of it, in order, with
/// what they held then, and how often the model was run.
pub struct RunState {
    pub program: Program,
    pub inputs: Seq<(Seq<char>, TensorDesc)>,
    pub times_run: nat,
}

/// What the backend asks of the runtime.
pub enum Request {
    CreateShape { dims: Seq<i64> },
    CreateTensor { element: OvElement, dims: Seq<i64> },
    LendTensor { element: OvElement, dims: Seq<i64> },
    ReadModel { text: Seq<char> },
    CompileModel { program: Program },
    CreateInferRequest { program: Program },
    SetTensor { run: RunState, name: Seq<char>, tensor: TensorDesc },
    Infer { run: RunState },
    CountOutputs { program: Program },
    GetOutput { run: RunState, index: nat },
}

/// What the runtime answers.
pub enum Reply {
    Done,
    /// The bytes of a tensor were lent, and hold these bytes when they are given back.
    Lent(Seq<u8>),
    Count(nat),
    Output(openvino::Tensor),
    Failed(openvino::InferenceError),
}

/// One call to the runtime.
pub struct Call {
    pub request: Request,
    pub reply: Reply,
}

/// The calls to the runtime that were made with this log, in order. Only the functions that call the
/// runtime make entries, and none can be taken back.
///
/// What the runtime makes is marked with the log that the call was made with, and later calls on it
/// demand that log. Of the mark of a new log nothing is known, so that no other log will do: every call
/// that changes a tensor, a compiled model or a run shows in one log.
pub struct CallLog {
    calls: Ghost<Seq<Call>>,
    mark: Ghost<nat>,
}

impl View for CallLog {
    type V = Seq<Call>;

    closed spec fn view(&self) -> Seq<Call> {
        self.calls@
    }
}

impl CallLog {
    /// The mark of what is made by calls with this log.
    pub closed spec fn mark(&self) -> nat {
        self.mark@
    }

    /// A log without entries.
    pub fn new() -> (r: Self)
        ensures
            r@ == Seq::<Call>::empty(),
    {
        CallLog { calls: Ghost(Seq::empty()), mark: Ghost(arbitrary()) }
    }
}

/// The outcome of a call to the runtime.
pub type Outcome<T> = std::result::Result<T, openvino::InferenceError>;

/// How a call without an answer of its own is entered.
pub open spec fn plain_reply<T>(r: Outcome<T>) -> Reply {
    match r {
        Ok(_) => Reply::Done,
        Err(e) => Reply::Failed(e),
    }
}

/// How the answer to the question for the number of outputs is entered.
pub open spec fn count_reply(r: Outcome<usize>) -> Reply {
    match r {
        Ok(n) => Reply::Count(n as nat),
        Err(e) => Reply::Failed(e),
    }
}

/// How a fetched output is entered.
pub open spec fn output_reply(r: Outcome<openvino::Tensor>) -> Reply {
    match r {
        Ok(t) => Reply::Output(t),
        Err(e) => Reply::Failed(e),
    }
}

/// A shape of the runtime, with the dimensions that it was made from.
pub(crate) struct MadeShape {
    shape: OvShape,
    dims: Ghost<Seq<i64>>,
}

impl MadeShape {
    /// The dimensions that the shape was made from.
    pub(crate) closed spec fn dims(&self) -> Seq<i64> {
        self.dims@
    }
}

/// A tensor of the runtime, with what it was made from and what was written to it.
pub(crate) struct MadeTensor {
    tensor: openvino::Tensor,
    desc: Ghost<TensorDesc>,
    log: Ghost<nat>,
}

impl MadeTensor {
    /// What the tensor was made from and what was written to it.
    pub(crate) closed spec fn desc(&self) -> TensorDesc {
        self.desc@
    }

    /// The mark of the log that the tensor was made with.
    pub(crate) closed spec fn log_mark(&self) -> nat {
        self.log@
    }
}

/// A model of the runtime, with its description.
pub(crate) struct LoadedModel {
    model: openvino::Model,
    text: Ghost<Seq<char>>,
}

impl LoadedModel {
    /// The description that the model was read from.
    pub(crate) closed spec fn text(&self) -> Seq<char> {
        self.text@
    }
}

/// A compiled model of the runtime, with its origin.
pub(crate) struct ReadyModel {
    compiled: openvino::CompiledModel,
    program: Ghost<Program>,
    log: Ghost<nat>,
}

impl ReadyModel {
    /// The description of the model and the device that it was compiled for.
    pub(crate) closed spec fn program(&self) -> Program {
        self.program@
    }

    /// The mark of the log that the model was compiled with.
    pub(crate) closed spec fn log_mark(&self) -> nat {
        self.log@
    }
}

/// A run of a compiled model, with its state.
pub(crate) struct ModelRun {
    request: openvino::InferRequest,
    state: Ghost<RunState>,
    log: Ghost<nat>,
}

impl ModelRun {
    /// How far the run has come.
    pub(crate) closed spec fn state(&self) -> RunState {
        self.state@
    }

    /// The mark of the log that the run was made with.
    pub(crate) closed spec fn log_mark(&self) -> nat {
        self.log@
    }
}

/// `openvino::Shape::new` makes a runtime shape of the dimensions. The library must be loaded, which
/// the locked handle to it shows. Whether the runtime makes the shape is not claimed; the call is entered in
/// the log with its dimensions and its outcome, and the shape is marked with the dimensions.
#[verifier::external_body]
pub(crate) fn new_shape(_runtime: &Mutex<openvino::Core>, dims: &Vec<i64>, log: &mut CallLog) -> (r: Outcome<
    MadeShape,
>)
    ensures
        r matches Ok(made) ==> made.dims() == dims@,
        final(log).mark() == old(log).mark(),
        final(log)@ == old(log)@.push(
            Call { request: Request::CreateShape { dims: dims@ }, reply: plain_reply(r) },
        ),
{
    let shape = OvShape::new(dims.as_slice())?;
    Ok(MadeShape { shape, dims: Ghost(dims@) })
}

/// `openvino::Tensor::new` makes a runtime tensor. The library must be loaded, which the shape shows.
/// Whether the runtime makes the tensor is not claimed; the call is entered in the log, and the tensor
/// is marked with its element type and its dimensions.
#[verifier::external_body]
pub(crate) fn new_tensor(element: OvElement, made: &MadeShape, log: &mut CallLog) -> (r: Outcome<MadeTensor>)
    ensures
        r matches Ok(tensor) ==> {
            &&& tensor.desc().element == element
            &&& tensor.desc().dims == made.dims()
            &&& tensor.log_mark() == old(log).mark()
        },
        final(log).mark() == old(log).mark(),
        final(log)@ == old(log)@.push(
            Call {
                request: Request::CreateTensor { element, dims: made.dims() },
                reply: plain_reply(r),
            },
        ),
{
    let element_type = match element {
        OvElement::F32 => openvino::ElementType::F32,
        OvElement::F16 => openvino::ElementType::F16,
        OvElement::BF16 => openvino::ElementType::Bf16,
    };
    let tensor = openvino::Tensor::new(element_type, &made.shape)?;
    Ok(
        MadeTensor {
            tensor,
            desc: Ghost(TensorDesc { element, dims: made.dims(), bytes: Seq::empty() }),
            log: Ghost(log.mark()),
        },
    )
}

/// `openvino::Tensor::get_raw_data_mut` lends the bytes of a tensor for writing. How many there are is
/// not claimed; what the borrower leaves in them is what was written to the tensor, and is entered in
/// the log.
#[verifier::external_body]
pub(crate) fn raw_data_mut<'a>(tensor: &'a mut MadeTensor, log: &mut CallLog) -> (r: Outcome<&'a mut [u8]>)
    requires
        old(tensor).log_mark() == old(log).mark(),
    ensures
        final(tensor).log_mark() == old(tensor).log_mark(),
        final(tensor).desc().element == old(tensor).desc().element,
        final(tensor).desc().dims == old(tensor).desc().dims,
        r matches Ok(raw) ==> final(tensor).desc().bytes == final(raw)@,
        final(log).mark() == old(log).mark(),
        final(log)@ == old(log)@.push(
            Call {
                request: Request::LendTensor {
                    element: old(tensor).desc().element,
                    dims: old(tensor).desc().dims,
                },
                reply: match r {
                    Ok(raw) => Reply::Lent(final(raw)@),
                    Err(e) => Reply::Failed(e),
                },
            },
        ),
{
    tensor.tensor.get_raw_data_mut()
}

/// `openvino::Core::read_model_from_buffer` reads a model description. The runtime decides whether it
/// accepts the description; the call is entered in the log, and the model is marked with the
/// description.
#[verifier::external_body]
pub(crate) fn read_model(core: &mut openvino::Core, text: &String, log: &mut CallLog) -> (r: Outcome<LoadedModel>)
    ensures
        r matches Ok(model) ==> model.text() == text@,
        final(log).mark() == old(log).mark(),
        final(log)@ == old(log)@.push(
            Call { request: Request::ReadModel { text: text@ }, reply: plain_reply(r) },
        ),
{
    let model = core.read_model_from_buffer(text.as_bytes(), None)?;
    Ok(LoadedModel { model, text: Ghost(text@) })
}

/// `openvino::Core::compile_model` compiles a model for the device with the given name. It panics on a
/// name that holds a NUL, of which no C string can be made. Whether the device takes the model is not
/// claimed; the call is entered in the log, and the compiled model is marked with its origin.
#[verifier::external_body]
pub(crate) fn compile_model(core: &mut openvino::Core, model: &LoadedModel, device: &str, log: &mut CallLog) -> (r:
    Outcome<ReadyModel>)
    requires
        !device@.contains('\0'),
    ensures
        r matches Ok(ready) ==> {
            &&& ready.program() == (Program { text: model.text(), device: device@ })
            &&& ready.log_mark() == old(log).mark()
        },
        final(log).mark() == old(log).mark(),
        final(log)@ == old(log)@.push(
            Call {
                request: Request::CompileModel {
                    program: Program { text: model.text(), device: device@ },
                },
                reply: plain_reply(r),
            },
        ),
{
    let compiled = core.compile_model(&model.model, openvino::DeviceType::from(device))?;
    let ghost program = Program { text: model.text(), device: device@ };
    Ok(ReadyModel { compiled, program: Ghost(program), log: Ghost(log.mark()) })
}

/// `openvino::CompiledModel::create_infer_request` prepares one run of the model. Whether it succeeds
/// is not claimed; the call is entered in the log, and the run is marked as one of the model, with no
/// tensor assigned and not run.
#[verifier::external_body]
pub(crate) fn create_infer_request(ready: &mut ReadyModel, log: &mut CallLog) -> (r: Outcome<ModelRun>)
    requires
        old(ready).log_mark() == old(log).mark(),
    ensures
        final(ready).program() == old(ready).program(),
        final(ready).log_mark() == old(ready).log_mark(),
        r matches Ok(run) ==> {
            &&& run.state() == (RunState {
                program: old(ready).program(),
                inputs: Seq::empty(),
                times_run: 0,
            })
            &&& run.log_mark() == old(log).mark()
        },
        final(log).mark() == old(log).mark(),
        final(log)@ == old(log)@.push(
            Call {
                request: Request::CreateInferRequest { program: old(ready).program() },
                reply: plain_reply(r),
            },
        ),
{
    let request = ready.compiled.create_infer_request()?;
    Ok(
        ModelRun {
            request,
            state: Ghost(
                RunState { program: ready.program(), inputs: Seq::empty(), times_run: 0 },
            ),
            log: Ghost(log.mark()),
        },
    )
}

/// `openvino::InferRequest::set_tensor` assigns a tensor to the input with the given name. It panics
/// on a name that holds a NUL, of which no C string can be made. Whether the model has such an input
/// is not claimed; the call is entered in the log with the state of the run, and a tensor that was
/// assigned is marked on the run.
#[verifier::external_body]
pub(crate) fn set_tensor(run: &mut ModelRun, name: &String, made: &MadeTensor, log: &mut CallLog) -> (r: Outcome<()>)
    requires
        !name@.contains('\0'),
        old(run).log_mark() == old(log).mark(),
        made.log_mark() == old(log).mark(),
    ensures
        final(run).log_mark() == old(run).log_mark(),
        r is Ok ==> final(run).state() == (RunState {
            inputs: old(run).state().inputs.push((name@, made.desc())),
            ..old(run).state()
        }),
        final(log).mark() == old(log).mark(),
        final(log)@ == old(log)@.push(
            Call {
                request: Request::SetTensor {
                    run: old(run).state(),
                    name: name@,
                    tensor: made.desc(),
                },
                reply: plain_reply(r),
            },
        ),
{
    run.request.set_tensor(name.as_str(), &made.tensor)
}

/// `openvino::InferRequest::infer` runs the model on the tensors that were assigned to the inputs of
/// the run. Whether it succeeds is not claimed; the call is entered in the log with the state of the
/// run, and the run is marked as run once more.
#[verifier::external_body]
pub(crate) fn infer(run: &mut ModelRun, log: &mut CallLog) -> (r: Outcome<()>)
    requires
        old(run).log_mark() == old(log).mark(),
    ensures
        final(run).log_mark() == old(run).log_mark(),
        r is Ok ==> final(run).state() == (RunState {
            times_run: old(run).state().times_run + 1,
            ..old(run).state()
        }),
        final(log).mark() == old(log).mark(),
        final(log)@ == old(log)@.push(
            Call { request: Request::Infer { run: old(run).state() }, reply: plain_reply(r) },
        ),
{
    run.request.infer()
}

/// `openvino::CompiledModel::get_output_size` asks the runtime for the number of outputs. The number
/// is not claimed; the call is entered in the log with it.
#[verifier::external_body]
pub(crate) fn get_output_size(ready: &ReadyModel, log: &mut CallLog) -> (r: Outcome<usize>)
    ensures
        final(log).mark() == old(log).mark(),
        final(log)@ == old(log)@.push(
            Call {
                request: Request::CountOutputs { program: ready.program() },
                reply: count_reply(r),
            },
        ),
{
    ready.compiled.get_output_size()
}

/// `openvino::InferRequest::get_output_tensor_by_index` hands out an output of the run. What the
/// tensor holds is not claimed; the call is entered in the log with the state of the run and the
/// tensor.
#[verifier::external_body]
pub(crate) fn get_output(run: &ModelRun, index: usize, log: &mut CallLog) -> (r: Outcome<openvino::Tensor>)
    ensures
        final(log).mark() == old(log).mark(),
        final(log)@ == old(log)@.push(
            Call {
                request: Request::GetOutput { run: run.state(), index: index as nat },
                reply: output_reply(r),
            },
        ),
{
    run.request.get_output_tensor_by_index(index)
}

} // verus!
