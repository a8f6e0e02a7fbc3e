//! Batched matrix multiplication as an OpenVINO model with a single operation.
use crate::backend::CpuBackend;
use crate::cpu_storage::CpuStorage;
use crate::dtype::DType;
use crate::error::{from_ov_error, Error, OpenVinoError, OpenVinoResult, Result};
use crate::inference::{reports, InferenceJob, JobInput};
use crate::layout::Layout;
use crate::runtime::{Call, CallLog, OvElement};
use crate::storage::{answers, OpenVinoStorage};
use crate::text::{decimal, push_decimal};
use crate::utils::cpu_storage_to_bytes;
use vstd::prelude::*;
use vstd::string::StringExecFns;

verus! {

/// The element type under which OpenVINO multiplies matrices of type `dtype` natively, if it does.
pub open spec fn native_element(dtype: DType) -> Option<OvElement> {
    match dtype {
        DType::F32 => Some(OvElement::F32),
        DType::F16 => Some(OvElement::F16),
        DType::BF16 => Some(OvElement::BF16),
        _ => None,
    }
}

/// The element type under which OpenVINO multiplies matrices of type `dtype` natively: it does so for
/// FP32, FP16 and BF16.
pub fn ov_element(dtype: DType) -> (r: Option<OvElement>)
    ensures
        r == native_element(dtype),
{
    match dtype {
        DType::F32 => Some(OvElement::F32),
        DType::F16 => Some(OvElement::F16),
        DType::BF16 => Some(OvElement::BF16),
        _ => None,
    }
}

impl OvElement {
    /// The name of the type as an attribute of a parameter.
    pub open spec fn element_text(self) -> Seq<char> {
        match self {
            OvElement::F32 => "f32"@,
            OvElement::F16 => "f16"@,
            OvElement::BF16 => "bf16"@,
        }
    }

    /// The name of the type as an attribute of a port.
    pub open spec fn precision_text(self) -> Seq<char> {
        match self {
            OvElement::F32 => "FP32"@,
            OvElement::F16 => "FP16"@,
            OvElement::BF16 => "BF16"@,
        }
    }

    fn element_name(self) -> (r: &'static str)
        ensures
            r@ == self.element_text(),
    {
        match self {
            OvElement::F32 => "f32",
            OvElement::F16 => "f16",
            OvElement::BF16 => "bf16",
        }
    }

    fn precision_name(self) -> (r: &'static str)
        ensures
            r@ == self.precision_text(),
    {
        match self {
            OvElement::F32 => "FP32",
            OvElement::F16 => "FP16",
            OvElement::BF16 => "BF16",
        }
    }
}

/// A port with the given attributes, for a tensor of `d.0` matrices of `d.1` rows and `d.2` columns.
pub open spec fn port_text(attributes: Seq<char>, element: OvElement, d: (nat, nat, nat)) -> Seq<char> {
    "<port "@ + attributes + " precision=\""@ + element.precision_text() + "\"><dim>"@ + decimal(d.0)
        + "</dim><dim>"@ + decimal(d.1) + "</dim><dim>"@ + decimal(d.2) + "</dim></port>"@
}

fn push_port(out: &mut String, attributes: &str, element: OvElement, d: (usize, usize, usize))
    ensures
        final(out)@ == old(out)@ + port_text(
            attributes@,
            element,
            (d.0 as nat, d.1 as nat, d.2 as nat),
        ),
{
    out.append("<port ");
    out.append(attributes);
    out.append(" precision=\"");
    out.append(element.precision_name());
    out.append("\"><dim>");
    push_decimal(out, d.0);
    out.append("</dim><dim>");
    push_decimal(out, d.1);
    out.append("</dim><dim>");
    push_decimal(out, d.2);
    out.append("</dim></port>");
    assert(out@ =~= old(out)@ + port_text(
        attributes@,
        element,
        (d.0 as nat, d.1 as nat, d.2 as nat),
    ));
}

/// A parameter of the model: the layer with the given attributes, whose output has the given
/// attributes.
pub open spec fn parameter_text(
    layer: Seq<char>,
    port: Seq<char>,
    element: OvElement,
    d: (nat, nat, nat),
) -> Seq<char> {
    "<layer "@ + layer + " type=\"Parameter\" version=\"opset1\"><data shape=\""@ + decimal(d.0)
        + ","@ + decimal(d.1) + ","@ + decimal(d.2) + "\" element_type=\""@ + element.element_text()
        + "\"/><output>"@ + port_text(port, element, d) + "</output></layer>"@
}

fn push_parameter(
    out: &mut String,
    layer: &str,
    port: &str,
    element: OvElement,
    d: (usize, usize, usize),
)
    ensures
        final(out)@ == old(out)@ + parameter_text(
            layer@,
            port@,
            element,
            (d.0 as nat, d.1 as nat, d.2 as nat),
        ),
{
    out.append("<layer ");
    out.append(layer);
    out.append(" type=\"Parameter\" version=\"opset1\"><data shape=\"");
    push_decimal(out, d.0);
    out.append(",");
    push_decimal(out, d.1);
    out.append(",");
    push_decimal(out, d.2);
    out.append("\" element_type=\"");
    out.append(element.element_name());
    out.append("\"/><output>");
    push_port(out, port, element, d);
    out.append("</output></layer>");
    assert(out@ =~= old(out)@ + parameter_text(
        layer@,
        port@,
        element,
        (d.0 as nat, d.1 as nat, d.2 as nat),
    ));
}

/// The description of the model that multiplies `b` matrices `lhs` of `m` rows and `k` columns by as
/// many matrices `rhs` of `k` rows and `n` columns, neither of them transposed.
pub open spec fn matmul_model_text(element: OvElement, b: nat, m: nat, n: nat, k: nat) -> Seq<char> {
    "<?xml version=\"1.0\"?><net name=\"candle_matmul\" version=\"11\"><layers>"@ + parameter_text(
        "id=\"0\" name=\"lhs\""@,
        "id=\"0\" names=\"lhs\""@,
        element,
        (b, m, k),
    ) + parameter_text(
        "id=\"1\" name=\"rhs\""@,
        "id=\"0\" names=\"rhs\""@,
        element,
        (b, k, n),
    ) + "<layer id=\"2\" name=\"matmul\" type=\"MatMul\" version=\"opset1\"><data transpose_a=\"false\" transpose_b=\"false\"/><input>"@
        + port_text("id=\"0\""@, element, (b, m, k)) + port_text("id=\"1\""@, element, (b, k, n))
        + "</input><output>"@ + port_text("id=\"2\" names=\"out\""@, element, (b, m, n))
        + "</output></layer><layer id=\"3\" name=\"result\" type=\"Result\" version=\"opset1\"><input>"@
        + port_text("id=\"0\""@, element, (b, m, n))
        + "</input></layer></layers><edges><edge from-layer=\"0\" from-port=\"0\" to-layer=\"2\" to-port=\"0\"/><edge from-layer=\"1\" from-port=\"0\" to-layer=\"2\" to-port=\"1\"/><edge from-layer=\"2\" from-port=\"2\" to-layer=\"3\" to-port=\"0\"/></edges></net>"@
}

/// The description of the model that multiplies `b` matrices `lhs` of `m` rows and `k` columns by as
/// many matrices `rhs` of `k` rows and `n` columns, neither of them transposed.
pub fn matmul_model(element: OvElement, b: usize, m: usize, n: usize, k: usize) -> (r: String)
    ensures
        r@ == matmul_model_text(element, b as nat, m as nat, n as nat, k as nat),
{
    let mut out = String::from_str(
        "<?xml version=\"1.0\"?><net name=\"candle_matmul\" version=\"11\"><layers>",
    );
    push_parameter(
        &mut out,
        "id=\"0\" name=\"lhs\"",
        "id=\"0\" names=\"lhs\"",
        element,
        (b, m, k),
    );
    push_parameter(
        &mut out,
        "id=\"1\" name=\"rhs\"",
        "id=\"0\" names=\"rhs\"",
        element,
        (b, k, n),
    );
    out.append(
        "<layer id=\"2\" name=\"matmul\" type=\"MatMul\" version=\"opset1\"><data transpose_a=\"false\" transpose_b=\"false\"/><input>",
    );
    push_port(&mut out, "id=\"0\"", element, (b, m, k));
    push_port(&mut out, "id=\"1\"", element, (b, k, n));
    out.append("</input><output>");
    push_port(&mut out, "id=\"2\" names=\"out\"", element, (b, m, n));
    out.append(
        "</output></layer><layer id=\"3\" name=\"result\" type=\"Result\" version=\"opset1\"><input>",
    );
    push_port(&mut out, "id=\"0\"", element, (b, m, n));
    out.append(
        "</input></layer></layers><edges><edge from-layer=\"0\" from-port=\"0\" to-layer=\"2\" to-port=\"0\"/><edge from-layer=\"1\" from-port=\"0\" to-layer=\"2\" to-port=\"1\"/><edge from-layer=\"2\" from-port=\"2\" to-layer=\"3\" to-port=\"0\"/></edges></net>",
    );
    out
}

/// Whether `job` multiplies the matrices with the bytes `lhs` and `rhs`.
pub open spec fn is_matmul_job(
    job: InferenceJob,
    element: OvElement,
    bmnk: (usize, usize, usize, usize),
    lhs: Seq<u8>,
    rhs: Seq<u8>,
) -> bool {
    let (b, m, n, k) = bmnk;
    &&& job.model@ == matmul_model_text(element, b as nat, m as nat, n as nat, k as nat)
    &&& job.inputs@.len() == 2
    &&& job.inputs@[0].name@ == "lhs"@
    &&& job.inputs@[0].element == element
    &&& job.inputs@[0].dims@ == seq![b as i64, m as i64, k as i64]
    &&& job.inputs@[0].bytes@ == lhs
    &&& job.inputs@[1].name@ == "rhs"@
    &&& job.inputs@[1].element == element
    &&& job.inputs@[1].dims@ == seq![b as i64, k as i64, n as i64]
    &&& job.inputs@[1].bytes@ == rhs
}

/// The job that multiplies the matrices with the bytes `lhs` and `rhs`.
pub fn matmul_job(
    element: OvElement,
    bmnk: (usize, usize, usize, usize),
    lhs: Vec<u8>,
    rhs: Vec<u8>,
) -> (job: InferenceJob)
    ensures
        is_matmul_job(job, element, bmnk, lhs@, rhs@),
        job.well_named(),
{
    let (b, m, n, k) = bmnk;
    let lhs_input = JobInput {
        name: String::from_str("lhs"),
        element,
        dims: vec![#[verifier::truncate] (b as i64), #[verifier::truncate] (m as i64), #[verifier::truncate] (k as i64)],
        bytes: lhs,
    };
    let rhs_input = JobInput {
        name: String::from_str("rhs"),
        element,
        dims: vec![#[verifier::truncate] (b as i64), #[verifier::truncate] (k as i64), #[verifier::truncate] (n as i64)],
        bytes: rhs,
    };
    let job = InferenceJob {
        model: matmul_model(element, b, m, n, k),
        inputs: vec![lhs_input, rhs_input],
    };
    proof {
        reveal_strlit("lhs");
        reveal_strlit("rhs");
        assert(job.inputs@[0].dims@ =~= seq![b as i64, m as i64, k as i64]);
        assert(job.inputs@[1].dims@ =~= seq![b as i64, k as i64, n as i64]);
    }
    job
}

/// How a matrix multiplication is carried out.
pub enum MatMulPlan {
    /// By the CPU kernel.
    Cpu,
    /// By OpenVINO, as the given job.
    OpenVino(InferenceJob),
}

impl<R> OpenVinoStorage<R> {
    /// Decides how to multiply the matrices of two storages: as an OpenVINO job where OpenVINO has
    /// the element type of the left one, on the CPU otherwise. The job takes the elements that the
    /// layouts show as contiguous data.
    pub fn matmul_plan(
        &self,
        rhs: &Self,
        bmnk: (usize, usize, usize, usize),
        lhs_l: &Layout,
        rhs_l: &Layout,
    ) -> (r: Result<MatMulPlan>)
        requires
            native_element(self.elem_type()) is Some ==> self.addressable(lhs_l) && rhs.addressable(
                rhs_l,
            ),
        ensures
            match native_element(self.elem_type()) {
                None => r == Ok::<MatMulPlan, Error>(MatMulPlan::Cpu),
                Some(element) => {
                    &&& !self.spans(lhs_l) ==> self.misses(lhs_l, r)
                    &&& self.spans(lhs_l) && !rhs.spans(rhs_l) ==> rhs.misses(rhs_l, r)
                    &&& self.spans(lhs_l) && rhs.spans(rhs_l) ==> (r matches Ok(
                        MatMulPlan::OpenVino(job),
                    ) && job.well_named() && is_matmul_job(
                        job,
                        element,
                        bmnk,
                        self.visible(lhs_l).to_bytes(),
                        rhs.visible(rhs_l).to_bytes(),
                    ))
                },
            },
    {
        let element = match ov_element(self.dtype()) {
            Some(element) => element,
            None => return Ok(MatMulPlan::Cpu),
        };
        let lhs_cpu = self.visible_cpu(lhs_l)?;
        let rhs_cpu = rhs.visible_cpu(rhs_l)?;
        let lhs_bytes = cpu_storage_to_bytes(&lhs_cpu)?;
        let rhs_bytes = cpu_storage_to_bytes(&rhs_cpu)?;
        Ok(MatMulPlan::OpenVino(matmul_job(element, bmnk, lhs_bytes, rhs_bytes)))
    }

    /// Whether `r` is what the multiplication makes of the bytes `output` that the runtime returned:
    /// a storage of them, with the element type and on the device of the left operand.
    pub open spec fn keeps_output(&self, output: OpenVinoResult<Vec<u8>>, r: Result<Self>) -> bool {
        match output {
            Ok(bytes) => r matches Ok(s) && s.data() == bytes@ && s.elem_type() == self.elem_type()
                && s.on() == self.on(),
            Err(e) => r == Err::<Self, Error>(Error::OpenVino(e)),
        }
    }

    /// Makes a storage of the bytes that the runtime returned for the product.
    pub fn finish_matmul(&self, output: OpenVinoResult<Vec<u8>>) -> (r: Result<Self>)
        ensures
            self.keeps_output(output, r),
    {
        match output {
            Ok(bytes) => Ok(OpenVinoStorage::from_parts(bytes, self.dtype(), self.device().clone())),
            Err(e) => Err(Error::OpenVino(e)),
        }
    }
}

/// Whether `output` holds the bytes of the first of `outputs`, or reports that there are none or
/// that the runtime does not give them.
pub open spec fn is_first_output(
    outputs: Seq<openvino::Tensor>,
    output: OpenVinoResult<Vec<u8>>,
) -> bool {
    if outputs.len() == 0 {
        output matches Err(OpenVinoError::Runtime(text)) && text@ == "the model has no output"@
    } else {
        exists|raw: std::result::Result<&[u8], openvino::InferenceError>| #[trigger]
            call_ensures(openvino::Tensor::get_raw_data, (&outputs[0],), raw) && match raw {
                Ok(bytes) => output matches Ok(v) && v@ == bytes@,
                Err(cause) => output matches Err(e) && reports(e, cause),
            }
    }
}

/// The bytes of the first of `outputs`. A model without outputs is a failure.
pub fn first_output(outputs: &Vec<openvino::Tensor>) -> (r: OpenVinoResult<Vec<u8>>)
    ensures
        is_first_output(outputs@, r),
{
    if outputs.len() == 0 {
        return Err(OpenVinoError::Runtime(String::from_str("the model has no output")));
    }
    match outputs[0].get_raw_data() {
        Ok(raw) => Ok(vstd::slice::slice_to_vec(raw)),
        Err(e) => Err(from_ov_error(e)),
    }
}

impl OpenVinoStorage<openvino::Core> {
    /// Whether `r` is what running `job` on the device with `calls` gives.
    pub open spec fn runs_to(&self, job: InferenceJob, calls: Seq<Call>, r: Result<Self>) -> bool {
        exists|outputs: Result<Vec<openvino::Tensor>>|
            #[trigger] self.on().infers(job, calls, outputs) && match outputs {
                Ok(outputs) => exists|output: OpenVinoResult<Vec<u8>>| #[trigger]
                    is_first_output(outputs@, output) && self.keeps_output(output, r),
                Err(e) => r == Err::<Self, Error>(e),
            }
    }

    /// Whether two storages can be asked to be multiplied: OpenVINO needs the elements that the layouts
    /// show, and a device name without a NUL.
    pub open spec fn multipliable(&self, rhs: &Self, lhs_l: &Layout, rhs_l: &Layout) -> bool {
        native_element(self.elem_type()) is Some ==> {
            &&& self.addressable(lhs_l)
            &&& rhs.addressable(rhs_l)
            &&& !self.on().name().contains('\0')
        }
    }

    /// Whether `r` is what multiplying the matrices of two storages gives: the product by the CPU
    /// kernel, where OpenVINO does not have the element type; where it does, a report on an operand
    /// whose layout reaches past its end, or the outcome of the OpenVINO job that multiplies the elements
    /// that the layouts show. `calls` are the calls to the runtime; there are none but for the job.
    pub open spec fn multiplies<K: CpuBackend>(
        &self,
        rhs: &Self,
        bmnk: (usize, usize, usize, usize),
        lhs_l: &Layout,
        rhs_l: &Layout,
        calls: Seq<Call>,
        r: Result<Self>,
    ) -> bool {
        match native_element(self.elem_type()) {
            None => calls.len() == 0 && exists|a: CpuStorage, b: CpuStorage, k: Result<CpuStorage>|
                a@ == self.whole() && b@ == rhs.whole() && #[trigger] call_ensures(
                    K::matmul,
                    (&a, &b, bmnk, lhs_l, rhs_l),
                    k,
                ) && answers(k, r, self.on()),
            Some(element) => if !self.spans(lhs_l) {
                self.misses(lhs_l, r) && calls.len() == 0
            } else if !rhs.spans(rhs_l) {
                rhs.misses(rhs_l, r) && calls.len() == 0
            } else {
                exists|job: InferenceJob|
                    #[trigger] is_matmul_job(
                        job,
                        element,
                        bmnk,
                        self.visible(lhs_l).to_bytes(),
                        rhs.visible(rhs_l).to_bytes(),
                    ) && self.runs_to(job, calls, r)
            },
        }
    }

    /// Run a batched matmul on the device via an OpenVINO single-op model.
    ///
    /// Falls back to CPU if the dtype is not supported by OpenVINO's MatMul (e.g. integer types).
    pub fn matmul_openvino<K: CpuBackend>(
        &self,
        rhs: &Self,
        bmnk: (usize, usize, usize, usize),
        lhs_l: &Layout,
        rhs_l: &Layout,
        log: &mut CallLog,
    ) -> (r: Result<Self>)
        requires
            self.multipliable(rhs, lhs_l, rhs_l),
            old(log)@.len() == 0,
        ensures
            self.multiplies::<K>(rhs, bmnk, lhs_l, rhs_l, final(log)@, r),
    {
        match self.matmul_plan(rhs, bmnk, lhs_l, rhs_l)? {
            MatMulPlan::Cpu => self.matmul_cpu::<K>(rhs, bmnk, lhs_l, rhs_l),
            MatMulPlan::OpenVino(job) => {
                let outputs = self.device().compile_and_infer(&job, log)?;
                let output = first_output(&outputs);
                self.finish_matmul(output)
            },
        }
    }

    /// Batched matrix multiplication, on the device via OpenVINO where it has the element type: what
    /// [`Self::matmul_openvino`] returns with a log of its own.
    pub fn matmul<K: CpuBackend>(
        &self,
        rhs: &Self,
        bmnk: (usize, usize, usize, usize),
        lhs_l: &Layout,
        rhs_l: &Layout,
    ) -> (r: Result<Self>)
        requires
            self.multipliable(rhs, lhs_l, rhs_l),
        ensures
            exists|log: &mut CallLog| #[trigger]
                call_ensures(
                    Self::matmul_openvino::<K>,
                    (self, rhs, bmnk, lhs_l, rhs_l, log),
                    r,
                ) && log@.len() == 0 && self.multiplies::<K>(
                    rhs,
                    bmnk,
                    lhs_l,
                    rhs_l,
                    final(log)@,
                    r,
                ),
    {
        let mut log = CallLog::new();
        self.matmul_openvino::<K>(rhs, bmnk, lhs_l, rhs_l, &mut log)
    }
}

} // verus!
