# openvino_backend

An OpenVINO backend for tensors, written in Verus: executable Rust whose behaviour is stated in
contracts and proved.

Tensor data lives on the host as raw bytes. Matrix multiplication of `F32`, `F16` and `BF16` elements
runs on an OpenVINO device (an NPU by default) as a model with a single operation. Every other
operation falls back transparently to the CPU: whole buffers make the round trip to typed CPU buffers,
and a CPU kernel works on them with the layouts given.

| Module | Contents |
| --- | --- |
| `dtype`, `element`, `layout`, `cpu_storage` | element types, their bytes, shapes and layouts, typed buffers |
| `utils` | conversion between raw bytes and typed buffers |
| `device`, `shared` | device handles that share a locked runtime |
| `storage`, `backend` | device storage, its operations, and the CPU kernels they call |
| `runtime` | the calls to OpenVINO, and the log of them |
| `inference` | the course of one inference |
| `matmul` | the model for a batched product, and the choice between OpenVINO and the CPU |
| `laws` | what holds of the backend as a whole |
| `error`, `text` | errors and their texts |

Floats are held by their bit patterns; `app/` converts them, opens devices, and holds a smoke test. What
OpenVINO answers rests on the machine, so nothing is claimed of it. Calls are made with a log: the
contracts say what stands in the log at the end, which is every call on the tensors, the compiled model
and the run that were made with it, and what becomes of the answers.
