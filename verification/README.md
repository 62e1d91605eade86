# native-onnx

Synchronous ONNX inference over installed ONNX Runtime execution providers
(TensorRT, CUDA, CoreML, CPU, or one that the caller configures), with ordered
fallback between them, reusable buffers for models of fixed shapes, and compilation
for one explicit target.

## Layout

* `src/` is the library, written in Verus. It decides and remembers; every function
  states in its contract what it returns and what it changes, and `src/laws.rs` and
  the `law_` functions of the other modules state what holds of all inputs and states.
* `app/` is ordinary Rust around it. It loads ONNX Runtime and the CUDA driver, reads
  and writes files, performs the native calls that the library asks for and tells it
  what came of them. `OnnxSession` there is what a program uses.
* `tests/` runs the library. A simulated host stands for the native runtime.

## How a run goes

An operation of `OnnxRuntime` that needs native work returns what is to be done:
open the current candidate, run the kept tensors, or run the given inputs. The caller
does it and reports the outcome. A failed run either ends the operation with its error
or moves on to the next candidate, which is then to be opened; the failure is kept as a
fallback event. With a required provider, or a compiled model, nothing falls back.

Sessions with fixed, positive shapes keep one tensor per input and output. Inputs start
at zero and keep their values; outputs can be read only after a successful run for the
current inputs. On a GPU they are copied through pinned memory by a `Transfer`, which
names one driver call after another and waits for all queued copies whatever fails.

## What is trusted

Three wrappers around outside parsers (`onnx_rs::parse`, used twice, and
`serde_json::from_slice`) in `src/engine.rs`, and the specifications of two functions
of the standard library in `src/text.rs` and `src/options.rs`. `onnx_rs::parse` descends
by recursion, so it is called only for files whose messages are nested at most 100
levels deep; `src/wire.rs` counts them. Floating-point elements are carried as their
bits.
