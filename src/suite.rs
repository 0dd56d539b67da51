//! The benchmark suites and execution engines that a run can be built for,
//! and the names under which they appear on the command line, in the build
//! system and on disk.
use vstd::prelude::*;

verus! {

/// A benchmark suite.
#[derive(Clone, Copy, Debug, PartialEq, Eq, Structural)]
pub enum Benchmark {
    Embench1,
    Embench2,
    CoreMark,
}

/// An execution engine together with the form of payload it runs.
#[derive(Clone, Copy, Debug, PartialEq, Eq, Structural)]
pub enum Runtime {
    Wasmtime,
    WasmtimeNoSIMD,
    Wasmi,
    WasmInterpreter,
    WasefireNative,
    WasefirePulley,
}

impl Benchmark {
    /// Whether the suite has payloads that can be run yet.
    pub open spec fn supported(self) -> bool {
        !(self is Embench2)
    }

    pub fn is_supported(&self) -> (r: bool)
        ensures
            r == self.supported(),
    {
        !matches!(self, Benchmark::Embench2)
    }

    /// The name of the suite on the command line.
    pub fn value_name(&self) -> (r: &'static str)
        ensures
            r@ == (match *self {
                Benchmark::Embench1 => "embench-1"@,
                Benchmark::Embench2 => "embench-2"@,
                Benchmark::CoreMark => "coremark"@,
            }),
    {
        match self {
            Benchmark::Embench1 => "embench-1",
            Benchmark::Embench2 => "embench-2",
            Benchmark::CoreMark => "coremark",
        }
    }

    /// The directory under `benchmarks/` that holds the suite's payloads.
    pub fn to_dirname(&self) -> (r: &'static str)
        requires
            self.supported(),
        ensures
            r@ == (match *self {
                Benchmark::Embench1 => "embench-1.0"@,
                _ => "coremark"@,
            }),
    {
        match self {
            Benchmark::Embench1 => "embench-1.0",
            _ => "coremark",
        }
    }

    /// The build-system module that selects the suite; it is named as the
    /// suite's directory is.
    pub fn to_laze_module(&self) -> (r: &'static str)
        requires
            self.supported(),
        ensures
            r@ == (match *self {
                Benchmark::Embench1 => "embench-1.0"@,
                _ => "coremark"@,
            }),
    {
        self.to_dirname()
    }
}

impl Runtime {
    /// Whether the build system can select the engine yet.
    pub open spec fn supported(self) -> bool {
        !(self is WasefireNative || self is WasefirePulley)
    }

    pub fn is_supported(&self) -> (r: bool)
        ensures
            r == self.supported(),
    {
        !matches!(self, Runtime::WasefireNative | Runtime::WasefirePulley)
    }

    /// The name of the engine on the command line.
    pub fn value_name(&self) -> (r: &'static str)
        ensures
            r@ == (match *self {
                Runtime::Wasmtime => "wasmtime"@,
                Runtime::WasmtimeNoSIMD => "wasmtime-no-simd"@,
                Runtime::Wasmi => "wasmi"@,
                Runtime::WasmInterpreter => "wasm-interpreter"@,
                Runtime::WasefireNative => "wasefire"@,
                Runtime::WasefirePulley => "wasefire-pulley"@,
            }),
    {
        match self {
            Runtime::Wasmtime => "wasmtime",
            Runtime::WasmtimeNoSIMD => "wasmtime-no-simd",
            Runtime::Wasmi => "wasmi",
            Runtime::WasmInterpreter => "wasm-interpreter",
            Runtime::WasefireNative => "wasefire",
            Runtime::WasefirePulley => "wasefire-pulley",
        }
    }

    /// The file extension of the payloads the engine runs: precompiled
    /// modules for the compiling engines, plain modules otherwise.
    pub fn payload_extension(&self) -> (r: &'static str)
        ensures
            r@ == (match *self {
                Runtime::Wasmtime | Runtime::WasmtimeNoSIMD | Runtime::WasefirePulley => "cwasm"@,
                _ => "wasm"@,
            }),
    {
        match self {
            Runtime::Wasmtime | Runtime::WasmtimeNoSIMD | Runtime::WasefirePulley => "cwasm",
            _ => "wasm",
        }
    }

    /// The build-system module that selects the engine.
    pub fn to_laze_module(&self) -> (r: &'static str)
        requires
            self.supported(),
        ensures
            r@ == (match *self {
                Runtime::Wasmtime => "wasmtime"@,
                Runtime::WasmtimeNoSIMD => "wasmtime-no-simd"@,
                Runtime::Wasmi => "wasmi"@,
                _ => "wasm-interpreter"@,
            }),
    {
        match self {
            Runtime::Wasmtime => "wasmtime",
            Runtime::WasmtimeNoSIMD => "wasmtime-no-simd",
            Runtime::Wasmi => "wasmi",
            _ => "wasm-interpreter",
        }
    }
}

} // verus!
