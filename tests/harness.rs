use wasm_bench::{
    answer_host_call, smoke_result_ok, Benchmark, HostFunction, HostReply, Mode, Runtime, SendCell,
    TriggerError, TriggerState,
};

#[test]
fn send_cell_hands_out_its_value() {
    let mut cell = SendCell::new(vec![1u32]);
    cell.borrow_mut().push(2);
    assert_eq!(*cell.borrow_mut(), vec![1, 2]);
}

#[test]
fn smoke_payload_adds_extra() {
    let mut t = TriggerState::new();
    let extra = answer_host_call(&mut t, HostFunction::Extra, 0, 100);
    assert_eq!(extra, Ok(HostReply::I32(100)));
    assert!(smoke_result_ok(28, 16, 100, 144));
    assert!(!smoke_result_ok(28, 16, 100, 44));
    assert!(smoke_result_ok(u32::MAX, 1, 100, 100));
}

#[test]
fn host_calls_drive_the_trigger() {
    let mut t = TriggerState::new();
    assert_eq!(answer_host_call(&mut t, HostFunction::InitialiseBoard, 1, 0), Ok(HostReply::Unit));
    assert_eq!(t, TriggerState::Idle);
    assert_eq!(answer_host_call(&mut t, HostFunction::StartTrigger, 2, 0), Ok(HostReply::Unit));
    assert_eq!(answer_host_call(&mut t, HostFunction::ClockMs, 7, 0), Ok(HostReply::I64(7)));
    assert_eq!(answer_host_call(&mut t, HostFunction::StopTrigger, 9, 0), Ok(HostReply::Unit));
    assert_eq!(t, TriggerState::Stopped { start_ms: 2, stop_ms: 9 });
    assert_eq!(
        answer_host_call(&mut t, HostFunction::StopTrigger, 10, 0),
        Err(TriggerError::StopWithoutStart)
    );
}

#[test]
fn modes_name_their_imports() {
    assert_eq!(Mode::Smoke.namespace(), "host");
    assert_eq!(Mode::CoreMark.namespace(), "env");
    assert_eq!(Mode::Embench.namespace(), "env");
    assert_eq!(Mode::Smoke.entry_export(), "add_with_extra");
    assert_eq!(Mode::CoreMark.entry_export(), "run");
    assert_eq!(Mode::Embench.entry_export(), "__original_main");
    assert_eq!(Mode::Smoke.imports(), vec![HostFunction::Extra]);
    assert_eq!(Mode::CoreMark.imports(), vec![HostFunction::ClockMs]);
    assert_eq!(
        Mode::Embench.imports(),
        vec![HostFunction::InitialiseBoard, HostFunction::StartTrigger, HostFunction::StopTrigger]
    );
    let names: Vec<&str> = Mode::Embench.imports().iter().map(|f| f.name()).collect();
    assert_eq!(names, vec!["initialise_board", "start_trigger", "stop_trigger"]);
    assert_eq!(HostFunction::ClockMs.name(), "clock_ms");
    assert_eq!(HostFunction::Extra.name(), "extra");
}

#[test]
fn link_index_picks_the_import() {
    assert_eq!(Mode::Embench.import_at(0), Some(HostFunction::InitialiseBoard));
    assert_eq!(Mode::Embench.import_at(1), Some(HostFunction::StartTrigger));
    assert_eq!(Mode::Embench.import_at(2), Some(HostFunction::StopTrigger));
    assert_eq!(Mode::Embench.import_at(3), None);
    assert_eq!(Mode::CoreMark.import_at(0), Some(HostFunction::ClockMs));
    assert_eq!(Mode::CoreMark.import_at(1), None);
}

#[test]
fn suite_names() {
    assert_eq!(Benchmark::Embench1.value_name(), "embench-1");
    assert_eq!(Benchmark::Embench2.value_name(), "embench-2");
    assert_eq!(Benchmark::CoreMark.value_name(), "coremark");
    assert_eq!(Benchmark::Embench1.to_dirname(), "embench-1.0");
    assert_eq!(Benchmark::CoreMark.to_dirname(), "coremark");
    assert_eq!(Benchmark::Embench1.to_laze_module(), "embench-1.0");
    assert_eq!(Benchmark::CoreMark.to_laze_module(), "coremark");
}

#[test]
fn runtime_names() {
    let all = [
        (Runtime::Wasmtime, "wasmtime", "cwasm"),
        (Runtime::WasmtimeNoSIMD, "wasmtime-no-simd", "cwasm"),
        (Runtime::Wasmi, "wasmi", "wasm"),
        (Runtime::WasmInterpreter, "wasm-interpreter", "wasm"),
        (Runtime::WasefireNative, "wasefire", "wasm"),
        (Runtime::WasefirePulley, "wasefire-pulley", "cwasm"),
    ];
    for (r, name, ext) in all {
        assert_eq!(r.value_name(), name);
        assert_eq!(r.payload_extension(), ext);
    }
    assert_eq!(Runtime::Wasmtime.to_laze_module(), "wasmtime");
    assert_eq!(Runtime::WasmtimeNoSIMD.to_laze_module(), "wasmtime-no-simd");
    assert_eq!(Runtime::Wasmi.to_laze_module(), "wasmi");
    assert_eq!(Runtime::WasmInterpreter.to_laze_module(), "wasm-interpreter");
}
