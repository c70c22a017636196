use hook_engine::arena::Arena;
use hook_engine::branch::generate_absolute_branch;
use hook_engine::engine::{make_call, reply_with, Control, Effect, Engine, EngineState, Outcome};
use hook_engine::error::HookError;
use hook_engine::firing::{fill_slots, generic_call_hook_handler, FiringState, FiringStep};
use hook_engine::frame::{read_msg_buffer, write_request};
use hook_engine::hook_message::{
    HookPostCall, HookPostCallResponse, HookPreCallResponse, HookPrecall,
};
use hook_engine::interactive_hook::InteractiveHooks;
use hook_engine::message::{
    CallCmd, InstallHookCmd, ReadCmd, ToggleHookCmd, UninstallHookCmd, WriteCmd, CMD,
};
use hook_engine::response::{get_response_if_success, Response, ResponseStatus};

const CALLBACK: u64 = 0x7000_0000;
const FIB: u64 = 0x40_1000;
const POWER: u64 = 0x40_2000;

fn fibbo(n: u64) -> u64 {
    if n <= 1 {
        return 1;
    }
    fibbo(n - 1) + fibbo(n - 2)
}

fn power(a: u64, b: u64) -> u64 {
    let mut d = a;
    for _ in 0..b - 1 {
        d *= a;
    }
    d
}

fn native(address: u64, arguments: &[u64]) -> u64 {
    match address {
        FIB => fibbo(arguments[0]),
        POWER => power(arguments[0], arguments[1]),
        _ => panic!("no function at {:#x}", address),
    }
}

fn answer(effect: Effect) -> (Result<Response, String>, Option<u64>) {
    match effect {
        Effect::Reply { frame, close } => {
            let (payload, used) = read_msg_buffer(&frame).unwrap();
            assert_eq!(used, frame.len());
            (get_response_if_success(&payload), close)
        }
        other => panic!("expected a reply, got {:?}", other),
    }
}

fn prologue() -> Vec<u8> {
    (0..14).map(|i| 0x50 + i as u8).collect()
}

/// Installs a hook on `POWER` in `engine`, carrying the patch out on `arena`.
fn install(engine: &mut Engine, arena: &mut Arena) {
    let cmd = InstallHookCmd { address: POWER, prefix_size: 14, port: 6000 };
    let effect = engine.handle_request(CMD::InstallHook.to_u32(), &cmd.encode());
    let (address, prefix_size, port) = match effect {
        Effect::OpenHook { address, prefix_size, port } => (address, prefix_size, port),
        other => panic!("unexpected {:?}", other),
    };
    assert_eq!((address, prefix_size, port), (POWER, 14, 6000));
    let original_bytes = arena.read(address, prefix_size).unwrap();
    let effect = engine.handle_outcome(Outcome::HookOpened { connection: port, original_bytes });
    match effect {
        Effect::Patch { target, actions } => {
            assert_eq!(target, POWER);
            assert!(arena.patch(target, &actions));
        }
        other => panic!("unexpected {:?}", other),
    }
    let (response, close) = answer(engine.handle_outcome(Outcome::Patched));
    assert!(matches!(response, Ok(Response::HookInstalled)));
    assert_eq!(close, None);
}

#[test]
fn call_fibonacci_of_ten() {
    let mut engine = Engine::new(CALLBACK);
    let request = CallCmd { address: FIB, arguments: vec![10] }.encode();
    let effect = engine.handle_request(CMD::Call.to_u32(), &request);
    let ret = match effect {
        Effect::CallFunction { address, arguments } => {
            assert_eq!(address, FIB);
            assert_eq!(arguments, vec![10]);
            native(address, &arguments)
        }
        other => panic!("unexpected {:?}", other),
    };
    assert!(engine.is_waiting());
    let (response, _) = answer(engine.handle_outcome(Outcome::Returned { ret }));
    assert!(matches!(response, Ok(Response::FunctionExecuted { ret: 89 })));
    assert!(engine.is_ready());
}

#[test]
fn write_then_read_two_bytes() {
    let mut engine = Engine::new(CALLBACK);
    let mut arena = Arena::new(0xA000, vec![0; 64]).unwrap();
    let a = 0xA010;

    let write = WriteCmd { address: a, buff: vec![0xFF, 0xFF] }.encode();
    match engine.handle_request(CMD::Write.to_u32(), &write) {
        Effect::WriteMemory { address, buff } => {
            assert_eq!(address, a);
            assert_eq!(buff, vec![0xFF, 0xFF]);
            assert!(arena.write(address, &buff));
        }
        other => panic!("unexpected {:?}", other),
    }
    let (response, _) = answer(engine.handle_outcome(Outcome::Written));
    assert!(matches!(response, Ok(Response::BytesWritten { written: 2 })));

    let read = ReadCmd { address: a, size: 2 }.encode();
    let buff = match engine.handle_request(CMD::Read.to_u32(), &read) {
        Effect::ReadMemory { address, size } => {
            assert_eq!((address, size), (a, 2));
            arena.read(address, size).unwrap()
        }
        other => panic!("unexpected {:?}", other),
    };
    let (response, _) = answer(engine.handle_outcome(Outcome::BytesRead { buff }));
    match response {
        Ok(Response::BytesRead { buff }) => assert_eq!(buff, vec![0xFF, 0xFF]),
        other => panic!("unexpected {:?}", other),
    }
}

#[test]
fn hooked_power_with_substituted_arguments_gives_81() {
    let mut engine = Engine::new(CALLBACK);
    let mut arena = Arena::new(POWER, prologue()).unwrap();
    install(&mut engine, &mut arena);

    // the function is entered with (5, 2)
    let entered = fill_slots(&vec![5, 2]);
    let (found, step) =
        generic_call_hook_handler(engine.registry(), CALLBACK, POWER, entered.clone());
    let (index, mut firing) = found.unwrap();
    assert_eq!(engine.registry().connection(index), 6000);
    let frame = match step {
        FiringStep::Exchange { frame } => frame,
        other => panic!("unexpected {:?}", other),
    };
    let (payload, _) = read_msg_buffer(&frame).unwrap();
    assert_eq!(HookPrecall::decode(&payload).unwrap().hook_arguments, entered);

    // the controller lets the original run with (3, 4)
    let decision = HookPreCallResponse { hook_arguments: vec![3, 4], call_original: true };
    let step = firing.on_message(engine.registry().hook(index), &decision.encode());
    let ret = match step {
        FiringStep::CallOriginal { call } => {
            assert_eq!(call.arguments, vec![3, 4, 0, 0, 0, 0, 0, 0, 0, 0, 0, 0]);
            native(POWER, &call.arguments)
        }
        other => panic!("unexpected {:?}", other),
    };
    assert_eq!(firing.state(), FiringState::CallingOriginal);
    let frame = match firing.on_return(ret) {
        FiringStep::Exchange { frame } => frame,
        other => panic!("unexpected {:?}", other),
    };
    let (payload, _) = read_msg_buffer(&frame).unwrap();
    let told = HookPostCall::decode(&payload).unwrap();
    assert_eq!(told.hook_return_value, 81);

    // the controller passes the value on
    let verdict = HookPostCallResponse { hook_return_value: told.hook_return_value };
    match firing.on_message(engine.registry().hook(index), &verdict.encode()) {
        FiringStep::Return { value } => assert_eq!(value, 81),
        other => panic!("unexpected {:?}", other),
    }
    assert_eq!(firing.state(), FiringState::Finished);
}

#[test]
fn hooked_power_with_its_own_arguments_gives_25() {
    let mut hooks = InteractiveHooks::new();
    let cmd = InstallHookCmd { address: POWER, prefix_size: 14, port: 6000 };
    hooks.initialize_interactive_hook(cmd, CALLBACK, prologue(), 1).unwrap();
    let entered = fill_slots(&vec![5, 2]);
    let (found, _) = generic_call_hook_handler(&hooks, CALLBACK, POWER, entered.clone());
    let (index, mut firing) = found.unwrap();
    let decision = HookPreCallResponse { hook_arguments: entered, call_original: true };
    let ret = match firing.on_message(hooks.hook(index), &decision.encode()) {
        FiringStep::CallOriginal { call } => native(POWER, &call.arguments),
        other => panic!("unexpected {:?}", other),
    };
    assert_eq!(ret, power(5, 2));
    firing.on_return(ret);
    let verdict = HookPostCallResponse { hook_return_value: ret };
    match firing.on_message(hooks.hook(index), &verdict.encode()) {
        FiringStep::Return { value } => assert_eq!(value, 25),
        other => panic!("unexpected {:?}", other),
    }
}

#[test]
fn skipped_original_returns_the_value_of_the_controller() {
    let mut hooks = InteractiveHooks::new();
    let cmd = InstallHookCmd { address: POWER, prefix_size: 14, port: 6000 };
    hooks.initialize_interactive_hook(cmd, CALLBACK, prologue(), 1).unwrap();
    let (found, _) = generic_call_hook_handler(&hooks, CALLBACK, POWER, fill_slots(&vec![5, 2]));
    let (index, mut firing) = found.unwrap();
    let decision = HookPreCallResponse { hook_arguments: vec![], call_original: false };
    match firing.on_message(hooks.hook(index), &decision.encode()) {
        FiringStep::Await => {}
        other => panic!("the original must not run, got {:?}", other),
    }
    assert_eq!(firing.state(), FiringState::AwaitingVerdict);
    let verdict = HookPostCallResponse { hook_return_value: 7 };
    match firing.on_message(hooks.hook(index), &verdict.encode()) {
        FiringStep::Return { value } => assert_eq!(value, 7),
        other => panic!("unexpected {:?}", other),
    }
}

#[test]
fn firing_fails_safely() {
    let mut hooks = InteractiveHooks::new();
    let cmd = InstallHookCmd { address: POWER, prefix_size: 14, port: 6000 };
    hooks.initialize_interactive_hook(cmd, CALLBACK, prologue(), 1).unwrap();
    let args = fill_slots(&vec![]);

    // no hook on the function that was entered
    let (found, step) = generic_call_hook_handler(&hooks, CALLBACK, POWER + 1, args.clone());
    assert!(found.is_none());
    assert!(matches!(step, FiringStep::Return { value: 0 }));
    // another callback
    let (found, step) = generic_call_hook_handler(&hooks, CALLBACK + 1, POWER, args.clone());
    assert!(found.is_none());
    assert!(matches!(step, FiringStep::Return { value: 0 }));

    // a decision that cannot be read
    let (found, _) = generic_call_hook_handler(&hooks, CALLBACK, POWER, args.clone());
    let (index, mut firing) = found.unwrap();
    let step = firing.on_message(hooks.hook(index), &[0xff]);
    assert!(matches!(step, FiringStep::Return { value: 0 }));
    assert_eq!(firing.state(), FiringState::Finished);

    // a return that nothing waits for
    let (found, _) = generic_call_hook_handler(&hooks, CALLBACK, POWER, args.clone());
    let (_, mut firing) = found.unwrap();
    assert!(matches!(firing.on_return(5), FiringStep::Return { value: 0 }));

    // a connection that failed
    let (found, _) = generic_call_hook_handler(&hooks, CALLBACK, POWER, args.clone());
    let (_, mut firing) = found.unwrap();
    assert!(matches!(firing.on_failure(), FiringStep::Return { value: 0 }));
    assert_eq!(firing.state(), FiringState::Finished);

    // a verdict that cannot be read
    let (found, _) = generic_call_hook_handler(&hooks, CALLBACK, POWER, args);
    let (index, mut firing) = found.unwrap();
    let skip = HookPreCallResponse { hook_arguments: vec![], call_original: false };
    firing.on_message(hooks.hook(index), &skip.encode());
    let step = firing.on_message(hooks.hook(index), &[]);
    assert!(matches!(step, FiringStep::Return { value: 0 }));
}

#[test]
fn argument_slots_are_filled_and_cut() {
    assert_eq!(fill_slots(&vec![]), vec![0; 12]);
    assert_eq!(fill_slots(&vec![1, 2, 3]), vec![1, 2, 3, 0, 0, 0, 0, 0, 0, 0, 0, 0]);
    let many: Vec<u64> = (1..=14).collect();
    assert_eq!(fill_slots(&many), (1..=12).collect::<Vec<u64>>());
}

#[test]
fn uninstall_restores_the_original_bytes() {
    let mut engine = Engine::new(CALLBACK);
    let mut arena = Arena::new(POWER, prologue()).unwrap();
    install(&mut engine, &mut arena);
    let mut hooked = generate_absolute_branch(CALLBACK).unwrap();
    hooked.extend_from_slice(&prologue()[12..]);
    assert_eq!(arena.read(POWER, 14).unwrap(), hooked);
    assert_eq!(engine.registry().len(), 1);

    let cmd = UninstallHookCmd { address: POWER };
    match engine.handle_request(CMD::UninstallHook.to_u32(), &cmd.encode()) {
        Effect::Patch { target, actions } => assert!(arena.patch(target, &actions)),
        other => panic!("unexpected {:?}", other),
    }
    let (response, close) = answer(engine.handle_outcome(Outcome::Patched));
    assert!(matches!(response, Ok(Response::HookUninstalled)));
    assert_eq!(close, Some(6000));
    assert_eq!(arena.read(POWER, 14).unwrap(), prologue());
    assert_eq!(engine.registry().len(), 0);

    // what was removed is not found again
    let (response, _) =
        answer(engine.handle_request(CMD::UninstallHook.to_u32(), &cmd.encode()));
    assert_eq!(response.unwrap_err(), "Hook was not found");
}

#[test]
fn toggle_switches_between_original_and_branch() {
    let mut engine = Engine::new(CALLBACK);
    let mut arena = Arena::new(POWER, prologue()).unwrap();
    install(&mut engine, &mut arena);
    for enabled in [false, true, true, false, false] {
        let cmd = ToggleHookCmd { address: POWER, enabled };
        match engine.handle_request(CMD::ToggleHook.to_u32(), &cmd.encode()) {
            Effect::Patch { target, actions } => assert!(arena.patch(target, &actions)),
            other => panic!("unexpected {:?}", other),
        }
        let (response, _) = answer(engine.handle_outcome(Outcome::Patched));
        assert!(matches!(response, Ok(Response::HookToggled)));
        let now = arena.read(POWER, 14).unwrap();
        if enabled {
            assert_eq!(&now[..12], &generate_absolute_branch(CALLBACK).unwrap()[..]);
            assert_eq!(&now[12..], &prologue()[12..]);
        } else {
            assert_eq!(now, prologue());
        }
    }
}

#[test]
fn toggle_of_an_unknown_hook_is_refused() {
    let mut engine = Engine::new(CALLBACK);
    let cmd = ToggleHookCmd { address: POWER, enabled: true };
    let (response, _) = answer(engine.handle_request(CMD::ToggleHook.to_u32(), &cmd.encode()));
    assert_eq!(response.unwrap_err(), "Cannot toggle hook, hook not found");
    assert!(engine.is_ready());
}

#[test]
fn too_many_arguments_are_refused() {
    assert_eq!(make_call(FIB, vec![0; 11]).unwrap_err(), "Too many params");
    for n in 0..=10usize {
        let arguments: Vec<u64> = (0..n as u64).collect();
        match make_call(FIB, arguments.clone()).unwrap() {
            Effect::CallFunction { address, arguments: passed } => {
                assert_eq!(address, FIB);
                assert_eq!(passed, arguments);
            }
            other => panic!("unexpected {:?}", other),
        }
    }
    let mut engine = Engine::new(CALLBACK);
    let request = CallCmd { address: FIB, arguments: vec![1; 11] }.encode();
    let (response, _) = answer(engine.handle_request(CMD::Call.to_u32(), &request));
    assert_eq!(response.unwrap_err(), "Error executing function");
    assert!(engine.is_ready());
}

#[test]
fn unknown_opcode_and_malformed_payload_are_answered_with_errors() {
    let mut engine = Engine::new(CALLBACK);
    let (response, _) = answer(engine.handle_request(8, &[]));
    assert_eq!(response.unwrap_err(), "Unknown command");
    for code in [0u32, 1, 2, 5, 6, 7] {
        let (response, _) = answer(engine.handle_request(code, &[0xff]));
        assert_eq!(response.unwrap_err(), "Malformed payload");
        assert!(engine.is_ready());
    }
}

#[test]
fn failed_effects_are_answered_with_errors() {
    let mut engine = Engine::new(CALLBACK);
    let read = ReadCmd { address: 1, size: 1 }.encode();
    engine.handle_request(0, &read);
    let (response, _) = answer(engine.handle_outcome(Outcome::Failed));
    assert_eq!(response.unwrap_err(), "Error reading from address");

    let write = WriteCmd { address: 1, buff: vec![1] }.encode();
    engine.handle_request(1, &write);
    let (response, _) = answer(engine.handle_outcome(Outcome::Failed));
    assert_eq!(response.unwrap_err(), "Error writing to address");

    let call = CallCmd { address: 1, arguments: vec![] }.encode();
    engine.handle_request(2, &call);
    let (response, _) = answer(engine.handle_outcome(Outcome::Patched));
    assert_eq!(response.unwrap_err(), "Error executing function");

    let install = InstallHookCmd { address: POWER, prefix_size: 14, port: 1 }.encode();
    engine.handle_request(5, &install);
    let (response, close) = answer(engine.handle_outcome(Outcome::Failed));
    assert_eq!(response.unwrap_err(), "Could not open the hook connection");
    assert_eq!(close, None);
    assert_eq!(engine.registry().len(), 0);
}

#[test]
fn a_hook_that_cannot_be_made_is_not_registered() {
    let mut engine = Engine::new(CALLBACK);
    // the prefix is shorter than the branch
    let cmd = InstallHookCmd { address: POWER, prefix_size: 11, port: 9 };
    engine.handle_request(5, &cmd.encode());
    let outcome = Outcome::HookOpened { connection: 9, original_bytes: vec![0; 11] };
    let (response, close) = answer(engine.handle_outcome(outcome));
    assert_eq!(response.unwrap_err(), HookError::PatchTooLarge.message());
    assert_eq!(close, Some(9));
    assert_eq!(engine.registry().len(), 0);

    // fewer bytes were captured than asked for
    let cmd = InstallHookCmd { address: POWER, prefix_size: 14, port: 9 };
    engine.handle_request(5, &cmd.encode());
    let outcome = Outcome::HookOpened { connection: 9, original_bytes: vec![0; 13] };
    let (response, _) = answer(engine.handle_outcome(outcome));
    assert_eq!(response.unwrap_err(), HookError::HookConstructionFailed.message());

    // the prefix runs past the end of the address space
    let cmd = InstallHookCmd { address: u64::MAX - 5, prefix_size: 14, port: 9 };
    engine.handle_request(5, &cmd.encode());
    let outcome = Outcome::HookOpened { connection: 9, original_bytes: vec![0; 14] };
    let (response, _) = answer(engine.handle_outcome(outcome));
    assert_eq!(response.unwrap_err(), HookError::HookConstructionFailed.message());
    assert_eq!(engine.registry().len(), 0);
}

#[test]
fn an_address_is_hooked_once() {
    let mut engine = Engine::new(CALLBACK);
    let mut arena = Arena::new(POWER, prologue()).unwrap();
    install(&mut engine, &mut arena);
    let cmd = InstallHookCmd { address: POWER, prefix_size: 14, port: 6001 };
    engine.handle_request(5, &cmd.encode());
    let outcome = Outcome::HookOpened { connection: 6001, original_bytes: vec![0; 14] };
    let (response, close) = answer(engine.handle_outcome(outcome));
    assert_eq!(response.unwrap_err(), HookError::HookConstructionFailed.message());
    assert_eq!(close, Some(6001));
    assert_eq!(engine.registry().len(), 1);
}

#[test]
fn a_hook_whose_first_patch_fails_leaves_the_registry() {
    let mut engine = Engine::new(CALLBACK);
    let cmd = InstallHookCmd { address: POWER, prefix_size: 14, port: 6000 };
    engine.handle_request(5, &cmd.encode());
    let outcome = Outcome::HookOpened { connection: 6000, original_bytes: prologue() };
    assert!(matches!(engine.handle_outcome(outcome), Effect::Patch { .. }));
    assert_eq!(engine.registry().len(), 1);
    let (response, close) = answer(engine.handle_outcome(Outcome::Failed));
    assert_eq!(response.unwrap_err(), "Could not mprotect.");
    assert_eq!(close, Some(6000));
    assert_eq!(engine.registry().len(), 0);
    assert_eq!(engine.current_state(), EngineState::Running);
}

#[test]
fn a_hook_that_cannot_be_restored_ends_the_engine() {
    let mut engine = Engine::new(CALLBACK);
    let mut arena = Arena::new(POWER, prologue()).unwrap();
    install(&mut engine, &mut arena);
    let cmd = UninstallHookCmd { address: POWER };
    engine.handle_request(7, &cmd.encode());
    let (response, close) = answer(engine.handle_outcome(Outcome::Failed));
    assert_eq!(response.unwrap_err(), "Could not mprotect.");
    assert_eq!(close, Some(6000));
    assert_eq!(engine.current_state(), EngineState::ShuttingDown);
    assert_eq!(engine.run(), Control::Exit);
}

#[test]
fn disconnect_lets_the_next_controller_in() {
    let mut engine = Engine::new(CALLBACK);
    assert_eq!(engine.run(), Control::Serve);
    let (response, _) = answer(engine.handle_request(CMD::Disconnect.to_u32(), &[]));
    assert!(matches!(response, Ok(Response::Disconnecting)));
    assert_eq!(engine.current_state(), EngineState::Disconnecting);
    assert!(!engine.is_ready());
    assert_eq!(engine.run(), Control::Accept);
    assert_eq!(engine.current_state(), EngineState::Running);
    assert!(engine.is_ready());
}

#[test]
fn shutdown_ends_the_loop() {
    let mut engine = Engine::new(CALLBACK);
    let (response, _) = answer(engine.handle_request(CMD::Shutdown.to_u32(), &[]));
    assert!(matches!(response, Ok(Response::Shutdown)));
    assert_eq!(engine.current_state(), EngineState::ShuttingDown);
    assert_eq!(engine.run(), Control::Exit);
    assert_eq!(engine.connection_lost(), Control::Exit);
}

#[test]
fn a_lost_connection_lets_the_next_controller_in() {
    let mut engine = Engine::new(CALLBACK);
    engine.handle_request(0, &ReadCmd { address: 1, size: 1 }.encode());
    assert!(engine.is_waiting());
    assert_eq!(engine.connection_lost(), Control::Accept);
    assert!(engine.is_ready());
}

#[test]
fn requests_are_taken_from_the_stream_once_complete() {
    let mut engine = Engine::new(CALLBACK);
    let payload = ReadCmd { address: 0x10, size: 3 }.encode();
    let mut stream = write_request(CMD::Read, &payload);
    let whole = stream.len();
    stream.extend_from_slice(&write_request(CMD::Shutdown, &[]));
    for cut in 0..whole {
        assert!(engine.handle_client(&stream[..cut]).is_none());
        assert!(engine.is_ready());
    }
    match engine.handle_client(&stream) {
        Some((Effect::ReadMemory { address, size }, used)) => {
            assert_eq!((address, size, used), (0x10, 3, whole));
        }
        other => panic!("unexpected {:?}", other),
    }
    answer(engine.handle_outcome(Outcome::BytesRead { buff: vec![1, 2, 3] }));
    match engine.handle_client(&stream[whole..]) {
        Some((effect, used)) => {
            assert_eq!(used, 12);
            assert!(matches!(answer(effect).0, Ok(Response::Shutdown)));
        }
        None => panic!("the second request is complete"),
    }
}

#[test]
fn reply_frame_length_is_the_length_of_the_envelope() {
    let status = ResponseStatus::Success { response: Response::BytesRead { buff: vec![1; 100] } };
    match reply_with(&status, Some(3)) {
        Effect::Reply { frame, close } => {
            assert_eq!(close, Some(3));
            let announced = u64::from_le_bytes(frame[..8].try_into().unwrap());
            assert_eq!(announced as usize, frame.len() - 8);
            assert_eq!(&frame[8..], &status.encode()[..]);
        }
        other => panic!("unexpected {:?}", other),
    }
}

#[test]
fn registry_lookups() {
    let mut hooks = InteractiveHooks::new();
    assert_eq!(hooks.len(), 0);
    assert_eq!(hooks.find(POWER), None);
    let first = InstallHookCmd { address: POWER, prefix_size: 14, port: 1 };
    let second = InstallHookCmd { address: FIB, prefix_size: 12, port: 2 };
    hooks.initialize_interactive_hook(first, CALLBACK, prologue(), 11).unwrap();
    hooks.initialize_interactive_hook(second, CALLBACK, vec![0x90; 12], 22).unwrap();
    assert_eq!(hooks.len(), 2);
    assert_eq!(hooks.find(POWER), Some(0));
    assert_eq!(hooks.find(FIB), Some(1));
    assert_eq!(hooks.find_by_callback(CALLBACK, FIB), Some(1));
    assert_eq!(hooks.find_by_callback(CALLBACK + 8, FIB), None);
    assert_eq!(hooks.connection(1), 22);
    assert_eq!(hooks.hook(1).target(), FIB);

    let toggled = hooks.toggle_interactive_hook(ToggleHookCmd { address: FIB, enabled: false });
    assert_eq!(toggled.unwrap(), hooks.hook(1).disable().unwrap());
    assert_eq!(
        hooks.toggle_interactive_hook(ToggleHookCmd { address: 5, enabled: true }),
        Err(HookError::HookNotFound)
    );

    let (connection, plan) =
        hooks.uninintialize_interactive_hook(UninstallHookCmd { address: POWER }).unwrap();
    assert_eq!(connection, 11);
    assert_eq!(plan.len(), 2 + 6 + 1 + 1);
    assert_eq!(hooks.len(), 1);
    assert_eq!(hooks.find(FIB), Some(0));
    assert_eq!(
        hooks.uninintialize_interactive_hook(UninstallHookCmd { address: POWER }),
        Err(HookError::HookNotFound)
    );
}
