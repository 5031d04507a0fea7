use model_gateway::cli::SamplingValue;
use model_gateway::context_size::ContextSize;
use model_gateway::env::EnvMap;
use model_gateway::llamacpp::{LlamaCppConfig, LlamaCppConfigArgs};
use model_gateway::on_off::OnOffValue;
use model_gateway::process::{
    finished_event, Anomaly, ChildOutcome, ProcessAction, ProcessConfig, ProcessProtocol,
    ProcessState, ProcessStateManager,
};

fn args(alias: &str, ctx_size: Option<ContextSize>) -> LlamaCppConfigArgs {
    LlamaCppConfigArgs {
        alias: alias.to_string(),
        api_key: Some("key".to_string()),
        model_path: format!("/models/{alias}.gguf"),
        mmproj_path: None,
        prio: None,
        n_gpu_layers: Some(99),
        jinja: true,
        ctx_size,
        no_mmap: false,
        flash_attn: Some(OnOffValue::On),
        fit: None,
        batch_size: None,
        ubatch_size: None,
        cache_type_v: None,
        cache_type_k: None,
        no_context_shift: false,
        no_cont_batching: false,
        min_p: None,
        temp: Some(SamplingValue { bits: 0.8f32.to_bits() }),
        repeat_penalty: None,
        presence_penalty: None,
        seed: None,
        top_k: None,
        top_p: None,
    }
}

fn config(alias: &str, ctx_size: ContextSize, parallel: u8) -> LlamaCppConfig {
    let mut env = EnvMap::new();
    env.insert("GGML_CUDA_ENABLE_UNIFIED_MEMORY".to_string(), "1".to_string());
    LlamaCppConfig { env, args: args(alias, Some(ctx_size)), parallel, threads: -1 }
}

fn is_spawn_of(action: &ProcessAction<LlamaCppConfig>, expected: &LlamaCppConfig) -> bool {
    match action {
        ProcessAction::Spawn(c) => c.same_config(expected),
        _ => false,
    }
}

fn is_running(state: &ProcessState<LlamaCppConfig>, expected: &LlamaCppConfig) -> bool {
    match state {
        ProcessState::Running(c) => c.same_config(expected),
        _ => false,
    }
}

fn is_starting(state: &ProcessState<LlamaCppConfig>, expected: &LlamaCppConfig) -> bool {
    match state {
        ProcessState::Starting(c) => c.same_config(expected),
        _ => false,
    }
}

fn is_stopping(
    state: &ProcessState<LlamaCppConfig>,
    current: &LlamaCppConfig,
    pending: Option<&LlamaCppConfig>,
) -> bool {
    match state {
        ProcessState::Stopping(c, p) => {
            c.same_config(current)
                && match (p, pending) {
                    (Some(a), Some(b)) => a.same_config(b),
                    (None, None) => true,
                    _ => false,
                }
        }
        _ => false,
    }
}

#[test]
fn new_manager_is_stopped_and_holds_no_cancel_signal() {
    let m: ProcessStateManager<LlamaCppConfig> = ProcessStateManager::new();
    assert!(matches!(m.on_read_config(), ProcessState::Stopped));
    assert!(!m.cancel_armed());
}

#[test]
fn start_from_stopped_spawns_and_arms_cancel() {
    let foo = config("foo-small", ContextSize::T32768, 1);
    let mut m = ProcessStateManager::new();
    let action = m.on_start_process(foo.duplicate());
    assert!(is_spawn_of(&action, &foo));
    assert!(is_starting(&m.on_read_config(), &foo));
    assert!(m.cancel_armed());
}

#[test]
fn readiness_moves_starting_to_running() {
    let foo = config("foo-small", ContextSize::T32768, 1);
    let mut m = ProcessStateManager::new();
    m.on_start_process(foo.duplicate());
    let action = m.on_process_started();
    assert!(matches!(action, ProcessAction::Idle));
    assert!(is_running(&m.on_read_config(), &foo));
    assert!(m.cancel_armed());
}

#[test]
fn repeated_start_of_running_config_spawns_nothing() {
    let foo = config("foo-small", ContextSize::T32768, 1);
    let mut m = ProcessStateManager::new();
    m.on_start_process(foo.duplicate());
    for _ in 0..5 {
        assert!(matches!(m.on_start_process(foo.duplicate()), ProcessAction::Idle));
        assert!(is_starting(&m.on_read_config(), &foo));
    }
    m.on_process_started();
    for _ in 0..5 {
        assert!(matches!(m.on_start_process(foo.duplicate()), ProcessAction::Idle));
        assert!(is_running(&m.on_read_config(), &foo));
    }
}

#[test]
fn start_of_other_config_cancels_and_keeps_it_pending() {
    let foo = config("foo-small", ContextSize::T32768, 1);
    let bar = config("bar-large", ContextSize::T131072, 1);
    let mut m = ProcessStateManager::new();
    m.on_start_process(foo.duplicate());
    m.on_process_started();
    let action = m.on_start_process(bar.duplicate());
    assert!(matches!(action, ProcessAction::Cancel));
    assert!(is_stopping(&m.on_read_config(), &foo, Some(&bar)));
    assert!(!m.cancel_armed());
}

#[test]
fn start_of_other_config_while_starting_cancels() {
    let foo = config("foo-small", ContextSize::T32768, 1);
    let bar = config("bar-large", ContextSize::T131072, 1);
    let mut m = ProcessStateManager::new();
    m.on_start_process(foo.duplicate());
    let action = m.on_start_process(bar.duplicate());
    assert!(matches!(action, ProcessAction::Cancel));
    assert!(is_stopping(&m.on_read_config(), &foo, Some(&bar)));
}

#[test]
fn pending_slot_keeps_the_last_request_and_spawns_once() {
    let foo = config("foo-small", ContextSize::T32768, 1);
    let p1 = config("p1", ContextSize::T8192, 1);
    let p2 = config("p2", ContextSize::T16384, 1);
    let p3 = config("p3", ContextSize::T65536, 1);
    let mut m = ProcessStateManager::new();
    m.on_start_process(foo.duplicate());
    m.on_process_started();
    assert!(matches!(m.on_start_process(p1.duplicate()), ProcessAction::Cancel));
    assert!(matches!(m.on_start_process(p2.duplicate()), ProcessAction::Idle));
    assert!(matches!(m.on_start_process(p3.duplicate()), ProcessAction::Idle));
    assert!(is_stopping(&m.on_read_config(), &foo, Some(&p3)));
    let action = m.on_process_finished(None);
    assert!(is_spawn_of(&action, &p3));
    assert!(is_starting(&m.on_read_config(), &p3));
    assert!(m.cancel_armed());
}

#[test]
fn stop_wins_over_swap() {
    let foo = config("foo-small", ContextSize::T32768, 1);
    let bar = config("bar-large", ContextSize::T131072, 1);
    let mut m = ProcessStateManager::new();
    m.on_start_process(foo.duplicate());
    m.on_process_started();
    m.on_start_process(bar.duplicate());
    assert!(matches!(m.on_stop_process(), ProcessAction::Idle));
    assert!(is_stopping(&m.on_read_config(), &foo, None));
    assert!(matches!(m.on_process_finished(None), ProcessAction::Idle));
    assert!(matches!(m.on_read_config(), ProcessState::Stopped));
    assert!(!m.cancel_armed());
}

#[test]
fn stop_while_stopped_does_nothing() {
    let mut m: ProcessStateManager<LlamaCppConfig> = ProcessStateManager::new();
    assert!(matches!(m.on_stop_process(), ProcessAction::Idle));
    assert!(matches!(m.on_read_config(), ProcessState::Stopped));
}

#[test]
fn stop_while_starting_or_running_cancels() {
    let foo = config("foo-small", ContextSize::T32768, 1);
    let mut m = ProcessStateManager::new();
    m.on_start_process(foo.duplicate());
    assert!(matches!(m.on_stop_process(), ProcessAction::Cancel));
    assert!(is_stopping(&m.on_read_config(), &foo, None));
    m.on_process_finished(None);
    m.on_start_process(foo.duplicate());
    m.on_process_started();
    assert!(matches!(m.on_stop_process(), ProcessAction::Cancel));
    assert!(is_stopping(&m.on_read_config(), &foo, None));
    assert!(!m.cancel_armed());
}

#[test]
fn unexpected_exit_is_reported_and_leads_to_stopped() {
    let foo = config("foo-small", ContextSize::T32768, 1);
    let mut m = ProcessStateManager::new();
    m.on_start_process(foo.duplicate());
    m.on_process_started();
    let action = m.on_process_finished(Some(1));
    assert!(matches!(action, ProcessAction::Report(Anomaly::UnexpectedExit)));
    assert!(matches!(m.on_read_config(), ProcessState::Stopped));
    assert!(!m.cancel_armed());
}

#[test]
fn readiness_without_child_is_reported() {
    let mut m: ProcessStateManager<LlamaCppConfig> = ProcessStateManager::new();
    let action = m.on_process_started();
    assert!(matches!(action, ProcessAction::Report(Anomaly::StartedWithoutChild)));
    assert!(matches!(m.on_read_config(), ProcessState::Stopped));
}

#[test]
fn repeated_readiness_changes_nothing() {
    let foo = config("foo-small", ContextSize::T32768, 1);
    let mut m = ProcessStateManager::new();
    m.on_start_process(foo.duplicate());
    m.on_process_started();
    assert!(matches!(m.on_process_started(), ProcessAction::Idle));
    assert!(is_running(&m.on_read_config(), &foo));
    m.on_stop_process();
    assert!(matches!(m.on_process_started(), ProcessAction::Idle));
    assert!(is_stopping(&m.on_read_config(), &foo, None));
}

#[test]
fn read_state_replies_with_snapshot() {
    let foo = config("foo-small", ContextSize::T32768, 1);
    let mut m = ProcessStateManager::new();
    m.handle(ProcessProtocol::StartProcess(foo.duplicate()));
    match m.handle(ProcessProtocol::ReadProcessState) {
        ProcessAction::Reply(s) => assert!(is_starting(&s, &foo)),
        other => panic!("unexpected action {other:?}"),
    }
    assert!(is_starting(&m.on_read_config(), &foo));
}

#[test]
fn at_most_one_child_over_a_long_run() {
    let foo = config("foo-small", ContextSize::T32768, 1);
    let bar = config("bar-large", ContextSize::T131072, 1);
    let mut m = ProcessStateManager::new();
    let mut spawns: i64 = 0;
    let mut finishes: i64 = 0;
    let mut last_spawned: Option<LlamaCppConfig> = None;
    // 0 start foo, 1 start bar, 2 stop, 3 ready, 4 exit, 5 read
    let script = [
        0, 0, 3, 1, 0, 4, 3, 2, 1, 4, 3, 3, 0, 4, 2, 0, 3, 4, 1, 2, 0, 1, 4, 3, 5, 4, 0, 2, 2, 4,
    ];
    for step in script {
        let alive = spawns - finishes;
        let event = match step {
            0 => ProcessProtocol::StartProcess(foo.duplicate()),
            1 => ProcessProtocol::StartProcess(bar.duplicate()),
            2 => ProcessProtocol::StopProcess,
            3 => {
                if alive == 0 {
                    continue;
                }
                ProcessProtocol::ProcessStarted
            }
            4 => {
                if alive == 0 {
                    continue;
                }
                finishes += 1;
                ProcessProtocol::ProcessFinished(None)
            }
            _ => ProcessProtocol::ReadProcessState,
        };
        if let ProcessAction::Spawn(c) = m.handle(event) {
            spawns += 1;
            last_spawned = Some(c);
        }
        let alive = spawns - finishes;
        assert!(alive == 0 || alive == 1);
        let state = m.on_read_config();
        assert_eq!(alive == 1, !matches!(state, ProcessState::Stopped));
        assert_eq!(m.cancel_armed(), matches!(state, ProcessState::Starting(_) | ProcessState::Running(_)));
        if let ProcessState::Running(c) = &state {
            assert!(c.same_config(last_spawned.as_ref().unwrap()));
        }
    }
    assert!(spawns >= 4);
}

#[test]
fn cold_start_spawns_once() {
    let foo = config("foo-small", ContextSize::T32768, 1);
    let mut m = ProcessStateManager::new();
    let mut spawns = 0;
    if let ProcessAction::Spawn(c) = m.handle(ProcessProtocol::StartProcess(foo.duplicate())) {
        spawns += 1;
        assert_eq!(c.args.ctx_size, Some(ContextSize::T32768));
        assert_eq!(c.args.alias, "foo-small");
    }
    if let ProcessAction::Spawn(_) = m.handle(ProcessProtocol::StartProcess(foo.duplicate())) {
        spawns += 1;
    }
    m.handle(ProcessProtocol::ProcessStarted);
    assert_eq!(spawns, 1);
    assert!(is_running(&m.on_read_config(), &foo));
}

#[test]
fn swap_under_load() {
    let foo = config("foo-small", ContextSize::T32768, 1);
    let bar = config("bar-large", ContextSize::T131072, 1);
    let mut m = ProcessStateManager::new();
    m.handle(ProcessProtocol::StartProcess(foo.duplicate()));
    m.handle(ProcessProtocol::ProcessStarted);
    assert!(matches!(m.handle(ProcessProtocol::StartProcess(foo.duplicate())), ProcessAction::Idle));
    assert!(matches!(m.handle(ProcessProtocol::StartProcess(bar.duplicate())), ProcessAction::Cancel));
    assert!(is_stopping(&m.on_read_config(), &foo, Some(&bar)));
    let action = m.handle(finished_event(ChildOutcome::Cancelled));
    assert!(is_spawn_of(&action, &bar));
    assert!(is_starting(&m.on_read_config(), &bar));
    m.handle(ProcessProtocol::ProcessStarted);
    assert!(is_running(&m.on_read_config(), &bar));
}

#[test]
fn parallelism_change_swaps_the_child() {
    let one = config("foo-small", ContextSize::T32768, 1);
    let four = config("foo-small", ContextSize::T32768, 4);
    assert!(!one.same_config(&four));
    let mut m = ProcessStateManager::new();
    m.handle(ProcessProtocol::StartProcess(one.duplicate()));
    m.handle(ProcessProtocol::ProcessStarted);
    assert!(matches!(m.handle(ProcessProtocol::StartProcess(four.duplicate())), ProcessAction::Cancel));
    assert!(is_stopping(&m.on_read_config(), &one, Some(&four)));
    m.handle(ProcessProtocol::ProcessFinished(None));
    m.handle(ProcessProtocol::ProcessStarted);
    assert!(is_running(&m.on_read_config(), &four));
}

#[test]
fn supervisor_reports_the_code_of_a_failed_child_only() {
    let ok: ProcessProtocol<LlamaCppConfig> =
        finished_event(ChildOutcome::Exited { success: true, code: 0 });
    assert!(matches!(ok, ProcessProtocol::ProcessFinished(None)));
    let failed: ProcessProtocol<LlamaCppConfig> =
        finished_event(ChildOutcome::Exited { success: false, code: 3 });
    assert!(matches!(failed, ProcessProtocol::ProcessFinished(Some(3))));
    let killed: ProcessProtocol<LlamaCppConfig> = finished_event(ChildOutcome::Cancelled);
    assert!(matches!(killed, ProcessProtocol::ProcessFinished(None)));
}

#[test]
fn configs_are_equal_by_value() {
    let a = config("foo-small", ContextSize::T32768, 1);
    let mut b = config("foo-small", ContextSize::T32768, 1);
    assert!(a.same_config(&b));
    assert!(a.same_config(&a.duplicate()));
    assert!(a == b);
    assert!(a == a.clone());
    assert!(a.args == b.args);
    b.threads = 8;
    assert!(!a.same_config(&b));
    let mut c = config("foo-small", ContextSize::T32768, 1);
    c.args.temp = Some(SamplingValue { bits: 0.7f32.to_bits() });
    assert!(!a.same_config(&c));
    let mut d = config("foo-small", ContextSize::T32768, 1);
    d.env.insert("X".to_string(), "y".to_string());
    assert!(!a.same_config(&d));
    assert!(a != d);
    assert!(a.args == d.args);
    let mut e = config("foo-small", ContextSize::T32768, 1);
    e.args.flash_attn = Some(OnOffValue::Other("auto".to_string()));
    assert!(!a.same_config(&e));
}

#[test]
fn environments_are_equal_as_maps() {
    let mut a = EnvMap::new();
    a.insert("A".to_string(), "1".to_string());
    a.insert("B".to_string(), "2".to_string());
    let mut b = EnvMap::new();
    b.insert("B".to_string(), "0".to_string());
    b.insert("A".to_string(), "1".to_string());
    b.insert("B".to_string(), "2".to_string());
    assert!(a.same_as(&b));
    assert!(b.same_as(&a));
    assert!(a == b);
    assert_eq!(b.get(&"B".to_string()), Some(&"2".to_string()));
    assert_eq!(b.get(&"C".to_string()), None);
    b.insert("A".to_string(), "9".to_string());
    assert!(!a.same_as(&b));
    assert!(EnvMap::new().is_empty());
    assert!(!a.is_empty());
    assert!(EnvMap::new().same_as(&EnvMap::new()));
}
