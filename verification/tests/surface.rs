use flate2::read::GzDecoder;
use flate2::write::GzEncoder;
use flate2::Compression;
use model_gateway::apikey::{charset_char, random_api_key, AppState, RANDOM_APIKEY_LEN};
use model_gateway::chat_body::{is_sent_from_ui, normalize_chat_body, routed_model};
use model_gateway::chat_page::{pack_chat_page, repack_chat_page, rewrite_chat_page, RepackError};
use model_gateway::cli::SamplingValue;
use model_gateway::context_size::ContextSize;
use model_gateway::env::EnvMap;
use model_gateway::forward::{
    bearer_header, chat_completions_uri, forward_api_request, forward_ui_request, forward_uri,
};
use model_gateway::gateway::{check_auth, GatewayError, ParallelRequestLimit};
use model_gateway::llamacpp::{LlamaCppBackend, LlamaCppConfig, LlamaCppConfigArgs};
use model_gateway::on_off::OnOffValue;
use model_gateway::process::{ProcessConfig, ProcessState};
use model_gateway::prompt::{
    check_user_prompt_for_stop_llamacpp, extract_model_override_from_last_user_text,
    plan_chat_request, read_prompt_command, stop_events, stop_notice_text, ChatPlan,
    PromptCommand,
};
use model_gateway::response::{LlamaCppProcessStateResponse, LlamaCppRunConfigDto};
use std::io::{Read, Write};

#[test]
fn bearer_token_must_match_the_key() {
    assert_eq!(check_auth(Some("Bearer secret"), "secret"), Ok(()));
    assert_eq!(check_auth(Some("Bearer secret "), "secret"), Err(GatewayError::Authentication));
    assert_eq!(check_auth(Some("Bearer  secret"), "secret"), Err(GatewayError::Authentication));
    assert_eq!(check_auth(Some("bearer secret"), "secret"), Err(GatewayError::Authentication));
    assert_eq!(check_auth(Some("secret"), "secret"), Err(GatewayError::Authentication));
    assert_eq!(check_auth(Some("Bearer other"), "secret"), Err(GatewayError::Authentication));
    assert_eq!(check_auth(Some(""), "secret"), Err(GatewayError::Authentication));
    assert_eq!(check_auth(None, "secret"), Err(GatewayError::Authentication));
    assert_eq!(check_auth(Some("Bearer "), ""), Ok(()));
    assert_eq!(check_auth(Some(&bearer_header("k3y")), "k3y"), Ok(()));
    assert_eq!(bearer_header("k3y"), "Bearer k3y");
}

#[test]
fn failures_have_their_status() {
    assert_eq!(GatewayError::Authentication.status_code(), 401);
    assert_eq!(GatewayError::Admission.status_code(), 425);
    assert_eq!(GatewayError::BodyMalformed.status_code(), 422);
    assert_eq!(GatewayError::CatalogMiss.status_code(), 500);
    assert_eq!(GatewayError::ConvergenceTimeout.status_code(), 500);
    assert_eq!(GatewayError::Upstream.status_code(), 500);
}

#[test]
fn admission_stops_at_the_ceiling() {
    let n = 3;
    let mut limit = ParallelRequestLimit::new(n);
    for i in 0..n {
        assert_eq!(limit.inflight(), i);
        assert_eq!(limit.limit_max_parallel_requests(), Ok(()));
    }
    assert_eq!(limit.limit_max_parallel_requests(), Err(GatewayError::Admission));
    assert_eq!(limit.limit_max_parallel_requests().unwrap_err().status_code(), 425);
    assert_eq!(limit.inflight(), n);
    limit.decrease_increase_number_of_parallel_requests();
    assert_eq!(limit.inflight(), n - 1);
    assert!(limit.increase_number_of_parallel_requests());
    assert!(!limit.increase_number_of_parallel_requests());
}

#[test]
fn admission_with_ceiling_zero_and_release_of_nothing() {
    let mut limit = ParallelRequestLimit::new(0);
    assert!(!limit.increase_number_of_parallel_requests());
    limit.decrease_increase_number_of_parallel_requests();
    assert_eq!(limit.inflight(), 0);
}

#[test]
fn stop_command_in_the_prompt() {
    assert!(check_user_prompt_for_stop_llamacpp("/stop"));
    assert!(check_user_prompt_for_stop_llamacpp("  /stop\n"));
    assert!(check_user_prompt_for_stop_llamacpp("\u{a0}/stop\u{2003}"));
    assert!(check_user_prompt_for_stop_llamacpp("that is all, now /stop \n"));
    assert!(check_user_prompt_for_stop_llamacpp("/model foo and then /stop"));
    assert!(!check_user_prompt_for_stop_llamacpp("/stop now"));
    assert!(!check_user_prompt_for_stop_llamacpp("/stop."));
    assert!(!check_user_prompt_for_stop_llamacpp("/STOP"));
    assert!(!check_user_prompt_for_stop_llamacpp("/ stop"));
    assert!(!check_user_prompt_for_stop_llamacpp("stop"));
    assert!(!check_user_prompt_for_stop_llamacpp(""));
    let messages = vec![Some("hello".to_string()), None, Some("/stop".to_string()), None];
    assert_eq!(plan_chat_request(&messages, "foo-small"), ChatPlan::Stop);
    assert_eq!(stop_notice_text(), "No llama.cpp-processes running");
    let events = stop_events();
    assert_eq!(events.len(), 2);
    assert_eq!(events[1], "[DONE]");
    let chunk: serde_json::Value = serde_json::from_str(&events[0]).unwrap();
    assert_eq!(chunk["choices"][0]["delta"]["content"], "No llama.cpp-processes running");
    assert_eq!(chunk["choices"][0]["delta"]["role"], "assistant");
    assert_eq!(chunk["choices"][0]["finish_reason"], "stop");
    assert_eq!(chunk["choices"].as_array().unwrap().len(), 1);
    assert_eq!(chunk["object"], "chat.completion.chunk");
    assert_eq!(read_prompt_command(" /stop "), PromptCommand::Stop);
    assert_eq!(read_prompt_command("/model foo /stop"), PromptCommand::Stop);
}

#[test]
fn model_command_overrides_and_is_taken_out() {
    assert_eq!(
        extract_model_override_from_last_user_text("/model bar-large tell me a joke"),
        Some(("bar-large".to_string(), "tell me a joke".to_string()))
    );
    assert_eq!(
        extract_model_override_from_last_user_text("/model bar-large"),
        Some(("bar-large".to_string(), String::new()))
    );
    assert_eq!(
        extract_model_override_from_last_user_text("/model   bar \t\n hi  there "),
        Some(("bar".to_string(), "hi  there ".to_string()))
    );
    assert_eq!(extract_model_override_from_last_user_text("/model "), None);
    assert_eq!(extract_model_override_from_last_user_text("/model   "), None);
    assert_eq!(extract_model_override_from_last_user_text("/model"), None);
    assert_eq!(extract_model_override_from_last_user_text("/modelbar x"), None);
    assert_eq!(extract_model_override_from_last_user_text(" /model bar x"), None);
    assert_eq!(extract_model_override_from_last_user_text("hello"), None);
    assert_eq!(read_prompt_command("hello"), PromptCommand::Plain);
    assert_eq!(
        read_prompt_command("/model x y"),
        PromptCommand::Model { alias: "x".to_string(), prompt: "y".to_string() }
    );
}

#[test]
fn plan_goes_by_the_last_user_text() {
    let messages = vec![
        Some("/model bar-large first".to_string()),
        None,
        Some("/model foo-min second".to_string()),
        None,
    ];
    assert_eq!(
        plan_chat_request(&messages, "requested"),
        ChatPlan::Forward {
            model: "foo-min".to_string(),
            rewrite: Some((2, "second".to_string()))
        }
    );
    let messages = vec![Some("/stop".to_string()), Some("hi".to_string())];
    assert_eq!(
        plan_chat_request(&messages, "requested"),
        ChatPlan::Forward { model: "requested".to_string(), rewrite: None }
    );
    let messages: Vec<Option<String>> = vec![None, None];
    assert_eq!(
        plan_chat_request(&messages, "requested"),
        ChatPlan::Forward { model: "requested".to_string(), rewrite: None }
    );
    assert_eq!(
        plan_chat_request(&Vec::new(), "requested"),
        ChatPlan::Forward { model: "requested".to_string(), rewrite: None }
    );
}

#[test]
fn body_is_normalised() {
    assert_eq!(
        normalize_chat_body(
            " \n{\"stream\":true,\"max_tokens\":-1,\"messages\":[{\"role\":\"user\"}]}\r\n",
            "foo-small"
        ),
        "{\"stream\":true,\"model\":\"foo-small\",\"messages\":[{\"role\":\"user\"}]}"
    );
    assert_eq!(
        normalize_chat_body("{\"max_tokens\":-1,\"model\":\"bar\",\"messages\":[]}", "foo"),
        "{\"model\":\"bar\",\"messages\":[]}"
    );
    assert_eq!(
        normalize_chat_body("{\"model\":\"bar\",\"messages\":[],\"max_tokens\":-1}", "foo"),
        "{\"model\":\"bar\",\"messages\":[]}"
    );
    assert_eq!(
        normalize_chat_body("{\"messages\":[],\"max_tokens\":-12}", "foo"),
        "{\"model\":\"foo\",\"messages\":[]2}"
    );
    assert_eq!(
        normalize_chat_body("{\"messages\":[],\"max_tokens\":100}", "f\u{f6}\u{f6}"),
        "{\"model\":\"f\u{f6}\u{f6}\",\"messages\":[],\"max_tokens\":100}"
    );
    assert_eq!(normalize_chat_body("", "foo"), "");
    assert_eq!(normalize_chat_body("\u{a0}x\u{a0}", "foo"), "\u{a0}x\u{a0}");
}

#[test]
fn chat_page_requests_are_recognised() {
    assert!(is_sent_from_ui(Some("https://host:8443/chat")));
    assert!(!is_sent_from_ui(Some("https://host:8443/chat/")));
    assert!(!is_sent_from_ui(Some("chat")));
    assert!(!is_sent_from_ui(None));
    assert_eq!(routed_model(true, "named".to_string(), "served"), "served");
    assert_eq!(routed_model(false, "named".to_string(), "served"), "named");
}

#[test]
fn requests_are_forwarded_to_the_backend() {
    assert_eq!(
        forward_api_request(11440, "/api/v1/embeddings?x=1&y=2"),
        "http://localhost:11440/v1/embeddings?x=1&y=2"
    );
    assert_eq!(forward_ui_request(11440, "/chat/props"), "http://localhost:11440/props");
    assert_eq!(forward_ui_request(80, "/other"), "http://localhost:80//other");
    assert_eq!(forward_uri(0, "abc", None, None), "http://localhost:0/abc");
    assert_eq!(forward_uri(65535, "abc", Some("ab"), Some("p")), "http://localhost:65535/p/c");
    assert_eq!(forward_uri(1, "abc", Some("abcd"), Some("")), "http://localhost:1//abc");
    assert_eq!(chat_completions_uri(11440), "http://localhost:11440/v1/chat/completions");
}

fn gzip(data: &[u8]) -> Vec<u8> {
    let mut e = GzEncoder::new(Vec::new(), Compression::fast());
    e.write_all(data).unwrap();
    e.finish().unwrap()
}

fn gunzip(data: &[u8]) -> String {
    let mut s = String::new();
    GzDecoder::new(data).read_to_string(&mut s).unwrap();
    s
}

#[test]
fn chat_page_addresses_are_rewritten() {
    assert_eq!(
        rewrite_chat_page("fetch(`${base}/props`); fetch('./props'); a=`${b}/v1/x`; c='./v1/y'"),
        "fetch(`${base}/chat/props`); fetch('./chat/props'); a=`${b}/api/1/v1/x`; c='./api/1/v1/y'"
    );
    assert_eq!(rewrite_chat_page("/props /v1 .props"), "/props /v1 .props");
    assert_eq!(rewrite_chat_page("././props}/v1}/v1"), "././chat/props}/api/1/v1}/api/1/v1");
    assert_eq!(rewrite_chat_page(""), "");
}

#[test]
fn chat_page_is_repacked() {
    let page = "<script>fetch('./props');fetch(`${u}/v1/models`)</script>\u{e4}";
    let packed = gzip(page.as_bytes());
    let repacked = repack_chat_page(&packed).unwrap();
    assert_ne!(repacked, packed);
    assert_eq!(
        gunzip(&repacked),
        "<script>fetch('./chat/props');fetch(`${u}/api/1/v1/models`)</script>\u{e4}"
    );
    let mut best = GzEncoder::new(Vec::new(), Compression::best());
    best.write_all(gunzip(&repacked).as_bytes()).unwrap();
    assert_eq!(repacked, best.finish().unwrap());
}

#[test]
fn rewritten_page_is_packed() {
    let packed = pack_chat_page("page \u{e4}").unwrap();
    assert_eq!(gunzip(&packed), "page \u{e4}");
    assert_ne!(packed, "page \u{e4}".as_bytes().to_vec());
    assert_eq!(gunzip(&pack_chat_page("").unwrap()), "");
    let page = "fetch('./v1/models')";
    assert_eq!(
        repack_chat_page(&gzip(page.as_bytes())),
        pack_chat_page(&rewrite_chat_page(page))
    );
}

#[test]
fn what_is_no_gzip_text_is_not_repacked() {
    assert_eq!(repack_chat_page(&b"<html></html>".to_vec()), Err(RepackError::Unpack));
    assert_eq!(repack_chat_page(&Vec::new()), Err(RepackError::Unpack));
    assert_eq!(repack_chat_page(&gzip(&[0xff, 0xfe, 0x80])), Err(RepackError::Unpack));
}

#[test]
fn random_keys_are_of_the_character_set() {
    let set = "ABCDEFGHIJKLMNOPQRSTUVWXYZabcdefghijklmnopqrstuvwxyz0123456789";
    for len in [0usize, 1, 25, 200] {
        let key = random_api_key(len);
        assert_eq!(key.chars().count(), len);
        assert!(key.chars().all(|c| set.contains(c)));
    }
    assert_ne!(random_api_key(64), random_api_key(64));
    assert_eq!(charset_char(0), 'A');
    assert_eq!(charset_char(26), 'a');
    assert_eq!(charset_char(61), '9');
    assert_eq!(RANDOM_APIKEY_LEN, 25);
}

fn backend() -> LlamaCppBackend {
    LlamaCppBackend {
        host: "localhost".to_string(),
        port: 11440,
        llama_cpp_command: "./build/bin/llama-server".to_string(),
        llama_cpp_execdir: "/data0/inference/llama.cpp/".to_string(),
    }
}

#[test]
fn app_state_takes_the_key_given_or_makes_one() {
    let mut b = AppState::builder(backend());
    b.with_api_key("first".to_string()).with_api_key("given".to_string());
    let state = b.build();
    assert_eq!(state.api_key(), "given");
    assert_eq!(state.llamacpp_backend().port, 11440);
    let state = AppState::builder(backend()).build();
    assert_eq!(state.api_key().len(), 25);
    assert!(state.api_key().chars().all(|c| c.is_ascii_alphanumeric()));
    let state = AppState::builder(backend()).build_with("fallback".to_string());
    assert_eq!(state.api_key(), "fallback");
}

fn dto() -> LlamaCppRunConfigDto {
    let mut env = EnvMap::new();
    env.insert("A".to_string(), "1".to_string());
    LlamaCppRunConfigDto {
        env,
        alias: "foo-small".to_string(),
        model_path: "/m/foo.gguf".to_string(),
        mmproj_path: None,
        prio: Some(2),
        threads: None,
        parallel: None,
        n_gpu_layers: Some(99),
        ctx_size: Some(ContextSize::T32768),
        flash_attn: Some(OnOffValue::Off),
        fit: Some(OnOffValue::Other("auto".to_string())),
        batch_size: None,
        ubatch_size: Some(512),
        cache_type_v: None,
        cache_type_k: Some("q8_0".to_string()),
        temp: Some(SamplingValue { bits: 0.7f32.to_bits() }),
        repeat_penalty: None,
        presence_penalty: Some(SamplingValue { bits: 1.5f32.to_bits() }),
        seed: Some(1),
        min_p: None,
        top_k: Some(20),
        top_p: Some(SamplingValue { bits: 0.8f32.to_bits() }),
        jinja: true,
        no_mmap: false,
        no_context_shift: true,
        no_cont_batching: false,
    }
}

#[test]
fn record_maps_into_a_launch_configuration() {
    let c: LlamaCppConfig = dto().map_into_domain("secret".to_string());
    assert_eq!(c.parallel, 1);
    assert_eq!(c.threads, -1);
    assert_eq!(c.args.api_key, Some("secret".to_string()));
    assert_eq!(c.args.alias, "foo-small");
    assert_eq!(c.args.ctx_size, Some(ContextSize::T32768));
    assert_eq!(c.args.fit, Some(OnOffValue::Other("auto".to_string())));
    assert_eq!(c.args.top_p, Some(SamplingValue { bits: 0.8f32.to_bits() }));
    assert!(c.args.jinja && c.args.no_context_shift && !c.args.no_mmap);
    assert_eq!(c.env.get(&"A".to_string()), Some(&"1".to_string()));
    let mut d = dto();
    d.parallel = Some(4);
    d.threads = Some(8);
    let c = d.map_into_domain("k".to_string());
    assert_eq!((c.parallel, c.threads), (4, 8));
}

#[test]
fn launch_configuration_and_record_round_trip() {
    let c = dto().map_into_domain("secret".to_string());
    let back = LlamaCppRunConfigDto::from_domain(c.duplicate());
    assert_eq!(back.parallel, Some(1));
    assert_eq!(back.threads, Some(-1));
    assert_eq!(back.alias, "foo-small");
    assert_eq!(back.presence_penalty, Some(SamplingValue { bits: 1.5f32.to_bits() }));
    let again = back.map_into_domain("secret".to_string());
    assert!(again.same_config(&c));
}

#[test]
fn states_are_shown_to_clients() {
    let c = dto().map_into_domain("secret".to_string());
    let mut next: LlamaCppConfigArgs = c.args.duplicate();
    next.alias = "bar-large".to_string();
    let next = LlamaCppConfig { env: EnvMap::new(), args: next, parallel: 2, threads: 4 };
    assert!(matches!(
        LlamaCppProcessStateResponse::from_state(ProcessState::Stopped),
        LlamaCppProcessStateResponse::Stopped
    ));
    match LlamaCppProcessStateResponse::from_state(ProcessState::Running(c.duplicate())) {
        LlamaCppProcessStateResponse::Running(d) => assert_eq!(d.alias, "foo-small"),
        other => panic!("unexpected {other:?}"),
    }
    match LlamaCppProcessStateResponse::from_state(ProcessState::Starting(c.duplicate())) {
        LlamaCppProcessStateResponse::Starting(d) => assert_eq!(d.parallel, Some(1)),
        other => panic!("unexpected {other:?}"),
    }
    assert!(matches!(
        LlamaCppProcessStateResponse::from_state(ProcessState::Stopping(c.duplicate(), None)),
        LlamaCppProcessStateResponse::Stopping
    ));
    match LlamaCppProcessStateResponse::from_state(ProcessState::Stopping(c, Some(next))) {
        LlamaCppProcessStateResponse::Starting(d) => {
            assert_eq!(d.alias, "bar-large");
            assert_eq!(d.parallel, Some(2));
            assert_eq!(d.threads, Some(4));
        }
        other => panic!("unexpected {other:?}"),
    }
}
