use model_gateway::alias::{tier_named, AliasError, ContextSizeAwareAlias};
use model_gateway::catalog::{ModelConfiguration, StaticModelLoader};
use model_gateway::cli::SamplingValue;
use model_gateway::context_size::ContextSize;
use model_gateway::env::EnvMap;
use model_gateway::llamacpp::{LlamaCppConfig, LlamaCppProcessState};
use model_gateway::llmodels::{Data, DataMeta, Llmodels, Model, ModelDetails};
use model_gateway::modellist::ModelList;
use model_gateway::on_off::OnOffValue;
use model_gateway::process::{ProcessConfig, ProcessState};
use model_gateway::selection::{Convergence, DefaultModelsService, ModelsServiceInPort, TICK_MS};

const TIERS: [ContextSize; 6] = [
    ContextSize::T8192,
    ContextSize::T16384,
    ContextSize::T32768,
    ContextSize::T65536,
    ContextSize::T131072,
    ContextSize::T262144,
];

fn definition(alias: &str, max_ctx_size: ContextSize) -> ModelConfiguration {
    ModelConfiguration {
        alias: alias.to_string(),
        model_path: format!("/models/{alias}.gguf"),
        max_ctx_size,
        vocab_type: 2,
        n_vocab: 131072,
        n_ctx_train: 1048576,
        n_embd: 2688,
        n_params: 31577940288,
        size: 40440063744,
        capabilities: vec!["completion".to_string(), "multimodal".to_string()],
        mmproj_path: Some(format!("/models/{alias}-mmproj.gguf")),
        prio: Some(3),
        n_gpu_layers: Some(99),
        flash_attn: Some(OnOffValue::On),
        fit: None,
        batch_size: Some(2048),
        ubatch_size: None,
        cache_type_v: Some("q8_0".to_string()),
        cache_type_k: None,
        temp: Some(SamplingValue { bits: 1.0f32.to_bits() }),
        repeat_penalty: None,
        presence_penalty: None,
        seed: Some(3407),
        min_p: Some(SamplingValue { bits: 0.01f32.to_bits() }),
        top_k: Some(64),
        top_p: None,
        jinja: true,
        no_mmap: true,
        no_context_shift: false,
        no_cont_batching: false,
    }
}

fn loader() -> StaticModelLoader {
    StaticModelLoader::new(
        vec![
            definition("foo", ContextSize::T32768),
            definition("bar", ContextSize::T131072),
            definition("gpt-oss-120b-Q8_0", ContextSize::T8192),
        ],
        "secret".to_string(),
    )
}

fn service(parallel: u8) -> DefaultModelsService {
    let mut env = EnvMap::new();
    env.insert("GGML_CUDA_ENABLE_UNIFIED_MEMORY".to_string(), "1".to_string());
    DefaultModelsService::create_service(loader(), parallel, -1, env, "foo-small".to_string())
}

#[test]
fn tier_token_counts() {
    let expected = [8192u64, 16384, 32768, 65536, 131072, 262144];
    for (i, tier) in TIERS.iter().enumerate() {
        assert_eq!(tier.tokens(), expected[i]);
        assert_eq!(tier.rank(), i);
        assert_eq!(ContextSize::from_rank(i), *tier);
        assert_eq!(ContextSize::from_tokens(tier.tokens()), *tier);
    }
}

#[test]
fn token_counts_are_bucketed() {
    assert_eq!(ContextSize::from_tokens(0), ContextSize::T8192);
    assert_eq!(ContextSize::from_tokens(12287), ContextSize::T8192);
    assert_eq!(ContextSize::from_tokens(12288), ContextSize::T16384);
    assert_eq!(ContextSize::from_tokens(24575), ContextSize::T16384);
    assert_eq!(ContextSize::from_tokens(24576), ContextSize::T32768);
    assert_eq!(ContextSize::from_tokens(49152), ContextSize::T65536);
    assert_eq!(ContextSize::from_tokens(98304), ContextSize::T131072);
    assert_eq!(ContextSize::from_tokens(196607), ContextSize::T131072);
    assert_eq!(ContextSize::from_tokens(196608), ContextSize::T262144);
    assert_eq!(ContextSize::from_tokens(u64::MAX), ContextSize::T262144);
}

#[test]
fn tiers_convert_from_and_into_token_counts() {
    assert_eq!(ContextSize::from(30000u64), ContextSize::T32768);
    assert_eq!(u64::from(ContextSize::T65536), 65536);
    let a = ContextSizeAwareAlias::from(("foo".to_string(), ContextSize::T8192));
    assert_eq!(a.alias(), "foo-min");
    assert_eq!(a, ContextSizeAwareAlias::new("foo".to_string(), ContextSize::T8192));
}

#[test]
fn tiers_are_ordered_by_size() {
    for (i, a) in TIERS.iter().enumerate() {
        for (j, b) in TIERS.iter().enumerate() {
            assert_eq!(a.at_most(b), i <= j);
            assert_eq!(a <= b, i <= j);
            assert_eq!(a > b, i > j);
            assert_eq!(a == b, i == j);
        }
    }
}

#[test]
fn alias_names_its_tier() {
    let suffixes = ["min", "tiny", "small", "moderate", "large", "max"];
    for (i, tier) in TIERS.iter().enumerate() {
        let a = ContextSizeAwareAlias::new("gemma-3-12b".to_string(), *tier);
        assert_eq!(a.alias(), format!("gemma-3-12b-{}", suffixes[i]));
        assert_eq!(a.model(), "gemma-3-12b");
        assert_eq!(a.context_size(), *tier);
    }
}

#[test]
fn alias_roundtrip_for_every_tier() {
    for base in ["foo", "gpt-oss-120b-Q8_0", "", "a-b-", "x-max"] {
        for tier in TIERS {
            let text = ContextSizeAwareAlias::new(base.to_string(), tier).alias();
            let back = ContextSizeAwareAlias::parse(&text).unwrap();
            assert_eq!(back.model(), base);
            assert_eq!(back.context_size(), tier);
        }
    }
}

#[test]
fn alias_with_unknown_suffix_is_rejected() {
    assert_eq!(
        ContextSizeAwareAlias::parse("gpt-oss-120b-Q8_0"),
        Err(AliasError::InvalidHint {
            value: "gpt-oss-120b-Q8_0".to_string(),
            hint: "Q8_0".to_string()
        })
    );
    assert_eq!(
        ContextSizeAwareAlias::parse("foo-"),
        Err(AliasError::InvalidHint { value: "foo-".to_string(), hint: String::new() })
    );
    assert_eq!(
        ContextSizeAwareAlias::parse("foo-Small"),
        Err(AliasError::InvalidHint { value: "foo-Small".to_string(), hint: "Small".to_string() })
    );
}

#[test]
fn alias_without_hyphen_is_rejected() {
    assert_eq!(
        ContextSizeAwareAlias::parse("small"),
        Err(AliasError::MissingHint { value: "small".to_string() })
    );
    assert_eq!(
        ContextSizeAwareAlias::parse(""),
        Err(AliasError::MissingHint { value: String::new() })
    );
}

#[test]
fn alias_error_messages() {
    let e = ContextSizeAwareAlias::parse("foo-huge").unwrap_err();
    assert_eq!(e.to_text(), "value 'foo-huge' contains invalid content-size-hint 'huge'");
    let e = ContextSizeAwareAlias::parse("foo").unwrap_err();
    assert_eq!(e.to_text(), "value 'foo' does not contain context-size-hint");
}

#[test]
fn suffixes_name_tiers() {
    assert_eq!(tier_named(&"max".to_string()), Some(ContextSize::T262144));
    assert_eq!(tier_named(&"min".to_string()), Some(ContextSize::T8192));
    assert_eq!(tier_named(&"medium".to_string()), None);
}

#[test]
fn expansion_has_one_entry_per_tier_up_to_the_largest() {
    let expanded = loader().get_model_configurations();
    let aliases: Vec<&str> = expanded.iter().map(|d| d.alias.as_str()).collect();
    assert_eq!(
        aliases,
        vec![
            "foo-min",
            "foo-tiny",
            "foo-small",
            "bar-min",
            "bar-tiny",
            "bar-small",
            "bar-moderate",
            "bar-large",
            "gpt-oss-120b-Q8_0-min",
        ]
    );
    for entry in &expanded {
        let parsed = ContextSizeAwareAlias::parse(&entry.alias).unwrap();
        assert!(parsed.context_size().at_most(&entry.max_ctx_size));
        assert_eq!(entry.model_path, format!("/models/{}.gguf", parsed.model()));
    }
}

#[test]
fn expansion_counts_tiers_for_each_largest_tier() {
    for (i, max) in TIERS.iter().enumerate() {
        let l = StaticModelLoader::new(vec![definition("m", *max)], "k".to_string());
        assert_eq!(l.get_model_configurations().len(), i + 1);
    }
    let empty = StaticModelLoader::new(Vec::new(), "k".to_string());
    assert_eq!(empty.get_model_configurations().len(), 0);
    assert_eq!(empty.definition_count(), 0);
}

#[test]
fn static_definitions_are_kept_as_loaded() {
    let list = loader().get_static_model_configurations();
    let aliases: Vec<&str> = list.iter().map(|d| d.alias.as_str()).collect();
    assert_eq!(aliases, vec!["foo", "bar", "gpt-oss-120b-Q8_0"]);
}

#[test]
fn alias_with_tier_resolves_to_that_tier() {
    let args = loader().get_model_configuration("foo-small").unwrap();
    assert_eq!(args.alias, "foo-small");
    assert_eq!(args.ctx_size, Some(ContextSize::T32768));
    assert_eq!(args.model_path, "/models/foo.gguf");
    assert_eq!(args.api_key, Some("secret".to_string()));
    assert_eq!(args.mmproj_path, Some("/models/foo-mmproj.gguf".to_string()));
    assert_eq!(args.prio, Some(3));
    assert_eq!(args.seed, Some(3407));
    assert_eq!(args.top_k, Some(64));
    assert_eq!(args.batch_size, Some(2048));
    assert_eq!(args.min_p, Some(SamplingValue { bits: 0.01f32.to_bits() }));
    assert_eq!(args.flash_attn, Some(OnOffValue::On));
    assert!(args.jinja && args.no_mmap && !args.no_context_shift && !args.no_cont_batching);
}

#[test]
fn bare_alias_resolves_without_tier() {
    let args = loader().get_model_configuration("gpt-oss-120b-Q8_0").unwrap();
    assert_eq!(args.alias, "gpt-oss-120b-Q8_0");
    assert_eq!(args.ctx_size, None);
    let args = loader().get_model_configuration("bar").unwrap();
    assert_eq!(args.ctx_size, None);
    assert_eq!(args.model_path, "/models/bar.gguf");
}

#[test]
fn alias_whose_model_is_unknown_is_looked_up_as_it_is() {
    let l = StaticModelLoader::new(
        vec![definition("granite-4.0-h-small", ContextSize::T131072)],
        "secret".to_string(),
    );
    let args = l.get_model_configuration("granite-4.0-h-small").unwrap();
    assert_eq!(args.alias, "granite-4.0-h-small");
    assert_eq!(args.ctx_size, None);
    assert_eq!(args.model_path, "/models/granite-4.0-h-small.gguf");
    assert_eq!(args.api_key, Some("secret".to_string()));
    let args = l.get_model_configuration("granite-4.0-h-small-large").unwrap();
    assert_eq!(args.alias, "granite-4.0-h-small-large");
    assert_eq!(args.ctx_size, Some(ContextSize::T131072));
    assert_eq!(args.model_path, "/models/granite-4.0-h-small.gguf");
    assert!(l.get_model_configuration("granite-4.0-h").is_err());
    assert!(l.get_model_configuration("granite-4.0-h-tiny").is_err());
    assert!(l.get_literal_model_configuration("granite-4.0-h-small-large").is_err());
    assert!(l.get_literal_model_configuration("granite-4.0-h-small").is_ok());
}

#[test]
fn tier_lookup_comes_before_the_lookup_as_it_is() {
    let l = StaticModelLoader::new(
        vec![
            definition("granite-4.0-h-small", ContextSize::T131072),
            definition("granite-4.0-h", ContextSize::T8192),
        ],
        "secret".to_string(),
    );
    let args = l.get_model_configuration("granite-4.0-h-small").unwrap();
    assert_eq!(args.alias, "granite-4.0-h-small");
    assert_eq!(args.ctx_size, Some(ContextSize::T32768));
    assert_eq!(args.model_path, "/models/granite-4.0-h.gguf");
    let args = l.get_literal_model_configuration("granite-4.0-h-small").unwrap();
    assert_eq!(args.ctx_size, None);
    assert_eq!(args.model_path, "/models/granite-4.0-h-small.gguf");
}

#[test]
fn first_definition_under_an_alias_is_taken() {
    let mut second = definition("twin", ContextSize::T8192);
    second.model_path = "/models/other.gguf".to_string();
    let l = StaticModelLoader::new(
        vec![definition("twin", ContextSize::T16384), second],
        "k".to_string(),
    );
    assert_eq!(l.get_model_configuration("twin").unwrap().model_path, "/models/twin.gguf");
    assert_eq!(l.get_model_configuration("twin-min").unwrap().model_path, "/models/twin.gguf");
}

#[test]
fn unknown_alias_does_not_resolve() {
    assert!(loader().get_model_configuration("does-not-exist").is_err());
    assert!(loader().get_model_configuration("baz-small").is_err());
    assert!(loader().get_model_configuration("").is_err());
}

#[test]
fn model_list_names_and_records() {
    let list = service(1).get_models(1768231590);
    assert_eq!(
        list.names(),
        "foo-min,foo-tiny,foo-small,bar-min,bar-tiny,bar-small,bar-moderate,bar-large,gpt-oss-120b-Q8_0-min"
    );
    assert_eq!(service(1).get_model_names(7), list.names());
    assert_eq!(list.object(), "list");
    assert_eq!(list.models().len(), 9);
    assert_eq!(list.data().len(), 9);
    let m = &list.models()[2];
    assert_eq!(m.name, "foo-small");
    assert_eq!(m.model, "foo-small");
    assert_eq!(m.kind, "model");
    assert_eq!(m.tags, vec![String::new()]);
    assert_eq!(m.capabilities, vec!["completion".to_string(), "multimodal".to_string()]);
    assert_eq!(m.details.format, "gguf");
    assert_eq!(m.details.families, vec![String::new()]);
    let d = &list.data()[2];
    assert_eq!(d.id, "foo-small");
    assert_eq!(d.object, "model");
    assert_eq!(d.owned_by, "Mai-Server");
    assert_eq!(d.created, 1768231590);
    assert_eq!(d.meta.n_params, 31577940288);
    let facts = list.as_list_of_meta_data_and_capabilities();
    assert_eq!(facts.len(), 9);
    assert_eq!(facts[0].0.n_embd, 2688);
    assert_eq!(facts[0].1, vec!["completion".to_string(), "multimodal".to_string()]);
}

#[test]
fn model_list_is_built_step_by_step() {
    let mut list = ModelList::new();
    assert_eq!(list.names(), "");
    list.add_model_configuration(&definition("solo", ContextSize::T8192), 5);
    assert_eq!(list.names(), "solo");
    list.extend_from_domain_model_configuration(&definition("duo", ContextSize::T16384), 6);
    assert_eq!(list.names(), "solo,duo-min,duo-tiny");
    assert_eq!(list.data()[0].created, 5);
    assert_eq!(list.data()[2].created, 6);
    assert_eq!(ModelList::default().names(), "");
    assert_eq!(ModelList::default().object(), "list");
    let with_room = ModelList::with_capacity(16);
    assert_eq!(with_room.models().len(), 0);
    assert_eq!(with_room.object(), "list");
}

#[test]
fn described_models_are_listed_as_models() {
    let mut list = Llmodels::new();
    assert_eq!(list.object(), "list");
    let name = "nemotron-3-nano-30b-a3b".to_string();
    list.add(
        Model {
            name: name.clone(),
            model: name.clone(),
            modified_at: String::new(),
            size: String::new(),
            digest: String::new(),
            description: String::new(),
            tags: Vec::new(),
            capabilities: vec!["Completion".to_string()],
            parameters: String::new(),
            details: ModelDetails {
                parent_model: String::new(),
                format: "gguf".to_string(),
                family: String::new(),
                families: Vec::new(),
                parameter_size: String::new(),
                quantization_level: String::new(),
            },
        },
        Data {
            id: name.clone(),
            created: 1768231590,
            meta: DataMeta {
                vocab_type: 2,
                n_vocab: 131072,
                n_ctx_train: 1048576,
                n_embd: 2688,
                n_params: 31577940288,
                size: 40440063744,
            },
        },
    );
    assert_eq!(list.models().len(), 1);
    assert_eq!(list.models()[0].kind, "model");
    assert_eq!(list.models()[0].name, name);
    assert_eq!(list.data()[0].object, "model");
    assert_eq!(list.data()[0].owned_by, "Mai-Server");
    assert_eq!(list.data()[0].created, 1768231590);
    assert_eq!(list.data()[0].meta.size, 40440063744);
}

fn running(alias: &str, parallel: u8) -> LlamaCppProcessState {
    let s = service(parallel);
    let args = loader().get_model_configuration(alias).unwrap();
    ProcessState::Running(s.create_run_config_from_args_and_current_state(args))
}

#[test]
fn cold_start_asks_for_the_tier_named() {
    let s = service(1);
    match s.ensure_requested_model_is_served(&ProcessState::Stopped, "foo-small", 0, 180_000) {
        Convergence::Start(c) => {
            assert_eq!(c.args.ctx_size, Some(ContextSize::T32768));
            assert_eq!(c.args.alias, "foo-small");
            assert_eq!(c.args.model_path, "/models/foo.gguf");
            assert_eq!(c.parallel, 1);
            assert_eq!(c.threads, -1);
            assert_eq!(
                c.env.get(&"GGML_CUDA_ENABLE_UNIFIED_MEMORY".to_string()),
                Some(&"1".to_string())
            );
        }
        other => panic!("unexpected round {other:?}"),
    }
    let state = running("foo-small", 1);
    assert!(matches!(
        s.ensure_requested_model_is_served(&state, "foo-small", 500, 180_000),
        Convergence::Served
    ));
}

#[test]
fn unknown_model_ends_the_loop() {
    let s = service(1);
    assert!(matches!(
        s.ensure_requested_model_is_served(&ProcessState::Stopped, "does-not-exist", 0, 180_000),
        Convergence::UnknownModel
    ));
    let state = running("foo-small", 1);
    assert!(matches!(
        s.ensure_requested_model_is_served(&state, "does-not-exist", 0, 180_000),
        Convergence::UnknownModel
    ));
}

#[test]
fn other_model_running_asks_for_a_start() {
    let s = service(1);
    let state = running("foo-small", 1);
    match s.ensure_requested_model_is_served(&state, "bar-large", 0, 180_000) {
        Convergence::Start(c) => {
            assert_eq!(c.args.alias, "bar-large");
            assert_eq!(c.args.ctx_size, Some(ContextSize::T131072));
        }
        other => panic!("unexpected round {other:?}"),
    }
}

#[test]
fn parallelism_change_forces_start() {
    let mut s = service(1);
    let state = running("foo-small", 1);
    assert!(s.is_served(&state, "foo-small"));
    assert!(s.set_parallel_backend_requests(4));
    assert!(!s.set_parallel_backend_requests(4));
    assert_eq!(s.parallel_backend_requests(), 4);
    assert!(!s.is_served(&state, "foo-small"));
    match s.ensure_requested_model_is_served(&state, "foo-small", 0, 180_000) {
        Convergence::Start(c) => {
            assert_eq!(c.parallel, 4);
            assert_eq!(c.args.alias, "foo-small");
            if let ProcessState::Running(old) = &state {
                assert!(!c.same_config(old));
            }
        }
        other => panic!("unexpected round {other:?}"),
    }
}

#[test]
fn deadline_ends_the_loop_whatever_is_observed() {
    let s = service(1);
    let state = running("foo-small", 1);
    assert!(matches!(
        s.ensure_requested_model_is_served(&state, "foo-small", 180_000, 180_000),
        Convergence::TimedOut
    ));
    assert!(matches!(
        s.ensure_requested_model_is_served(&ProcessState::Stopped, "nope", 180_001, 180_000),
        Convergence::TimedOut
    ));
    assert!(matches!(
        s.ensure_requested_model_is_served(&state, "foo-small", 179_999, 180_000),
        Convergence::Served
    ));
    assert!(DefaultModelsService::deadline_reached(5, 5));
    assert!(!DefaultModelsService::deadline_reached(4, 5));
    assert_eq!(TICK_MS, 500);
}

#[test]
fn loop_returns_within_one_tick_of_the_deadline() {
    let s = service(1);
    let timeout = 1_800;
    let mut elapsed = 0;
    let mut rounds = 0;
    loop {
        rounds += 1;
        match s.ensure_requested_model_is_served(&ProcessState::Stopped, "foo-small", elapsed, timeout) {
            Convergence::Start(_) => elapsed += TICK_MS,
            Convergence::TimedOut => break,
            other => panic!("unexpected round {other:?}"),
        }
    }
    assert_eq!(rounds, 5);
    assert!(elapsed <= timeout + TICK_MS);
}

#[test]
fn any_running_model_will_do() {
    let s = service(1);
    let state = running("bar-large", 1);
    assert!(matches!(
        s.ensure_any_model_is_served(&state, "foo-small", 0, 180_000),
        Convergence::Served
    ));
    assert!(matches!(
        s.ensure_any_model_is_served(&state, "foo-small", 200_000, 180_000),
        Convergence::Served
    ));
    match s.ensure_any_model_is_served(&ProcessState::Stopped, "foo-small", 0, 180_000) {
        Convergence::Start(c) => assert_eq!(c.args.alias, "foo-small"),
        other => panic!("unexpected round {other:?}"),
    }
    assert!(matches!(
        s.ensure_any_model_is_served(&ProcessState::Stopped, "foo-small", 180_000, 180_000),
        Convergence::TimedOut
    ));
}

#[test]
fn default_and_running_alias() {
    let s = service(1);
    assert_eq!(s.get_default_model_alias(), "foo-small");
    assert_eq!(
        DefaultModelsService::get_running_model_alias(&running("bar-large", 1)),
        Some("bar-large".to_string())
    );
    assert_eq!(DefaultModelsService::get_running_model_alias(&ProcessState::Stopped), None);
    let cfg: LlamaCppConfig = s.create_run_config_from_args_and_current_state(
        loader().get_model_configuration("foo").unwrap(),
    );
    assert_eq!(
        DefaultModelsService::get_running_model_alias(&ProcessState::Starting(cfg)),
        None
    );
}
