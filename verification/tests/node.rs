use teale_node::backend::Backend;
use teale_node::cluster::ApiMessage;
use teale_node::config::{
    default_backend, default_context_size, default_gpu_layers, default_litert_context_size,
    default_llama_port, default_mesh_port, default_mnn_context_size, default_mnn_port,
    default_relay_url, BackendKind, Config, ConfigError, LiteRtConfig, LlamaConfig, MeshConfig,
    MnnConfig, NodeConfig, RelayConfig,
};
use teale_node::hardware::{
    arm_chip_info, classify_arm_soc, classify_cpu, current_platform, determine_tier,
    hardware_field, infer_gpu_backend, is_mobile_soc, parse_apple_chip, summarize_hardware,
    CpuClass, GIB,
};
use teale_node::inference::{
    context_warning, first_model_id, health_step, json_payloads_of, health_timeout_message, llama_server_args,
    mesh_server_args, mnn_server_args, models_url, HealthAction, HealthEvent, InferenceProxy,
    ModelList, SseDecoder,
};
use teale_node::text::{path_file_name, path_file_stem};
use teale_node::litert::{format_chat_prompt, ChunkStream, LiteRtEngine, LiteRtError};

fn llama() -> LlamaConfig {
    LlamaConfig {
        binary: "llama-server".to_string(),
        model: "/models/q.gguf".to_string(),
        gpu_layers: default_gpu_layers(),
        context_size: default_context_size(),
        port: default_llama_port(),
        extra_args: vec!["--flash-attn".to_string()],
    }
}

fn mnn() -> MnnConfig {
    MnnConfig {
        binary: "mnn_llm".to_string(),
        model_dir: "/models/qwen-mnn".to_string(),
        model_id: None,
        backend_type: Some("opencl".to_string()),
        context_size: default_mnn_context_size(),
        port: default_mnn_port(),
        extra_args: vec![],
    }
}

fn litert(binary: Option<&str>, model_id: Option<&str>) -> LiteRtConfig {
    LiteRtConfig {
        binary: binary.map(|b| b.to_string()),
        model: "/models/gemma3-1b.litertlm".to_string(),
        model_id: model_id.map(|m| m.to_string()),
        backend_type: None,
        context_size: default_litert_context_size(),
        cache_dir: Some("/tmp/cache".to_string()),
    }
}

fn config(backend: &str) -> Config {
    Config {
        relay: RelayConfig { url: default_relay_url() },
        backend: backend.to_string(),
        llama: Some(llama()),
        mnn: None,
        litert: None,
        mesh: None,
        node: NodeConfig { display_name: "box".to_string(), gpu_backend: None },
    }
}

fn msg(role: &str, content: &str) -> ApiMessage {
    ApiMessage { role: role.to_string(), content: content.to_string() }
}

#[test]
fn defaults_match_the_documented_values() {
    assert_eq!(default_backend(), "llama");
    assert_eq!(default_relay_url(), "wss://relay.teale.com/ws");
    assert_eq!(default_gpu_layers(), 999);
    assert_eq!(default_context_size(), 8192);
    assert_eq!(default_mnn_context_size(), 2048);
    assert_eq!(default_llama_port(), 11436);
    assert_eq!(default_mnn_port(), 11437);
    assert_eq!(default_litert_context_size(), 4096);
    assert_eq!(default_mesh_port(), 9337);
}

#[test]
fn selected_backend_needs_its_section() {
    assert_eq!(config("llama").validate().ok(), Some(BackendKind::Llama));
    let mut c = config("mnn");
    match c.validate() {
        Err(e @ ConfigError::MissingSection(BackendKind::Mnn)) => assert_eq!(
            e.message(),
            "[mnn] config section is required when backend = \"mnn\""
        ),
        _ => panic!("expected missing mnn section"),
    }
    c.mnn = Some(mnn());
    assert_eq!(c.validate().ok(), Some(BackendKind::Mnn));
    let mut l = config("litert");
    assert!(matches!(l.validate(), Err(ConfigError::MissingSection(BackendKind::LiteRt))));
    l.litert = Some(litert(None, None));
    assert_eq!(l.validate().ok(), Some(BackendKind::LiteRt));
    let mut m = config("mesh");
    assert!(matches!(m.validate(), Err(ConfigError::MissingSection(BackendKind::Mesh))));
    m.mesh = Some(MeshConfig { binary: None, endpoint: None, port: default_mesh_port(), model_id: None, serve_args: vec![] });
    assert_eq!(m.validate().ok(), Some(BackendKind::Mesh));
    let mut no_llama = config("llama");
    no_llama.llama = None;
    match no_llama.validate() {
        Err(e @ ConfigError::MissingSection(BackendKind::Llama)) => assert_eq!(
            e.message(),
            "[llama] config section is required when backend = \"llama\""
        ),
        _ => panic!("expected missing llama section"),
    }
}

#[test]
fn unknown_backend_is_refused() {
    match config("vllm").validate() {
        Err(e @ ConfigError::UnknownBackend(_)) => assert_eq!(
            e.message(),
            "Unknown backend 'vllm'. Supported: \"llama\", \"mnn\", \"litert\", \"mesh\""
        ),
        _ => panic!("expected unknown backend"),
    }
}

#[test]
fn http_target_of_llama_and_mnn() {
    let c = config("llama");
    assert_eq!(c.http_target(), (11436, "/models/q.gguf".to_string()));
    let mut m = config("mnn");
    m.mnn = Some(mnn());
    assert_eq!(m.http_target(), (11437, "qwen-mnn".to_string()));
    assert_eq!(m.http_target_from(None), (11437, "/models/qwen-mnn".to_string()));
    let mut with_id = mnn();
    with_id.model_id = Some("qwen".to_string());
    m.mnn = Some(with_id);
    assert_eq!(m.http_target(), (11437, "qwen".to_string()));
}

#[test]
fn apple_chips_match_most_specific_first() {
    assert_eq!(parse_apple_chip("apple m2 max"), "m2Max");
    assert_eq!(parse_apple_chip("apple m4 ultra"), "m4Ultra");
    assert_eq!(parse_apple_chip("apple m1"), "m1");
    assert_eq!(parse_apple_chip("apple m3 pro"), "m3Pro");
    assert_eq!(parse_apple_chip("apple silicon"), "unknown");
}

#[test]
fn gpu_backend_by_family() {
    assert_eq!(infer_gpu_backend("m3Pro", false), "metal");
    assert_eq!(infer_gpu_backend("m1", false), "metal");
    assert_eq!(infer_gpu_backend("mediatek", false), "vulkan");
    assert_eq!(infer_gpu_backend("tensorG4", false), "vulkan");
    assert_eq!(infer_gpu_backend("snapdragon", false), "vulkan");
    assert_eq!(infer_gpu_backend("kirin", false), "vulkan");
    assert_eq!(infer_gpu_backend("exynos", true), "vulkan");
    assert_eq!(infer_gpu_backend("armGeneric", true), "vulkan");
    assert_eq!(infer_gpu_backend("armGeneric", false), "cpu");
    assert_eq!(infer_gpu_backend("nvidiaGPU", false), "cuda");
    assert_eq!(infer_gpu_backend("amdGPU", false), "rocm");
    assert_eq!(infer_gpu_backend("intelCPU", false), "cpu");
}

#[test]
fn mobile_socs() {
    assert!(is_mobile_soc("tensorG3"));
    assert!(is_mobile_soc("snapdragon"));
    assert!(is_mobile_soc("mediatek"));
    assert!(!is_mobile_soc("armGeneric"));
    assert!(!is_mobile_soc("m2"));
}

#[test]
fn tiers_follow_family_and_memory() {
    assert_eq!(determine_tier("m2Ultra", 8 * GIB), 1);
    assert_eq!(determine_tier("m3Max", 8 * GIB), 1);
    assert_eq!(determine_tier("intelCPU", 64 * GIB), 1);
    assert_eq!(determine_tier("intelCPU", 64 * GIB - 1), 2);
    assert_eq!(determine_tier("tensorG4", 12 * GIB), 2);
    assert_eq!(determine_tier("tensorG4", 8 * GIB), 3);
    assert_eq!(determine_tier("intelCPU", 16 * GIB), 2);
    assert_eq!(determine_tier("intelCPU", 6 * GIB), 3);
    assert_eq!(determine_tier("armGeneric", 4 * GIB), 4);
}

#[test]
fn cpu_names_are_classified() {
    match classify_cpu("Apple M3 Pro") {
        CpuClass::Chip(c) => {
            assert_eq!(c.chip_family, "m3Pro");
            assert_eq!(c.chip_name, "Apple M3 Pro");
            assert_eq!((c.gpu_cores, c.bandwidth_gbs), (10, 200));
        }
        _ => panic!("expected apple"),
    }
    match classify_cpu("Intel(R) Core(TM) i7-9700K CPU @ 3.60GHz") {
        CpuClass::Chip(c) => assert_eq!((c.chip_family.as_str(), c.gpu_cores, c.bandwidth_gbs), ("intelCPU", 0, 50)),
        _ => panic!("expected intel"),
    }
    match classify_cpu("AMD Ryzen 9 7950X") {
        CpuClass::Chip(c) => assert_eq!(c.chip_family, "amdCPU"),
        _ => panic!("expected amd"),
    }
    assert!(matches!(classify_cpu("Cortex-A76"), CpuClass::Arm));
    match classify_cpu("RISC-V") {
        CpuClass::Chip(c) => assert_eq!((c.chip_family.as_str(), c.bandwidth_gbs), ("unknown", 25)),
        _ => panic!("expected unknown"),
    }
    let g = arm_chip_info("Cortex-A76", None);
    assert_eq!((g.chip_family.as_str(), g.chip_name.as_str(), g.bandwidth_gbs), ("armGeneric", "Cortex-A76", 25));
}

#[test]
fn hardware_line_of_cpuinfo() {
    let text = "processor\t: 0\nBogoMIPS\t: 38.40\nHardware\t: Qualcomm Technologies, Inc SM8550\r\nRevision\t: 0000\n";
    assert_eq!(hardware_field(text), Some("qualcomm technologies, inc sm8550".to_string()));
    assert_eq!(hardware_field("Hardware : Zuma Pro : extra"), Some("zuma pro".to_string()));
    assert_eq!(hardware_field("Hardware without colon\nHardware: later"), None);
    assert_eq!(hardware_field("processor: 0\n"), None);
}

#[test]
fn arm_socs_are_identified() {
    let t = classify_arm_soc("Hardware\t: Zuma Pro\n", None).unwrap();
    assert_eq!((t.chip_family.as_str(), t.chip_name.as_str(), t.gpu_cores, t.bandwidth_gbs), ("tensorG4", "Google Tensor G4", 7, 51));
    let t3 = classify_arm_soc("Hardware: Zuma\n", None).unwrap();
    assert_eq!(t3.chip_family, "tensorG3");
    let tg = classify_arm_soc("", Some("zuma\n")).unwrap();
    assert_eq!((tg.chip_family.as_str(), tg.bandwidth_gbs), ("tensorGeneric", 40));
    let q = classify_arm_soc("Hardware\t: Qualcomm Technologies, Inc SM8550\n", None).unwrap();
    assert_eq!(q.chip_family, "snapdragon");
    assert_eq!(q.chip_name, "Qualcomm qualcomm technologies, inc sm8550");
    assert_eq!(q.bandwidth_gbs, 44);
    let e = classify_arm_soc("Hardware: Exynos2100\n", None).unwrap();
    assert_eq!(e.chip_name, "Samsung Exynos (exynos2100)");
    let k = classify_arm_soc("Hardware: HiSilicon Kirin 9000\n", None).unwrap();
    assert_eq!(k.chip_family, "kirin");
    let m = classify_arm_soc("", Some("MT6983")).unwrap();
    assert_eq!((m.chip_family.as_str(), m.chip_name.as_str()), ("mediatek", "MediaTek ()"));
    assert!(classify_arm_soc("Hardware: BCM2835\n", None).is_none());
}

#[test]
fn platform_names() {
    assert_eq!(current_platform("macos"), "macOS");
    assert_eq!(current_platform("linux"), "linux");
    assert_eq!(current_platform("windows"), "windows");
    assert_eq!(current_platform("android"), "android");
    assert_eq!(current_platform("freebsd"), "unknown");
}

#[test]
fn gemma_prompt_has_turns_then_model_turn() {
    let p = format_chat_prompt(&vec![msg("system", "Be brief."), msg("user", "Hi"), msg("assistant", "Hello"), msg("tool", "x")]);
    assert_eq!(
        p,
        "<start_of_turn>system\nBe brief.<end_of_turn>\n<start_of_turn>user\nHi<end_of_turn>\n<start_of_turn>model\nHello<end_of_turn>\n<start_of_turn>tool\nx<end_of_turn>\n<start_of_turn>model\n"
    );
    assert_eq!(format_chat_prompt(&vec![]), "<start_of_turn>model\n");
}

#[test]
fn litert_engine_from_config() {
    match LiteRtEngine::new(&litert(None, None), false) {
        Err(e @ LiteRtError::BinaryNotFound(_)) => assert_eq!(
            e.message(),
            "litert_lm_main not found at 'litert_lm_main'. Build from LiteRT-LM repo or download."
        ),
        _ => panic!("expected missing binary"),
    }
    let e = LiteRtEngine::new(&litert(Some("/opt/litert_lm_main"), None), true).unwrap();
    assert_eq!(e.binary(), "/opt/litert_lm_main");
    assert_eq!(e.model_id(), "gemma3-1b");
    assert_eq!(e.loaded_models(), vec!["gemma3-1b".to_string()]);
    let named = LiteRtEngine::new(&litert(None, Some("gemma")), true).unwrap();
    assert_eq!(named.model_id(), "gemma");
    let fallback = LiteRtEngine::from_parts(&litert(None, None), true, None).unwrap();
    assert_eq!(fallback.model_id(), "/models/gemma3-1b.litertlm");
}

#[test]
fn litert_command_line() {
    let e = LiteRtEngine::new(&litert(None, Some("gemma")), true).unwrap();
    let args = e.command_args(&vec![msg("user", "Hi")], None);
    assert_eq!(
        args,
        vec![
            "--model_path", "/models/gemma3-1b.litertlm", "--backend", "cpu", "--max_tokens", "4096",
            "--prompt", "<start_of_turn>user\nHi<end_of_turn>\n<start_of_turn>model\n", "--cache_dir", "/tmp/cache",
        ]
    );
    let args2 = e.command_args(&vec![], Some(128));
    assert_eq!(args2[5], "128");
}

#[test]
fn chunks_are_numbered_and_skip_blank_lines() {
    let mut s = ChunkStream::new("gemma");
    assert!(s.chunk_for_line("   ").is_none());
    let c0 = s.chunk_for_line("  Hello \r").unwrap();
    assert_eq!((c0.id.as_str(), c0.model.as_str(), c0.content.as_deref()), ("chatcmpl-litert-0", "gemma", Some("Hello")));
    let c1 = s.chunk_for_line("world").unwrap();
    assert_eq!(c1.id, "chatcmpl-litert-1");
    assert_eq!(s.next_index(), 2);
    let f = s.final_chunk();
    assert_eq!((f.id.as_str(), f.content.is_none()), ("chatcmpl-litert-2", true));
}

#[test]
fn server_command_lines() {
    assert_eq!(
        llama_server_args(&llama()),
        vec!["--model", "/models/q.gguf", "--port", "11436", "--n-gpu-layers", "999", "--ctx-size", "8192", "--host", "127.0.0.1", "--flash-attn"]
    );
    let mut neg = llama();
    neg.gpu_layers = -1;
    assert_eq!(llama_server_args(&neg)[5], "-1");
    assert_eq!(
        mnn_server_args(&mnn()),
        vec!["--model_dir", "/models/qwen-mnn", "--port", "11437", "--max_length", "2048", "--backend_type", "opencl"]
    );
    let mesh = MeshConfig { binary: Some("mesh-llm".to_string()), endpoint: None, port: 9337, model_id: None, serve_args: vec!["--auto".to_string()] };
    assert_eq!(mesh_server_args(&mesh), vec!["serve", "--auto"]);
}

#[test]
fn context_warning_only_on_mobile_large_context() {
    assert!(context_warning(8192, true));
    assert!(!context_warning(4096, true));
    assert!(!context_warning(8192, false));
}

#[test]
fn proxy_endpoints() {
    let p = InferenceProxy::new(11436, "qwen");
    assert_eq!(p.health_url(), "http://127.0.0.1:11436/health");
    assert_eq!(p.completions_url(), "http://127.0.0.1:11436/v1/chat/completions");
    assert_eq!(p.loaded_models(), vec!["qwen".to_string()]);
    let m = InferenceProxy::with_base_url("http://10.0.0.2:9337".to_string(), "llama".to_string(), "/v1/models".to_string());
    assert_eq!(m.health_url(), "http://10.0.0.2:9337/v1/models");
    assert_eq!(models_url("http://h:1"), "http://h:1/v1/models");
}

#[test]
fn first_model_of_model_list() {
    assert_eq!(first_model_id(&ModelList { data: Some(vec![Some("a".to_string()), Some("b".to_string())]) }), Some("a".to_string()));
    assert_eq!(first_model_id(&ModelList { data: Some(vec![None, Some("b".to_string())]) }), None);
    assert_eq!(first_model_id(&ModelList { data: Some(vec![]) }), None);
    assert_eq!(first_model_id(&ModelList { data: None }), None);
}

#[test]
fn sse_lines_split_across_pieces() {
    let mut d = SseDecoder::new();
    let a = d.feed("data: {\"a\":1}\n\ndata: {\"b\"");
    assert_eq!(a.events, vec!["{\"a\":1}".to_string()]);
    assert!(!a.done);
    let b = d.feed(":2}\r\n: comment\ndata: [DONE]\ndata: {\"c\":3}\n");
    assert_eq!(b.events, vec!["{\"b\":2}".to_string()]);
    assert!(b.done);
}

#[test]
fn sse_pieces_equal_whole() {
    let text = "data: one\ndata: two\nevent: x\ndata: three\npartial";
    let mut whole = SseDecoder::new();
    let w = whole.feed(text);
    let mut parts = SseDecoder::new();
    let mut events = Vec::new();
    for piece in ["da", "ta: one\nda", "ta: two\neve", "nt: x\ndata: three\npart", "ial"] {
        events.extend(parts.feed(piece).events);
    }
    assert_eq!(events, w.events);
    assert_eq!(w.events, vec!["one", "two", "three"]);
}

#[test]
fn backend_reports_its_model() {
    let b = Backend::Http(InferenceProxy::new(1, "m1"));
    assert_eq!(b.loaded_models(), vec!["m1".to_string()]);
    let e = LiteRtEngine::new(&litert(None, Some("gemma")), true).unwrap();
    assert_eq!(Backend::LiteRt(e).loaded_models(), vec!["gemma".to_string()]);
}

#[test]
fn gpu_backends_stay_within_documented_values() {
    let documented = ["metal", "cuda", "rocm", "vulkan", "sycl", "cpu"];
    for family in ["m1", "m4Max", "tensorG4", "tensorG3", "tensorGeneric", "snapdragon", "exynos", "kirin", "mediatek", "armGeneric", "nvidiaGPU", "unknown"] {
        for android in [false, true] {
            assert!(documented.contains(&infer_gpu_backend(family, android)));
        }
    }
}

#[test]
fn summary_reports_soc_as_arm_generic() {
    let chip = classify_arm_soc("Hardware\t: Zuma Pro\n", None).unwrap();
    let s = summarize_hardware(chip, 12 * GIB, None, true, "android");
    assert_eq!(s.chip_family, "armGeneric");
    assert_eq!(s.chip_name, "Google Tensor G4");
    assert_eq!((s.gpu_core_count, s.bandwidth_gbs), (7, 51));
    assert_eq!(s.tier, 2);
    assert_eq!(s.tier, determine_tier("tensorG4", 12 * GIB));
    assert_eq!(s.gpu_backend, "vulkan");
    assert_eq!(s.platform, "android");
}

#[test]
fn summary_keeps_apple_family_and_configured_backend() {
    let chip = match classify_cpu("Apple M3 Pro") {
        CpuClass::Chip(c) => c,
        _ => panic!("expected an Apple chip"),
    };
    let s = summarize_hardware(chip, 36 * GIB, Some("cpu".to_string()), false, "macos");
    assert_eq!(s.chip_family, "m3Pro");
    assert_eq!(s.gpu_backend, "cpu");
    assert_eq!(s.tier, 2);
    assert_eq!(s.platform, "macOS");
    let k = classify_arm_soc("Hardware: HiSilicon Kirin 9000\n", None).unwrap();
    let ks = summarize_hardware(k, 8 * GIB, None, false, "linux");
    assert_eq!((ks.chip_family.as_str(), ks.gpu_backend.as_str(), ks.tier), ("armGeneric", "vulkan", 3));
}

#[test]
fn health_wait_steps() {
    assert!(matches!(health_step(HealthEvent::DeadlineChecked { passed: false }), HealthAction::Probe));
    assert!(matches!(health_step(HealthEvent::DeadlineChecked { passed: true }), HealthAction::TimedOut));
    assert!(matches!(health_step(HealthEvent::ProbeAnswered { status: Some(200) }), HealthAction::Ready));
    assert!(matches!(health_step(HealthEvent::ProbeAnswered { status: Some(204) }), HealthAction::RetryAfter { seconds: 2 }));
    assert!(matches!(health_step(HealthEvent::ProbeAnswered { status: Some(503) }), HealthAction::RetryAfter { seconds: 2 }));
    assert!(matches!(health_step(HealthEvent::ProbeAnswered { status: None }), HealthAction::RetryAfter { seconds: 2 }));
}

#[test]
fn health_timeout_text() {
    assert_eq!(
        health_timeout_message("http://127.0.0.1:11436/health", 10),
        "backend readiness probe (http://127.0.0.1:11436/health) timed out after 10s"
    );
}

#[test]
fn blank_lines_are_skipped_at_any_index() {
    let mut chunks = ChunkStream::new("gemma");
    assert!(chunks.chunk_for_line("   ").is_none());
    assert_eq!(chunks.next_index(), 0);
    assert!(chunks.chunk_for_line("hi").is_some());
    assert_eq!(chunks.next_index(), 1);
}

#[test]
fn sse_split_after_end_marker() {
    let text = "data: a\ndata: [DONE]\ndata: b\n";
    let w = SseDecoder::new().feed(text);
    assert_eq!((w.events.clone(), w.done), (vec!["a".to_string()], true));
    for split in [3, 10, 21, 24, text.len()] {
        let mut d = SseDecoder::new();
        let mut events = Vec::new();
        let mut done = false;
        for piece in [&text[..split], &text[split..]] {
            let out = d.feed(piece);
            events.extend(out.events);
            if out.done {
                done = true;
                break;
            }
        }
        assert_eq!((events, done), (w.events.clone(), w.done));
    }
}

#[test]
fn file_stems_and_names_of_plain_paths() {
    assert_eq!(path_file_stem("/models/gemma3-1b.litertlm"), Some("gemma3-1b".to_string()));
    assert_eq!(path_file_stem("models/archive.tar.gz"), Some("archive.tar".to_string()));
    assert_eq!(path_file_stem("/m/.hidden"), Some(".hidden".to_string()));
    assert_eq!(path_file_stem("/m/name."), Some("name".to_string()));
    assert_eq!(path_file_stem("plain"), Some("plain".to_string()));
    assert_eq!(path_file_stem("/m/.."), None);
    assert_eq!(path_file_name("/models/qwen-mnn"), Some("qwen-mnn".to_string()));
    assert_eq!(path_file_name("qwen.mnn"), Some("qwen.mnn".to_string()));
    assert_eq!(path_file_name("/"), None);
    assert_eq!(path_file_name("/models/.."), None);
}

#[test]
fn default_model_ids_take_the_path_stem_or_name() {
    let mut cfg = litert(None, None);
    cfg.model = "/srv/models/phi-4.task".to_string();
    assert_eq!(LiteRtEngine::new(&cfg, true).unwrap().model_id(), "phi-4");
    let mut m = config("mnn");
    let mut dir = mnn();
    dir.model_dir = "/opt/mnn/Qwen3-4B-MNN".to_string();
    m.mnn = Some(dir);
    assert_eq!(m.http_target(), (11437, "Qwen3-4B-MNN".to_string()));
}

#[test]
fn only_json_payloads_are_passed_on() {
    let events: Vec<String> = ["{\"a\":1}", "not json", "[1,2]", "", "\"s\"", "{broken"].iter().map(|e| e.to_string()).collect();
    assert_eq!(json_payloads_of(&events), vec!["{\"a\":1}".to_string(), "[1,2]".to_string(), "\"s\"".to_string()]);
    assert!(json_payloads_of(&vec![]).is_empty());
}
