use candle_core::Device;
use gemma_pipeline::config::{Activation, BasicConfig, GemmaSpecificConfig};
use gemma_pipeline::error::{DownloadError, LoadError, VariantIssue};
use gemma_pipeline::loader::{DType, Fetch, GemmaLoader, ModelKind};
use gemma_pipeline::paths::{
    AdapterBundle, AdapterOrdering, GemmaModelPaths, LoraConfig, XLoraConfig,
};
use gemma_pipeline::pipeline::LoadedModel;
use gemma_pipeline::template::{ChatTemplate, EosToken};
use tokenizers::Tokenizer;

const TOKENIZER_JSON: &str = "{\"version\":\"1.0\",\"truncation\":null,\"padding\":null,\"added_tokens\":[{\"id\":3,\"content\":\"<eos>\",\"single_word\":false,\"lstrip\":false,\"rstrip\":false,\"normalized\":false,\"special\":true}],\"normalizer\":null,\"pre_tokenizer\":null,\"post_processor\":null,\"decoder\":null,\"model\":{\"type\":\"WordLevel\",\"vocab\":{\"<unk>\":0,\"hello\":1,\"world\":2},\"unk_token\":\"<unk>\"}}";

fn loader_of(kind: ModelKind, xlora_model_id: Option<String>, tokenizer_json: Option<String>) -> GemmaLoader {
    GemmaLoader::new(
        "google/gemma-2b".to_string(),
        GemmaSpecificConfig { repeat_last_n: 64 },
        None,
        None,
        xlora_model_id,
        kind,
        None,
        false,
        None,
        tokenizer_json,
    )
}

fn raw_config() -> BasicConfig {
    BasicConfig {
        attention_bias: false,
        head_dim: 32,
        hidden_act: Activation::Gelu,
        hidden_size: 128,
        intermediate_size: 512,
        num_attention_heads: 4,
        num_hidden_layers: 2,
        num_key_value_heads: 4,
        rms_norm_eps: 1e-6f64.to_bits(),
        rope_theta: 10000f64.to_bits(),
        vocab_size: 32000,
        max_position_embeddings: None,
    }
}

fn bundle() -> AdapterBundle<String> {
    AdapterBundle {
        adapter_filenames: vec![
            ("first".to_string(), "adapters/first.safetensors".to_string()),
            ("second".to_string(), "adapters/second.safetensors".to_string()),
        ],
        adapter_configs: vec![
            ("first".to_string(), LoraConfig { document: "{\"r\":8}".to_string() }),
            ("second".to_string(), LoraConfig { document: "{\"r\":16}".to_string() }),
        ],
        classifier_path: "classifier.safetensors".to_string(),
        classifier_config: XLoraConfig { document: "{}".to_string() },
        ordering: AdapterOrdering { document: "{\"order\":[\"first\",\"second\"]}".to_string() },
    }
}

fn paths_of(adapters: Option<AdapterBundle<String>>) -> GemmaModelPaths<String> {
    GemmaModelPaths::new(
        "tokenizer.json".to_string(),
        "config.json".to_string(),
        "tokenizer_config.json".to_string(),
        vec!["model-00001.safetensors".to_string(), "model-00002.safetensors".to_string()],
        adapters,
    )
}

fn loaded() -> LoadedModel {
    LoadedModel { device: Device::Cpu, max_seq_len: 4096, num_hidden_layers: 2 }
}

fn template() -> Result<ChatTemplate, String> {
    Ok(ChatTemplate { eos_token: EosToken::Literal("<eos>".to_string()), chat_template: None })
}

fn tokenizer() -> Result<Tokenizer, String> {
    Tokenizer::from_bytes(TOKENIZER_JSON.as_bytes()).map_err(|e| e.to_string())
}

#[test]
fn new_keeps_every_argument() {
    let loader = GemmaLoader::new(
        "id".to_string(),
        GemmaSpecificConfig { repeat_last_n: 7 },
        Some("quantized".to_string()),
        Some("file.gguf".to_string()),
        Some("adapter".to_string()),
        ModelKind::XLoraNormal,
        Some(AdapterOrdering { document: "{}".to_string() }),
        true,
        Some("{{ messages }}".to_string()),
        Some("local/tokenizer.json".to_string()),
    );
    assert_eq!(loader.model_id, "id");
    assert_eq!(loader.config.repeat_last_n, 7);
    assert_eq!(loader.quantized_model_id, Some("quantized".to_string()));
    assert_eq!(loader.quantized_filename, Some("file.gguf".to_string()));
    assert_eq!(loader.xlora_model_id, Some("adapter".to_string()));
    assert_eq!(loader.kind, ModelKind::XLoraNormal);
    assert_eq!(loader.xlora_order, Some(AdapterOrdering { document: "{}".to_string() }));
    assert!(loader.no_kv_cache);
    assert_eq!(loader.chat_template, Some("{{ messages }}".to_string()));
    assert_eq!(loader.tokenizer_json, Some("local/tokenizer.json".to_string()));
}

#[test]
fn plan_defaults_revision_to_main() {
    let plan = loader_of(ModelKind::Normal, None, None).download_plan(None);
    assert_eq!(plan.revision, "main");
    assert_eq!(plan.tokenizer_override, None);
    assert_eq!(plan.fetches, vec![Fetch::Tokenizer, Fetch::Config, Fetch::Weights, Fetch::Template]);
}

#[test]
fn plan_keeps_given_revision() {
    let plan = loader_of(ModelKind::Normal, None, None).download_plan(Some("v1.1".to_string()));
    assert_eq!(plan.revision, "v1.1");
}

#[test]
fn plan_uses_local_tokenizer_verbatim() {
    let loader = loader_of(ModelKind::Normal, None, Some("/models/tok.json".to_string()));
    let plan = loader.download_plan(None);
    assert_eq!(plan.tokenizer_override, Some("/models/tok.json".to_string()));
    assert_eq!(plan.fetches, vec![Fetch::Config, Fetch::Weights, Fetch::Template]);
}

#[test]
fn plan_fetches_adapters_only_for_the_adapter_kind() {
    let loader = loader_of(ModelKind::XLoraNormal, Some("adapters/repo".to_string()), None);
    let plan = loader.download_plan(None);
    assert_eq!(
        plan.fetches,
        vec![Fetch::Tokenizer, Fetch::Config, Fetch::Weights, Fetch::Adapters, Fetch::Template]
    );
    let both = loader_of(
        ModelKind::XLoraNormal,
        Some("adapters/repo".to_string()),
        Some("tok.json".to_string()),
    );
    assert_eq!(
        both.download_plan(None).fetches,
        vec![Fetch::Config, Fetch::Weights, Fetch::Adapters, Fetch::Template]
    );
    let unnamed = loader_of(ModelKind::XLoraNormal, None, None);
    assert!(unnamed.download_plan(None).fetches.contains(&Fetch::Adapters));
}

#[test]
fn plan_of_other_kinds_fetches_no_adapters() {
    for kind in [
        ModelKind::Normal,
        ModelKind::QuantizedGGUF,
        ModelKind::QuantizedGGML,
        ModelKind::XLoraGGUF,
        ModelKind::XLoraGGML,
    ] {
        let loader = loader_of(kind, Some("adapters/repo".to_string()), None);
        assert_eq!(
            loader.download_plan(None).fetches,
            vec![Fetch::Tokenizer, Fetch::Config, Fetch::Weights, Fetch::Template]
        );
        assert!(!kind.requests_adapters());
    }
    assert!(ModelKind::XLoraNormal.requests_adapters());
}

fn acquired(
    loader: &GemmaLoader,
    adapters: Option<AdapterBundle<String>>,
) -> Result<GemmaModelPaths<String>, DownloadError> {
    loader.download_model(
        "tokenizer.json".to_string(),
        "config.json".to_string(),
        "tokenizer_config.json".to_string(),
        vec!["model-00001.safetensors".to_string()],
        adapters,
    )
}

#[test]
fn acquired_adapter_model_holds_the_bundle() {
    let loader = loader_of(ModelKind::XLoraNormal, Some("adapters/repo".to_string()), None);
    let paths = acquired(&loader, Some(bundle())).unwrap();
    assert!(paths.adapters_complete());
    assert_eq!(paths.get_adapter_filenames(), &Some(bundle().adapter_filenames));
    assert_eq!(paths.get_adapter_configs(), &Some(bundle().adapter_configs));
    assert_eq!(paths.get_classifier_path(), &Some("classifier.safetensors".to_string()));
    assert_eq!(paths.get_classifier_config(), &Some(bundle().classifier_config));
    assert_eq!(paths.get_ordering(), &Some(bundle().ordering));
    assert_eq!(paths.get_tokenizer_filename(), "tokenizer.json");
    assert_eq!(paths.get_config_filename(), "config.json");
    assert_eq!(paths.get_template_filename(), "tokenizer_config.json");
    assert_eq!(paths.get_weight_filenames(), &vec!["model-00001.safetensors".to_string()]);
}

#[test]
fn acquired_adapter_model_without_bundle_is_not_found() {
    let loader = loader_of(ModelKind::XLoraNormal, None, None);
    assert_eq!(acquired(&loader, None).err(), Some(DownloadError::NotFound));
}

#[test]
fn acquired_base_model_holds_no_adapters() {
    let loader = loader_of(ModelKind::Normal, Some("adapters/repo".to_string()), None);
    let paths = acquired(&loader, Some(bundle())).unwrap();
    assert!(!paths.adapters_complete());
    assert_eq!(paths.get_adapter_filenames(), &None);
    assert_eq!(paths.get_adapter_configs(), &None);
    assert_eq!(paths.get_classifier_path(), &None);
    assert_eq!(paths.get_classifier_config(), &None);
    assert_eq!(paths.get_ordering(), &None);
    let paths = acquired(&loader, None).unwrap();
    assert!(!paths.adapters_complete());
    assert_eq!(paths.get_weight_filenames(), &vec!["model-00001.safetensors".to_string()]);
}

#[test]
fn store_answers_are_classified_by_status() {
    assert_eq!(DownloadError::from_status(Some(404)), DownloadError::NotFound);
    assert_eq!(DownloadError::from_status(Some(401)), DownloadError::Auth);
    assert_eq!(DownloadError::from_status(Some(403)), DownloadError::Auth);
    assert_eq!(DownloadError::from_status(Some(500)), DownloadError::Network);
    assert_eq!(DownloadError::from_status(Some(429)), DownloadError::Network);
    assert_eq!(DownloadError::from_status(Some(0)), DownloadError::Network);
    assert_eq!(DownloadError::from_status(None), DownloadError::Network);
}

#[test]
fn remote_names_of_single_files() {
    assert_eq!(Fetch::Tokenizer.remote_name(), Some("tokenizer.json"));
    assert_eq!(Fetch::Config.remote_name(), Some("config.json"));
    assert_eq!(Fetch::Template.remote_name(), Some("tokenizer_config.json"));
    assert_eq!(Fetch::Weights.remote_name(), None);
    assert_eq!(Fetch::Adapters.remote_name(), None);
}

#[test]
fn paths_with_bundle_hold_all_adapter_artifacts() {
    let paths = paths_of(Some(bundle()));
    assert!(paths.adapters_complete());
    assert_eq!(paths.get_tokenizer_filename(), "tokenizer.json");
    assert_eq!(paths.get_config_filename(), "config.json");
    assert_eq!(paths.get_template_filename(), "tokenizer_config.json");
    assert_eq!(paths.get_weight_filenames().len(), 2);
    assert_eq!(paths.get_adapter_filenames(), &Some(bundle().adapter_filenames));
    assert_eq!(paths.get_adapter_configs(), &Some(bundle().adapter_configs));
    assert_eq!(paths.get_classifier_path(), &Some("classifier.safetensors".to_string()));
    assert_eq!(paths.get_classifier_config(), &Some(XLoraConfig { document: "{}".to_string() }));
    assert_eq!(paths.get_ordering(), &Some(bundle().ordering));
}

#[test]
fn paths_without_bundle_hold_none() {
    let paths = paths_of(None);
    assert!(!paths.adapters_complete());
    assert_eq!(paths.get_adapter_filenames(), &None);
    assert_eq!(paths.get_adapter_configs(), &None);
    assert_eq!(paths.get_classifier_path(), &None);
    assert_eq!(paths.get_classifier_config(), &None);
    assert_eq!(paths.get_ordering(), &None);
    assert_eq!(
        paths.get_weight_filenames(),
        &vec!["model-00001.safetensors".to_string(), "model-00002.safetensors".to_string()]
    );
}

#[test]
fn one_missing_artifact_makes_the_bundle_incomplete() {
    let mut paths = paths_of(Some(bundle()));
    paths.xlora_ordering = None;
    assert!(!paths.adapters_complete());
    let mut paths = paths_of(Some(bundle()));
    paths.classifier_config = None;
    assert!(!paths.adapters_complete());
}

#[test]
fn base_plan_lists_the_shards() {
    let loader = loader_of(ModelKind::Normal, None, None);
    let paths = paths_of(None);
    let plan = loader.plan_model(&paths, Ok(raw_config()), None, &Device::Cpu).unwrap();
    assert!(plan.adapters.is_none());
    assert_eq!(plan.dtype, DType::F32);
    assert_eq!(plan.config.max_position_embeddings, 4096);
    assert_eq!(plan.config.vocab_size, 32000);
    assert_eq!(plan.weight_files, vec!["model-00001.safetensors", "model-00002.safetensors"]);
}

#[test]
fn base_plan_ignores_adapter_artifacts() {
    let loader = loader_of(ModelKind::Normal, None, None);
    let paths = paths_of(Some(bundle()));
    let plan = loader.plan_model(&paths, Ok(raw_config()), None, &Device::Cpu).unwrap();
    assert!(plan.adapters.is_none());
    assert_eq!(plan.weight_files, vec!["model-00001.safetensors", "model-00002.safetensors"]);
}

#[test]
fn adapter_plan_adds_classifier_and_adapters() {
    let loader = loader_of(ModelKind::XLoraNormal, Some("adapters/repo".to_string()), None);
    let paths = paths_of(Some(bundle()));
    let plan = loader.plan_model(&paths, Ok(raw_config()), None, &Device::Cpu).unwrap();
    assert_eq!(
        plan.weight_files,
        vec!["model-00001.safetensors", "model-00002.safetensors", "classifier.safetensors"]
    );
    let adapters = plan.adapters.unwrap();
    assert_eq!(
        adapters.adapter_files,
        vec!["adapters/first.safetensors", "adapters/second.safetensors"]
    );
    assert_eq!(adapters.adapter_configs, &bundle().adapter_configs);
    assert_eq!(adapters.classifier_config, &XLoraConfig { document: "{}".to_string() });
    assert_eq!(adapters.ordering, &bundle().ordering);
}

#[test]
fn explicit_precision_overrides_default() {
    let loader = loader_of(ModelKind::Normal, None, None);
    let paths = paths_of(None);
    let plan = loader.plan_model(&paths, Ok(raw_config()), Some(DType::F16), &Device::Cpu).unwrap();
    assert_eq!(plan.dtype, DType::F16);
    let plan = loader.plan_model(&paths, Ok(raw_config()), Some(DType::BF16), &Device::Cpu).unwrap();
    assert_eq!(plan.dtype, DType::BF16);
}

#[test]
fn unreadable_config_is_reported_first() {
    let loader = loader_of(ModelKind::QuantizedGGUF, None, None);
    let paths = paths_of(None);
    let r = loader.plan_model(&paths, Err("missing field `vocab_size`".to_string()), None, &Device::Cpu);
    assert_eq!(r.err(), Some(LoadError::ConfigParse("missing field `vocab_size`".to_string())));
}

#[test]
fn quantized_kinds_are_refused() {
    let paths = paths_of(Some(bundle()));
    for kind in [
        ModelKind::QuantizedGGUF,
        ModelKind::QuantizedGGML,
        ModelKind::XLoraGGUF,
        ModelKind::XLoraGGML,
    ] {
        let loader = loader_of(kind, None, None);
        assert_eq!(loader.choose_variant(&paths), Err(VariantIssue::QuantizedFormat));
        let r = loader.plan_model(&paths, Ok(raw_config()), None, &Device::Cpu);
        assert_eq!(r.err(), Some(LoadError::UnsupportedVariant(VariantIssue::QuantizedFormat)));
        let r = loader.assemble(&paths, Ok(loaded()), tokenizer(), template());
        assert_eq!(r.err(), Some(LoadError::UnsupportedVariant(VariantIssue::QuantizedFormat)));
    }
}

#[test]
fn adapter_model_without_adapters_fails_at_build() {
    let loader = loader_of(ModelKind::XLoraNormal, Some("adapters/repo".to_string()), None);
    let paths = paths_of(None);
    assert_eq!(loader.choose_variant(&paths), Err(VariantIssue::MissingAdapters));
    let r = loader.plan_model(&paths, Ok(raw_config()), None, &Device::Cpu);
    assert_eq!(r.err(), Some(LoadError::UnsupportedVariant(VariantIssue::MissingAdapters)));
    let r = loader.assemble(&paths, Ok(loaded()), tokenizer(), template());
    assert_eq!(r.err(), Some(LoadError::UnsupportedVariant(VariantIssue::MissingAdapters)));
    let mut partial = paths_of(Some(bundle()));
    partial.xlora_adapter_configs = None;
    let r = loader.plan_model(&partial, Ok(raw_config()), None, &Device::Cpu);
    assert_eq!(r.err(), Some(LoadError::UnsupportedVariant(VariantIssue::MissingAdapters)));
}

#[test]
fn build_matches_requested_kind() {
    let base = loader_of(ModelKind::Normal, None, None)
        .assemble(&paths_of(None), Ok(loaded()), tokenizer(), template())
        .unwrap();
    assert!(!base.is_xlora());
    
    let augmented = loader_of(ModelKind::XLoraNormal, Some("adapters/repo".to_string()), None)
        .assemble(&paths_of(Some(bundle())), Ok(loaded()), tokenizer(), template())
        .unwrap();
    assert!(augmented.is_xlora());
    
}

#[test]
fn build_carries_loader_settings() {
    let loader = GemmaLoader::new(
        "id".to_string(),
        GemmaSpecificConfig { repeat_last_n: 3 },
        None,
        None,
        None,
        ModelKind::Normal,
        None,
        true,
        Some("override".to_string()),
        None,
    );
    let pipeline = loader
        .assemble(&paths_of(None), Ok(loaded()), tokenizer(), template())
        .unwrap();
    assert_eq!(pipeline.config().repeat_last_n, 3);
    assert!(pipeline.has_no_kv_cache());
    assert_eq!(pipeline.get_chat_template().chat_template, Some("override".to_string()));
    assert_eq!(pipeline.get_chat_template().eos_token, EosToken::Literal("<eos>".to_string()));
    assert_eq!(pipeline.get_max_seq_len(), 4096);
    assert_eq!(pipeline.num_hidden_layers(), 2);
    assert!(!pipeline.device().is_cuda());
    assert_eq!(pipeline.name(), "gemma");
    assert_eq!(pipeline.tokenizer().token_to_id("hello"), Some(1));
}

#[test]
fn failed_weights_are_reported_before_the_tokenizer() {
    let loader = loader_of(ModelKind::Normal, None, None);
    let r = loader.assemble(
        &paths_of(None),
        Err("shard is truncated".to_string()),
        Err("bad json".to_string()),
        Err("no template".to_string()),
    );
    assert_eq!(r.err(), Some(LoadError::WeightLoad("shard is truncated".to_string())));
}

#[test]
fn failed_tokenizer_is_reported_before_the_template() {
    let loader = loader_of(ModelKind::Normal, None, None);
    let r = loader.assemble(
        &paths_of(None),
        Ok(loaded()),
        Err("bad json".to_string()),
        Err("no template".to_string()),
    );
    assert_eq!(r.err(), Some(LoadError::TokenizerLoad("bad json".to_string())));
}

#[test]
fn unreadable_template_fails_the_build() {
    let loader = loader_of(ModelKind::Normal, None, None);
    let r = loader.assemble(
        &paths_of(None),
        Ok(loaded()),
        tokenizer(),
        Err("missing field `eos_token`".to_string()),
    );
    assert_eq!(r.err(), Some(LoadError::ConfigParse("missing field `eos_token`".to_string())));
}

#[test]
fn refused_variant_is_reported_before_everything_else() {
    let loader = loader_of(ModelKind::XLoraGGML, None, None);
    let r = loader.assemble(
        &paths_of(None),
        Err("shard is truncated".to_string()),
        Err("bad json".to_string()),
        Err("no template".to_string()),
    );
    assert_eq!(r.err(), Some(LoadError::UnsupportedVariant(VariantIssue::QuantizedFormat)));
}
