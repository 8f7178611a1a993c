use gemma_pipeline::config::{
    default_max_position_embeddings, Activation, BasicConfig, GemmaSpecificConfig,
};

fn minimal(max_position_embeddings: Option<usize>) -> BasicConfig {
    BasicConfig {
        attention_bias: false,
        head_dim: 32,
        hidden_act: Activation::Gelu,
        hidden_size: 128,
        intermediate_size: 512,
        num_attention_heads: 4,
        num_hidden_layers: 2,
        num_key_value_heads: 4,
        rms_norm_eps: 1e-6f64.to_bits(),
        rope_theta: 10000f64.to_bits(),
        vocab_size: 32000,
        max_position_embeddings,
    }
}

#[test]
fn default_ceiling_is_4096() {
    assert_eq!(default_max_position_embeddings(), 4096);
}

#[test]
fn missing_ceiling_is_defaulted() {
    let config = minimal(None).normalize();
    assert_eq!(config.max_position_embeddings, 4096);
}

#[test]
fn explicit_ceiling_overrides_default() {
    assert_eq!(minimal(Some(8192)).normalize().max_position_embeddings, 8192);
    assert_eq!(minimal(Some(0)).normalize().max_position_embeddings, 0);
    assert_eq!(minimal(Some(4096)).normalize().max_position_embeddings, 4096);
}

#[test]
fn normalize_keeps_every_other_field() {
    let raw = minimal(None);
    let config = raw.normalize();
    assert_eq!(config.vocab_size, 32000);
    assert_eq!(config.hidden_size, 128);
    assert_eq!(config.intermediate_size, 512);
    assert_eq!(config.num_hidden_layers, 2);
    assert_eq!(config.num_attention_heads, 4);
    assert_eq!(config.num_key_value_heads, 4);
    assert_eq!(config.head_dim, 32);
    assert_eq!(config.hidden_act, Activation::Gelu);
    assert!(!config.attention_bias);
    assert_eq!(f64::from_bits(config.rms_norm_eps), 1e-6);
    assert_eq!(f64::from_bits(config.rope_theta), 10000.0);
}

#[test]
fn parameterized_activation_passes_through() {
    let mut raw = minimal(Some(16));
    raw.hidden_act = Activation::LeakyRelu(0.01f64.to_bits());
    raw.attention_bias = true;
    let config = raw.normalize();
    assert_eq!(config.hidden_act, Activation::LeakyRelu(0.01f64.to_bits()));
    assert!(config.attention_bias);
    assert_eq!(config.max_position_embeddings, 16);
}

#[test]
fn specific_config_is_a_plain_value() {
    let a = GemmaSpecificConfig { repeat_last_n: 64 };
    let b = a;
    assert_eq!(a, b);
    assert_eq!(b.repeat_last_n, 64);
}
