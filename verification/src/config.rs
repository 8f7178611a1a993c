//! Model hyperparameters: the raw on-disk schema and its normalized form.

use vstd::prelude::*;

verus! {

/// Position-embedding ceiling used when the raw configuration gives none.
pub open spec fn spec_default_max_position_embeddings() -> usize {
    4096
}

/// Position-embedding ceiling used when the raw configuration gives none.
#[verifier::when_used_as_spec(spec_default_max_position_embeddings)]
pub fn default_max_position_embeddings() -> (r: usize)
    ensures
        r == spec_default_max_position_embeddings(),
{
    4096
}

/// Sampling settings that belong to the pipeline rather than to a sequence.
#[derive(Clone, Copy, Debug, PartialEq, Eq, Structural)]
pub struct GemmaSpecificConfig {
    /// How many trailing history tokens take part in the repetition penalty.
    pub repeat_last_n: usize,
}

/// Activation function of the feed-forward blocks.
///
/// The two parameterized kinds carry their parameter as the IEEE-754 bit
/// pattern of a double, so that the value passes through unchanged.
#[derive(Clone, Copy, Debug, PartialEq, Eq, Structural)]
pub enum Activation {
    Gelu,
    NewGelu,
    Relu,
    Relu2,
    Relu6,
    Silu,
    Sigmoid,
    HardSigmoid,
    Swiglu,
    Swish,
    HardSwish,
    Elu(u64),
    LeakyRelu(u64),
}

/// The configuration as the model's `config.json` states it.
///
/// `max_position_embeddings` is `None` where the file leaves it out.
/// `rms_norm_eps` and `rope_theta` are held as the bit patterns of the
/// doubles in the file.
#[derive(Clone, Copy, Debug, PartialEq, Eq, Structural)]
pub struct BasicConfig {
    pub attention_bias: bool,
    pub head_dim: usize,
    pub hidden_act: Activation,
    pub hidden_size: usize,
    pub intermediate_size: usize,
    pub num_attention_heads: usize,
    pub num_hidden_layers: usize,
    pub num_key_value_heads: usize,
    pub rms_norm_eps: u64,
    pub rope_theta: u64,
    pub vocab_size: usize,
    pub max_position_embeddings: Option<usize>,
}

/// The hyperparameters a model is built from. Every field is settled.
#[derive(Clone, Copy, Debug, PartialEq, Eq, Structural)]
pub struct Config {
    pub attention_bias: bool,
    pub head_dim: usize,
    pub hidden_act: Activation,
    pub hidden_size: usize,
    pub intermediate_size: usize,
    pub num_attention_heads: usize,
    pub num_hidden_layers: usize,
    pub num_key_value_heads: usize,
    pub rms_norm_eps: u64,
    pub rope_theta: u64,
    pub vocab_size: usize,
    pub max_position_embeddings: usize,
}

impl BasicConfig {
    /// The normalized configuration that this raw one stands for: every field
    /// is carried over, and a missing position-embedding ceiling becomes the
    /// default.
    pub open spec fn normalized(self) -> Config {
        Config {
            attention_bias: self.attention_bias,
            head_dim: self.head_dim,
            hidden_act: self.hidden_act,
            hidden_size: self.hidden_size,
            intermediate_size: self.intermediate_size,
            num_attention_heads: self.num_attention_heads,
            num_hidden_layers: self.num_hidden_layers,
            num_key_value_heads: self.num_key_value_heads,
            rms_norm_eps: self.rms_norm_eps,
            rope_theta: self.rope_theta,
            vocab_size: self.vocab_size,
            max_position_embeddings: match self.max_position_embeddings {
                Some(limit) => limit,
                None => default_max_position_embeddings(),
            },
        }
    }

    /// Normalizes the raw configuration.
    pub fn normalize(&self) -> (config: Config)
        ensures
            config == self.normalized(),
            self.max_position_embeddings is None ==> config.max_position_embeddings == 4096,
            self.max_position_embeddings matches Some(limit) ==> config.max_position_embeddings
                == limit,
    {
        let max_position_embeddings: usize = match self.max_position_embeddings {
            Some(limit) => limit,
            None => default_max_position_embeddings(),
        };
        Config {
            attention_bias: self.attention_bias,
            head_dim: self.head_dim,
            hidden_act: self.hidden_act,
            hidden_size: self.hidden_size,
            intermediate_size: self.intermediate_size,
            num_attention_heads: self.num_attention_heads,
            num_hidden_layers: self.num_hidden_layers,
            num_key_value_heads: self.num_key_value_heads,
            rms_norm_eps: self.rms_norm_eps,
            rope_theta: self.rope_theta,
            vocab_size: self.vocab_size,
            max_position_embeddings,
        }
    }
}

} // verus!
