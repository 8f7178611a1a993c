//! The loaded pipeline and its operations.

use vstd::prelude::*;
use vstd::pervasive::unreached;
use candle_core::{Device, Tensor};
use tokenizers::Tokenizer;
use crate::config::GemmaSpecificConfig;
use crate::error::PipelineError;
use crate::inputs::{are_windows_of, calculate_inputs, InputWindow};
use crate::sampling::{
    can_be_flattened, flatten_logits, is_sampler_input_of, repetition_context, SamplerInput,
};
use crate::template::ChatTemplate;
use crate::tensor::{tensor_is_contiguous, tensor_is_f32, tensor_shape};
use crate::vocab::{vocabulary, vocabulary_entries};

verus! {

/// What a constructed model reports of itself.
pub struct LoadedModel {
    /// The device the model computes on.
    pub device: Device,
    /// The longest sequence the model accepts.
    pub max_seq_len: usize,
    /// The number of layers, which is the number of key/value cache slots.
    pub num_hidden_layers: usize,
}

/// The model of a pipeline: a base model, or one augmented with adapters.
pub enum Model {
    Normal(LoadedModel),
    XLoraNormal(LoadedModel),
}

/// How one generation step addresses the model.
#[derive(Clone, Debug, PartialEq, Eq)]
pub enum ForwardCall {
    /// A base model computes on the incremental windows alone.
    Incremental { windows: Vec<InputWindow> },
    /// An adapter-augmented model computes on the incremental windows, and
    /// its classifier on the full context; it is told whether a key/value
    /// cache is in use.
    Dual { windows: Vec<InputWindow>, full: Vec<InputWindow>, no_kv_cache: bool },
}

/// A loaded Gemma model with its tokenizer, sampling settings and chat
/// template.
///
/// The parts are fixed when the pipeline is made: no operation replaces the
/// model or changes its variant.
pub struct GemmaPipeline {
    model: Model,
    tokenizer: Tokenizer,
    config: GemmaSpecificConfig,
    no_kv_cache: bool,
    chat_template: ChatTemplate,
}

impl Model {
    /// What the model reports of itself, whichever variant it is.
    pub open spec fn loaded(&self) -> LoadedModel {
        match self {
            Model::Normal(m) => *m,
            Model::XLoraNormal(m) => *m,
        }
    }
}

impl GemmaPipeline {
    /// The model.
    pub closed spec fn spec_model(&self) -> Model {
        self.model
    }

    /// The tokenizer.
    pub closed spec fn spec_tokenizer(&self) -> Tokenizer {
        self.tokenizer
    }

    /// The sampling settings.
    pub closed spec fn spec_config(&self) -> GemmaSpecificConfig {
        self.config
    }

    /// Whether the pipeline runs without a key/value cache.
    pub closed spec fn spec_no_kv_cache(&self) -> bool {
        self.no_kv_cache
    }

    /// The chat template.
    pub closed spec fn spec_chat_template(&self) -> ChatTemplate {
        self.chat_template
    }

    /// Whether the model is adapter-augmented.
    pub open spec fn spec_is_xlora(&self) -> bool {
        self.spec_model() is XLoraNormal
    }

    /// The marker that ends a sequence, as the chat template gives it.
    pub open spec fn eos_text(&self) -> Seq<char> {
        self.spec_chat_template().eos_token.text()
    }

    /// Makes a pipeline of its parts.
    pub fn new(
        model: Model,
        tokenizer: Tokenizer,
        config: GemmaSpecificConfig,
        no_kv_cache: bool,
        chat_template: ChatTemplate,
    ) -> (pipeline: Self)
        ensures
            pipeline.spec_model() == model,
            pipeline.spec_tokenizer() == tokenizer,
            pipeline.spec_config() == config,
            pipeline.spec_no_kv_cache() == no_kv_cache,
            pipeline.spec_chat_template() == chat_template,
    {
        GemmaPipeline { model, tokenizer, config, no_kv_cache, chat_template }
    }

    /// The call that one generation step makes on the model, for a batch of
    /// sequences given by their token histories.
    ///
    /// The incremental windows hold the whole context on a prompt, or where
    /// the pipeline runs without a key/value cache, and the last token
    /// otherwise. A base model gets nothing else; an adapter-augmented model
    /// gets the full context and the no-cache flag as well.
    pub fn forward(&self, histories: &Vec<Vec<u32>>, is_prompt: bool) -> (call: ForwardCall)
        ensures
            match call {
                ForwardCall::Incremental { windows } => {
                    &&& !self.spec_is_xlora()
                    &&& are_windows_of(windows@, histories@, is_prompt || self.spec_no_kv_cache())
                },
                ForwardCall::Dual { windows, full, no_kv_cache } => {
                    &&& self.spec_is_xlora()
                    &&& are_windows_of(windows@, histories@, is_prompt || self.spec_no_kv_cache())
                    &&& are_windows_of(full@, histories@, true)
                    &&& no_kv_cache == self.spec_no_kv_cache()
                },
            },
    {
        let inputs = calculate_inputs(histories, is_prompt, self.is_xlora(), self.no_kv_cache);
        match inputs.full {
            None => ForwardCall::Incremental { windows: inputs.incremental },
            Some(full) => ForwardCall::Dual {
                windows: inputs.incremental,
                full,
                no_kv_cache: self.no_kv_cache,
            },
        }
    }

    /// The device the model computes on.
    pub fn device(&self) -> (device: &Device)
        ensures
            *device == self.spec_model().loaded().device,
    {
        match &self.model {
            Model::Normal(model) => &model.device,
            Model::XLoraNormal(model) => &model.device,
        }
    }

    /// The number of layers of the model.
    pub fn num_hidden_layers(&self) -> (layers: usize)
        ensures
            layers == self.spec_model().loaded().num_hidden_layers,
    {
        match &self.model {
            Model::Normal(model) => model.num_hidden_layers,
            Model::XLoraNormal(model) => model.num_hidden_layers,
        }
    }

    /// What a sequence's sampler is to be called with: the logits as a flat
    /// distribution in single precision, with their values kept, and the
    /// trailing `repeat_last_n` tokens of the sequence's history, or all of
    /// them where it has fewer, in the order of the history.
    ///
    /// Whether the logits can be flattened is as [`flatten_logits`] says.
    pub fn sample(&self, logits: &Tensor, history: &Vec<u32>) -> (r: Result<
        SamplerInput,
        PipelineError,
    >)
        ensures
            r matches Ok(input) ==> is_sampler_input_of(
                input,
                *logits,
                history@,
                self.spec_config().repeat_last_n,
            ),
            r matches Err(e) ==> e is ComputeFailure,
            !can_be_flattened(tensor_shape(*logits)) ==> r is Err,
            can_be_flattened(tensor_shape(*logits)) && tensor_is_f32(*logits) && (
            tensor_is_contiguous(*logits) || tensor_shape(*logits)[0] != 1) ==> r is Ok,
    {
        let flat = match flatten_logits(logits) {
            Ok(flat) => flat,
            Err(e) => {
                return Err(e);
            },
        };
        let context = repetition_context(history, self.config.repeat_last_n);
        Ok(SamplerInput { logits: flat, context })
    }

    /// The tokenizer.
    pub fn tokenizer(&self) -> (tokenizer: &Tokenizer)
        ensures
            *tokenizer == self.spec_tokenizer(),
    {
        &self.tokenizer
    }

    /// The tokenizer's vocabulary holds the chat template's end-of-sequence
    /// marker.
    pub open spec fn knows_eos(&self) -> bool {
        vocabulary(self.spec_tokenizer()).contains_key(self.eos_text())
    }

    /// The id that the vocabulary gives to the end-of-sequence marker, if it
    /// holds the marker.
    #[verifier::loop_isolation(false)]
    fn lookup_eos(&self) -> (r: Option<u32>)
        ensures
            r is Some <==> self.knows_eos(),
            r matches Some(id) ==> id == vocabulary(self.spec_tokenizer())[self.eos_text()],
    {
        let marker = self.chat_template.eos_token.as_string();
        let entries = vocabulary_entries(&self.tokenizer);
        let mut i: usize = 0;
        while i < entries.len()
            invariant
                i <= entries@.len(),
                forall|j: int| 0 <= j < i ==> entries@[j].0@ != marker@,
            decreases entries@.len() - i,
        {
            if entries[i].0 == *marker {
                assert(vocabulary(self.tokenizer).contains_key(entries@[i as int].0@));
                return Some(entries[i].1);
            }
            i += 1;
        }
        None
    }

    /// Whether the tokenizer's vocabulary holds the end-of-sequence marker.
    pub fn has_eos_tok(&self) -> (r: bool)
        ensures
            r == self.knows_eos(),
    {
        self.lookup_eos().is_some()
    }

    /// The id of the end-of-sequence token: the id that the tokenizer's
    /// vocabulary gives to the chat template's end-of-sequence marker.
    ///
    /// A pipeline whose vocabulary lacks the marker has no stop condition
    /// and no id to give: the call is not offered for it.
    pub fn eos_tok(&self) -> (id: u32)
        requires
            self.knows_eos(),
        ensures
            id == vocabulary(self.spec_tokenizer())[self.eos_text()],
    {
        match self.lookup_eos() {
            Some(id) => id,
            None => unreached(),
        }
    }

    /// The id of the end-of-sequence token where the vocabulary holds the
    /// marker; the marker itself, as the error, where it does not.
    pub fn find_eos_tok(&self) -> (r: Result<u32, PipelineError>)
        ensures
            match r {
                Ok(id) => self.knows_eos() && id == vocabulary(self.spec_tokenizer())[self.eos_text()],
                Err(e) => {
                    &&& !self.knows_eos()
                    &&& e matches PipelineError::MissingEosToken(marker)
                    &&& marker@ == self.eos_text()
                },
            },
    {
        if self.has_eos_tok() {
            Ok(self.eos_tok())
        } else {
            Err(PipelineError::MissingEosToken(self.chat_template.eos_token.as_string().clone()))
        }
    }

    /// The name of the architecture.
    pub fn name(&self) -> (name: &'static str)
        ensures
            name@ == "gemma"@,
    {
        "gemma"
    }

    /// The longest sequence the model accepts.
    pub fn get_max_seq_len(&self) -> (len: usize)
        ensures
            len == self.spec_model().loaded().max_seq_len,
    {
        match &self.model {
            Model::Normal(model) => model.max_seq_len,
            Model::XLoraNormal(model) => model.max_seq_len,
        }
    }

    /// Whether the model is adapter-augmented.
    #[verifier::when_used_as_spec(spec_is_xlora)]
    pub fn is_xlora(&self) -> (r: bool)
        ensures
            r == self.spec_is_xlora(),
    {
        match &self.model {
            Model::Normal(_) => false,
            Model::XLoraNormal(_) => true,
        }
    }

    /// The sampling settings.
    pub fn config(&self) -> (config: GemmaSpecificConfig)
        ensures
            config == self.spec_config(),
    {
        self.config
    }

    /// Whether the pipeline runs without a key/value cache.
    pub fn has_no_kv_cache(&self) -> (r: bool)
        ensures
            r == self.spec_no_kv_cache(),
    {
        self.no_kv_cache
    }

    /// The chat template.
    pub fn get_chat_template(&self) -> (template: &ChatTemplate)
        ensures
            *template == self.spec_chat_template(),
    {
        &self.chat_template
    }
}

} // verus!
