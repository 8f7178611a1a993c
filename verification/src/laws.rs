//! What holds of the loading rules and of the repetition window, whatever
//! the inputs.

use vstd::prelude::*;
use tokenizers::Tokenizer;
use crate::config::BasicConfig;
use crate::error::VariantIssue;
use crate::inputs::{is_window_of, InputWindow};
use crate::loader::{Fetch, GemmaLoader};
use crate::pipeline::{GemmaPipeline, LoadedModel};
use candle_core::Tensor;
use crate::sampling::{is_sampler_input_of, repetition_window, window_len, SamplerInput};
use crate::tensor::{tensor_f32_bits, tensor_is_f32, tensor_shape};
use crate::template::ChatTemplate;

verus! {

/// A raw configuration without a position-embedding ceiling is normalized to
/// a ceiling of 4096, and one with a ceiling keeps its own. Every other
/// field passes through unchanged.
pub proof fn ceiling_defaults_to_4096(raw: BasicConfig)
    ensures
        raw.max_position_embeddings is None ==> raw.normalized().max_position_embeddings == 4096,
        raw.max_position_embeddings matches Some(limit) ==> raw.normalized().max_position_embeddings
            == limit,
        raw.normalized().vocab_size == raw.vocab_size,
        raw.normalized().hidden_size == raw.hidden_size,
        raw.normalized().intermediate_size == raw.intermediate_size,
        raw.normalized().num_hidden_layers == raw.num_hidden_layers,
        raw.normalized().num_attention_heads == raw.num_attention_heads,
        raw.normalized().num_key_value_heads == raw.num_key_value_heads,
        raw.normalized().head_dim == raw.head_dim,
        raw.normalized().hidden_act == raw.hidden_act,
        raw.normalized().rms_norm_eps == raw.rms_norm_eps,
        raw.normalized().rope_theta == raw.rope_theta,
        raw.normalized().attention_bias == raw.attention_bias,
{
}

/// A base model is built whether or not adapter artifacts are there. An
/// adapter-augmented model is built exactly where all of them are there, and
/// is refused for missing adapters otherwise. A quantized kind is refused
/// whatever the artifacts.
pub proof fn variant_depends_on_adapters_only_where_requested(
    loader: GemmaLoader,
    adapters_complete: bool,
)
    ensures
        loader.kind is Normal ==> loader.variant(adapters_complete) == Ok::<bool, VariantIssue>(
            false,
        ),
        loader.kind is XLoraNormal && adapters_complete ==> loader.variant(adapters_complete)
            == Ok::<bool, VariantIssue>(true),
        loader.kind is XLoraNormal && !adapters_complete ==> loader.variant(adapters_complete)
            == Err::<bool, VariantIssue>(VariantIssue::MissingAdapters),
        loader.kind.is_quantized() ==> loader.variant(adapters_complete) == Err::<
            bool,
            VariantIssue,
        >(VariantIssue::QuantizedFormat),
        loader.variant(adapters_complete) matches Ok(augmented) ==> augmented == (loader.kind
            is XLoraNormal),
{
}

/// The pipeline that a load ends in is adapter-augmented exactly where the
/// loader was asked for an adapter-augmented model.
pub proof fn built_variant_is_requested_variant(
    loader: GemmaLoader,
    adapters_complete: bool,
    model: LoadedModel,
    tokenizer: Tokenizer,
    template: ChatTemplate,
    pipeline: GemmaPipeline,
)
    requires
        loader.variant(adapters_complete) matches Ok(augmented) && loader.pipeline_of(
            augmented,
            model,
            tokenizer,
            template,
            pipeline,
        ),
    ensures
        pipeline.spec_is_xlora() == (loader.kind is XLoraNormal),
        pipeline.spec_model().loaded() == model,
{
}

/// The repetition window of a history of length `L` under a limit `R` has
/// `min(L, R)` tokens, and they are the last `min(L, R)` tokens of the
/// history, in the order they have there.
pub proof fn repetition_window_is_trailing(history: Seq<u32>, repeat_last_n: usize)
    ensures
        repetition_window(history, repeat_last_n).len() == window_len(
            history.len() as int,
            repeat_last_n as int,
        ),
        window_len(history.len() as int, repeat_last_n as int) <= history.len(),
        window_len(history.len() as int, repeat_last_n as int) <= repeat_last_n,
        window_len(history.len() as int, repeat_last_n as int) == history.len() || window_len(
            history.len() as int,
            repeat_last_n as int,
        ) == repeat_last_n,
        forall|i: int|
            0 <= i < repetition_window(history, repeat_last_n).len() ==> repetition_window(
                history,
                repeat_last_n,
            )[i] == history[history.len() - repetition_window(history, repeat_last_n).len() + i],
{
}

/// Two sampler inputs made of the same logits and the same history under
/// the same limit agree: they hold the same context, and their logits have
/// the same shape, the same precision and the same values.
pub proof fn sampler_inputs_of_equal_arguments_agree(
    first: SamplerInput,
    second: SamplerInput,
    logits: Tensor,
    history: Seq<u32>,
    repeat_last_n: usize,
)
    requires
        is_sampler_input_of(first, logits, history, repeat_last_n),
        is_sampler_input_of(second, logits, history, repeat_last_n),
    ensures
        first.context@ == second.context@,
        tensor_shape(first.logits) == tensor_shape(second.logits),
        tensor_is_f32(first.logits) && tensor_is_f32(second.logits),
        tensor_f32_bits(first.logits) == tensor_f32_bits(second.logits),
{
}

/// The artifacts that a load acquires include the adapter artifacts exactly
/// where the requested kind is adapter-augmented, and the tokenizer exactly
/// where no local file stands in for it. Configuration, weights and chat
/// template are always acquired.
pub proof fn adapters_are_fetched_for_adapter_kinds_only(loader: GemmaLoader)
    ensures
        loader.fetch_order().contains(Fetch::Adapters) <==> loader.kind is XLoraNormal,
        loader.fetch_order().contains(Fetch::Tokenizer) <==> loader.tokenizer_json is None,
        loader.fetch_order().contains(Fetch::Config),
        loader.fetch_order().contains(Fetch::Weights),
        loader.fetch_order().contains(Fetch::Template),
{
    let order = loader.fetch_order();
    let n = order.len() as int;
    assert(order[n - 1] == Fetch::Template);
    assert(order[n - 1 - (if loader.kind is XLoraNormal { 1int } else { 0int }) - 1] == Fetch::Weights);
    assert(order[n - 1 - (if loader.kind is XLoraNormal { 1int } else { 0int }) - 2] == Fetch::Config);
    if loader.kind is XLoraNormal {
        assert(order[n - 2] == Fetch::Adapters);
    }
    if loader.tokenizer_json is None {
        assert(order[0] == Fetch::Tokenizer);
    }
}

/// A window and its offset give back the history: the window's tokens
/// stand in the history from the offset to the end, and the window over the
/// whole context is the history itself.
pub proof fn window_covers_history_tail(window: InputWindow, history: Seq<u32>, whole: bool)
    requires
        is_window_of(window, history, whole),
    ensures
        window.offset + window.tokens@.len() == history.len(),
        forall|i: int|
            0 <= i < window.tokens@.len() ==> window.tokens@[i] == history[window.offset + i],
        whole ==> window.tokens@ == history && window.offset == 0,
        !whole && history.len() > 0 ==> window.tokens@.len() == 1 && window.tokens@[0]
            == history.last(),
{
    if whole {
        assert(window.tokens@ =~= history);
    }
}

} // verus!
