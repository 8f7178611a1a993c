//! Which tokens of each sequence one generation step feeds to the model.

use vstd::prelude::*;

verus! {

/// The tokens of one sequence that a forward pass computes on, and the
/// position of the first of them in the sequence.
#[derive(Clone, Debug, PartialEq, Eq)]
pub struct InputWindow {
    pub tokens: Vec<u32>,
    pub offset: usize,
}

/// The inputs of one forward pass over a batch of sequences.
#[derive(Clone, Debug, PartialEq, Eq)]
pub struct StepInputs {
    /// Per sequence, the tokens that the key/value cache does not hold yet.
    pub incremental: Vec<InputWindow>,
    /// Per sequence, the entire context. Only an adapter-augmented model
    /// asks for it.
    pub full: Option<Vec<InputWindow>>,
}

/// Where the window of a sequence starts: at the beginning when the whole
/// context is computed, else at the last token.
pub open spec fn window_start(len: int, whole: bool) -> int {
    if whole || len == 0 {
        0
    } else {
        len - 1
    }
}

/// The window is the part of the history from the window's start on.
pub open spec fn is_window_of(window: InputWindow, history: Seq<u32>, whole: bool) -> bool {
    &&& window.offset == window_start(history.len() as int, whole)
    &&& window.tokens@ == history.subrange(
        window_start(history.len() as int, whole),
        history.len() as int,
    )
}

/// Each window is the window of the sequence at its place.
pub open spec fn are_windows_of(
    windows: Seq<InputWindow>,
    histories: Seq<Vec<u32>>,
    whole: bool,
) -> bool {
    &&& windows.len() == histories.len()
    &&& forall|i: int|
        0 <= i < windows.len() ==> is_window_of(#[trigger] windows[i], histories[i]@, whole)
}

/// The inputs of a forward pass are the inputs of this step: the incremental
/// windows span the whole context on a prompt or without a key/value cache
/// and the last token otherwise, and the full windows are there for an
/// adapter-augmented model only.
pub open spec fn are_inputs_of(
    inputs: StepInputs,
    histories: Seq<Vec<u32>>,
    is_prompt: bool,
    is_xlora: bool,
    no_kv_cache: bool,
) -> bool {
    &&& are_windows_of(inputs.incremental@, histories, is_prompt || no_kv_cache)
    &&& inputs.full is Some <==> is_xlora
    &&& inputs.full matches Some(full) ==> are_windows_of(full@, histories, true)
}

/// The tokens of a history from a position on.
pub(crate) fn tokens_from(history: &Vec<u32>, start: usize) -> (tokens: Vec<u32>)
    requires
        start <= history@.len(),
    ensures
        tokens@ == history@.subrange(start as int, history@.len() as int),
{
    let mut tokens: Vec<u32> = Vec::new();
    let mut i: usize = start;
    while i < history.len()
        invariant
            start <= i <= history@.len(),
            tokens@ == history@.subrange(start as int, i as int),
        decreases history@.len() - i,
    {
        tokens.push(history[i]);
        assert(tokens@ =~= history@.subrange(start as int, i + 1));
        i += 1;
    }
    tokens
}

/// The window of every sequence of a batch.
pub fn windows(histories: &Vec<Vec<u32>>, whole: bool) -> (result: Vec<InputWindow>)
    ensures
        are_windows_of(result@, histories@, whole),
{
    let mut result: Vec<InputWindow> = Vec::new();
    let mut i: usize = 0;
    while i < histories.len()
        invariant
            i <= histories@.len(),
            result@.len() == i,
            forall|j: int| 0 <= j < i ==> is_window_of(#[trigger] result@[j], histories@[j]@, whole),
        decreases histories@.len() - i,
    {
        let history = &histories[i];
        let offset: usize = if whole || history.len() == 0 {
            0
        } else {
            history.len() - 1
        };
        result.push(InputWindow { tokens: tokens_from(history, offset), offset });
        i += 1;
    }
    result
}

/// The inputs of one forward pass over the given token histories.
pub fn calculate_inputs(
    histories: &Vec<Vec<u32>>,
    is_prompt: bool,
    is_xlora: bool,
    no_kv_cache: bool,
) -> (inputs: StepInputs)
    ensures
        are_inputs_of(inputs, histories@, is_prompt, is_xlora, no_kv_cache),
{
    let incremental = windows(histories, is_prompt || no_kv_cache);
    let full = if is_xlora {
        Some(windows(histories, true))
    } else {
        None
    };
    StepInputs { incremental, full }
}

} // verus!
