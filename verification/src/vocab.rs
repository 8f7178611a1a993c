//! What the pipeline relies on from the tokenizer library.
//!
//! A tokenizer is opaque here; the contracts speak of its vocabulary only.
//! They are taken on trust from the tokenizer library's source.

use vstd::prelude::*;
use tokenizers::Tokenizer;

verus! {

/// A tokenizer of the tokenizer library, carried through as an opaque value.
#[verifier::external_type_specification]
#[verifier::external_body]
pub struct ExTokenizer(tokenizers::Tokenizer);

/// The vocabulary of a tokenizer, added tokens included: from a token's text
/// to its id.
pub uninterp spec fn vocabulary(t: Tokenizer) -> Map<Seq<char>, u32>;

/// `Tokenizer::get_vocab` with added tokens included, handed out as a list of
/// pairs in no particular order.
///
/// Trusted: every pair of the list is an entry of the vocabulary, and every
/// token of the vocabulary stands in the list.
#[verifier::external_body]
pub(crate) fn vocabulary_entries(t: &Tokenizer) -> (r: Vec<(String, u32)>)
    ensures
        forall|i: int|
            0 <= i < r@.len() ==> vocabulary(*t).contains_key(#[trigger] r@[i].0@) && vocabulary(
                *t,
            )[r@[i].0@] == r@[i].1,
        forall|token: Seq<char>| #[trigger]
            vocabulary(*t).contains_key(token) ==> exists|i: int|
                0 <= i < r@.len() && #[trigger] r@[i].0@ == token,
{
    t.get_vocab(true).into_iter().collect()
}

} // verus!
