//! Tokenization through the engine: what is handed to the native tokenizer
//! and how its report is turned into a token sequence.
use vstd::prelude::*;
use vstd::string::{StringExecFns, StringSliceAdditionalSpecFns};
use vstd::utf8::{
    decode_utf8, decode_utf8_encode_utf8, encode_utf8, encode_utf8_decode_utf8, valid_utf8,
    valid_utf8_concat,
};

use crate::error::WhisperError;
use crate::marshal::{contains_nul, nul_terminated};

verus! {

/// A token identifier of the model's vocabulary.
pub type WhisperToken = i32;

/// The largest count that the engine's C `int` can carry.
pub const NATIVE_COUNT_MAX: i32 = 0x7fff_ffff;

/// The room, in tokens, offered to the engine when a caller allows
/// `max_tokens`: the request itself, or the largest count the engine can take.
pub open spec fn capacity_for(max_tokens: usize) -> int {
    if max_tokens <= NATIVE_COUNT_MAX as usize {
        max_tokens as int
    } else {
        NATIVE_COUNT_MAX as int
    }
}

/// What a call of the engine's tokenizer amounts to, given the count it
/// reported, the buffer it wrote into and the room it was offered. A negative
/// count is the engine's signal that the room did not suffice (it is minus the
/// number of tokens that were needed); a count beyond the room or the buffer
/// is not trusted either. Otherwise the tokens are exactly the first
/// `reported` entries of the buffer: the rest was never written.
pub open spec fn tokenize_outcome(reported: int, buffer: Seq<WhisperToken>, capacity: int) -> Result<
    Seq<WhisperToken>,
    WhisperError,
> {
    if reported < 0 || reported > capacity || reported > buffer.len() {
        Err(WhisperError::TokenizationOverflow)
    } else {
        Ok(buffer.take(reported))
    }
}

/// Admits `token_id` for a lookup in a vocabulary of `n_vocab` tokens, whose
/// ids run from zero up to but excluding `n_vocab`. The engine has no answer
/// for an id outside that range, so it is refused before any lookup.
pub fn vocab_token(token_id: WhisperToken, n_vocab: i32) -> (r: Result<WhisperToken, WhisperError>)
    ensures
        r is Ok <==> 0 <= token_id < n_vocab,
        r matches Ok(t) ==> t == token_id,
        r matches Err(e) ==> e == WhisperError::LookupFailed,
{
    if 0 <= token_id && token_id < n_vocab {
        Ok(token_id)
    } else {
        Err(WhisperError::LookupFailed)
    }
}

/// Everything the engine's tokenizer is called with, apart from the context.
pub struct TokenizeRequest {
    /// The text as a null-terminated byte string.
    pub text: Vec<u8>,
    /// The number of tokens the output buffer has room for.
    pub capacity: i32,
}

/// The room to offer the engine for at most `max_tokens` tokens.
pub fn native_capacity(max_tokens: usize) -> (r: i32)
    ensures
        r as int == capacity_for(max_tokens),
        0 <= r,
{
    if max_tokens <= NATIVE_COUNT_MAX as usize {
        max_tokens as i32
    } else {
        NATIVE_COUNT_MAX
    }
}

/// Prepares a call of the engine's tokenizer for `text` and at most
/// `max_tokens` tokens. A text with an embedded null byte is refused here,
/// so that no call of the engine is ever made for it.
pub fn prepare_tokenize(text: &str, max_tokens: usize) -> (r: Result<TokenizeRequest, WhisperError>)
    ensures
        r is Err <==> contains_nul(text.spec_bytes()),
        r matches Err(e) ==> e == WhisperError::InvalidArgument,
        r matches Ok(q) ==> q.text@ == text.spec_bytes().push(0u8) && q.capacity as int
            == capacity_for(max_tokens),
{
    match nul_terminated(text) {
        Err(e) => Err(e),
        Ok(bytes) => Ok(TokenizeRequest { text: bytes, capacity: native_capacity(max_tokens) }),
    }
}

/// Turns what the engine's tokenizer reported into the caller's tokens: the
/// buffer cut down to the reported count, or `TokenizationOverflow`.
pub fn tokens_from_native(reported: i32, buffer: Vec<WhisperToken>, capacity: i32) -> (r: Result<
    Vec<WhisperToken>,
    WhisperError,
>)
    ensures
        r matches Ok(v) ==> tokenize_outcome(reported as int, buffer@, capacity as int) == Ok::<
            Seq<WhisperToken>,
            WhisperError,
        >(v@),
        r matches Err(e) ==> tokenize_outcome(reported as int, buffer@, capacity as int) == Err::<
            Seq<WhisperToken>,
            WhisperError,
        >(e),
{
    if reported < 0 || reported > capacity || reported as usize > buffer.len() {
        return Err(WhisperError::TokenizationOverflow);
    }
    let mut tokens = buffer;
    tokens.truncate(reported as usize);
    proof {
        assert(tokens@ =~= buffer@.take(reported as int));
    }
    Ok(tokens)
}

/// The texts of `pieces` one after the other.
pub open spec fn joined(pieces: Seq<Seq<char>>) -> Seq<char>
    decreases pieces.len(),
{
    if pieces.len() == 0 {
        Seq::empty()
    } else {
        joined(pieces.drop_last()) + pieces.last()
    }
}

/// The views of a list of strings.
pub open spec fn texts_of(pieces: Seq<String>) -> Seq<Seq<char>> {
    pieces.map_values(|p: String| p@)
}

/// Joins the texts of a token sequence back into one string, as a caller
/// does to read back what was tokenized.
pub fn join_texts(pieces: &Vec<String>) -> (r: String)
    ensures
        r@ == joined(texts_of(pieces@)),
{
    let mut out = String::new();
    let mut i: usize = 0;
    while i < pieces.len()
        invariant
            i <= pieces@.len(),
            out@ == joined(texts_of(pieces@.take(i as int))),
        decreases pieces@.len() - i,
    {
        proof {
            assert(texts_of(pieces@.take(i as int + 1)).drop_last() =~= texts_of(
                pieces@.take(i as int),
            ));
        }
        out.append(pieces[i].as_str());
        i = i + 1;
    }
    proof {
        assert(pieces@.take(pieces@.len() as int) =~= pieces@);
    }
    out
}

/// The byte strings of `pieces` one after the other.
pub open spec fn joined_bytes(pieces: Seq<Seq<u8>>) -> Seq<u8>
    decreases pieces.len(),
{
    if pieces.len() == 0 {
        Seq::empty()
    } else {
        joined_bytes(pieces.drop_last()) + pieces.last()
    }
}

/// The texts that the byte strings of `pieces` decode to.
pub open spec fn decoded_pieces(pieces: Seq<Seq<u8>>) -> Seq<Seq<char>> {
    pieces.map_values(|b: Seq<u8>| decode_utf8(b))
}

proof fn lemma_encode_concat(c1: Seq<char>, c2: Seq<char>)
    ensures
        encode_utf8(c1 + c2) == encode_utf8(c1) + encode_utf8(c2),
    decreases c1.len(),
{
    if c1.len() == 0 {
        assert(c1 + c2 =~= c2);
        assert(encode_utf8(c1) + encode_utf8(c2) =~= encode_utf8(c2));
    } else {
        lemma_encode_concat(c1.drop_first(), c2);
        assert((c1 + c2).drop_first() =~= c1.drop_first() + c2);
        assert((c1 + c2)[0] == c1[0]);
        let head = vstd::utf8::encode_scalar(c1[0] as u32);
        assert(head + (encode_utf8(c1.drop_first()) + encode_utf8(c2)) =~= (head + encode_utf8(
            c1.drop_first(),
        )) + encode_utf8(c2));
    }
}

proof fn lemma_decode_concat(b1: Seq<u8>, b2: Seq<u8>)
    requires
        valid_utf8(b1),
        valid_utf8(b2),
    ensures
        valid_utf8(b1 + b2),
        decode_utf8(b1 + b2) == decode_utf8(b1) + decode_utf8(b2),
{
    let c1 = decode_utf8(b1);
    let c2 = decode_utf8(b2);
    decode_utf8_encode_utf8(b1);
    decode_utf8_encode_utf8(b2);
    lemma_encode_concat(c1, c2);
    valid_utf8_concat(b1, b2);
    encode_utf8_decode_utf8(c1 + c2);
}

proof fn lemma_decode_joined(pieces: Seq<Seq<u8>>)
    requires
        forall|i: int| 0 <= i < pieces.len() ==> valid_utf8(#[trigger] pieces[i]),
    ensures
        valid_utf8(joined_bytes(pieces)),
        decode_utf8(joined_bytes(pieces)) == joined(decoded_pieces(pieces)),
    decreases pieces.len(),
{
    if pieces.len() > 0 {
        let init = pieces.drop_last();
        assert forall|i: int| 0 <= i < init.len() implies valid_utf8(#[trigger] init[i]) by {
            assert(init[i] == pieces[i]);
        }
        lemma_decode_joined(init);
        assert(valid_utf8(pieces[pieces.len() - 1]));
        lemma_decode_concat(joined_bytes(init), pieces.last());
        assert(decoded_pieces(pieces).drop_last() =~= decoded_pieces(init));
    }
}

/// Reading back a tokenization: where the bytes of the token pieces, each of
/// them valid UTF-8, follow one another to form exactly the encoding of
/// `text`, their texts joined in order are `text` again.
pub proof fn lemma_join_reproduces_text(text: Seq<char>, pieces: Seq<Seq<u8>>)
    requires
        forall|i: int| 0 <= i < pieces.len() ==> valid_utf8(#[trigger] pieces[i]),
        joined_bytes(pieces) == encode_utf8(text),
    ensures
        joined(decoded_pieces(pieces)) == text,
{
    lemma_decode_joined(pieces);
    encode_utf8_decode_utf8(text);
}

/// Where the engine reports that `needed` tokens were needed and only
/// `capacity` were offered, the outcome is an overflow, never a shortened
/// sequence.
pub proof fn lemma_short_capacity_overflows(needed: int, buffer: Seq<WhisperToken>, capacity: int)
    requires
        0 <= capacity < needed,
    ensures
        tokenize_outcome(-needed, buffer, capacity) == Err::<Seq<WhisperToken>, WhisperError>(
            WhisperError::TokenizationOverflow,
        ),
{
}

/// Every sequence that a tokenizer call yields is exactly as long as the
/// engine reported, and never longer than the room the caller allowed.
pub proof fn lemma_tokens_within_bound(
    reported: int,
    buffer: Seq<WhisperToken>,
    max_tokens: usize,
    tokens: Seq<WhisperToken>,
)
    requires
        tokenize_outcome(reported, buffer, capacity_for(max_tokens)) == Ok::<
            Seq<WhisperToken>,
            WhisperError,
        >(tokens),
    ensures
        tokens.len() == reported,
        tokens.len() <= max_tokens,
        tokens == buffer.take(reported),
{
}

} // verus!
