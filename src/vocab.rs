use vstd::prelude::*;
use vstd::utf8::*;

use crate::generation::Event;
use crate::prompt::GeneratedPrompt;
use crate::which::{eos_marker_of, Which};

verus! {

#[verifier::external_type_specification]
#[verifier::external_body]
pub struct ExTokenizer(tokenizers::Tokenizer);

#[verifier::external_type_specification]
#[verifier::external_body]
pub struct ExEncoding(tokenizers::Encoding);

/// The ids that `Encoding::get_ids` returns.
pub uninterp spec fn ids_of(encoding: tokenizers::Encoding) -> Seq<u32>;

/// What `Tokenizer::token_to_id` returns for a vocabulary entry.
pub uninterp spec fn vocab_id_of(tokenizer: tokenizers::Tokenizer, token: Seq<char>) -> Option<u32>;

/// What `Tokenizer::id_to_token` returns for an id.
pub uninterp spec fn entry_of(tokenizer: tokenizers::Tokenizer, id: u32) -> Option<Seq<char>>;

/// Whether an id is an added token marked special.
pub uninterp spec fn special_of(tokenizer: tokenizers::Tokenizer, id: u32) -> bool;

/// Relies on `tokenizers::Tokenizer::encode`, with special tokens added: the
/// encoding of the text, or `None` when the tokenizer rejects it. Nothing is
/// claimed of the encoding: a BPE model with dropout draws its merges at
/// random.
#[verifier::external_body]
fn encode_text(tokenizer: &tokenizers::Tokenizer, text: &str) -> (r: Option<tokenizers::Encoding>)
{
    match tokenizer.encode(text, true) {
        Ok(encoding) => Some(encoding),
        Err(_) => None,
    }
}

/// Relies on `tokenizers::Encoding::get_ids`: the token ids of an encoding.
#[verifier::external_body]
fn encoding_ids(encoding: &tokenizers::Encoding) -> (r: Vec<u32>)
    ensures
        r@ == ids_of(*encoding),
{
    encoding.get_ids().to_vec()
}

/// Relies on `tokenizers::Tokenizer::token_to_id`: the id of a vocabulary
/// entry, added tokens included, if the vocabulary has it.
#[verifier::external_body]
fn vocabulary_id(tokenizer: &tokenizers::Tokenizer, token: &str) -> (r: Option<u32>)
    ensures
        r == vocab_id_of(*tokenizer, token@),
{
    tokenizer.token_to_id(token)
}

/// Relies on `tokenizers::Tokenizer::id_to_token`: the vocabulary entry of an
/// id, if there is one.
#[verifier::external_body]
fn vocabulary_entry(tokenizer: &tokenizers::Tokenizer, id: u32) -> (r: Option<String>)
    ensures
        r is None <==> entry_of(*tokenizer, id) is None,
        r is Some ==> entry_of(*tokenizer, id) == Some(r->0@),
{
    tokenizer.id_to_token(id)
}

/// Relies on `tokenizers::Tokenizer::get_added_tokens_decoder`: whether the
/// added token with this id is marked special (ids of the model's own
/// vocabulary are not).
#[verifier::external_body]
fn is_special_id(tokenizer: &tokenizers::Tokenizer, id: u32) -> (r: bool)
    ensures
        r == special_of(*tokenizer, id),
{
    match tokenizer.get_added_tokens_decoder().get(&id) {
        Some(token) => token.special,
        None => false,
    }
}

/// The UTF-8 bytes of the word-boundary marker U+2581 of the vocabulary.
pub open spec fn is_marker_at(b: Seq<u8>, i: int) -> bool {
    i + 3 <= b.len() && b[i] == 0xE2u8 && b[i + 1] == 0x96u8 && b[i + 2] == 0x81u8
}

/// The bytes with every word-boundary marker turned into a space.
pub open spec fn unmark(b: Seq<u8>) -> Seq<u8>
    decreases b.len(),
{
    if b.len() == 0 {
        seq![]
    } else if is_marker_at(b, 0) {
        seq![0x20u8] + unmark(b.subrange(3, b.len() as int))
    } else {
        seq![b[0]] + unmark(b.subrange(1, b.len() as int))
    }
}

pub open spec fn hex_digit_value(c: u8) -> int {
    if 0x30 <= c <= 0x39 {
        c - 0x30
    } else if 0x41 <= c <= 0x46 {
        c - 0x41 + 10
    } else if 0x61 <= c <= 0x66 {
        c - 0x61 + 10
    } else {
        -1
    }
}

/// `<0xHH>`: an entry that stands for the single raw byte `HH`.
pub open spec fn is_byte_entry(b: Seq<u8>) -> bool {
    b.len() == 6 && b[0] == 0x3Cu8 && b[1] == 0x30u8 && b[2] == 0x78u8 && hex_digit_value(b[3])
        >= 0 && hex_digit_value(b[4]) >= 0 && b[5] == 0x3Eu8
}

/// The bytes a vocabulary entry stands for: the raw byte of a `<0xHH>` entry,
/// else the entry's own bytes with word-boundary markers as spaces.
pub open spec fn entry_bytes(entry: Seq<char>) -> Seq<u8> {
    let b = encode_utf8(entry);
    if is_byte_entry(b) {
        seq![(hex_digit_value(b[3]) * 16 + hex_digit_value(b[4])) as u8]
    } else {
        unmark(b)
    }
}

fn hex_digit(c: u8) -> (r: Option<u8>)
    ensures
        hex_digit_value(c) >= 0 ==> r == Some(hex_digit_value(c) as u8),
        hex_digit_value(c) < 0 ==> r is None,
{
    if 0x30 <= c && c <= 0x39 {
        Some(c - 0x30)
    } else if 0x41 <= c && c <= 0x46 {
        Some(c - 0x41 + 10)
    } else if 0x61 <= c && c <= 0x66 {
        Some(c - 0x61 + 10)
    } else {
        None
    }
}

/// The bytes that the vocabulary entry `entry` stands for, in the notation
/// of the sentencepiece vocabularies of the supported families (raw-byte
/// entries `<0xHH>`, U+2581 as word boundary); byte-level BPE vocabularies
/// use another notation and are not read by it. Streaming needs the raw
/// bytes of each token, which the tokenizer's decoder does not give for a
/// single id (a lone `<0xHH>` entry decodes to U+FFFD), and no decoder step
/// such as stripping a leading space is applied.
pub fn entry_to_bytes(entry: &str) -> (r: Vec<u8>)
    ensures
        r@ == entry_bytes(entry@),
{
    let b = entry.as_bytes();
    assert(b@ == encode_utf8(entry@));
    if b.len() == 6 && b[0] == 0x3C && b[1] == 0x30 && b[2] == 0x78 && b[5] == 0x3E {
        let hi = hex_digit(b[3]);
        let lo = hex_digit(b[4]);
        if let (Some(h), Some(l)) = (hi, lo) {
            let mut out: Vec<u8> = Vec::new();
            out.push(h * 16 + l);
            proof {
                assert(out@ =~= seq![(hex_digit_value(b@[3]) * 16 + hex_digit_value(b@[4])) as u8]);
            }
            return out;
        }
    }
    let n = b.len();
    let mut out: Vec<u8> = Vec::new();
    let mut i: usize = 0;
    proof {
        assert(b@.subrange(0, n as int) =~= b@);
        assert(out@ + unmark(b@) =~= unmark(b@));
    }
    while i < n
        invariant
            i <= n,
            n == b@.len(),
            out@ + unmark(b@.subrange(i as int, n as int)) == unmark(b@),
        decreases n - i,
    {
        let ghost rest = b@.subrange(i as int, n as int);
        if n - i >= 3 && b[i] == 0xE2 && b[i + 1] == 0x96 && b[i + 2] == 0x81 {
            proof {
                assert(is_marker_at(rest, 0));
                assert(rest.subrange(3, rest.len() as int) =~= b@.subrange(i + 3, n as int));
                assert(out@ + (seq![0x20u8] + unmark(b@.subrange(i + 3, n as int))) =~= out@.push(
                    0x20u8,
                ) + unmark(b@.subrange(i + 3, n as int)));
            }
            out.push(0x20);
            i += 3;
        } else {
            proof {
                assert(!is_marker_at(rest, 0));
                assert(rest.subrange(1, rest.len() as int) =~= b@.subrange(i + 1, n as int));
                assert(out@ + (seq![b@[i as int]] + unmark(b@.subrange(i + 1, n as int))) =~= out@.push(
                    b@[i as int],
                ) + unmark(b@.subrange(i + 1, n as int)));
            }
            out.push(b[i]);
            i += 1;
        }
    }
    proof {
        assert(b@.subrange(n as int, n as int) =~= Seq::<u8>::empty());
        assert(out@ + Seq::<u8>::empty() =~= out@);
    }
    out
}

/// The bytes that token `id` stands for in the tokenizer's vocabulary: none
/// for a special token (such as the end-of-sequence marker) or an id outside
/// the vocabulary.
pub fn token_bytes(tokenizer: &tokenizers::Tokenizer, id: u32) -> (r: Vec<u8>)
    ensures
        r@ == if special_of(*tokenizer, id) {
            Seq::<u8>::empty()
        } else {
            match entry_of(*tokenizer, id) {
                Some(e) => entry_bytes(e),
                None => Seq::<u8>::empty(),
            }
        },
{
    if is_special_id(tokenizer, id) {
        return Vec::new();
    }
    match vocabulary_entry(tokenizer, id) {
        Some(entry) => entry_to_bytes(entry.as_str()),
        None => Vec::new(),
    }
}

/// Encodes the prompt and resolves the family's end-of-sequence marker: the
/// event that starts a run. A rejected prompt gives `EncodeFailed`; an
/// accepted one gives its ids and the marker's id in the vocabulary.
pub fn encode_prompt(tokenizer: &tokenizers::Tokenizer, prompt: &GeneratedPrompt, which: Which) -> (r: Event)
    ensures
        r is Encoded || r is EncodeFailed,
        r matches Event::Encoded { tokens, eos } ==> eos == vocab_id_of(
            *tokenizer,
            eos_marker_of(which),
        ),
{
    match encode_text(tokenizer, prompt.as_str()) {
        Some(encoding) => {
            let tokens = encoding_ids(&encoding);
            let eos = vocabulary_id(tokenizer, which.eos_token());
            Event::Encoded { tokens, eos }
        },
        None => Event::EncodeFailed,
    }
}

} // verus!
