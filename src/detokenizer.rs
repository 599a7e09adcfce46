use vstd::prelude::*;
use vstd::utf8::*;

verus! {

broadcast use {encode_utf8_valid_utf8, encode_utf8_decode_utf8};

/// Relies on `std::string::String::from_utf8`: `Ok` exactly when the bytes
/// are well-formed UTF-8, holding the text they encode.
#[verifier::external_body]
fn utf8_text(bytes: &[u8]) -> (r: Option<String>)
    ensures
        r is Some <==> valid_utf8(bytes@),
        r is Some ==> r->0@ == decode_utf8(bytes@),
{
    String::from_utf8(bytes.to_vec()).ok()
}

/// What `String::from_utf8_lossy` makes of a byte sequence.
pub uninterp spec fn lossy_text(bytes: Seq<u8>) -> Seq<char>;

/// Relies on `std::string::String::from_utf8_lossy`: invalid sequences become
/// U+FFFD, and well-formed input comes back as the text it encodes.
#[verifier::external_body]
fn utf8_text_lossy(bytes: &[u8]) -> (r: String)
    ensures
        r@ == lossy_text(bytes@),
        valid_utf8(bytes@) ==> r@ == decode_utf8(bytes@),
{
    String::from_utf8_lossy(bytes).into_owned()
}

/// The largest `j <= k` such that the first `j` bytes are well-formed UTF-8.
pub open spec fn valid_prefix_within(bytes: Seq<u8>, k: int) -> int
    decreases k,
{
    if k <= 0 {
        0
    } else if valid_utf8(bytes.subrange(0, k)) {
        k
    } else {
        valid_prefix_within(bytes, k - 1)
    }
}

/// Length of the longest prefix of `bytes` that is well-formed UTF-8.
pub open spec fn longest_valid_prefix(bytes: Seq<u8>) -> int {
    valid_prefix_within(bytes, bytes.len() as int)
}

/// One accepted token: the text emitted and the bytes left pending.
pub open spec fn accept_step(pending: Seq<u8>, piece: Seq<u8>) -> (Seq<char>, Seq<u8>) {
    let all = pending + piece;
    let k = longest_valid_prefix(all);
    (decode_utf8(all.subrange(0, k)), all.subrange(k, all.len() as int))
}

/// The text emitted by a final flush of `pending`.
pub open spec fn flush_text(pending: Seq<u8>) -> Seq<char> {
    if valid_utf8(pending) {
        decode_utf8(pending)
    } else {
        lossy_text(pending)
    }
}

/// Accepting `pieces` in order, starting with `pending` buffered: all text
/// emitted, and the bytes still pending at the end.
pub open spec fn stream(pending: Seq<u8>, pieces: Seq<Seq<u8>>) -> (Seq<char>, Seq<u8>)
    decreases pieces.len(),
{
    if pieces.len() == 0 {
        (seq![], pending)
    } else {
        let (text, rest) = accept_step(pending, pieces[0]);
        let (more, left) = stream(rest, pieces.drop_first());
        (text + more, left)
    }
}

/// The bytes of all pieces, in order.
pub open spec fn concat_pieces(pieces: Seq<Seq<u8>>) -> Seq<u8>
    decreases pieces.len(),
{
    if pieces.len() == 0 {
        seq![]
    } else {
        pieces[0] + concat_pieces(pieces.drop_first())
    }
}

pub proof fn lemma_encode_concat(a: Seq<char>, b: Seq<char>)
    ensures
        encode_utf8(a + b) == encode_utf8(a) + encode_utf8(b),
    decreases a.len(),
{
    if a.len() == 0 {
        assert(a + b =~= b);
        assert(encode_utf8(a) + encode_utf8(b) =~= encode_utf8(b));
    } else {
        assert((a + b).drop_first() =~= a.drop_first() + b);
        assert((a + b)[0] == a[0]);
        lemma_encode_concat(a.drop_first(), b);
        let e = encode_scalar(a[0] as u32);
        assert(e + (encode_utf8(a.drop_first()) + encode_utf8(b)) =~= (e + encode_utf8(
            a.drop_first(),
        )) + encode_utf8(b));
    }
}

/// A well-formed prefix of well-formed bytes leaves a well-formed rest.
proof fn lemma_valid_rest(a: Seq<u8>, b: Seq<u8>)
    requires
        valid_utf8(a),
        valid_utf8(a + b),
    ensures
        valid_utf8(b),
    decreases a.len(),
{
    if a.len() == 0 {
        assert(a + b =~= b);
    } else {
        let ab = a + b;
        assert(ab[0] == a[0]);
        assert(a.len() >= 2 ==> ab[1] == a[1]);
        assert(a.len() >= 3 ==> ab[2] == a[2]);
        assert(a.len() >= 4 ==> ab[3] == a[3]);
        assert(length_of_first_scalar(ab) == length_of_first_scalar(a));
        assert(pop_first_scalar(ab) =~= pop_first_scalar(a) + b);
        lemma_valid_rest(pop_first_scalar(a), b);
    }
}

proof fn lemma_valid_prefix_within(bytes: Seq<u8>, k: int)
    requires
        k <= bytes.len(),
    ensures
        0 <= valid_prefix_within(bytes, k) <= k || (k < 0 && valid_prefix_within(bytes, k) == 0),
        valid_utf8(bytes.subrange(0, valid_prefix_within(bytes, k))),
    decreases k,
{
    if k <= 0 {
        assert(bytes.subrange(0, 0).len() == 0);
    } else if !valid_utf8(bytes.subrange(0, k)) {
        lemma_valid_prefix_within(bytes, k - 1);
    }
}

pub proof fn lemma_accept_step_bytes(pending: Seq<u8>, piece: Seq<u8>)
    ensures
        encode_utf8(accept_step(pending, piece).0) + accept_step(pending, piece).1 == pending + piece,
{
    let all = pending + piece;
    let k = longest_valid_prefix(all);
    lemma_valid_prefix_within(all, all.len() as int);
    decode_utf8_encode_utf8(all.subrange(0, k));
    assert(all.subrange(0, k) + all.subrange(k, all.len() as int) =~= all);
}

proof fn lemma_stream_bytes(pending: Seq<u8>, pieces: Seq<Seq<u8>>)
    ensures
        encode_utf8(stream(pending, pieces).0) + stream(pending, pieces).1 == pending
            + concat_pieces(pieces),
    decreases pieces.len(),
{
    if pieces.len() == 0 {
        assert(encode_utf8(Seq::<char>::empty()) =~= Seq::<u8>::empty());
        assert(pending + concat_pieces(pieces) =~= pending);
        assert(Seq::<u8>::empty() + pending =~= pending);
    } else {
        let (text, rest) = accept_step(pending, pieces[0]);
        let (more, left) = stream(rest, pieces.drop_first());
        lemma_accept_step_bytes(pending, pieces[0]);
        lemma_stream_bytes(rest, pieces.drop_first());
        lemma_encode_concat(text, more);
        assert(encode_utf8(text) + encode_utf8(more) + left =~= encode_utf8(text) + (encode_utf8(
            more,
        ) + left));
        assert(encode_utf8(text) + (rest + concat_pieces(pieces.drop_first())) =~= (encode_utf8(
            text,
        ) + rest) + concat_pieces(pieces.drop_first()));
        assert((pending + pieces[0]) + concat_pieces(pieces.drop_first()) =~= pending + (pieces[0]
            + concat_pieces(pieces.drop_first())));
    }
}

/// Streaming equals batch decoding: when the bytes of all tokens together
/// are well-formed UTF-8, the fragments emitted while accepting the tokens one
/// by one, followed by the final flush, are exactly the text those bytes
/// encode. Nothing is lost or repeated, however characters are split across
/// tokens.
pub proof fn lemma_streaming_equals_batch(pieces: Seq<Seq<u8>>)
    requires
        valid_utf8(concat_pieces(pieces)),
    ensures
        stream(Seq::empty(), pieces).0 + flush_text(stream(Seq::empty(), pieces).1) == decode_utf8(
            concat_pieces(pieces),
        ),
{
    let (text, left) = stream(Seq::empty(), pieces);
    lemma_stream_bytes(Seq::empty(), pieces);
    assert(Seq::<u8>::empty() + concat_pieces(pieces) =~= concat_pieces(pieces));
    lemma_valid_rest(encode_utf8(text), left);
    decode_utf8_encode_utf8(left);
    lemma_encode_concat(text, decode_utf8(left));
}

proof fn lemma_concat_pieces_split(pieces: Seq<Seq<u8>>, i: int)
    requires
        0 <= i <= pieces.len(),
    ensures
        concat_pieces(pieces) == concat_pieces(pieces.take(i)) + concat_pieces(pieces.skip(i)),
    decreases i,
{
    if i == 0 {
        assert(pieces.take(0) =~= Seq::<Seq<u8>>::empty());
        assert(pieces.skip(0) =~= pieces);
        assert(Seq::<u8>::empty() + concat_pieces(pieces) =~= concat_pieces(pieces));
    } else {
        let rest = pieces.drop_first();
        lemma_concat_pieces_split(rest, i - 1);
        assert(pieces.take(i).drop_first() =~= rest.take(i - 1));
        assert(pieces.take(i)[0] == pieces[0]);
        assert(pieces.skip(i) =~= rest.skip(i - 1));
        assert(pieces[0] + (concat_pieces(rest.take(i - 1)) + concat_pieces(rest.skip(i - 1)))
            =~= (pieces[0] + concat_pieces(rest.take(i - 1))) + concat_pieces(rest.skip(i - 1)));
    }
}

/// Nothing emitted early is later contradicted: when the bytes of all tokens
/// together are well-formed UTF-8, the text emitted after accepting any
/// number of the tokens is a prefix of the text of the whole sequence.
pub proof fn lemma_streamed_text_is_prefix(pieces: Seq<Seq<u8>>, i: int)
    requires
        valid_utf8(concat_pieces(pieces)),
        0 <= i <= pieces.len(),
    ensures
        ({
            let text = stream(Seq::empty(), pieces.take(i)).0;
            let whole = decode_utf8(concat_pieces(pieces));
            text.len() <= whole.len() && whole.subrange(0, text.len() as int) == text
        }),
{
    let (text, left) = stream(Seq::empty(), pieces.take(i));
    let later = concat_pieces(pieces.skip(i));
    lemma_stream_bytes(Seq::empty(), pieces.take(i));
    lemma_concat_pieces_split(pieces, i);
    assert(Seq::<u8>::empty() + concat_pieces(pieces.take(i)) =~= concat_pieces(pieces.take(i)));
    let x = left + later;
    assert(concat_pieces(pieces) =~= encode_utf8(text) + x);
    lemma_valid_rest(encode_utf8(text), x);
    decode_utf8_encode_utf8(x);
    lemma_encode_concat(text, decode_utf8(x));
    assert(decode_utf8(concat_pieces(pieces)) == text + decode_utf8(x));
    assert((text + decode_utf8(x)).subrange(0, text.len() as int) =~= text);
}

/// Appending one piece appends its bytes.
pub proof fn lemma_concat_pieces_push(pieces: Seq<Seq<u8>>, piece: Seq<u8>)
    ensures
        concat_pieces(pieces.push(piece)) == concat_pieces(pieces) + piece,
    decreases pieces.len(),
{
    if pieces.len() == 0 {
        assert(pieces.push(piece).drop_first() =~= Seq::<Seq<u8>>::empty());
        assert(pieces.push(piece)[0] == piece);
        assert(concat_pieces(pieces.push(piece).drop_first()) == Seq::<u8>::empty());
        assert(concat_pieces(pieces) == Seq::<u8>::empty());
        assert(piece + Seq::<u8>::empty() =~= piece);
        assert(Seq::<u8>::empty() + piece =~= piece);
    } else {
        assert(pieces.push(piece).drop_first() =~= pieces.drop_first().push(piece));
        assert(pieces.push(piece)[0] == pieces[0]);
        lemma_concat_pieces_push(pieces.drop_first(), piece);
        assert(pieces[0] + (concat_pieces(pieces.drop_first()) + piece) =~= (pieces[0]
            + concat_pieces(pieces.drop_first())) + piece);
    }
}

/// Well-formed bytes that start with the encoding of `text` decode to `text`
/// followed by the decoding of the rest.
pub proof fn lemma_decode_after_text(text: Seq<char>, rest: Seq<u8>)
    requires
        valid_utf8(encode_utf8(text) + rest),
    ensures
        valid_utf8(rest),
        decode_utf8(encode_utf8(text) + rest) == text + decode_utf8(rest),
{
    lemma_valid_rest(encode_utf8(text), rest);
    decode_utf8_encode_utf8(rest);
    lemma_encode_concat(text, decode_utf8(rest));
}

/// Turns a stream of token ids, given with the bytes each one stands for,
/// into text fragments that never split a character.
pub struct TokenOutputStream {
    tokens: Vec<u32>,
    pending: Vec<u8>,
}

impl TokenOutputStream {
    /// The ids accepted since the last reset.
    pub closed spec fn token_ids(&self) -> Seq<u32> {
        self.tokens@
    }

    /// The bytes received but not yet emitted as text.
    pub closed spec fn pending_bytes(&self) -> Seq<u8> {
        self.pending@
    }

    /// An empty stream.
    pub fn new() -> (r: Self)
        ensures
            r.token_ids() == Seq::<u32>::empty(),
            r.pending_bytes() == Seq::<u8>::empty(),
    {
        TokenOutputStream { tokens: Vec::new(), pending: Vec::new() }
    }

    /// Forgets all accepted ids and pending bytes.
    pub fn clear(&mut self)
        ensures
            final(self).token_ids() == Seq::<u32>::empty(),
            final(self).pending_bytes() == Seq::<u8>::empty(),
    {
        self.tokens.clear();
        self.pending.clear();
    }

    /// Accepts one token and emits the longest well-formed UTF-8 prefix of
    /// the buffered bytes, if it is not empty; the rest stays buffered.
    pub fn next_token(&mut self, token: u32, piece: &[u8]) -> (r: Option<String>)
        ensures
            final(self).token_ids() == old(self).token_ids().push(token),
            final(self).pending_bytes() == accept_step(old(self).pending_bytes(), piece@).1,
            r is Some <==> longest_valid_prefix(old(self).pending_bytes() + piece@) > 0,
            r is Some ==> r->0@ == accept_step(old(self).pending_bytes(), piece@).0,
            r is None ==> accept_step(old(self).pending_bytes(), piece@).0 == Seq::<char>::empty(),
    {
        self.tokens.push(token);
        let ghost start = self.pending@;
        let mut i: usize = 0;
        while i < piece.len()
            invariant
                i <= piece@.len(),
                self.pending@ == start + piece@.subrange(0, i as int),
                self.tokens@ == old(self).tokens@.push(token),
            decreases piece@.len() - i,
        {
            self.pending.push(piece[i]);
            i += 1;
        }
        assert(piece@.subrange(0, piece@.len() as int) == piece@);
        let ghost all = self.pending@;
        let mut k: usize = self.pending.len();
        let mut text: Option<String> = None;
        while k > 0
            invariant_except_break
                valid_prefix_within(all, all.len() as int) == valid_prefix_within(all, k as int),
                text is None,
            invariant
                k <= all.len(),
                self.pending@ == all,
                self.tokens@ == old(self).tokens@.push(token),
            ensures
                text is Some ==> k > 0 && longest_valid_prefix(all) == k && text->0@ == decode_utf8(
                    all.subrange(0, k as int),
                ),
                text is None ==> k == 0 && longest_valid_prefix(all) == 0,
            decreases k,
        {
            let (head, _) = self.pending.as_slice().split_at(k);
            let found = utf8_text(head);
            if found.is_some() {
                text = found;
                break;
            }
            k -= 1;
        }
        proof {
            if k == 0 {
                assert(all.subrange(0, 0) =~= Seq::<u8>::empty());
                assert(decode_utf8(all.subrange(0, 0)) =~= Seq::<char>::empty());
            }
        }
        let rest = self.pending.split_off(k);
        self.pending = rest;
        if k == 0 {
            None
        } else {
            text
        }
    }

    /// Emits whatever is still buffered, well-formed or not, and empties the
    /// buffer.
    pub fn decode_rest(&mut self) -> (r: Option<String>)
        ensures
            final(self).token_ids() == old(self).token_ids(),
            final(self).pending_bytes() == Seq::<u8>::empty(),
            r is Some <==> old(self).pending_bytes().len() > 0,
            r is Some ==> r->0@ == flush_text(old(self).pending_bytes()),
    {
        if self.pending.len() == 0 {
            return None;
        }
        let text = utf8_text_lossy(self.pending.as_slice());
        self.pending.clear();
        Some(text)
    }
}

} // verus!
