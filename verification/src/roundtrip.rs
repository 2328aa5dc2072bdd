//! Decoding and formatting undo each other: what is decoded from a line
//! and formatted again is the line in its canonical spelling, and what is
//! formatted from bytes decodes to those bytes.

use crate::decode::{
    decode_line, decode_tokens, is_token, lemma_decode_tokens, split_on_space, token_byte,
    token_fault, tokens,
};
use crate::error::ErrorView;
use crate::digits::{digit_value, hex_char, hex_pair, lemma_hex_char_value};
use crate::format::{format_text, hex_line, join_with_space, Options};
use vstd::prelude::*;

verus! {

/// An ASCII capital as its small letter, any other character as it is.
pub open spec fn lowercase(c: char) -> char {
    let code = c as u32;
    if 65 <= code <= 90 {
        ((code + 32) as u8) as char
    } else {
        c
    }
}

/// A token with its letters in lowercase.
pub open spec fn lowercase_token(token: Seq<char>) -> Seq<char> {
    token.map_values(|c: char| lowercase(c))
}

/// The canonical spelling of a line: its tokens in lowercase, one space
/// between neighbours, none at either end, and a newline after them.
pub open spec fn normalize(line: Seq<char>) -> Seq<char> {
    join_with_space(tokens(line).map_values(|token: Seq<char>| lowercase_token(token))) + seq![
        '\n',
    ]
}

/// The lowercase digit for the value of a hexadecimal digit is that digit
/// in lowercase.
pub proof fn lemma_digit_lowercase(c: char)
    requires
        digit_value(c) is Some,
    ensures
        0 <= digit_value(c)->0 < 16,
        hex_char(digit_value(c)->0) == lowercase(c),
{
}

/// The two digits of the byte of a faultless token are that token in
/// lowercase.
pub proof fn lemma_token_roundtrip(token: Seq<char>)
    requires
        token_fault(token) is None,
    ensures
        hex_pair(token_byte(token)) == lowercase_token(token),
{
    lemma_digit_lowercase(token[0]);
    lemma_digit_lowercase(token[1]);
    let high = digit_value(token[0])->0;
    let low = digit_value(token[1])->0;
    assert(token_byte(token) as int == 16 * high + low);
    assert((16 * high + low) / 16 == high && (16 * high + low) % 16 == low);
    assert(hex_pair(token_byte(token)) =~= lowercase_token(token));
}

/// For every line that decodes, formatting the decoded bytes without
/// prefixes gives the line's canonical spelling, whatever the time.
pub proof fn lemma_format_of_decoded(t: u64, line: Seq<char>)
    requires
        decode_line(line) is Ok,
    ensures
        format_text(t, decode_line(line)->Ok_0, Options { show_ts: false, show_size: false })
            == normalize(line),
{
    let ts = tokens(line);
    let bytes = decode_tokens(ts)->Ok_0;
    lemma_decode_tokens(ts);
    let pairs = bytes.map_values(|b: u8| hex_pair(b));
    let lowered = ts.map_values(|token: Seq<char>| lowercase_token(token));
    assert forall|k: int| 0 <= k < ts.len() implies pairs[k] == lowered[k] by {
        assert(token_fault(ts[k]) is None);
        assert(bytes[k] == token_byte(ts[k]));
        lemma_token_roundtrip(ts[k]);
    }
    assert(pairs =~= lowered);
    assert(hex_line(bytes) == join_with_space(lowered));
    assert(format_text(t, bytes, Options { show_ts: false, show_size: false }) =~= normalize(line));
}

/// No character of `s` is a space.
pub open spec fn space_free(s: Seq<char>) -> bool {
    forall|i: int| 0 <= i < s.len() ==> #[trigger] s[i] != ' '
}

/// A text always splits into at least one piece.
proof fn lemma_split_has_pieces(s: Seq<char>)
    ensures
        split_on_space(s).len() > 0,
    decreases s.len(),
{
    if s.len() > 0 {
        lemma_split_has_pieces(s.drop_last());
    }
}

/// Text without spaces, put after `a`, lengthens the last piece of `a`.
proof fn lemma_split_append(a: Seq<char>, b: Seq<char>)
    requires
        space_free(b),
    ensures
        split_on_space(a).len() > 0,
        split_on_space(a + b) == split_on_space(a).drop_last().push(split_on_space(a).last() + b),
    decreases b.len(),
{
    lemma_split_has_pieces(a);
    let pieces = split_on_space(a);
    if b.len() == 0 {
        assert(a + b =~= a);
        assert(pieces.last() + b =~= pieces.last());
        assert(pieces.drop_last().push(pieces.last()) =~= pieces);
    } else {
        let front = b.drop_last();
        assert(space_free(front)) by {
            assert forall|i: int| 0 <= i < front.len() implies #[trigger] front[i] != ' ' by {
                assert(front[i] == b[i]);
            }
        }
        lemma_split_append(a, front);
        assert((a + b).drop_last() =~= a + front);
        assert((a + b).last() == b.last());
        assert(b.last() != ' ');
        let grown = pieces.drop_last().push(pieces.last() + front);
        assert(grown.drop_last() =~= pieces.drop_last());
        assert((pieces.last() + front).push(b.last()) =~= pieces.last() + b);
    }
}

/// Parts without spaces, joined by single spaces, split into the same
/// parts again.
proof fn lemma_split_of_joined(parts: Seq<Seq<char>>)
    requires
        parts.len() > 0,
        forall|k: int| 0 <= k < parts.len() ==> space_free(#[trigger] parts[k]),
    ensures
        split_on_space(join_with_space(parts)) == parts,
    decreases parts.len(),
{
    let empty = Seq::<char>::empty();
    if parts.len() == 1 {
        lemma_split_append(empty, parts[0]);
        assert(empty + parts[0] =~= parts[0]);
        assert(split_on_space(empty) =~= seq![empty]);
        assert(seq![empty].drop_last().push(empty + parts[0]) =~= parts);
    } else {
        let front = parts.drop_last();
        assert forall|k: int| 0 <= k < front.len() implies space_free(#[trigger] front[k]) by {
            assert(front[k] == parts[k]);
        }
        lemma_split_of_joined(front);
        let spaced = join_with_space(front) + seq![' '];
        assert(spaced.drop_last() =~= join_with_space(front));
        assert(split_on_space(spaced) == front.push(empty));
        lemma_split_append(spaced, parts.last());
        assert(front.push(empty).drop_last() =~= front);
        assert(empty + parts.last() =~= parts.last());
        assert(front.push(parts.last()) =~= parts);
    }
}

/// Pieces that are all tokens are all kept.
proof fn lemma_all_are_tokens(parts: Seq<Seq<char>>)
    requires
        forall|k: int| 0 <= k < parts.len() ==> (#[trigger] parts[k]).len() > 0,
    ensures
        parts.filter(is_token()) == parts,
    decreases parts.len(),
{
    reveal(Seq::filter);
    if parts.len() > 0 {
        let front = parts.drop_last();
        assert forall|k: int| 0 <= k < front.len() implies (#[trigger] front[k]).len() > 0 by {
            assert(front[k] == parts[k]);
        }
        lemma_all_are_tokens(front);
        assert(front.push(parts.last()) =~= parts);
    }
}

/// The two digits of a byte are a faultless token that stands for it.
pub proof fn lemma_pair_roundtrip(b: u8)
    ensures
        space_free(hex_pair(b)),
        token_fault(hex_pair(b)) is None,
        token_byte(hex_pair(b)) == b,
{
    let high = b as int / 16;
    let low = b as int % 16;
    lemma_hex_char_value(high);
    lemma_hex_char_value(low);
    assert(16 * high + low == b);
}

/// The tokens of a line of formatted bytes are the digit pairs of the bytes.
pub proof fn lemma_tokens_of_formatted(data: Seq<u8>)
    ensures
        tokens(hex_line(data)) == data.map_values(|b: u8| hex_pair(b)),
{
    let pairs = data.map_values(|b: u8| hex_pair(b));
    assert forall|k: int| 0 <= k < pairs.len() implies space_free(#[trigger] pairs[k])
        && pairs[k].len() > 0 by {
        lemma_pair_roundtrip(data[k]);
    }
    if data.len() == 0 {
        reveal_with_fuel(Seq::filter, 2);
        let pieces = split_on_space(hex_line(data));
        assert(pieces =~= seq![Seq::<char>::empty()]);
        assert(pieces.drop_last() =~= Seq::<Seq<char>>::empty());
        assert(!is_token()(pieces.last()));
        assert(pieces.filter(is_token()) =~= pairs);
    } else {
        lemma_split_of_joined(pairs);
        lemma_all_are_tokens(pairs);
    }
}

/// The digit pairs of bytes decode to those bytes.
proof fn lemma_decode_of_pairs(data: Seq<u8>)
    ensures
        decode_tokens(data.map_values(|b: u8| hex_pair(b))) == Ok::<Seq<u8>, ErrorView>(data),
    decreases data.len(),
{
    let pairs = data.map_values(|b: u8| hex_pair(b));
    if data.len() == 0 {
        assert(data =~= Seq::<u8>::empty());
    } else {
        lemma_decode_of_pairs(data.drop_last());
        assert(pairs.drop_last() =~= data.drop_last().map_values(|b: u8| hex_pair(b)));
        lemma_pair_roundtrip(data.last());
        assert(data.drop_last().push(data.last()) =~= data);
    }
}

/// Every line that formatting writes for bytes, taken without prefixes and
/// without its newline, decodes to those bytes.
pub proof fn lemma_decode_of_formatted(data: Seq<u8>)
    ensures
        decode_line(hex_line(data)) == Ok::<Seq<u8>, ErrorView>(data),
{
    lemma_tokens_of_formatted(data);
    lemma_decode_of_pairs(data);
}

} // verus!
