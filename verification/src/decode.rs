//! Reading a line of hexadecimal tokens into bytes.
//!
//! A line is cut at every single space, the empty pieces are dropped, and
//! each piece that is left must be exactly two hexadecimal digits.

use crate::error::{Error, ErrorView, ParseCause};
use crate::digits::{digit_value, hex_value};
use vstd::prelude::*;
use vstd::slice::slice_subrange;
use vstd::string::StrSliceExecFns;

verus! {

/// The pieces of `s` between its spaces: one more piece than there are spaces.
pub open spec fn split_on_space(s: Seq<char>) -> Seq<Seq<char>>
    decreases s.len(),
{
    if s.len() == 0 {
        seq![Seq::empty()]
    } else {
        let before = split_on_space(s.drop_last());
        if s.last() == ' ' {
            before.push(Seq::empty())
        } else {
            before.drop_last().push(before.last().push(s.last()))
        }
    }
}

/// Tells the pieces that count as tokens from the empty ones.
pub open spec fn is_token() -> spec_fn(Seq<char>) -> bool {
    |piece: Seq<char>| piece.len() > 0
}

/// The tokens of a line, in order: its non-empty pieces.
pub open spec fn tokens(line: Seq<char>) -> Seq<Seq<char>> {
    split_on_space(line).filter(is_token())
}

/// Every character of `token` is a hexadecimal digit.
pub open spec fn all_hex(token: Seq<char>) -> bool {
    forall|i: int| 0 <= i < token.len() ==> digit_value(#[trigger] token[i]) is Some
}

/// What is wrong with a token, if anything. A character that is no digit
/// is reported before a wrong length.
pub open spec fn token_fault(token: Seq<char>) -> Option<ParseCause> {
    if !all_hex(token) {
        Some(ParseCause::InvalidDigit)
    } else if token.len() != 2 {
        Some(ParseCause::WrongLength)
    } else {
        None
    }
}

/// The byte that a faultless token stands for.
pub open spec fn token_byte(token: Seq<char>) -> u8 {
    (16 * digit_value(token[0])->0 + digit_value(token[1])->0) as u8
}

/// The bytes of a list of tokens, or the error for the first token at fault.
pub open spec fn decode_tokens(ts: Seq<Seq<char>>) -> Result<Seq<u8>, ErrorView>
    decreases ts.len(),
{
    if ts.len() == 0 {
        Ok(Seq::empty())
    } else {
        match decode_tokens(ts.drop_last()) {
            Err(e) => Err(e),
            Ok(bytes) => match token_fault(ts.last()) {
                Some(cause) => Err(ErrorView::Parse { token: ts.last(), cause }),
                None => Ok(bytes.push(token_byte(ts.last()))),
            },
        }
    }
}

/// What a line decodes to.
pub open spec fn decode_line(line: Seq<char>) -> Result<Seq<u8>, ErrorView> {
    decode_tokens(tokens(line))
}

/// The result of [`decode`] as sequences.
pub open spec fn outcome(r: Result<Vec<u8>, Error>) -> Result<Seq<u8>, ErrorView> {
    match r {
        Ok(bytes) => Ok(bytes@),
        Err(e) => Err(e@),
    }
}

/// `spans` marks, in order, where each of `ts` lies in `chars`.
pub open spec fn spans_mark(chars: Seq<char>, spans: Seq<(usize, usize)>, ts: Seq<Seq<char>>) -> bool {
    &&& spans.len() == ts.len()
    &&& forall|k: int|
        0 <= k < spans.len() ==> {
            &&& (#[trigger] spans[k]).0 <= spans[k].1 <= chars.len()
            &&& chars.subrange(spans[k].0 as int, spans[k].1 as int) == ts[k]
        }
}

/// A list of tokens decodes to bytes exactly when no token is at fault, and
/// then byte by byte; otherwise the error names the first token at fault.
pub proof fn lemma_decode_tokens(ts: Seq<Seq<char>>)
    ensures
        match decode_tokens(ts) {
            Ok(bytes) => {
                &&& bytes.len() == ts.len()
                &&& forall|k: int| 0 <= k < ts.len() ==> token_fault(#[trigger] ts[k]) is None
                &&& forall|k: int| 0 <= k < ts.len() ==> #[trigger] bytes[k] == token_byte(ts[k])
            },
            Err(e) => exists|k: int|
                {
                    &&& 0 <= k < ts.len()
                    &&& forall|j: int| 0 <= j < k ==> token_fault(#[trigger] ts[j]) is None
                    &&& token_fault(#[trigger] ts[k]) is Some
                    &&& e == (ErrorView::Parse { token: ts[k], cause: token_fault(ts[k])->0 })
                },
        },
    decreases ts.len(),
{
    if ts.len() > 0 {
        let front = ts.drop_last();
        lemma_decode_tokens(front);
        match decode_tokens(front) {
            Err(e) => {
                let k = choose|k: int|
                    {
                        &&& 0 <= k < front.len()
                        &&& forall|j: int| 0 <= j < k ==> token_fault(#[trigger] front[j]) is None
                        &&& token_fault(#[trigger] front[k]) is Some
                        &&& e == (ErrorView::Parse { token: front[k], cause: token_fault(front[k])->0 })
                    };
                assert(ts[k] == front[k]);
                assert forall|j: int| 0 <= j < k implies token_fault(#[trigger] ts[j]) is None by {
                    assert(ts[j] == front[j]);
                }
            },
            Ok(bytes) => {
                assert forall|k: int| 0 <= k < front.len() implies token_fault(
                    #[trigger] ts[k],
                ) is None by {
                    assert(ts[k] == front[k]);
                }
                match token_fault(ts.last()) {
                    Some(cause) => {
                        let k = ts.len() - 1;
                        assert(token_fault(ts[k]) is Some);
                    },
                    None => {
                        let all = bytes.push(token_byte(ts.last()));
                        assert forall|k: int| 0 <= k < ts.len() implies #[trigger] all[k]
                            == token_byte(ts[k]) by {
                            if k < front.len() {
                                assert(ts[k] == front[k]);
                                assert(all[k] == bytes[k]);
                            }
                        }
                    },
                }
            },
        }
    }
}

/// A line of nothing but spaces, the empty line among them, has no tokens
/// and decodes to no bytes.
pub proof fn lemma_blank_line(line: Seq<char>)
    requires
        forall|i: int| 0 <= i < line.len() ==> line[i] == ' ',
    ensures
        tokens(line) == Seq::<Seq<char>>::empty(),
        decode_line(line) == Ok::<Seq<u8>, ErrorView>(Seq::empty()),
    decreases line.len(),
{
    reveal_with_fuel(Seq::filter, 2);
    let pieces = split_on_space(line);
    if line.len() == 0 {
        assert(pieces.drop_last() =~= Seq::<Seq<char>>::empty());
    } else {
        lemma_blank_line(line.drop_last());
        assert(pieces.drop_last() =~= split_on_space(line.drop_last()));
    }
    assert(!is_token()(pieces.last()));
}

/// Once a token is at fault, the tokens after it do not change the error.
proof fn lemma_fault_is_final(ts: Seq<Seq<char>>, n: int)
    requires
        0 <= n <= ts.len(),
        decode_tokens(ts.take(n)) is Err,
    ensures
        decode_tokens(ts) == decode_tokens(ts.take(n)),
    decreases ts.len(),
{
    if n < ts.len() {
        assert(ts.drop_last().take(n) =~= ts.take(n));
        lemma_fault_is_final(ts.drop_last(), n);
    } else {
        assert(ts.take(n) =~= ts);
    }
}

/// The characters of `text`, in order.
pub fn chars_of(text: &str) -> (chars: Vec<char>)
    ensures
        chars@ == text@,
{
    let mut chars: Vec<char> = Vec::new();
    for c in it: text.chars()
        invariant
            chars@ == it.seq().take(it.index() as int),
            it.seq() == text@,
    {
        chars.push(c);
    }
    chars
}

/// Where each token of `chars` begins and ends.
pub fn token_spans(chars: &Vec<char>) -> (spans: Vec<(usize, usize)>)
    ensures
        spans_mark(chars@, spans@, tokens(chars@)),
{
    let n = chars.len();
    let mut spans: Vec<(usize, usize)> = Vec::new();
    let mut start: usize = 0;
    let mut i: usize = 0;
    while i < n
        invariant
            n == chars@.len(),
            start <= i <= n,
            split_on_space(chars@.take(i as int)).len() > 0,
            split_on_space(chars@.take(i as int)).last() == chars@.subrange(start as int, i as int),
            spans_mark(
                chars@,
                spans@,
                split_on_space(chars@.take(i as int)).drop_last().filter(is_token()),
            ),
        decreases n - i,
    {
        let ghost pieces = split_on_space(chars@.take(i as int));
        proof {
            reveal(Seq::filter);
            assert(chars@.take(i + 1).drop_last() =~= chars@.take(i as int));
            assert(pieces.push(Seq::empty()).drop_last() =~= pieces);
            assert(pieces.drop_last().push(pieces.last().push(chars@[i as int])).drop_last()
                =~= pieces.drop_last());
            assert(chars@.subrange(start as int, i as int).push(chars@[i as int])
                =~= chars@.subrange(start as int, i + 1));
            assert(chars@.subrange(i + 1, i + 1) =~= Seq::<char>::empty());
        }
        if chars[i] == ' ' {
            if start < i {
                spans.push((start, i));
            }
            start = i + 1;
        }
        i += 1;
    }
    proof {
        reveal(Seq::filter);
        assert(chars@.take(n as int) =~= chars@);
    }
    if start < n {
        spans.push((start, n));
    }
    spans
}

/// Decodes one token: exactly two hexadecimal digits, in either case.
pub fn decode_token(token: &[char]) -> (r: Result<u8, ParseCause>)
    ensures
        match r {
            Ok(b) => token_fault(token@) is None && b == token_byte(token@),
            Err(cause) => token_fault(token@) == Some(cause),
        },
{
    let mut i: usize = 0;
    while i < token.len()
        invariant
            i <= token@.len(),
            forall|j: int| 0 <= j < i ==> digit_value(#[trigger] token@[j]) is Some,
        decreases token@.len() - i,
    {
        if hex_value(token[i]).is_none() {
            return Err(ParseCause::InvalidDigit);
        }
        i += 1;
    }
    if token.len() != 2 {
        return Err(ParseCause::WrongLength);
    }
    let high = hex_value(token[0]).unwrap();
    let low = hex_value(token[1]).unwrap();
    Ok(16 * high + low)
}

/// Decodes a line of space-separated two-digit hexadecimal tokens.
///
/// Runs of spaces are tolerated, and a line without tokens gives no bytes.
/// The first token at fault fails the whole line.
pub fn decode(line: &str) -> (r: Result<Vec<u8>, Error>)
    ensures
        outcome(r) == decode_line(line@),
{
    let chars = chars_of(line);
    let spans = token_spans(&chars);
    let ghost ts = tokens(line@);
    let mut bytes: Vec<u8> = Vec::new();
    let mut k: usize = 0;
    while k < spans.len()
        invariant
            chars@ == line@,
            ts == tokens(line@),
            spans_mark(chars@, spans@, ts),
            k <= spans.len(),
            decode_tokens(ts.take(k as int)) == Ok::<Seq<u8>, ErrorView>(bytes@),
        decreases spans.len() - k,
    {
        let (from, to) = spans[k];
        proof {
            assert(ts.take(k + 1).drop_last() =~= ts.take(k as int));
            assert(ts.take(k + 1).last() == ts[k as int]);
        }
        match decode_token(slice_subrange(chars.as_slice(), from, to)) {
            Ok(b) => {
                bytes.push(b);
            },
            Err(cause) => {
                let token = line.substring_char(from, to).to_owned();
                proof {
                    lemma_fault_is_final(ts, k + 1);
                }
                return Err(Error::Parse { token, cause });
            },
        }
        k += 1;
    }
    assert(ts.take(k as int) =~= ts);
    Ok(bytes)
}

} // verus!
