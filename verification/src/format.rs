//! Writing a received message as a line of hexadecimal text.

use crate::digits::{decimal, hex_pair, push_decimal, push_hex_pair};
use vstd::prelude::*;
use vstd::string::StringExecFns;

verus! {

/// What to put in front of the bytes of each printed message.
#[derive(Clone, Copy, Debug, PartialEq, Eq, Structural)]
pub struct Options {
    /// Start the line with the time at which the message arrived.
    pub show_ts: bool,
    /// Start the line, after the time, with the number of bytes.
    pub show_size: bool,
}

/// The parts in order, with one space between neighbours.
pub open spec fn join_with_space(parts: Seq<Seq<char>>) -> Seq<char>
    decreases parts.len(),
{
    if parts.len() == 0 {
        Seq::empty()
    } else if parts.len() == 1 {
        parts[0]
    } else {
        join_with_space(parts.drop_last()) + seq![' '] + parts.last()
    }
}

/// The bytes as two-digit lowercase tokens, separated by single spaces.
pub open spec fn hex_line(data: Seq<u8>) -> Seq<char> {
    join_with_space(data.map_values(|b: u8| hex_pair(b)))
}

/// A number in decimal and a space after it, where it is asked for.
pub open spec fn prefix(shown: bool, n: nat) -> Seq<char> {
    if shown {
        decimal(n).push(' ')
    } else {
        Seq::empty()
    }
}

/// The line printed for a message that arrived at time `t`.
pub open spec fn format_text(t: u64, data: Seq<u8>, options: Options) -> Seq<char> {
    prefix(options.show_ts, t as nat) + prefix(options.show_size, data.len()) + hex_line(data)
        + seq!['\n']
}

/// Formats a received message as one line, newline included.
pub fn format(t: u64, data: &[u8], options: &Options) -> (line: String)
    ensures
        line@ == format_text(t, data@, *options),
{
    let mut line = String::new();
    if options.show_ts {
        push_decimal(&mut line, t as u128);
        line.append(" ");
    }
    if options.show_size {
        push_decimal(&mut line, data.len() as u128);
        line.append(" ");
    }
    proof {
        reveal_strlit(" ");
        reveal_strlit("\n");
        assert(line@ =~= prefix(options.show_ts, t as nat) + prefix(
            options.show_size,
            data@.len(),
        ));
    }
    let ghost head = line@;
    let ghost pairs = data@.map_values(|b: u8| hex_pair(b));
    let mut i: usize = 0;
    while i < data.len()
        invariant
            i <= data@.len(),
            pairs == data@.map_values(|b: u8| hex_pair(b)),
            line@ == head + join_with_space(pairs.take(i as int)),
        decreases data@.len() - i,
    {
        proof {
            reveal_strlit(" ");
            assert(pairs.take(i + 1).drop_last() =~= pairs.take(i as int));
            assert(pairs.take(i + 1).last() == hex_pair(data@[i as int]));
        }
        if i > 0 {
            line.append(" ");
        }
        push_hex_pair(&mut line, data[i]);
        assert(line@ =~= head + join_with_space(pairs.take(i + 1)));
        i += 1;
    }
    assert(pairs.take(i as int) =~= pairs);
    line.append("\n");
    assert(line@ =~= format_text(t, data@, *options));
    line
}

} // verus!
