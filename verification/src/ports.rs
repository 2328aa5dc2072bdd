//! Ports as the MIDI subsystem enumerates them: finding one by its name,
//! and the lines that list them.
//!
//! A port is known here by what the subsystem reported when asked for its
//! name: the name, or the cause for which it gave none. A port's index is its
//! place in the enumeration.

use crate::digits::{decimal, push_decimal};
use crate::error::{Error, ErrorView};
use itertools::Itertools;
use vstd::prelude::*;
use vstd::string::StringExecFns;

verus! {

/// The side of the MIDI subsystem that a port belongs to.
#[derive(Clone, Copy, Debug, PartialEq, Eq, Structural)]
pub enum Direction {
    Input,
    Output,
}

/// What one port reported for its name, as character sequences.
pub type NameView = Result<Seq<char>, Seq<char>>;

/// The view of one port's report.
pub open spec fn name_view(entry: Result<String, String>) -> NameView {
    match entry {
        Ok(name) => Ok(name@),
        Err(cause) => Err(cause@),
    }
}

/// The view of an enumeration.
pub open spec fn names_view(names: Seq<Result<String, String>>) -> Seq<NameView> {
    names.map_values(|entry: Result<String, String>| name_view(entry))
}

/// The port reported a name, and it is `wanted`, character for character.
pub open spec fn is_named(entry: NameView, wanted: Seq<char>) -> bool {
    entry == Ok::<Seq<char>, Seq<char>>(wanted)
}

/// `i` is the first port of the enumeration that is named `wanted`.
pub open spec fn is_first_named(names: Seq<NameView>, wanted: Seq<char>, i: int) -> bool {
    &&& 0 <= i < names.len()
    &&& is_named(names[i], wanted)
    &&& forall|j: int| 0 <= j < i ==> !is_named(#[trigger] names[j], wanted)
}

/// The index of the first port named `wanted`, or the error that names it.
pub open spec fn resolve(names: Seq<NameView>, wanted: Seq<char>) -> Result<int, ErrorView> {
    if exists|i: int| is_first_named(names, wanted, i) {
        Ok(choose|i: int| is_first_named(names, wanted, i))
    } else {
        Err(ErrorView::PortNotFound { name: wanted })
    }
}

/// The result of [`find_port`] as an index and a view.
pub open spec fn found(r: Result<usize, Error>) -> Result<int, ErrorView> {
    match r {
        Ok(i) => Ok(i as int),
        Err(e) => Err(e@),
    }
}

/// How many ports at the front of the enumeration reported a name.
pub open spec fn known_prefix(names: Seq<NameView>) -> nat
    decreases names.len(),
{
    if names.len() == 0 || names[0] is Err {
        0
    } else {
        1 + known_prefix(names.drop_first())
    }
}

/// The word for a direction.
pub open spec fn label(direction: Direction) -> Seq<char> {
    match direction {
        Direction::Input => "input"@,
        Direction::Output => "output"@,
    }
}

/// The line that lists the port at `position`, counted from zero; the line
/// numbers it from one.
pub open spec fn list_line_text(direction: Direction, position: nat, name: Seq<char>) -> Seq<char> {
    label(direction) + " #"@ + decimal(position + 1) + ": \""@ + name + "\"\n"@
}

/// The lines for the first `n` ports, in the order of the enumeration.
pub open spec fn listing_text(direction: Direction, names: Seq<NameView>, n: nat) -> Seq<char>
    decreases n,
{
    if n == 0 {
        Seq::empty()
    } else {
        listing_text(direction, names, (n - 1) as nat) + list_line_text(
            direction,
            (n - 1) as nat,
            names[n - 1]->Ok_0,
        )
    }
}

/// The cause reported by the first port that gave no name.
pub open spec fn first_failure(names: Seq<NameView>) -> Option<Seq<char>> {
    if known_prefix(names) < names.len() {
        Some(names[known_prefix(names) as int]->Err_0)
    } else {
        None
    }
}

/// The view of the cause that [`listing`] hands back.
pub open spec fn cause_view(cause: Option<String>) -> Option<Seq<char>> {
    match cause {
        Some(c) => Some(c@),
        None => None,
    }
}

/// The first port without a name is where the known prefix ends.
pub proof fn lemma_known_prefix(names: Seq<NameView>, n: int)
    requires
        0 <= n <= names.len(),
        forall|j: int| 0 <= j < n ==> (#[trigger] names[j]) is Ok,
        n < names.len() ==> names[n] is Err,
    ensures
        known_prefix(names) == n,
    decreases n,
{
    if n > 0 {
        let rest = names.drop_first();
        assert forall|j: int| 0 <= j < n - 1 implies (#[trigger] rest[j]) is Ok by {
            assert(rest[j] == names[j + 1]);
        }
        lemma_known_prefix(rest, n - 1);
    }
}

/// Whether a port's report is the name `wanted`.
///
/// This is `Itertools::contains`, asked of the iterator over the name that
/// the port reported: at most one item, none where the port gave a cause
/// instead. `contains` is true exactly when an item equals the query, and two
/// strings are equal when they hold the same characters.
#[verifier::external_body]
fn reports_name(entry: &Result<String, String>, wanted: &String) -> (hit: bool)
    ensures
        hit == is_named(name_view(*entry), wanted@),
{
    entry.as_ref().ok().iter().contains(&wanted)
}

/// Finds the first port whose name is exactly `wanted`.
///
/// The whole name is compared, case included: a name that merely holds
/// `wanted`, or differs from it in case, is no match, and a port that
/// reported no name never matches.
pub fn find_port(names: &Vec<Result<String, String>>, wanted: &str) -> (r: Result<usize, Error>)
    ensures
        found(r) == resolve(names_view(names@), wanted@),
        match r {
            Ok(i) => is_first_named(names_view(names@), wanted@, i as int),
            Err(e) => e@ == (ErrorView::PortNotFound { name: wanted@ }) && forall|j: int|
                0 <= j < names@.len() ==> !is_named(#[trigger] names_view(names@)[j], wanted@),
        },
{
    let name = String::from_str(wanted);
    let mut i: usize = 0;
    while i < names.len()
        invariant
            i <= names@.len(),
            name@ == wanted@,
            forall|j: int| 0 <= j < i ==> !is_named(#[trigger] names_view(names@)[j], wanted@),
        decreases names@.len() - i,
    {
        if reports_name(&names[i], &name) {
            assert(is_first_named(names_view(names@), wanted@, i as int));
            return Ok(i);
        }
        i += 1;
    }
    Err(Error::PortNotFound { name })
}

/// The line that lists one port.
pub fn list_line(direction: Direction, position: usize, name: &str) -> (line: String)
    ensures
        line@ == list_line_text(direction, position as nat, name@),
{
    let mut line = match direction {
        Direction::Input => String::from_str("input"),
        Direction::Output => String::from_str("output"),
    };
    line.append(" #");
    push_decimal(&mut line, position as u128 + 1);
    line.append(": \"");
    line.append(name);
    line.append("\"\n");
    line
}

/// The lines that list an enumeration, up to the first port that reported
/// no name, and the cause that this port gave.
pub fn listing(direction: Direction, names: &Vec<Result<String, String>>) -> (r: (
    String,
    Option<String>,
))
    ensures
        r.0@ == listing_text(direction, names_view(names@), known_prefix(names_view(names@))),
        cause_view(r.1) == first_failure(names_view(names@)),
{
    let ghost all = names_view(names@);
    let mut text = String::new();
    let mut i: usize = 0;
    while i < names.len()
        invariant
            i <= names@.len(),
            all == names_view(names@),
            forall|j: int| 0 <= j < i ==> (#[trigger] all[j]) is Ok,
            text@ == listing_text(direction, all, i as nat),
        decreases names@.len() - i,
    {
        match &names[i] {
            Ok(name) => {
                let line = list_line(direction, i, name.as_str());
                text.append(line.as_str());
            },
            Err(cause) => {
                proof {
                    lemma_known_prefix(all, i as int);
                }
                return (text, Some(cause.clone()));
            },
        }
        i += 1;
    }
    proof {
        lemma_known_prefix(all, i as int);
    }
    (text, None)
}

} // verus!
