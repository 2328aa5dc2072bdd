use midihex::error::{Error, ParseCause};
use midihex::ports::{find_port, list_line, listing, Direction};

fn named(names: &[&str]) -> Vec<Result<String, String>> {
    names.iter().map(|n| Ok(n.to_string())).collect()
}

fn not_found(name: &str) -> Error {
    Error::PortNotFound { name: name.to_string() }
}

#[test]
fn find_port_gives_the_index_of_the_name() {
    let names = named(&["Midi Through", "Synth A", "Synth B"]);
    assert_eq!(find_port(&names, "Midi Through"), Ok(0));
    assert_eq!(find_port(&names, "Synth A"), Ok(1));
    assert_eq!(find_port(&names, "Synth B"), Ok(2));
}

#[test]
fn find_port_fails_where_no_port_has_the_name() {
    let names = named(&["Midi Through", "Synth A"]);
    assert_eq!(find_port(&names, "Organ"), Err(not_found("Organ")));
    assert_eq!(find_port(&named(&[]), "Organ"), Err(not_found("Organ")));
}

#[test]
fn find_port_does_not_match_part_of_a_name() {
    let names = named(&["Synth A"]);
    assert_eq!(find_port(&names, "Synth"), Err(not_found("Synth")));
    assert_eq!(find_port(&names, "A"), Err(not_found("A")));
    assert_eq!(find_port(&names, ""), Err(not_found("")));
    assert_eq!(find_port(&names, "Synth A "), Err(not_found("Synth A ")));
    assert_eq!(find_port(&names, "Synth A:0"), Err(not_found("Synth A:0")));
}

#[test]
fn find_port_does_not_match_another_case() {
    let names = named(&["Synth A"]);
    assert_eq!(find_port(&names, "synth a"), Err(not_found("synth a")));
    assert_eq!(find_port(&names, "SYNTH A"), Err(not_found("SYNTH A")));
}

#[test]
fn find_port_takes_the_first_of_equal_names() {
    let names = named(&["x", "dup", "dup", "y"]);
    assert_eq!(find_port(&names, "dup"), Ok(1));
}

#[test]
fn find_port_passes_over_ports_without_a_name() {
    let names = vec![
        Err("gone".to_string()),
        Ok("Synth A".to_string()),
        Err("Synth B".to_string()),
    ];
    assert_eq!(find_port(&names, "Synth A"), Ok(1));
    assert_eq!(find_port(&names, "gone"), Err(not_found("gone")));
    assert_eq!(find_port(&names, "Synth B"), Err(not_found("Synth B")));
}

#[test]
fn find_port_matches_the_empty_name_exactly() {
    let names = named(&["a", ""]);
    assert_eq!(find_port(&names, ""), Ok(1));
}

#[test]
fn list_line_counts_from_one() {
    assert_eq!(list_line(Direction::Input, 0, "Midi Through"), "input #1: \"Midi Through\"\n");
    assert_eq!(list_line(Direction::Output, 0, "Synth A"), "output #1: \"Synth A\"\n");
    assert_eq!(list_line(Direction::Output, 9, "x"), "output #10: \"x\"\n");
    assert_eq!(list_line(Direction::Input, 41, ""), "input #42: \"\"\n");
}

#[test]
fn list_line_at_the_last_position() {
    let expected = format!("input #{}: \"p\"\n", usize::MAX as u128 + 1);
    assert_eq!(list_line(Direction::Input, usize::MAX, "p"), expected);
}

#[test]
fn listing_holds_a_line_for_each_port_in_order() {
    let (text, failure) = listing(Direction::Input, &named(&["b", "a", "c"]));
    assert_eq!(text, "input #1: \"b\"\ninput #2: \"a\"\ninput #3: \"c\"\n");
    assert_eq!(failure, None);
    let (text, failure) = listing(Direction::Output, &named(&["only"]));
    assert_eq!(text, "output #1: \"only\"\n");
    assert_eq!(failure, None);
}

#[test]
fn listing_of_no_ports_is_empty() {
    assert_eq!(listing(Direction::Input, &named(&[])), (String::new(), None));
    assert_eq!(listing(Direction::Output, &named(&[])), (String::new(), None));
}

#[test]
fn listing_stops_at_the_first_port_without_a_name() {
    let names = vec![
        Ok("a".to_string()),
        Err("unplugged".to_string()),
        Ok("c".to_string()),
        Err("later".to_string()),
    ];
    let (text, failure) = listing(Direction::Output, &names);
    assert_eq!(text, "output #1: \"a\"\n");
    assert_eq!(failure, Some("unplugged".to_string()));
    let (text, failure) = listing(Direction::Input, &vec![Err("first".to_string())]);
    assert_eq!(text, "");
    assert_eq!(failure, Some("first".to_string()));
}

#[test]
fn message_of_each_error() {
    assert_eq!(not_found("Synth A").message(), "port 'Synth A' not found");
    assert_eq!(
        Error::Parse { token: "zz".to_string(), cause: ParseCause::InvalidDigit }.message(),
        "parse error: 'zz': invalid digit found in token"
    );
    assert_eq!(
        Error::Parse { token: "1".to_string(), cause: ParseCause::WrongLength }.message(),
        "parse error: '1': token is not two digits long"
    );
    assert_eq!(
        Error::Subsystem { cause: "no such device".to_string() }.message(),
        "MIDI error: no such device"
    );
    assert_eq!(Error::Io { cause: "broken pipe".to_string() }.message(), "I/O error: broken pipe");
}

#[test]
fn text_of_each_cause() {
    assert_eq!(ParseCause::InvalidDigit.text(), "invalid digit found in token");
    assert_eq!(ParseCause::WrongLength.text(), "token is not two digits long");
}
