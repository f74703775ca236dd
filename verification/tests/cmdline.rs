use winvcon::win::argv::split_command_line;
use winvcon::win::cmdline::build_command;

fn w(text: &str) -> Vec<u16> {
    text.encode_utf16().collect()
}

fn line(text: &str) -> Vec<u16> {
    let mut units = w(text);
    units.push(0);
    units
}

fn words(texts: &[&str]) -> Vec<Vec<u16>> {
    texts.iter().map(|t| w(t)).collect()
}

fn round_trip(texts: &[&str]) {
    let args = words(texts);
    let written = build_command(&args);
    assert_eq!(written.last(), Some(&0u16));
    assert_eq!(split_command_line(&written), args);
}

#[test]
fn a_program_alone_stands_between_quotes() {
    assert_eq!(build_command(&words(&["cmd.exe"])), line("\"cmd.exe\""));
}

#[test]
fn arguments_are_parted_by_one_space() {
    assert_eq!(
        build_command(&words(&["prog", "one", "two"])),
        line("\"prog\" \"one\" \"two\"")
    );
}

#[test]
fn no_argument_gives_the_ending_unit_alone() {
    assert_eq!(build_command(&[]), vec![0u16]);
}

#[test]
fn an_empty_argument_is_a_pair_of_quotes() {
    assert_eq!(build_command(&words(&["prog", ""])), line("\"prog\" \"\""));
}

#[test]
fn spaces_stay_inside_the_quotes() {
    assert_eq!(build_command(&words(&["a b", "c\td"])), line("\"a b\" \"c\td\""));
}

#[test]
fn a_quote_gets_a_backslash() {
    assert_eq!(
        build_command(&words(&["say \"hi\""])),
        line("\"say \\\"hi\\\"\"")
    );
}

#[test]
fn a_backslash_far_from_a_quote_stays_single() {
    assert_eq!(build_command(&words(&["a\\b"])), line("\"a\\b\""));
    assert_eq!(
        build_command(&words(&["C:\\Windows\\System32\\cmd.exe"])),
        line("\"C:\\Windows\\System32\\cmd.exe\"")
    );
}

#[test]
fn backslashes_in_front_of_a_quote_are_doubled() {
    // a \ \ " b  is written  " a \ \ \ \ \ " b "
    assert_eq!(
        build_command(&words(&["a\\\\\"b"])),
        line("\"a\\\\\\\\\\\"b\"")
    );
}

#[test]
fn trailing_backslashes_are_doubled() {
    // C:\dir\  is written  "C:\dir\\"
    assert_eq!(build_command(&words(&["C:\\dir\\"])), line("\"C:\\dir\\\\\""));
    assert_eq!(build_command(&words(&["\\\\"])), line("\"\\\\\\\\\""));
}

#[test]
fn only_the_run_that_meets_a_quote_is_doubled() {
    // \ x \ "  is written  " \ x \ \ \ " "
    assert_eq!(
        build_command(&words(&["\\x\\\""])),
        line("\"\\x\\\\\\\"\"")
    );
}

#[test]
fn the_reader_splits_at_spaces_and_tabs() {
    assert_eq!(
        split_command_line(&line("one two\tthree   four")),
        words(&["one", "two", "three", "four"])
    );
    assert_eq!(split_command_line(&line("  lead trail  ")), words(&["lead", "trail"]));
    assert_eq!(split_command_line(&line("")), Vec::<Vec<u16>>::new());
    assert_eq!(split_command_line(&line("   ")), Vec::<Vec<u16>>::new());
}

#[test]
fn the_reader_keeps_spaces_inside_quotes() {
    assert_eq!(
        split_command_line(&line("\"a b\" c\"d e\"f")),
        words(&["a b", "cd ef"])
    );
    assert_eq!(split_command_line(&line("\"\"")), words(&[""]));
    assert_eq!(split_command_line(&line("a \"\" b")), words(&["a", "", "b"]));
}

#[test]
fn the_reader_halves_backslashes_in_front_of_a_quote() {
    // a\\"b c" d  ->  a\b c  and  d
    assert_eq!(
        split_command_line(&line("a\\\\\"b c\" d")),
        words(&["a\\b c", "d"])
    );
    // a\\\"b  ->  a\"b
    assert_eq!(split_command_line(&line("a\\\\\\\"b")), words(&["a\\\"b"]));
    // a\\b  ->  a\\b
    assert_eq!(split_command_line(&line("a\\\\b")), words(&["a\\\\b"]));
    // trailing backslashes stand for themselves
    assert_eq!(split_command_line(&line("a\\\\")), words(&["a\\\\"]));
}

#[test]
fn the_reader_takes_a_doubled_quote_inside_quotes_as_one() {
    assert_eq!(split_command_line(&line("\"a\"\"b\"")), words(&["a\"b"]));
    assert_eq!(split_command_line(&line("\"a\"\"\" b")), words(&["a\"", "b"]));
}

#[test]
fn the_reader_stops_at_the_first_ending_unit() {
    let mut units = w("one two");
    units.push(0);
    units.extend(w("three"));
    assert_eq!(split_command_line(&units), words(&["one", "two"]));
    let unended = w("one two");
    assert_eq!(split_command_line(&unended), words(&["one", "two"]));
}

#[test]
fn plain_arguments_come_back() {
    round_trip(&["cmd.exe"]);
    round_trip(&["prog", "server-launch"]);
    round_trip(&["prog", "", "x"]);
    round_trip(&[""]);
}

#[test]
fn arguments_with_spaces_come_back() {
    round_trip(&["C:\\Program Files\\app.exe", "two words", " lead", "trail ", "\t"]);
}

#[test]
fn arguments_with_quotes_come_back() {
    round_trip(&["say \"hi\"", "\"", "\"\"", "a\"b\"c", "\"quoted\""]);
}

#[test]
fn arguments_with_backslashes_come_back() {
    round_trip(&["C:\\dir\\", "\\", "\\\\", "a\\b", "\\\\server\\share\\"]);
}

#[test]
fn arguments_with_backslashes_and_quotes_come_back() {
    round_trip(&["a\\\"b", "a\\\\\"b", "\\\"", "\"\\", "x\\\\\\\"", "\\\\\" \\\\"]);
}

#[test]
fn every_short_argument_over_four_units_comes_back() {
    let alphabet: [u16; 4] = [0x22, 0x5c, 0x20, 0x61];
    for len in 0..=5usize {
        let mut count = 1usize;
        for _ in 0..len {
            count *= alphabet.len();
        }
        for code in 0..count {
            let mut arg = Vec::new();
            let mut rest = code;
            for _ in 0..len {
                arg.push(alphabet[rest % alphabet.len()]);
                rest /= alphabet.len();
            }
            let args = vec![w("p"), arg.clone(), w("q")];
            let written = build_command(&args);
            assert_eq!(split_command_line(&written), args);
        }
    }
}

#[test]
fn an_argument_with_the_ending_unit_does_not_come_back() {
    let args = vec![w("p"), vec![0x61, 0, 0x62]];
    let written = build_command(&args);
    assert_ne!(split_command_line(&written), args);
}

#[test]
fn the_reader_follows_the_documented_examples() {
    assert_eq!(split_command_line(&line("\"abc\" d e")), words(&["abc", "d", "e"]));
    assert_eq!(
        split_command_line(&line("a\\\\b d\"e f\"g h")),
        words(&["a\\\\b", "de fg", "h"])
    );
    assert_eq!(split_command_line(&line("a\\\\\\\"b c d")), words(&["a\\\"b", "c", "d"]));
    assert_eq!(
        split_command_line(&line("a\\\\\\\\\"b c\" d e")),
        words(&["a\\\\b c", "d", "e"])
    );
    assert_eq!(split_command_line(&line("a\"b\"\" c d")), words(&["ab\" c d"]));
}

#[test]
fn a_plain_program_name_is_written_as_it_is() {
    for name in ["cmd.exe", "C:\\Windows\\System32\\cmd.exe", "C:\\Program Files\\a b\\host.exe", ""] {
        let mut expected = vec![0x22u16];
        expected.extend(w(name));
        expected.push(0x22);
        expected.push(0);
        assert_eq!(build_command(&words(&[name])), expected);
    }
}
