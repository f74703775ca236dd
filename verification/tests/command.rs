use winvcon::server::{launch_in_background, shell};
use winvcon::win::cmdline::build_command;
use winvcon::win::command::{
    next_path_step, wide, Command, CreationFlags, PathStep, PATH_BUFFER_START,
};
use winvcon::win::console::PseudoConsole;
use winvcon::win::command::AttachedSpawn;
use winvcon::win::pipe::{Receiver, Sender};

fn w(text: &str) -> Vec<u16> {
    text.encode_utf16().collect()
}

fn console(handle: isize) -> PseudoConsole {
    PseudoConsole {
        handle,
        in_rx: Receiver(1),
        out_rx: Receiver(2),
        in_tx: Sender(3),
        out_tx: Sender(4),
    }
}

#[test]
fn wide_writes_plain_text_unit_by_unit() {
    assert_eq!(wide("cmd.exe"), vec![0x63, 0x6d, 0x64, 0x2e, 0x65, 0x78, 0x65]);
    assert_eq!(wide(""), Vec::<u16>::new());
}

#[test]
fn wide_writes_what_utf16_encoding_gives() {
    for text in ["server-launch", "h\u{e9}llo", "\u{20ac}", "\u{ffff}", "\u{10000}", "a\u{1d11e}b", "\u{10ffff}"] {
        assert_eq!(wide(text), w(text));
    }
}

#[test]
fn wide_writes_a_high_character_as_two_surrogates() {
    assert_eq!(wide("\u{1d11e}"), vec![0xd834, 0xdd1e]);
    assert_eq!(wide("\u{10000}"), vec![0xd800, 0xdc00]);
    assert_eq!(wide("\u{10ffff}"), vec![0xdbff, 0xdfff]);
}

#[test]
fn a_command_collects_its_arguments_in_order() {
    let built = Command::new(w("prog")).arg(w("one")).args(&[w("two"), w("three")]);
    let same = Command::new(w("prog")).args(&[w("one"), w("two")]).arg(w("three"));
    assert_eq!(built, same);
    let request = built.spawn_into_background();
    assert_eq!(
        request.command_line,
        build_command(&[w("prog"), w("one"), w("two"), w("three")])
    );
}

#[test]
fn args_with_nothing_changes_nothing() {
    let request = Command::new(w("prog")).args(&[]).spawn_into_background();
    assert_eq!(request.command_line, build_command(&[w("prog")]));
}

#[test]
fn a_background_process_is_cut_off_from_its_parent() {
    let request = Command::new(w("C:\\host.exe")).arg(w("server-launch")).spawn_into_background();
    let mut expected = w("\"C:\\host.exe\" \"server-launch\"");
    expected.push(0);
    assert_eq!(request.command_line, expected);
    assert_eq!(
        request.flags,
        CreationFlags {
            extended_startup_info: true,
            detached_process: true,
            new_process_group: true,
            no_window: true,
        }
    );
    assert!(!request.inherit_handles);
}

#[test]
fn an_attached_process_takes_an_attribute_list_and_no_handles() {
    let terminal = console(77);
    let (request, protocol) = Command::new(w("cmd.exe")).spawn_into(&terminal);
    let mut expected = w("\"cmd.exe\"");
    expected.push(0);
    assert_eq!(request.command_line, expected);
    assert_eq!(
        request.flags,
        CreationFlags {
            extended_startup_info: true,
            detached_process: false,
            new_process_group: false,
            no_window: false,
        }
    );
    assert!(!request.inherit_handles);
    assert_eq!(protocol, AttachedSpawn::Idle { console: 77 });
}

#[test]
fn the_server_is_launched_as_the_host_program_with_one_argument() {
    let request = launch_in_background("\\\\.\\pipe\\winvcon-default", w("C:\\Program Files\\winvcon.exe"));
    let mut expected = w("\"C:\\Program Files\\winvcon.exe\" \"server-launch\"");
    expected.push(0);
    assert_eq!(request.command_line, expected);
    assert!(request.flags.detached_process);
    assert!(request.flags.new_process_group);
    assert!(request.flags.no_window);
    assert!(request.flags.extended_startup_info);
    assert!(!request.inherit_handles);
}

#[test]
fn the_shell_is_the_command_interpreter() {
    assert_eq!(shell(), Command::new(w("cmd.exe")));
}

#[test]
fn the_path_buffer_doubles_until_the_path_leaves_room() {
    assert_eq!(PATH_BUFFER_START, 16);
    assert_eq!(next_path_step(16, 16), PathStep::Grow { capacity: 32 });
    assert_eq!(next_path_step(32, 32), PathStep::Grow { capacity: 64 });
    assert_eq!(next_path_step(64, 41), PathStep::Complete { len: 41 });
    assert_eq!(next_path_step(16, 0), PathStep::Complete { len: 0 });
    assert_eq!(next_path_step(16, 15), PathStep::Complete { len: 15 });
}
