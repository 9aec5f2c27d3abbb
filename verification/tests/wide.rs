use ptyx::c_api::{BytesView, Size, SPAWN_OPTIONS_SIZE};
use ptyx::c_spawn::{spawn_config_wide, SpawnOptions};
use ptyx::facade::CloseResult;
use ptyx::session::{InputAdmission, Sent};
use ptyx::wide_text::wide_text;

fn view(bytes: &[u8]) -> BytesView {
    BytesView { data: Some(bytes.to_vec()), length: bytes.len() as u64 }
}

fn units(text: &str) -> Vec<u16> {
    text.encode_utf16().collect()
}

fn options() -> SpawnOptions {
    SpawnOptions {
        struct_size: SPAWN_OPTIONS_SIZE,
        flags: 0,
        executable: view("C:\\Prog\u{e9}\\sh.exe".as_bytes()),
        arguments: Some(vec![view(b"-c"), view("\u{20ac} \u{1f600}".as_bytes())]),
        argument_count: 2,
        environment: Some(vec![view("\u{e4}=b=\u{10ffff}".as_bytes()), view(b"E=")]),
        environment_count: 2,
        working_directory: view(b"C:\\"),
        size: Size { rows: 24, columns: 80, pixel_width: 1, pixel_height: 2 },
        input_capacity: 1024,
        output_capacity: 2048,
        graceful_close_timeout_us: 250_000,
        reserved: [0; 4],
    }
}

#[test]
fn texts_are_recoded_unit_by_unit() {
    assert_eq!(wide_text(&Vec::new()), Some(Vec::new()));
    assert_eq!(wide_text(&b"az".to_vec()), Some(vec![97, 122]));
    let edges = "\u{7f}\u{80}\u{7ff}\u{800}\u{d7ff}\u{e000}\u{ffff}\u{10000}\u{1f600}\u{10ffff}";
    assert_eq!(wide_text(&edges.as_bytes().to_vec()), Some(units(edges)));
    assert_eq!(
        wide_text(&"\u{1f600}".as_bytes().to_vec()),
        Some(vec![0xd83d, 0xde00])
    );
}

#[test]
fn bytes_that_are_no_text_are_not_recoded() {
    let refused: [&[u8]; 10] = [
        &[0x80],
        &[0xc3],
        &[0xc0, 0x80],
        &[0xe0, 0x9f, 0xbf],
        &[0xed, 0xa0, 0x80],
        &[0xe2, 0x82],
        &[0xf0, 0x8f, 0xbf, 0xbf],
        &[0xf4, 0x90, 0x80, 0x80],
        &[0xf0, 0x9f, 0x98],
        &[97, 0xff],
    ];
    for bytes in refused {
        assert!(std::str::from_utf8(bytes).is_err());
        assert_eq!(wide_text(&bytes.to_vec()), None);
    }
}

#[test]
fn a_wide_configuration_holds_every_text_in_utf16() {
    let (config, input_capacity, output_capacity) = spawn_config_wide(&options()).unwrap();

    assert_eq!(config.executable, units("C:\\Prog\u{e9}\\sh.exe"));
    assert_eq!(config.arguments, vec![units("-c"), units("\u{20ac} \u{1f600}")]);
    assert_eq!(
        config.environment,
        Some(vec![
            (units("\u{e4}"), units("b=\u{10ffff}")),
            (units("E"), Vec::new()),
        ])
    );
    assert_eq!(config.cwd, Some(units("C:\\")));
    assert_eq!((config.rows, config.columns), (24, 80));
    assert_eq!((config.pixel_width, config.pixel_height), (1, 2));
    assert_eq!(config.graceful_close_timeout, 250_000_000);
    assert_eq!((input_capacity, output_capacity), (1024, 2048));
}

#[test]
fn an_inherited_environment_stays_out_of_a_wide_configuration() {
    let mut inherited = options();
    inherited.flags = 1;
    inherited.environment_count = 0;
    inherited.working_directory = view(b"");
    let (config, _, _) = spawn_config_wide(&inherited).unwrap();
    assert_eq!(config.environment, None);
    assert_eq!(config.cwd, None);
}

#[test]
fn a_wide_configuration_refuses_what_is_not_utf8() {
    let mut executable = options();
    executable.executable = view(b"\xff");
    assert!(spawn_config_wide(&executable).is_err());
    let mut argument = options();
    argument.arguments = Some(vec![view(b"-c"), view(b"\xc3")]);
    assert!(spawn_config_wide(&argument).is_err());
    let mut key = options();
    key.environment = Some(vec![view(b"\xc3=a"), view(b"E=")]);
    assert!(spawn_config_wide(&key).is_err());
    let mut value = options();
    value.environment = Some(vec![view(b"A=b"), view(b"E=\xed\xa0\x80")]);
    assert!(spawn_config_wide(&value).is_err());
    let mut directory = options();
    directory.working_directory = view(b"\x80");
    assert!(spawn_config_wide(&directory).is_err());
    let mut rows = options();
    rows.size.rows = 0;
    assert!(spawn_config_wide(&rows).is_err());
}

#[test]
fn a_separator_parts_texts() {
    let texts: [&[u8]; 4] = [b"", b"key", b"\xc3\xa4", b"\xc3"];
    for before in texts {
        for behind in texts {
            let mut whole = before.to_vec();
            whole.push(b'=');
            whole.extend_from_slice(behind);
            assert_eq!(
                wide_text(&whole).is_some(),
                wide_text(&before.to_vec()).is_some() && wide_text(&behind.to_vec()).is_some()
            );
        }
    }
}

#[test]
fn a_close_result_starts_without_failures() {
    let result = CloseResult::default();
    assert!(!result.input_failed);
    assert!(!result.output_failed);
    assert!(!result.cleanup_failed);
}

#[test]
fn a_refused_write_is_not_sent() {
    let mut admission = InputAdmission::new(4);
    let mut sends = 0;
    assert_eq!(
        admission.admit_write_with(5, || {
            sends += 1;
            Sent::Queued
        }),
        0
    );
    admission.open = false;
    admission.admit_write_with(1, || {
        sends += 1;
        Sent::Queued
    });
    assert_eq!(sends, 0);
}
