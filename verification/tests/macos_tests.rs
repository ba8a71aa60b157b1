use multi_instance::macos::{
    find_app_lock_file, get_bundle_identifier, get_info_plist_path, get_process_locks,
    info_plist_path,
    get_running_instances_by_bundle, launch_agent_named, launch_agent_path, launch_app_isolated,
    remove_launch_agent, set_resource_limits, setup_launch_agent,
};

fn reference_locks(output: &str) -> Vec<Vec<u8>> {
    let mut locks = Vec::new();
    for line in output.lines() {
        if line.starts_with('n') && line.len() > 1 {
            let path = &line[1..];
            if !path.starts_with("/dev") && !path.starts_with("pipe") {
                locks.push(path.as_bytes().to_vec());
            }
        }
    }
    locks
}

fn locks_of(output: &str) -> Vec<String> {
    get_process_locks(&output.as_bytes().to_vec())
        .into_iter()
        .map(|p| String::from_utf8(p).unwrap())
        .collect()
}

#[test]
fn name_lines_that_are_no_device_and_no_pipe_are_listed() {
    let output = "p123\nfcwd\nn/Users/a\nf0\nn/dev/null\nf3\nn/tmp/app.lock\nf4\nnpipe\nf5\nn->0x1234\n";
    assert_eq!(locks_of(output), vec!["/Users/a", "/tmp/app.lock", "->0x1234"]);
}

#[test]
fn lock_listing_edge_cases() {
    assert!(locks_of("").is_empty());
    assert!(locks_of("\n\n\n").is_empty());
    assert!(locks_of("n").is_empty());
    assert!(locks_of("n\n").is_empty());
    assert_eq!(locks_of("nx"), vec!["x"]);
    assert_eq!(locks_of("nx\n"), vec!["x"]);
    assert_eq!(locks_of("nx\r\nny"), vec!["x", "y"]);
    assert_eq!(locks_of("nx\r"), vec!["x\r"]);
    assert_eq!(locks_of("n\r\n"), Vec::<String>::new());
    assert_eq!(locks_of("n/de\nn/dev\nn/devices\nnpip\nnpipeline\nn/x/dev"), vec!["/de", "npip".get(1..).unwrap(), "/x/dev"]);
    assert_eq!(locks_of("x/tmp/a\nN/tmp/b\n n/tmp/c\nn/tmp/d"), vec!["/tmp/d"]);
}

#[test]
fn lock_listing_agrees_with_line_by_line_reading() {
    let pieces = ["n", "/dev", "pipe", "/tmp/a", "x", "\n", "\r\n", "\r", "p1", "f2", "nn", " "];
    let mut seed: u64 = 0x1234_5678_9abc_def1;
    for _ in 0..3000 {
        let mut text = String::new();
        let mut count = 0;
        loop {
            seed ^= seed << 13;
            seed ^= seed >> 7;
            seed ^= seed << 17;
            text.push_str(pieces[(seed % pieces.len() as u64) as usize]);
            count += 1;
            if count > 12 || seed % 11 == 0 {
                break;
            }
        }
        assert_eq!(
            get_process_locks(&text.as_bytes().to_vec()),
            reference_locks(&text),
            "for {:?}",
            text
        );
    }
}

#[test]
fn bytes_that_are_no_text_pass_through() {
    let output = vec![110, 0xff, 0xfe, 10, 110, 47, 100, 101, 118, 10, 110, 200];
    assert_eq!(get_process_locks(&output), vec![vec![0xff, 0xfe], vec![200]]);
}

#[test]
fn the_property_list_lies_in_the_contents_directory() {
    assert_eq!(
        info_plist_path("/Applications/Editor.app"),
        "/Applications/Editor.app/Contents/Info.plist"
    );
    assert_eq!(info_plist_path(""), "Contents/Info.plist");
}

#[test]
fn a_bundle_without_a_property_list_has_none() {
    assert_eq!(
        get_info_plist_path("/Applications/Editor.app", true),
        Some("/Applications/Editor.app/Contents/Info.plist".to_string())
    );
    assert_eq!(get_info_plist_path("/Applications/Editor.app", false), None);
    assert_eq!(get_info_plist_path("", false), None);
}

#[test]
fn lock_file_candidates_in_the_order_they_are_tried() {
    assert_eq!(
        find_app_lock_file("Editor", "/Users/a/Library/Caches", "/Users/a/Library/Application Support"),
        vec![
            "/Users/a/Library/Caches/Editor.lock",
            "/Users/a/Library/Application Support/Editor/Editor.lock",
            "/tmp/Editor.lock",
            "/tmp/Editor-lock",
        ]
    );
}

#[test]
fn isolated_bundle_environment() {
    let env = launch_app_isolated("/iso");
    let expected = [
        ("HOME", "/iso"),
        ("XDG_DATA_HOME", "/iso/Library"),
        ("XDG_CONFIG_HOME", "/iso/Library/Preferences"),
        ("XDG_CACHE_HOME", "/iso/Library/Caches"),
        ("TMPDIR", "/iso/Library/Caches/tmp"),
    ];
    assert_eq!(env.len(), expected.len());
    for (got, want) in env.iter().zip(expected.iter()) {
        assert_eq!(got.0, want.0);
        assert_eq!(got.1, want.1);
    }
}

#[test]
fn address_space_limit_in_bytes() {
    assert_eq!(set_resource_limits(0), None);
    assert_eq!(set_resource_limits(1), Some(1024 * 1024));
    assert_eq!(set_resource_limits(4096), Some(4096 * 1024 * 1024));
    assert_eq!(set_resource_limits(u64::MAX), Some(u64::MAX));
}

fn pids_of(output: &str) -> Vec<u32> {
    get_running_instances_by_bundle(&output.as_bytes().to_vec())
}

fn reference_pids(output: &str) -> Vec<u32> {
    output.lines().filter_map(|line| line.trim().parse().ok()).collect()
}

#[test]
fn process_ids_are_read_one_to_a_line() {
    assert_eq!(pids_of("123\n456\n789\n"), vec![123, 456, 789]);
    assert_eq!(pids_of("  42  \n\t7\r\n"), vec![42, 7]);
    assert_eq!(pids_of("1"), vec![1]);
    assert!(pids_of("").is_empty());
    assert!(pids_of("\n\n").is_empty());
}

#[test]
fn lines_that_write_no_process_id_are_passed_over() {
    assert_eq!(pids_of("abc\n12\n1 2\n-5\n+6\n+\n\n0x10\n12a\n007\n"), vec![12, 6, 7]);
    assert_eq!(pids_of("4294967295\n4294967296\n99999999999999999999999\n"), vec![4294967295]);
    assert_eq!(pids_of("00000000000000000000000000000000000000001\n"), vec![1]);
    assert_eq!(pids_of("0\n+0\n++1\n+ 1\n"), vec![0, 0]);
}

#[test]
fn process_id_reading_agrees_with_the_standard_parser() {
    let pieces = [
        "1", "23", "0", "+", "-", " ", "\t", "\n", "\r\n", "\r", "x", "4294967295", "4294967296",
        "\u{b}", "\u{c}", "9",
    ];
    let mut seed: u64 = 0x0fed_cba9_8765_4321;
    for _ in 0..5000 {
        let mut text = String::new();
        let mut count = 0;
        loop {
            seed ^= seed << 13;
            seed ^= seed >> 7;
            seed ^= seed << 17;
            text.push_str(pieces[(seed % pieces.len() as u64) as usize]);
            count += 1;
            if count > 10 || seed % 7 == 0 {
                break;
            }
        }
        assert_eq!(pids_of(&text), reference_pids(&text), "for {:?}", text);
    }
}

#[test]
fn the_bundle_identifier_is_the_output_without_surrounding_white_space() {
    let trimmed = |s: &str| String::from_utf8(get_bundle_identifier(&s.as_bytes().to_vec())).unwrap();
    assert_eq!(trimmed("com.example.Editor\n"), "com.example.Editor");
    assert_eq!(trimmed("  \t com.example.Editor \r\n\n"), "com.example.Editor");
    assert_eq!(trimmed("a b"), "a b");
    assert_eq!(trimmed(""), "");
    assert_eq!(trimmed(" \n\t "), "");
    for s in ["x", " x", "x ", "\u{b}x\u{c}", "a\nb", "\r\n a \n b \r\n"] {
        assert_eq!(trimmed(s), s.trim());
    }
}

const EXPECTED_PLIST: &str = r#"<?xml version="1.0" encoding="UTF-8"?>
<!DOCTYPE plist PUBLIC "-//Apple//DTD PLIST 1.0//EN" "http://www.apple.com/DTDs/PropertyList-1.0.dtd">
<plist version="1.0">
<dict>
    <key>Label</key>
    <string>com.multiinstance.editor</string>
    <key>ProgramArguments</key>
    <array>
        <string>/Applications/Editor.app/Contents/MacOS/Editor</string>
    </array>
    <key>RunAtLoad</key>
    <true/>
    <key>KeepAlive</key>
    <false/>
</dict>
</plist>"#;

#[test]
fn the_launch_agent_goes_by_the_lower_case_name() {
    let agent = setup_launch_agent(
        "Editor",
        "/Applications/Editor.app/Contents/MacOS/Editor",
        "/Users/a",
    );
    assert_eq!(agent.directory, "/Users/a/Library/LaunchAgents");
    assert_eq!(agent.path, "/Users/a/Library/LaunchAgents/com.multiinstance.editor.plist");
    assert_eq!(agent.content, EXPECTED_PLIST);
    assert_eq!(
        remove_launch_agent("EDITOR", "/Users/a"),
        "/Users/a/Library/LaunchAgents/com.multiinstance.editor.plist"
    );
}

#[test]
fn a_launch_agent_for_a_given_lower_case_name() {
    let agent = launch_agent_named(
        "editor",
        "/Applications/Editor.app/Contents/MacOS/Editor",
        "/Users/a",
    );
    assert_eq!(agent.content, EXPECTED_PLIST);
    assert_eq!(agent.path, launch_agent_path("editor", "/Users/a"));
    assert_eq!(launch_agent_path("x", ""), "Library/LaunchAgents/com.multiinstance.x.plist");
}
