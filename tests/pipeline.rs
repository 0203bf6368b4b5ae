use count_tokens::{
    check_invocation, is_binary, is_selected, select, sum_counts, total_tokens, tracked_files,
    CliError, Mode, Probe, Tokenizer, PREFIX_LEN,
};

fn probe(path: &str, is_file: bool, head: Option<Vec<u8>>) -> Probe {
    Probe { path: path.to_string(), is_file, head }
}

fn tokenizer() -> Tokenizer {
    match Tokenizer::load() {
        Some(t) => t,
        None => panic!("cl100k_base unavailable"),
    }
}

#[test]
fn unreadable_file_is_binary() {
    assert!(is_binary(&None));
}

#[test]
fn empty_file_is_not_binary() {
    assert!(!is_binary(&Some(Vec::new())));
}

#[test]
fn text_without_nul_is_not_binary() {
    assert!(!is_binary(&Some(b"fn main() {}\n".to_vec())));
}

#[test]
fn nul_at_start_is_binary() {
    assert!(is_binary(&Some(vec![0u8, 1, 2])));
}

#[test]
fn nul_at_last_sampled_byte_is_binary() {
    let mut head = vec![b'a'; PREFIX_LEN];
    head[PREFIX_LEN - 1] = 0;
    assert!(is_binary(&Some(head)));
}

#[test]
fn nul_past_sample_is_not_seen() {
    let mut head = vec![b'a'; PREFIX_LEN + 1];
    head[PREFIX_LEN] = 0;
    assert!(!is_binary(&Some(head)));
}

#[test]
fn nul_excluded_whatever_the_extension() {
    assert!(!is_selected(&probe("notes.txt", true, Some(vec![b'x', 0, b'y']))));
    assert!(!is_selected(&probe("main.rs", true, Some(vec![0]))));
}

#[test]
fn directories_and_unreadable_files_are_dropped() {
    let probes = vec![
        probe("root", false, None),
        probe("root/a.txt", true, Some(b"hello".to_vec())),
        probe("root/sub", false, None),
        probe("root/locked.txt", true, None),
        probe("root/b.bin", true, Some(vec![0u8, 7])),
        probe("root/c.md", true, Some(Vec::new())),
    ];
    let kept = select(&probes);
    assert_eq!(kept, vec!["root/a.txt".to_string(), "root/c.md".to_string()]);
}

#[test]
fn select_of_nothing_is_empty() {
    assert!(select(&Vec::new()).is_empty());
}

#[test]
fn hello_world_counts_two_tokens() {
    let t = tokenizer();
    assert_eq!(t.count("hello world"), Some(2));
}

#[test]
fn empty_text_counts_no_tokens() {
    let t = tokenizer();
    assert_eq!(t.count(""), Some(0));
    assert_eq!(t.count_content(&Some(Vec::new())), 0);
}

#[test]
fn unreadable_or_undecodable_content_counts_zero() {
    let t = tokenizer();
    assert_eq!(t.count_content(&None), 0);
    assert_eq!(t.count_content(&Some(vec![0xffu8, 0xfe, b'a'])), 0);
}

#[test]
fn content_is_decoded_before_counting() {
    let t = tokenizer();
    assert_eq!(t.count_content(&Some(b"hello world".to_vec())), 2);
}

#[test]
fn sum_counts_adds_exactly() {
    assert_eq!(sum_counts(&vec![3, 4, 0, 10]), Some(17));
    assert_eq!(sum_counts(&Vec::new()), Some(0));
}

#[test]
fn sum_counts_reports_overflow() {
    assert_eq!(sum_counts(&vec![usize::MAX, 0]), Some(usize::MAX));
    assert_eq!(sum_counts(&vec![usize::MAX, 1]), None);
}

#[test]
fn hello_world_beside_binary_file() {
    let t = tokenizer();
    let probes = vec![
        probe("root/a.txt", true, Some(b"hello world".to_vec())),
        probe("root/b.bin", true, Some(vec![0u8, b'h', b'i'])),
    ];
    let kept = select(&probes);
    assert_eq!(kept, vec!["root/a.txt".to_string()]);
    let contents = vec![Some(b"hello world".to_vec())];
    assert_eq!(total_tokens(&t, &contents), t.count("hello world"));
    assert_eq!(total_tokens(&t, &contents), Some(2));
}

#[test]
fn undecodable_file_is_skipped() {
    let t = tokenizer();
    let contents = vec![
        Some(b"hello world".to_vec()),
        Some(vec![0xc3u8, 0x28]),
        None,
        Some(b"hello world".to_vec()),
    ];
    assert_eq!(total_tokens(&t, &contents), Some(4));
}

#[test]
fn order_does_not_change_total() {
    let t = tokenizer();
    let a = Some(b"hello world".to_vec());
    let b = Some(b"let x = 1;\nlet y = x + 2;\n".to_vec());
    let c = Some(b"".to_vec());
    let one = vec![a.clone(), b.clone(), c.clone()];
    let two = vec![c, a, b];
    let total = total_tokens(&t, &one);
    assert!(total.is_some());
    assert_eq!(total, total_tokens(&t, &two));
}

#[test]
fn total_of_nothing_is_zero() {
    let t = tokenizer();
    assert_eq!(total_tokens(&t, &Vec::new()), Some(0));
}

#[test]
fn both_modes_agree_on_one_file_set() {
    let t = tokenizer();
    let walked = vec![
        probe("r", false, None),
        probe("r/a.txt", true, Some(b"hello world".to_vec())),
        probe("r/src", false, None),
        probe("r/src/m.rs", true, Some(b"fn f() {}".to_vec())),
    ];
    let listed = vec![
        probe("r/src/m.rs", true, Some(b"fn f() {}".to_vec())),
        probe("r/a.txt", true, Some(b"hello world".to_vec())),
    ];
    let read = |p: &String| -> Option<Vec<u8>> {
        if p == "r/a.txt" {
            Some(b"hello world".to_vec())
        } else {
            Some(b"fn f() {}".to_vec())
        }
    };
    let from_walk: Vec<Option<Vec<u8>>> = select(&walked).iter().map(read).collect();
    let from_list: Vec<Option<Vec<u8>>> = select(&listed).iter().map(read).collect();
    assert_eq!(total_tokens(&t, &from_walk), total_tokens(&t, &from_list));
}

#[test]
fn listing_lines_are_trimmed_and_joined() {
    let out = b"a.txt\n  src/main.rs \r\ndocs/readme.md".to_vec();
    let paths = match tracked_files("repo", true, &out, b"") {
        Ok(p) => p,
        Err(_) => panic!("listing should succeed"),
    };
    assert_eq!(
        paths,
        vec![
            "repo/a.txt".to_string(),
            "repo/src/main.rs".to_string(),
            "repo/docs/readme.md".to_string(),
        ]
    );
}

#[test]
fn listing_trims_unicode_white_space() {
    let out = "\u{3000}a.txt\u{a0}\t\n".as_bytes().to_vec();
    let paths = match tracked_files("repo", true, &out, b"") {
        Ok(p) => p,
        Err(_) => panic!("listing should succeed"),
    };
    assert_eq!(paths, vec!["repo/a.txt".to_string()]);
}

#[test]
fn listing_with_invalid_bytes_is_decoded_lossily() {
    let out = vec![b'x', 0xff, b'\n'];
    let paths = match tracked_files("repo", true, &out, b"") {
        Ok(p) => p,
        Err(_) => panic!("listing should succeed"),
    };
    assert_eq!(paths, vec!["repo/x\u{FFFD}".to_string()]);
}

#[test]
fn empty_listing_gives_no_candidates() {
    match tracked_files("repo", true, b"", b"") {
        Ok(p) => assert!(p.is_empty()),
        Err(_) => panic!("empty output is no error"),
    }
}

#[test]
fn failed_listing_carries_diagnostic() {
    let err = b"fatal: not a git repository (or any of the parent directories): .git\n";
    match tracked_files("/tmp/nowhere", false, b"a.txt\n", err) {
        Ok(_) => panic!("a failed command must not list files"),
        Err(e) => assert_eq!(
            e.message,
            "fatal: not a git repository (or any of the parent directories): .git\n"
        ),
    }
}

#[test]
fn wrong_argument_count_is_usage_error() {
    assert_eq!(check_invocation(Mode::Directory, 0, true, true), Err(CliError::Usage));
    assert_eq!(check_invocation(Mode::Directory, 2, true, true), Err(CliError::Usage));
    assert_eq!(check_invocation(Mode::Repository, 2, true, true), Err(CliError::Usage));
}

#[test]
fn directory_mode_needs_existing_directory() {
    assert_eq!(check_invocation(Mode::Directory, 1, false, false), Err(CliError::InvalidPath));
    assert_eq!(check_invocation(Mode::Directory, 1, true, false), Err(CliError::InvalidPath));
    assert_eq!(check_invocation(Mode::Directory, 1, true, true), Ok(()));
}

#[test]
fn repository_mode_checks_no_path() {
    assert_eq!(check_invocation(Mode::Repository, 1, false, false), Ok(()));
}
