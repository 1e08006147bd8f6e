use file_diff_view::label::{
    compare_names, filename_for_buffer, path_for_buffer, title_for_buffers, tooltip_for_buffers,
    BufferFile,
};
use file_diff_view::path::file_name;
use std::path::Path;

fn file(full_path: &str) -> Option<BufferFile> {
    Some(BufferFile {
        full_path: full_path.as_bytes().to_vec(),
        compact_path: full_path.as_bytes().to_vec(),
    })
}

#[test]
fn title_joins_file_names_with_an_arrow() {
    let title = title_for_buffers(&file("test/old_file.txt"), &file("test/new_file.txt"));
    assert_eq!(title, "old_file.txt ↔ new_file.txt");
}

#[test]
fn tooltip_joins_paths_with_an_arrow() {
    let tooltip = tooltip_for_buffers(&file("test/old_file.txt"), &file("test/new_file.txt"));
    assert_eq!(
        tooltip,
        Some(format!("{} ↔ {}", "test/old_file.txt", "test/new_file.txt"))
    );
}

#[test]
fn a_buffer_without_a_file_is_untitled() {
    assert_eq!(filename_for_buffer(&None), "untitled");
    assert_eq!(path_for_buffer(&None), "untitled");
    assert_eq!(title_for_buffers(&None, &file("a/b")), "untitled ↔ b");
    assert_eq!(
        tooltip_for_buffers(&file("a/b"), &None),
        Some("a/b ↔ untitled".to_string())
    );
}

#[test]
fn a_path_without_a_file_name_is_untitled() {
    for path in ["", "/", ".", "..", "a/..", "a/../", "/.."] {
        assert_eq!(filename_for_buffer(&file(path)), "untitled");
    }
}

#[test]
fn a_file_name_that_is_not_text_is_untitled() {
    let not_text = Some(BufferFile {
        full_path: b"dir/\xff\xfe".to_vec(),
        compact_path: b"dir/\xff\xfe".to_vec(),
    });
    assert_eq!(filename_for_buffer(&not_text), "untitled");
    assert_eq!(path_for_buffer(&not_text), "dir/\u{fffd}\u{fffd}");
}

#[test]
fn only_the_file_name_has_to_be_text() {
    let folder_not_text = Some(BufferFile {
        full_path: b"\xff/name.txt".to_vec(),
        compact_path: b"\xff/name.txt".to_vec(),
    });
    assert_eq!(filename_for_buffer(&folder_not_text), "name.txt");
    assert_eq!(path_for_buffer(&folder_not_text), "\u{fffd}/name.txt");
}

#[test]
fn names_are_decoded() {
    assert_eq!(filename_for_buffer(&file("dir/grüße.txt")), "grüße.txt");
    assert_eq!(path_for_buffer(&file("dir/grüße.txt")), "dir/grüße.txt");
}

#[test]
fn the_path_shown_is_the_compact_one() {
    let in_home = Some(BufferFile {
        full_path: b"/home/user/a.txt".to_vec(),
        compact_path: b"~/a.txt".to_vec(),
    });
    assert_eq!(filename_for_buffer(&in_home), "a.txt");
    assert_eq!(path_for_buffer(&in_home), "~/a.txt");
}

#[test]
fn the_path_shown_ends_in_the_file_name_shown() {
    for (full_path, compact_path) in [
        (&b"/home/user/src/a.txt"[..], &b"~/src/a.txt"[..]),
        (b"/home/user/a.txt", b"~/a.txt"),
        (b"a.txt", b"a.txt"),
        (b"/a.txt", b"/a.txt"),
        (b"\xff\xc3/a.txt", b"\xff\xc3/a.txt"),
    ] {
        let file = Some(BufferFile {
            full_path: full_path.to_vec(),
            compact_path: compact_path.to_vec(),
        });
        assert_eq!(filename_for_buffer(&file), "a.txt");
        assert!(path_for_buffer(&file).ends_with("a.txt"));
        assert!(title_for_buffers(&None, &file).ends_with("a.txt"));
        assert!(tooltip_for_buffers(&None, &file).unwrap().ends_with("a.txt"));
    }
}

#[test]
fn a_path_that_is_not_text_shows_replacement_characters() {
    for path in [&b"\xff"[..], b"a/\xc3", b"\xed\xa0\x80/a"] {
        let file = Some(BufferFile { full_path: path.to_vec(), compact_path: path.to_vec() });
        assert!(path_for_buffer(&file).contains('\u{fffd}'));
    }
}

#[test]
fn labels_keep_their_names_as_they_are() {
    assert_eq!(compare_names("", ""), " ↔ ");
    assert_eq!(compare_names("a ↔ b", "c"), "a ↔ b ↔ c");
}

#[test]
fn file_names_of_ordinary_paths() {
    assert_eq!(file_name(b"/usr/bin/"), Some(&b"bin"[..]));
    assert_eq!(file_name(b"tmp/foo.txt"), Some(&b"foo.txt"[..]));
    assert_eq!(file_name(b"foo.txt/."), Some(&b"foo.txt"[..]));
    assert_eq!(file_name(b"foo.txt/.//"), Some(&b"foo.txt"[..]));
    assert_eq!(file_name(b"foo.txt/.."), None);
    assert_eq!(file_name(b"..."), Some(&b"..."[..]));
    assert_eq!(file_name(b"/"), None);
}

#[test]
fn file_names_agree_with_the_standard_library() {
    let mut paths = vec![String::new()];
    let mut start = 0;
    for _ in 0..8 {
        let end = paths.len();
        for i in start..end {
            for c in ["a", ".", "/"] {
                let path = format!("{}{}", paths[i], c);
                paths.push(path);
            }
        }
        start = end;
    }
    assert_eq!(paths.len(), 9841);
    for path in &paths {
        let expected = Path::new(path).file_name().map(|name| name.as_encoded_bytes());
        assert_eq!(file_name(path.as_bytes()), expected);
    }
}
