use yt_dlp_gui::files::find_ffmpeg_recursive;
use yt_dlp_gui::files::get_bundle_tool_paths;
use yt_dlp_gui::files::get_sorted_directory_contents;
use yt_dlp_gui::files::is_tool_binary;
use yt_dlp_gui::files::DirNode;
use yt_dlp_gui::files::FileInfo;

fn info(name: &str, last_modified: u64) -> FileInfo {
    FileInfo { name: name.to_string(), is_dir: false, last_modified, file_size: 1 }
}

fn names(entries: &[FileInfo]) -> Vec<String> {
    entries.iter().map(|e| e.name.clone()).collect()
}

fn file(dir: &str, name: &str) -> DirNode {
    DirNode { name: name.to_string(), path: format!("{}/{}", dir, name), children: None }
}

fn dir(parent: &str, name: &str, children: Vec<DirNode>) -> DirNode {
    DirNode { name: name.to_string(), path: format!("{}/{}", parent, name), children: Some(children) }
}

#[test]
fn the_newest_entry_comes_first() {
    let sorted = get_sorted_directory_contents(vec![info("a", 10), info("b", 30), info("c", 20)]);
    assert_eq!(names(&sorted), vec!["b", "c", "a"]);
}

#[test]
fn entries_of_the_same_time_keep_their_order() {
    let sorted = get_sorted_directory_contents(vec![
        info("a", 5),
        info("b", 7),
        info("c", 5),
        info("d", 7),
        info("e", 5),
        info("f", 9),
    ]);
    assert_eq!(names(&sorted), vec!["f", "b", "d", "a", "c", "e"]);
}

#[test]
fn sorting_agrees_with_the_stable_sort_of_std() {
    let mut entries = Vec::new();
    let mut expected = Vec::new();
    for i in 0..200u64 {
        let time = (i * 7919) % 13;
        entries.push(info(&format!("f{}", i), time));
        expected.push((format!("f{}", i), time));
    }
    expected.sort_by(|a, b| b.1.cmp(&a.1));
    let sorted = get_sorted_directory_contents(entries);
    let got: Vec<(String, u64)> = sorted.iter().map(|e| (e.name.clone(), e.last_modified)).collect();
    assert_eq!(got, expected);
}

#[test]
fn an_empty_directory_stays_empty() {
    assert!(get_sorted_directory_contents(Vec::new()).is_empty());
}

#[test]
fn tool_binaries_are_told_by_their_names() {
    assert!(is_tool_binary("yt-dlp", "yt-dlp"));
    assert!(is_tool_binary("yt-dlp.exe", "yt-dlp"));
    assert!(is_tool_binary("yt-dlp_linux", "yt-dlp"));
    assert!(is_tool_binary("ffmpeg", "ffmpeg"));
    assert!(is_tool_binary("ffmpeg-7.exe", "ffmpeg"));
    assert!(!is_tool_binary("yt-dlp.zip", "yt-dlp"));
    assert!(!is_tool_binary("ffmpeg-master-latest-linux64-gpl.tar.xz", "ffmpeg"));
    assert!(!is_tool_binary("my-ffmpeg", "ffmpeg"));
    assert!(!is_tool_binary("ffmpe", "ffmpeg"));
    assert!(!is_tool_binary("", "ffmpeg"));
}

#[test]
fn ffmpeg_is_found_in_the_unpacked_archive() {
    let root = vec![
        file("/b", "yt-dlp"),
        dir(
            "/b",
            "ffmpeg-master-latest-linux64-gpl",
            vec![
                dir("/b/ffmpeg-master-latest-linux64-gpl", "doc", vec![file("/b/ffmpeg-master-latest-linux64-gpl/doc", "ffmpeg.html")]),
                dir(
                    "/b/ffmpeg-master-latest-linux64-gpl",
                    "bin",
                    vec![
                        file("/b/ffmpeg-master-latest-linux64-gpl/bin", "ffplay"),
                        file("/b/ffmpeg-master-latest-linux64-gpl/bin", "ffmpeg"),
                        file("/b/ffmpeg-master-latest-linux64-gpl/bin", "ffprobe"),
                    ],
                ),
            ],
        ),
        file("/b", "ffmpeg"),
    ];
    assert_eq!(find_ffmpeg_recursive(&root), "/b/ffmpeg-master-latest-linux64-gpl/bin/ffmpeg");
}

#[test]
fn ffmpeg_is_searched_in_the_order_of_the_listing() {
    let root = vec![
        dir("/b", "empty", Vec::new()),
        file("/b", "ffmpeg.exe"),
        dir("/b", "later", vec![file("/b/later", "ffmpeg")]),
    ];
    assert_eq!(find_ffmpeg_recursive(&root), "/b/ffmpeg.exe");
}

#[test]
fn a_directory_named_like_ffmpeg_is_no_ffmpeg() {
    let root = vec![dir("/b", "ffmpeg", vec![file("/b/ffmpeg", "readme.txt")])];
    assert_eq!(find_ffmpeg_recursive(&root), "");
    assert_eq!(find_ffmpeg_recursive(&Vec::new()), "");
}

#[test]
fn bundle_paths_name_both_tools() {
    let root = vec![
        file("/b", "notes.txt"),
        file("/b", "yt-dlp.exe"),
        file("/b", "yt-dlp"),
        dir("/b", "ff", vec![file("/b/ff", "ffmpeg.exe")]),
    ];
    assert_eq!(get_bundle_tool_paths(Some(&root)), vec!["/b/yt-dlp.exe", "/b/ff/ffmpeg.exe"]);
}

#[test]
fn bundle_paths_are_empty_for_missing_tools() {
    assert_eq!(get_bundle_tool_paths(None), vec!["", ""]);
    assert_eq!(get_bundle_tool_paths(Some(&Vec::new())), vec!["", ""]);
    let only_ffmpeg = vec![file("/b", "ffmpeg")];
    assert_eq!(get_bundle_tool_paths(Some(&only_ffmpeg)), vec!["", "/b/ffmpeg"]);
}

#[test]
fn a_directory_named_like_yt_dlp_counts_as_yt_dlp() {
    let root = vec![dir("/b", "yt-dlp", Vec::new())];
    assert_eq!(get_bundle_tool_paths(Some(&root)), vec!["/b/yt-dlp", ""]);
}
