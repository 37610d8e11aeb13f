use termixer::listing::DirEntryInfo;
use termixer::picker::{SourcePickerItem, SourcePickerState};
use termixer::routes::{
    dedup_by_path, is_route_pipe_name, is_termixer_socket, route_meta_candidates_for_fifo,
    route_socket_candidates_for_fifo,
};

fn entry(name: &str, is_dir: bool) -> DirEntryInfo {
    let extension = if is_dir {
        None
    } else {
        name.rsplit_once('.').map(|(_, e)| e.to_string())
    };
    DirEntryInfo {
        name: name.to_string(),
        path: format!("/music/{}", name),
        is_dir,
        is_file: !is_dir,
        extension,
    }
}

fn names(p: &SourcePickerState) -> Vec<String> {
    p.items.iter().map(|i| i.name.clone()).collect()
}

#[test]
fn listing_puts_folders_first_and_sorts_without_case() {
    let mut p = SourcePickerState::new();
    p.set_root("/music".to_string());
    p.query = "keep".to_string();
    p.selected = 4;
    let entries = vec![
        entry("zebra.MP3", false),
        entry("Alpha.flac", false),
        entry("beta", true),
        entry(".hidden.mp3", false),
        entry("notes.txt", false),
        entry("Acid", true),
        entry(".git", true),
        entry("cover", false),
        entry("mix.Ogg", false),
    ];
    p.list_directory(&entries);
    assert_eq!(names(&p), vec!["Acid/", "beta/", "Alpha.flac", "mix.Ogg", "zebra.MP3"]);
    assert!(p.items[0].is_dir && p.items[1].is_dir && !p.items[2].is_dir);
    assert_eq!(p.items[2].path, "/music/Alpha.flac");
    assert_eq!(p.query, "keep");
    assert_eq!(p.selected, 4);
}

#[test]
fn listing_below_the_root_links_to_the_parent() {
    let mut p = SourcePickerState::new();
    p.set_root("/music".to_string());
    p.current_dir = "/music/house/deep".to_string();
    p.list_directory(&[entry("b.wav", false), entry("A.wav", false)]);
    assert_eq!(names(&p), vec!["..", "A.wav", "b.wav"]);
    assert_eq!(p.items[0].path, "/music/house");
    assert!(p.items[0].is_dir);
    p.list_directory(&[]);
    assert_eq!(names(&p), vec![".."]);
}

#[test]
fn listing_is_sorted_by_bytes_of_the_lowercase_name() {
    let mut p = SourcePickerState::new();
    let entries: Vec<DirEntryInfo> = ["b2.mp3", "B10.mp3", "a.aif", "Ä.aiff", "_x.wav", "a.AAC"]
        .iter()
        .map(|n| entry(n, false))
        .collect();
    p.list_directory(&entries);
    let mut expected: Vec<String> = entries.iter().map(|e| e.name.clone()).collect();
    expected.sort_by(|a, b| a.to_lowercase().cmp(&b.to_lowercase()));
    assert_eq!(names(&p), expected);
}

#[test]
fn own_sockets() {
    assert!(is_termixer_socket("/tmp/termixer.sock"));
    assert!(is_termixer_socket("/tmp/termixer-deck-a.sock"));
    assert!(!is_termixer_socket("/tmp/termixer-deck-a.pcm"));
    assert!(!is_termixer_socket("/tmp/mpvsocket"));
    assert!(!is_termixer_socket("/run/termixer-x.sock"));
}

#[test]
fn route_candidates() {
    assert_eq!(
        route_socket_candidates_for_fifo("/tmp/termixer.pcm"),
        vec!["/tmp/termixer.sock".to_string(), "/tmp/termixer.sock".to_string()]
    );
    assert_eq!(route_socket_candidates_for_fifo("/tmp/termixer-7.pcm"), vec!["/tmp/termixer-7.sock"]);
    assert_eq!(
        route_meta_candidates_for_fifo("/tmp/termixer-7.pcm"),
        vec!["/tmp/termixer-7.json", "/tmp/termixer-7-meta.json"]
    );
    assert_eq!(
        route_meta_candidates_for_fifo("/tmp/termixer.pcm"),
        vec!["/tmp/termixer.json", "/tmp/termixer-meta.json", "/tmp/termixer-meta.json"]
    );
}

#[test]
fn duplicate_paths_keep_the_first_item() {
    let item = |name: &str, path: &str| SourcePickerItem {
        name: name.to_string(),
        path: path.to_string(),
        is_socket: false,
        is_pcm_fifo: true,
        is_udp: false,
        is_dir: false,
        camelot_key: None,
    };
    let items = vec![
        item("route A", "/tmp/termixer-a.pcm"),
        item("canonical", "/tmp/termixer.pcm"),
        item("again", "/tmp//termixer-a.pcm"),
        item("twice", "/tmp/termixer.pcm"),
    ];
    let out = dedup_by_path(&items);
    let names: Vec<&str> = out.iter().map(|i| i.name.as_str()).collect();
    assert_eq!(names, vec!["route A", "canonical"]);
}

#[test]
fn route_pipe_names() {
    assert!(is_route_pipe_name("termixer-deck1.pcm"));
    assert!(is_route_pipe_name("termixer-.pcm"));
    assert!(!is_route_pipe_name("termixer.pcm"));
    assert!(!is_route_pipe_name("termixer-deck1.sock"));
    assert!(!is_route_pipe_name("other-termixer-x.pcm"));
    assert!(!is_route_pipe_name(""));
}
