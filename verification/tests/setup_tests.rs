use termixer::backend::{available_backends, backend_label, default_backend, AudioBackendKind};
use termixer::cli::{parse_args, CliWarning};
use termixer::config::{
    check_config_files, local_bin_dir, managed_files, path_contains_dir, rc_with_local_bin, ConfigDiff,
};
use termixer::source::{AudioSource, AudioSourceManager};

fn args(list: &[&str]) -> Vec<String> {
    list.iter().map(|s| s.to_string()).collect()
}

#[test]
fn sources_and_directories() {
    let cli = parse_args(
        &args(&["termixer", "--source", "deck", "/tmp/mpv.sock", "-m", "/music", "-S", "/samples"]),
        Some("/home/dj".to_string()),
    );
    assert_eq!(cli.sources, vec![("deck".to_string(), "/tmp/mpv.sock".to_string())]);
    assert!(!cli.auto_discover);
    assert_eq!(cli.music_dir, Some("/music".to_string()));
    assert_eq!(cli.samples_dir, Some("/samples".to_string()));
    assert!(cli.warnings.is_empty());
    assert!(!cli.show_help);
}

#[test]
fn no_sources_means_discovery_and_default_music_dir() {
    let cli = parse_args(&args(&["termixer"]), Some("/home/dj".to_string()));
    assert!(cli.sources.is_empty());
    assert!(cli.auto_discover);
    assert_eq!(cli.music_dir, Some("/home/dj/Music".to_string()));
    assert_eq!(cli.samples_dir, None);
    let cli = parse_args(&args(&["termixer", "-d"]), None);
    assert!(cli.auto_discover);
    assert_eq!(cli.music_dir, None);
}

#[test]
fn missing_values_are_reported_and_skipped() {
    let cli = parse_args(&args(&["termixer", "--source", "only-name"]), None);
    assert!(cli.sources.is_empty());
    assert_eq!(cli.warnings, vec![CliWarning::SourceNeedsArguments]);
    let cli = parse_args(&args(&["termixer", "-s", "a", "b", "--music-dir"]), None);
    assert_eq!(cli.sources.len(), 1);
    assert_eq!(cli.warnings, vec![CliWarning::MusicDirNeedsPath]);
    let cli = parse_args(&args(&["termixer", "--samples-dir"]), None);
    assert_eq!(cli.warnings, vec![CliWarning::SamplesDirNeedsPath]);
}

#[test]
fn unknown_arguments_are_ignored_and_help_stops() {
    let cli = parse_args(&args(&["termixer", "--bogus", "-s", "a", "b"]), None);
    assert_eq!(cli.sources.len(), 1);
    let cli = parse_args(&args(&["termixer", "-h", "-s", "a", "b"]), Some("/h".to_string()));
    assert!(cli.show_help);
    assert!(cli.sources.is_empty());
    assert_eq!(cli.music_dir, None);
    let cli = parse_args(&args(&["termixer", "-s", "x", "y", "--help"]), None);
    assert!(cli.show_help);
    assert_eq!(cli.sources.len(), 1);
}

#[test]
fn program_name_is_not_an_option() {
    let cli = parse_args(&args(&["--discover"]), None);
    assert!(cli.auto_discover);
    let cli = parse_args(&args(&["-h"]), None);
    assert!(!cli.show_help);
}

#[test]
fn managed_config_files() {
    let files = managed_files("/home/dj");
    assert_eq!(files.len(), 3);
    assert_eq!(files[0].label, "MPV wrapper script");
    assert_eq!(files[0].install_path, "/home/dj/.local/bin/mpv");
    assert!(files[0].executable);
    assert_eq!(files[1].repo_name, "mpv.conf");
    assert_eq!(files[1].install_path, "/home/dj/.config/mpv/mpv.conf");
    assert_eq!(files[2].install_path, "/home/dj/.config/mpv/scripts/auto-socket.lua");
    assert!(!files[2].executable);
}

#[test]
fn config_differences() {
    let contents = vec![
        (Some(b"same".to_vec()), Some(b"same".to_vec())),
        (Some(b"new".to_vec()), Some(b"old".to_vec())),
        (None, None),
        (Some(b"x".to_vec()), None),
        (None, Some(b"y".to_vec())),
        (Some(Vec::new()), Some(Vec::new())),
        (Some(b"ab".to_vec()), Some(b"abc".to_vec())),
    ];
    let diffs = check_config_files(&contents);
    assert_eq!(
        diffs,
        vec![ConfigDiff { file_index: 1 }, ConfigDiff { file_index: 3 }, ConfigDiff { file_index: 6 }]
    );
    assert!(check_config_files(&[]).is_empty());
}

#[test]
fn path_lists() {
    assert!(path_contains_dir("/usr/bin:/home/dj/.local/bin:/bin", "/home/dj/.local/bin"));
    assert!(!path_contains_dir("/usr/bin:/home/dj/.local/bin/extra", "/home/dj/.local/bin"));
    assert!(path_contains_dir("", ""));
    assert!(path_contains_dir("/a::/b", ""));
    assert!(!path_contains_dir("/a:/b", ""));
}

#[test]
fn backends_compiled_in() {
    assert_eq!(available_backends(false, false), vec![AudioBackendKind::Cpal]);
    assert_eq!(
        available_backends(true, true),
        vec![AudioBackendKind::Cpal, AudioBackendKind::CoreAudio, AudioBackendKind::Jack]
    );
}

#[test]
fn backend_choice() {
    let avail = available_backends(true, false);
    assert_eq!(default_backend(None, &avail), AudioBackendKind::Cpal);
    assert_eq!(default_backend(Some("CoreAudio".into()), &avail), AudioBackendKind::CoreAudio);
    assert_eq!(default_backend(Some("jack".into()), &avail), AudioBackendKind::Cpal);
    assert_eq!(default_backend(Some("pulse".into()), &avail), AudioBackendKind::Cpal);
    let with_jack = available_backends(false, true);
    assert_eq!(default_backend(Some("JACK".into()), &with_jack), AudioBackendKind::Jack);
    assert_eq!(default_backend(Some("cpal-jack".into()), &with_jack), AudioBackendKind::Cpal);
}

#[test]
fn backend_labels_select_their_backend() {
    let all = [
        AudioBackendKind::Cpal,
        AudioBackendKind::CpalJack,
        AudioBackendKind::CoreAudio,
        AudioBackendKind::Jack,
    ];
    assert_eq!(backend_label(AudioBackendKind::CpalJack), "cpal-jack");
    for k in all {
        assert_eq!(default_backend(Some(backend_label(k).to_string()), &all), k);
    }
}

#[test]
fn source_manager_counts_sources() {
    let mut m = AudioSourceManager::new();
    assert_eq!(m.len(), 0);
    m.add_source(AudioSource::new("a".into(), "/tmp/a".into()));
    m.add_source(AudioSource::new("b".into(), "/tmp/b".into()));
    assert_eq!(m.len(), 2);
    assert_eq!(AudioSourceManager::default().len(), 0);
}

#[test]
fn backend_names_ignore_ascii_case_only() {
    let avail = available_backends(true, true);
    assert_eq!(default_backend(Some("JACK".into()), &avail), AudioBackendKind::Jack);
    assert_eq!(default_backend(Some("CoreAUDIO".into()), &avail), AudioBackendKind::CoreAudio);
    // cpal-jack is a known name but never among the built-in backends.
    assert_eq!(default_backend(Some("CPAL-jack".into()), &avail), AudioBackendKind::Cpal);
    // Non-ASCII letters are not folded, so this names no backend.
    assert_eq!(default_backend(Some("CoreAudİo".into()), &avail), AudioBackendKind::Cpal);
}

#[test]
fn rc_file_gets_the_path_export_once() {
    let dir = local_bin_dir("/home/dj");
    assert_eq!(dir, "/home/dj/.local/bin");
    let updated = rc_with_local_bin("alias ll='ls -l'\n\n  \t", &dir).unwrap();
    assert_eq!(
        updated,
        "alias ll='ls -l'\n\n# termixer: added by config setup\nexport PATH=\"/home/dj/.local/bin:$PATH\"\n"
    );
    assert_eq!(rc_with_local_bin(&updated, &dir), None);
    assert_eq!(
        rc_with_local_bin("", &dir).unwrap(),
        "\n\n# termixer: added by config setup\nexport PATH=\"/home/dj/.local/bin:$PATH\"\n"
    );
}
