use playlist_mirror::mirror::{
    audio_file_name, candidates, classify, contains_name, file_stem, parse_ignore_list, partition,
    partition_candidates, target_path, temp_path, Candidate, Disposition, SkipReason, Skipped,
    Snapshot,
};
use playlist_mirror::song::Song;

fn song(name: &str, id: &str) -> Song {
    Song::new(name.to_string(), id.to_string())
}

fn names(list: &[&str]) -> Vec<String> {
    list.iter().map(|s| s.to_string()).collect()
}

fn snapshot(files: &[&str], ignored: &[&str]) -> Snapshot {
    Snapshot { files: names(files), ignored: names(ignored) }
}

#[test]
fn file_stem_keeps_a_safe_name() {
    assert_eq!(file_stem("Song A"), "Song A");
    assert_eq!(file_stem("xyz"), "xyz");
}

#[test]
fn file_stem_replaces_what_no_file_name_may_hold() {
    assert_eq!(file_stem("AC/DC"), "AC_DC");
    assert_eq!(file_stem("What?"), "What");
    assert_eq!(file_stem("a:b*c"), "a_b_c");
}

#[test]
fn file_stem_is_never_empty_and_has_no_slash() {
    for name in ["", ".", "..", "/", "///", " ", "a/b/c", "\0"] {
        let stem = file_stem(name);
        assert!(!stem.is_empty(), "{:?}", name);
        assert!(!stem.contains('/'), "{:?}", name);
    }
    assert_eq!(file_stem(""), "_");
}

#[test]
fn file_stem_is_the_same_every_time() {
    for name in ["Song A", "AC/DC", "  padded  ", "CON", "晴天"] {
        assert_eq!(file_stem(name), file_stem(name));
    }
}

#[test]
fn file_stem_of_a_stem_is_that_stem() {
    for name in ["Song A", "AC/DC", "  padded  ", "CON", "晴天", "a?b", ""] {
        let once = file_stem(name);
        assert_eq!(file_stem(&once), once);
    }
}

#[test]
fn audio_file_name_adds_the_extension() {
    assert_eq!(audio_file_name("Song A"), "Song A.mp3");
    assert_eq!(audio_file_name(""), ".mp3");
}

#[test]
fn target_path_is_in_the_directory() {
    assert_eq!(target_path("./music", "Song A"), "./music/Song A.mp3");
}

#[test]
fn temp_path_differs_from_target_path() {
    assert_eq!(temp_path("./music", "Song C"), "./music/Song C.mp3.part");
    assert_ne!(temp_path("./music", "Song C"), target_path("./music", "Song C"));
}

#[test]
fn parse_ignore_list_reads_lines_as_std_does() {
    let samples = [
        "",
        "\n",
        "a",
        "a\n",
        "a\nb",
        "a\r\nb\r\n",
        "  Song B  \n\n Song C\t\n",
        "\n\n",
        "last line has no end",
        "x\n \ny",
    ];
    for content in samples {
        let expected: Vec<String> = content.lines().map(|l| l.trim().to_string()).collect();
        assert_eq!(parse_ignore_list(content), expected, "{:?}", content);
    }
}

#[test]
fn parse_ignore_list_exact_values() {
    assert_eq!(parse_ignore_list("Song B\n  Song C  \n"), names(&["Song B", "Song C"]));
    assert_eq!(parse_ignore_list(""), Vec::<String>::new());
    assert_eq!(parse_ignore_list("\n"), names(&[""]));
}

#[test]
fn contains_name_finds_exact_names_only() {
    let list = names(&["Song A", "Song B"]);
    assert!(contains_name(&list, "Song A"));
    assert!(contains_name(&list, "Song B"));
    assert!(!contains_name(&list, "song a"));
    assert!(!contains_name(&list, "Song"));
    assert!(!contains_name(&Vec::new(), "Song A"));
}

#[test]
fn classify_looks_for_the_file_first() {
    let mirror = snapshot(&["Song_A.mp3"], &["Song A"]);
    assert_eq!(classify("Song A", "Song_A", &mirror), Disposition::Exists);
}

#[test]
fn classify_scenario_existing_and_ignored() {
    let mirror = snapshot(&["Song_A.mp3"], &["Song B"]);
    assert_eq!(classify("Song A", "Song_A", &mirror), Disposition::Exists);
    assert_eq!(classify("Song B", "Song_B", &mirror), Disposition::Ignored);
}

#[test]
fn classify_downloads_what_is_neither_there_nor_ignored() {
    let mirror = snapshot(&["Song_A.mp3"], &["Song B"]);
    assert_eq!(classify("Song C", "Song_C", &mirror), Disposition::Download);
}

#[test]
fn classify_ignores_a_named_track_without_file() {
    let mirror = snapshot(&[], &["Song B"]);
    assert_eq!(classify("Song B", "Song_B", &mirror), Disposition::Ignored);
}

#[test]
fn classify_does_not_take_a_temporary_file_for_the_audio() {
    let mirror = snapshot(&["Song_C.mp3.part"], &[]);
    assert_eq!(classify("Song C", "Song_C", &mirror), Disposition::Download);
}

#[test]
fn partition_scenario_nothing_to_download() {
    let catalog = vec![song("Song A", "id1"), song("Song B", "id2")];
    let mirror = snapshot(&[audio_file_name(&file_stem("Song A")).as_str()], &["Song B"]);
    let parts = partition(&catalog, &mirror);
    assert_eq!(parts.to_download, Vec::<Song>::new());
    assert_eq!(
        parts.skipped,
        vec![
            Skipped { song: song("Song A", "id1"), reason: SkipReason::Exists },
            Skipped { song: song("Song B", "id2"), reason: SkipReason::Ignored },
        ]
    );
}

#[test]
fn partition_keeps_catalogue_order_and_duplicates() {
    let catalog = vec![
        song("c", "3"),
        song("a", "1"),
        song("b", "2"),
        song("a", "1"),
        song("d", "4"),
    ];
    let mirror = snapshot(&["b.mp3"], &["d"]);
    let parts = partition(&catalog, &mirror);
    assert_eq!(parts.to_download, vec![song("c", "3"), song("a", "1"), song("a", "1")]);
    assert_eq!(
        parts.skipped,
        vec![
            Skipped { song: song("b", "2"), reason: SkipReason::Exists },
            Skipped { song: song("d", "4"), reason: SkipReason::Ignored },
        ]
    );
}

#[test]
fn partition_is_total() {
    let catalog = vec![song("a", "1"), song("b", "2"), song("c", "3"), song("d", "4")];
    let mirror = snapshot(&["a.mp3", "zzz.mp3"], &["c", "nobody"]);
    let parts = partition(&catalog, &mirror);
    assert_eq!(parts.to_download.len() + parts.skipped.len(), catalog.len());
    for track in &catalog {
        let wanted = parts.to_download.contains(track);
        let skipped = parts.skipped.iter().any(|s| &s.song == track);
        assert!(wanted != skipped, "{:?}", track);
    }
}

#[test]
fn partition_of_nothing_is_nothing() {
    let parts = partition(&Vec::new(), &snapshot(&["a.mp3"], &["b"]));
    assert!(parts.to_download.is_empty());
    assert!(parts.skipped.is_empty());
}

#[test]
fn partition_again_skips_what_was_written() {
    let catalog = vec![song("a", "1"), song("b/c", "2"), song("d", "3")];
    let first = partition(&catalog, &snapshot(&[], &[]));
    assert_eq!(first.to_download, catalog);
    let written: Vec<String> = first.to_download[..2]
        .iter()
        .map(|s| audio_file_name(&file_stem(&s.name)))
        .collect();
    let second = partition(&catalog, &Snapshot { files: written, ignored: Vec::new() });
    assert_eq!(second.to_download, vec![song("d", "3")]);
    assert_eq!(second.skipped.len(), 2);
}

#[test]
fn partition_treats_colliding_names_as_one_file() {
    let catalog = vec![song("a/b", "1"), song("a:b", "2")];
    let parts = partition(&catalog, &snapshot(&["a_b.mp3"], &[]));
    assert!(parts.to_download.is_empty());
    assert_eq!(parts.skipped.len(), 2);
}

#[test]
fn partition_matches_ignored_names_verbatim() {
    let catalog = vec![song("Song B", "1"), song("song b", "2"), song(" Song B", "3")];
    let parts = partition(&catalog, &snapshot(&[], &["Song B"]));
    assert_eq!(parts.to_download, vec![song("song b", "2"), song(" Song B", "3")]);
    assert_eq!(
        parts.skipped,
        vec![Skipped { song: song("Song B", "1"), reason: SkipReason::Ignored }]
    );
}

fn candidate(name: &str, id: &str, stem: &str) -> Candidate {
    Candidate { song: song(name, id), stem: stem.to_string() }
}

#[test]
fn candidates_carry_the_stem_of_each_name() {
    let catalog = vec![song("Song A", "id1"), song("AC/DC", "id2")];
    assert_eq!(
        candidates(&catalog),
        vec![candidate("Song A", "id1", "Song A"), candidate("AC/DC", "id2", "AC_DC")]
    );
    assert_eq!(candidates(&Vec::new()), Vec::<Candidate>::new());
}

#[test]
fn partition_candidates_scenario_nothing_to_download() {
    let listed = vec![candidate("Song A", "id1", "Song_A"), candidate("Song B", "id2", "Song_B")];
    let mirror = snapshot(&["Song_A.mp3"], &["Song B"]);
    let parts = partition_candidates(&listed, &mirror);
    assert_eq!(parts.to_download, Vec::<Song>::new());
    assert_eq!(
        parts.skipped,
        vec![
            Skipped { song: song("Song A", "id1"), reason: SkipReason::Exists },
            Skipped { song: song("Song B", "id2"), reason: SkipReason::Ignored },
        ]
    );
}

#[test]
fn partition_candidates_downloads_the_rest() {
    let listed = vec![
        candidate("Song A", "id1", "Song_A"),
        candidate("Song C", "id3", "Song_C"),
        candidate("Song B", "id2", "Song_B"),
        candidate("Song D", "id4", "Song_D"),
    ];
    let mirror = snapshot(&["Song_A.mp3", "Song_C.mp3.part"], &["Song B"]);
    let parts = partition_candidates(&listed, &mirror);
    assert_eq!(parts.to_download, vec![song("Song C", "id3"), song("Song D", "id4")]);
    assert_eq!(parts.skipped.len(), 2);
}
