//! The local mirror: which tracks of a catalogue already have a file in the
//! content directory, which are excluded by name, and which are left to
//! download.

use crate::song::{Song, SongView};
use crate::text::{chars_of, concat3, split_lines, trimmed, trimmed_string};
use vstd::prelude::*;

verus! {

/// The file stem that `sanitise_file_name::sanitise` gives a name under its
/// default options.
pub uninterp spec fn sanitised(name: Seq<char>) -> Seq<char>;

/// Makes a name safe to use as a file name.
///
/// Calls `sanitise_file_name::sanitise`. The result is a function of the name
/// alone. As that crate documents for its default options, it is never empty
/// and holds no slash: unsafe characters are replaced by an underscore, and a
/// name of which nothing is left becomes a single underscore.
#[verifier::external_body]
fn sanitise(name: &str) -> (stem: String)
    ensures
        stem@ == sanitised(name@),
        stem@.len() > 0,
        !stem@.contains('/'),
{
    sanitise_file_name::sanitise(name)
}

/// The file stem under which a track of this name is stored.
pub fn file_stem(name: &str) -> (stem: String)
    ensures
        stem@ == sanitised(name@),
        stem@.len() > 0,
        !stem@.contains('/'),
{
    sanitise(name)
}

/// The name of the audio file with the given stem.
pub open spec fn file_name(stem: Seq<char>) -> Seq<char> {
    stem + ".mp3"@
}

/// The name of the file that holds an audio file while it is being written.
pub open spec fn temp_name(stem: Seq<char>) -> Seq<char> {
    stem + ".mp3.part"@
}

/// The path of the file `name` in the directory `dir`.
pub open spec fn path_in(dir: Seq<char>, name: Seq<char>) -> Seq<char> {
    dir + "/"@ + name
}

/// The name of the audio file with the given stem.
pub fn audio_file_name(stem: &str) -> (name: String)
    ensures
        name@ == file_name(stem@),
{
    let mut name = String::from_str(stem);
    name.append(".mp3");
    name
}

/// Where the audio file with the given stem belongs in the content
/// directory.
pub fn target_path(dir: &str, stem: &str) -> (path: String)
    ensures
        path@ == path_in(dir@, file_name(stem@)),
{
    concat3(dir, "/", stem).concat(".mp3")
}

/// Where the audio file with the given stem is written before it is moved
/// to its target path.
pub fn temp_path(dir: &str, stem: &str) -> (path: String)
    ensures
        path@ == path_in(dir@, temp_name(stem@)),
{
    concat3(dir, "/", stem).concat(".mp3.part")
}

/// No file that is still being written bears the name of a finished audio
/// file, whatever the two stems are.
pub proof fn lemma_temp_name_is_no_file_name(writing: Seq<char>, finished: Seq<char>)
    ensures
        temp_name(writing) != file_name(finished),
{
    reveal_strlit(".mp3");
    reveal_strlit(".mp3.part");
    let name = file_name(finished);
    assert(name[name.len() - 1] == '3');
}

/// The names that an ignore file excludes: its lines, each without the
/// white space around it.
pub open spec fn ignore_names(content: Seq<char>) -> Seq<Seq<char>> {
    split_lines(content).map_values(|line: Seq<char>| trimmed(line))
}

/// Reads the content of an ignore file: one track name per line.
pub fn parse_ignore_list(content: &str) -> (names: Vec<String>)
    ensures
        names.deep_view() == ignore_names(content@),
{
    let chars = chars_of(content);
    let mut names: Vec<String> = Vec::new();
    let mut start: usize = 0;
    let mut i: usize = 0;
    proof {
        assert(chars@.skip(0) == chars@);
    }
    while i < chars.len()
        invariant
            start <= i <= chars.len(),
            chars@ == content@,
            forall|j: int| start <= j < i ==> chars@[j] != '\n',
            names.deep_view() + ignore_names(chars@.skip(start as int)) == ignore_names(chars@),
        decreases chars.len() - i,
    {
        if chars[i] == '\n' {
            let name = trimmed_string(&chars, start, i);
            proof {
                let rest = chars@.skip(start as int);
                crate::text::lemma_line_end(rest, i - start);
                assert(rest.take(i - start) == chars@.subrange(start as int, i as int));
                assert(rest.skip(i - start + 1) == chars@.skip(i + 1));
                let next = chars@.skip(i + 1);
                assert(names.deep_view().push(name@) + ignore_names(next) == names.deep_view()
                    + ignore_names(rest));
            }
            names.push(name);
            start = i + 1;
        }
        i += 1;
    }
    if start < chars.len() {
        let name = trimmed_string(&chars, start, i);
        proof {
            let rest = chars@.skip(start as int);
            crate::text::lemma_line_end(rest, i - start);
        }
        names.push(name);
    }
    names
}

/// What the mirror holds when a run starts: the names of the files in the
/// content directory, and the track names that the ignore file excludes.
#[derive(Debug, PartialEq, Eq)]
pub struct Snapshot {
    pub files: Vec<String>,
    pub ignored: Vec<String>,
}

/// The mathematical value of a [`Snapshot`]: two sets of names.
pub struct SnapshotView {
    pub files: Set<Seq<char>>,
    pub ignored: Set<Seq<char>>,
}

impl View for Snapshot {
    type V = SnapshotView;

    open spec fn view(&self) -> SnapshotView {
        SnapshotView {
            files: self.files.deep_view().to_set(),
            ignored: self.ignored.deep_view().to_set(),
        }
    }
}

/// What becomes of a track of the catalogue.
#[derive(Debug, Clone, Copy, PartialEq, Eq, Structural)]
pub enum Disposition {
    /// Its file is in the content directory already.
    Exists,
    /// It has no file, and the ignore list names it.
    Ignored,
    /// It has no file and is not ignored: it is to be downloaded.
    Download,
}

/// Why a track is not downloaded.
#[derive(Debug, Clone, Copy, PartialEq, Eq, Structural)]
pub enum SkipReason {
    Exists,
    Ignored,
}

/// A track that is not downloaded, and why.
#[derive(Debug, PartialEq, Eq)]
pub struct Skipped {
    pub song: Song,
    pub reason: SkipReason,
}

/// The mathematical value of a [`Skipped`].
pub struct SkippedView {
    pub song: SongView,
    pub reason: SkipReason,
}

impl View for Skipped {
    type V = SkippedView;

    open spec fn view(&self) -> SkippedView {
        SkippedView { song: self.song@, reason: self.reason }
    }
}

impl DeepView for Skipped {
    type V = SkippedView;

    open spec fn deep_view(&self) -> SkippedView {
        self@
    }
}

/// The catalogue split in two: the tracks to download and the tracks that
/// are skipped, each in catalogue order.
#[derive(Debug, PartialEq, Eq)]
pub struct Partition {
    pub to_download: Vec<Song>,
    pub skipped: Vec<Skipped>,
}

/// What becomes of a track with this name, stored under this stem: a file
/// that is there is looked for first, the ignore list second.
pub open spec fn disposition_of(name: Seq<char>, stem: Seq<char>, snapshot: SnapshotView)
    -> Disposition {
    if snapshot.files.contains(file_name(stem)) {
        Disposition::Exists
    } else if snapshot.ignored.contains(name) {
        Disposition::Ignored
    } else {
        Disposition::Download
    }
}

/// What becomes of a track of the catalogue.
pub open spec fn disposition(song: SongView, snapshot: SnapshotView) -> Disposition {
    disposition_of(song.name, sanitised(song.name), snapshot)
}

/// The test for the tracks that are to be downloaded.
pub open spec fn is_wanted(snapshot: SnapshotView) -> spec_fn(SongView) -> bool {
    |song: SongView| disposition(song, snapshot) == Disposition::Download
}

/// The test for the tracks that are skipped.
pub open spec fn is_skipped(snapshot: SnapshotView) -> spec_fn(SongView) -> bool {
    |song: SongView| disposition(song, snapshot) != Disposition::Download
}

/// Why a skipped track is skipped.
pub open spec fn skip_reason(song: SongView, snapshot: SnapshotView) -> SkipReason {
    if disposition(song, snapshot) == Disposition::Exists {
        SkipReason::Exists
    } else {
        SkipReason::Ignored
    }
}

/// A skipped track with its reason.
pub open spec fn with_reason(snapshot: SnapshotView) -> spec_fn(SongView) -> SkippedView {
    |song: SongView| SkippedView { song, reason: skip_reason(song, snapshot) }
}

/// The tracks of the catalogue that are to be downloaded, in catalogue
/// order.
pub open spec fn to_download(catalog: Seq<SongView>, snapshot: SnapshotView) -> Seq<SongView> {
    catalog.filter(is_wanted(snapshot))
}

/// The tracks of the catalogue that are skipped, in catalogue order, each
/// with its reason.
pub open spec fn skipped(catalog: Seq<SongView>, snapshot: SnapshotView) -> Seq<SkippedView> {
    catalog.filter(is_skipped(snapshot)).map_values(with_reason(snapshot))
}

/// Whether `name` is one of `names`.
pub fn contains_name(names: &Vec<String>, name: &str) -> (found: bool)
    ensures
        found == names.deep_view().to_set().contains(name@),
{
    let wanted = String::from_str(name);
    let mut i: usize = 0;
    while i < names.len()
        invariant
            i <= names.len(),
            wanted@ == name@,
            forall|j: int| 0 <= j < i ==> names.deep_view()[j] != name@,
        decreases names.len() - i,
    {
        if names[i] == wanted {
            assert(names.deep_view()[i as int] == name@);
            return true;
        }
        i += 1;
    }
    false
}

/// Decides what becomes of a track, given the stem its file is stored
/// under.
pub fn classify(name: &str, stem: &str, snapshot: &Snapshot) -> (d: Disposition)
    ensures
        d == disposition_of(name@, stem@, snapshot@),
{
    let file = audio_file_name(stem);
    if contains_name(&snapshot.files, file.as_str()) {
        Disposition::Exists
    } else if contains_name(&snapshot.ignored, name) {
        Disposition::Ignored
    } else {
        Disposition::Download
    }
}

/// Filtering a sequence that has grown by one item keeps or drops that
/// item and leaves the rest as it was.
pub proof fn lemma_filter_push<A>(s: Seq<A>, item: A, pred: spec_fn(A) -> bool)
    ensures
        s.push(item).filter(pred) == if pred(item) {
            s.filter(pred).push(item)
        } else {
            s.filter(pred)
        },
{
    reveal(Seq::filter);
    assert(s.push(item).drop_last() == s);
}

/// A track together with the stem under which its file is stored.
#[derive(Debug, PartialEq, Eq)]
pub struct Candidate {
    pub song: Song,
    pub stem: String,
}

/// The mathematical value of a [`Candidate`].
pub struct CandidateView {
    pub song: SongView,
    pub stem: Seq<char>,
}

impl View for Candidate {
    type V = CandidateView;

    open spec fn view(&self) -> CandidateView {
        CandidateView { song: self.song@, stem: self.stem@ }
    }
}

impl DeepView for Candidate {
    type V = CandidateView;

    open spec fn deep_view(&self) -> CandidateView {
        self@
    }
}

/// A track with the stem that its name is stored under.
pub open spec fn as_candidate() -> spec_fn(SongView) -> CandidateView {
    |song: SongView| CandidateView { song, stem: sanitised(song.name) }
}

/// What becomes of a candidate.
pub open spec fn fate(candidate: CandidateView, snapshot: SnapshotView) -> Disposition {
    disposition_of(candidate.song.name, candidate.stem, snapshot)
}

/// The test for the candidates that are to be downloaded.
pub open spec fn is_due(snapshot: SnapshotView) -> spec_fn(CandidateView) -> bool {
    |candidate: CandidateView| fate(candidate, snapshot) == Disposition::Download
}

/// The test for the candidates that are skipped.
pub open spec fn is_spared(snapshot: SnapshotView) -> spec_fn(CandidateView) -> bool {
    |candidate: CandidateView| fate(candidate, snapshot) != Disposition::Download
}

/// The track of a candidate.
pub open spec fn song_of_candidate() -> spec_fn(CandidateView) -> SongView {
    |candidate: CandidateView| candidate.song
}

/// A skipped candidate with its reason.
pub open spec fn spared(snapshot: SnapshotView) -> spec_fn(CandidateView) -> SkippedView {
    |candidate: CandidateView|
        SkippedView {
            song: candidate.song,
            reason: if fate(candidate, snapshot) == Disposition::Exists {
                SkipReason::Exists
            } else {
                SkipReason::Ignored
            },
        }
}

/// The tracks of the candidates that are to be downloaded, in order.
pub open spec fn to_download_among(candidates: Seq<CandidateView>, snapshot: SnapshotView) -> Seq<
    SongView,
> {
    candidates.filter(is_due(snapshot)).map_values(song_of_candidate())
}

/// The candidates that are skipped, in order, each with its reason.
pub open spec fn skipped_among(candidates: Seq<CandidateView>, snapshot: SnapshotView) -> Seq<
    SkippedView,
> {
    candidates.filter(is_spared(snapshot)).map_values(spared(snapshot))
}

/// Splitting the candidates of a catalogue splits the catalogue.
pub proof fn lemma_candidates_split_alike(catalog: Seq<SongView>, snapshot: SnapshotView)
    ensures
        to_download_among(catalog.map_values(as_candidate()), snapshot) == to_download(
            catalog,
            snapshot,
        ),
        skipped_among(catalog.map_values(as_candidate()), snapshot) == skipped(catalog, snapshot),
    decreases catalog.len(),
{
    let candidates = catalog.map_values(as_candidate());
    if catalog.len() == 0 {
        reveal(Seq::filter);
        assert(candidates == Seq::<CandidateView>::empty());
    } else {
        let front = catalog.drop_last();
        let last = catalog.last();
        let before = front.map_values(as_candidate());
        lemma_candidates_split_alike(front, snapshot);
        assert(catalog == front.push(last));
        assert(candidates == before.push(as_candidate()(last)));
        lemma_filter_push(front, last, is_wanted(snapshot));
        lemma_filter_push(front, last, is_skipped(snapshot));
        lemma_filter_push(before, as_candidate()(last), is_due(snapshot));
        lemma_filter_push(before, as_candidate()(last), is_spared(snapshot));
        assert(before.filter(is_due(snapshot)).push(as_candidate()(last)).map_values(
            song_of_candidate(),
        ) == to_download(front, snapshot).push(last));
        assert(before.filter(is_spared(snapshot)).push(as_candidate()(last)).map_values(
            spared(snapshot),
        ) == skipped(front, snapshot).push(with_reason(snapshot)(last)));
        assert(front.filter(is_skipped(snapshot)).push(last).map_values(with_reason(snapshot))
            == skipped(front, snapshot).push(with_reason(snapshot)(last)));
    }
}

/// Gives each track of a catalogue the stem that its name is stored under.
pub fn candidates(catalog: &Vec<Song>) -> (candidates: Vec<Candidate>)
    ensures
        candidates.deep_view() == catalog.deep_view().map_values(as_candidate()),
{
    let mut candidates: Vec<Candidate> = Vec::new();
    let mut i: usize = 0;
    while i < catalog.len()
        invariant
            i <= catalog.len(),
            candidates.len() == i,
            forall|j: int|
                0 <= j < i ==> #[trigger] candidates.deep_view()[j] == as_candidate()(
                    catalog.deep_view()[j],
                ),
        decreases catalog.len() - i,
    {
        let song = catalog[i].clone();
        let stem = file_stem(song.name.as_str());
        let ghost before = candidates.deep_view();
        candidates.push(Candidate { song, stem });
        assert(candidates.deep_view() == before.push(as_candidate()(catalog.deep_view()[i as int])));
        i += 1;
    }
    candidates
}

/// Splits candidates against the mirror: every track goes, in order, to the
/// downloads or to the skipped tracks, as its name and its stem decide.
pub fn partition_candidates(candidates: &Vec<Candidate>, snapshot: &Snapshot) -> (parts: Partition)
    ensures
        parts.to_download.deep_view() == to_download_among(candidates.deep_view(), snapshot@),
        parts.skipped.deep_view() == skipped_among(candidates.deep_view(), snapshot@),
{
    let mut wanted: Vec<Song> = Vec::new();
    let mut rest: Vec<Skipped> = Vec::new();
    let ghost all = candidates.deep_view();
    let mut i: usize = 0;
    proof {
        reveal(Seq::filter);
    }
    while i < candidates.len()
        invariant
            i <= candidates.len(),
            all == candidates.deep_view(),
            wanted.deep_view() == to_download_among(all.take(i as int), snapshot@),
            rest.deep_view() == skipped_among(all.take(i as int), snapshot@),
        decreases candidates.len() - i,
    {
        let candidate = &candidates[i];
        let d = classify(candidate.song.name.as_str(), candidate.stem.as_str(), snapshot);
        let ghost seen = all.take(i as int);
        let ghost before_wanted = wanted.deep_view();
        let ghost before_rest = rest.deep_view();
        proof {
            assert(all.take(i + 1) == seen.push(candidate@));
            lemma_filter_push(seen, candidate@, is_due(snapshot@));
            lemma_filter_push(seen, candidate@, is_spared(snapshot@));
        }
        match d {
            Disposition::Download => {
                wanted.push(candidate.song.clone());
                assert(seen.filter(is_due(snapshot@)).push(candidate@).map_values(
                    song_of_candidate(),
                ) == before_wanted.push(candidate@.song));
            },
            Disposition::Exists => {
                rest.push(Skipped { song: candidate.song.clone(), reason: SkipReason::Exists });
                assert(seen.filter(is_spared(snapshot@)).push(candidate@).map_values(
                    spared(snapshot@),
                ) == before_rest.push(spared(snapshot@)(candidate@)));
            },
            Disposition::Ignored => {
                rest.push(Skipped { song: candidate.song.clone(), reason: SkipReason::Ignored });
                assert(seen.filter(is_spared(snapshot@)).push(candidate@).map_values(
                    spared(snapshot@),
                ) == before_rest.push(spared(snapshot@)(candidate@)));
            },
        }
        i += 1;
    }
    assert(all.take(candidates.len() as int) == all);
    Partition { to_download: wanted, skipped: rest }
}

/// Splits a catalogue against the mirror: every track goes, in catalogue
/// order, to the downloads or to the skipped tracks.
pub fn partition(catalog: &Vec<Song>, snapshot: &Snapshot) -> (parts: Partition)
    ensures
        parts.to_download.deep_view() == to_download(catalog.deep_view(), snapshot@),
        parts.skipped.deep_view() == skipped(catalog.deep_view(), snapshot@),
{
    let candidates = candidates(catalog);
    proof {
        lemma_candidates_split_alike(catalog.deep_view(), snapshot@);
    }
    partition_candidates(&candidates, snapshot)
}

/// The tracks of the catalogue that are skipped, in catalogue order,
/// without their reasons.
pub open spec fn skipped_songs(catalog: Seq<SongView>, snapshot: SnapshotView) -> Seq<SongView> {
    catalog.filter(is_skipped(snapshot))
}

/// The skipped tracks are the tracks that the skip test keeps, each with its
/// reason: dropping the reasons gives them back.
pub proof fn lemma_skipped_songs(catalog: Seq<SongView>, snapshot: SnapshotView)
    ensures
        skipped(catalog, snapshot).map_values(|k: SkippedView| k.song) == skipped_songs(
            catalog,
            snapshot,
        ),
        forall|i: int|
            0 <= i < skipped(catalog, snapshot).len() ==> #[trigger] skipped(
                catalog,
                snapshot,
            )[i].reason == skip_reason(skipped_songs(catalog, snapshot)[i], snapshot),
{
}

/// Splitting a catalogue loses no track and doubles none: the two parts
/// together hold every track exactly as often as the catalogue does, and no
/// track is in both.
pub proof fn lemma_partition_is_total(catalog: Seq<SongView>, snapshot: SnapshotView)
    ensures
        to_download(catalog, snapshot).to_multiset().add(
            skipped_songs(catalog, snapshot).to_multiset(),
        ) == catalog.to_multiset(),
        to_download(catalog, snapshot).len() + skipped(catalog, snapshot).len() == catalog.len(),
        forall|song: SongView|
            !(to_download(catalog, snapshot).contains(song) && skipped_songs(
                catalog,
                snapshot,
            ).contains(song)),
        forall|i: int|
            0 <= i < catalog.len() ==> (to_download(catalog, snapshot).contains(catalog[i])
                || skipped_songs(catalog, snapshot).contains(catalog[i])),
    decreases catalog.len(),
{
    broadcast use {vstd::seq_lib::to_multiset_build, vstd::seq_lib::group_filter_ensures};

    if catalog.len() == 0 {
        reveal(Seq::filter);
        catalog.to_multiset_ensures();
    } else {
        let front = catalog.drop_last();
        let last = catalog.last();
        lemma_partition_is_total(front, snapshot);
        assert(catalog == front.push(last));
        lemma_filter_push(front, last, is_wanted(snapshot));
        lemma_filter_push(front, last, is_skipped(snapshot));
    }
}

/// A track that the ignore list names is never downloaded; where it has no
/// file, it is skipped as ignored.
pub proof fn lemma_ignored_is_skipped(song: SongView, snapshot: SnapshotView)
    requires
        snapshot.ignored.contains(song.name),
    ensures
        disposition(song, snapshot) != Disposition::Download,
        !snapshot.files.contains(file_name(sanitised(song.name))) ==> disposition(song, snapshot)
            == Disposition::Ignored,
        forall|catalog: Seq<SongView>| !#[trigger] to_download(catalog, snapshot).contains(song),
{
    assert forall|catalog: Seq<SongView>| !#[trigger] to_download(catalog, snapshot).contains(
        song,
    ) by {
        lemma_downloads_are_wanted(catalog, snapshot);
    }
}

/// Every track among the downloads is a track of the catalogue that has no
/// file and is not ignored, and every such track of the catalogue is among
/// them.
pub proof fn lemma_downloads_are_wanted(catalog: Seq<SongView>, snapshot: SnapshotView)
    ensures
        forall|song: SongView|
            #[trigger] to_download(catalog, snapshot).contains(song) <==> (catalog.contains(song)
                && disposition(song, snapshot) == Disposition::Download),
    decreases catalog.len(),
{
    let wanted = to_download(catalog, snapshot);
    if catalog.len() == 0 {
        reveal(Seq::filter);
    } else {
        let front = catalog.drop_last();
        let last = catalog.last();
        lemma_downloads_are_wanted(front, snapshot);
        assert(catalog == front.push(last));
        lemma_filter_push(front, last, is_wanted(snapshot));
        let before = to_download(front, snapshot);
        assert forall|song: SongView| #[trigger] wanted.contains(song) <==> (catalog.contains(song)
            && disposition(song, snapshot) == Disposition::Download) by {
            assert(before.contains(song) <==> front.contains(song) && disposition(song, snapshot)
                == Disposition::Download);
            assert(wanted.contains(song) <==> before.contains(song) || (song == last
                && disposition(song, snapshot) == Disposition::Download));
            assert(catalog.contains(song) <==> front.contains(song) || song == last);
        }
    }
}

/// A later run downloads again only what is still missing: once the mirror
/// has gained files, the downloads are the earlier downloads without the
/// tracks whose file is now there. A track whose file the mirror holds is
/// not downloaded.
pub proof fn lemma_rerun_skips_written(
    catalog: Seq<SongView>,
    before: SnapshotView,
    after: SnapshotView,
)
    requires
        before.ignored == after.ignored,
        before.files.subset_of(after.files),
    ensures
        to_download(catalog, after) == to_download(catalog, before).filter(is_wanted(after)),
        forall|song: SongView|
            after.files.contains(file_name(sanitised(song.name))) ==> !#[trigger] to_download(
                catalog,
                after,
            ).contains(song),
    decreases catalog.len(),
{
    assert forall|song: SongView|
        after.files.contains(file_name(sanitised(song.name))) implies !#[trigger] to_download(
        catalog,
        after,
    ).contains(song) by {
        lemma_downloads_are_wanted(catalog, after);
    }
    if catalog.len() == 0 {
        reveal(Seq::filter);
    } else {
        let front = catalog.drop_last();
        let last = catalog.last();
        lemma_rerun_skips_written(front, before, after);
        assert(catalog == front.push(last));
        lemma_filter_push(front, last, is_wanted(before));
        lemma_filter_push(front, last, is_wanted(after));
        lemma_filter_push(to_download(front, before), last, is_wanted(after));
    }
}

/// A name is stored under one stem, whenever and wherever it is asked:
/// tracks of the same name have the same stem, the same file and the same
/// fate.
pub proof fn lemma_same_name_same_stem(a: SongView, b: SongView, snapshot: SnapshotView)
    requires
        a.name == b.name,
    ensures
        sanitised(a.name) == sanitised(b.name),
        file_name(sanitised(a.name)) == file_name(sanitised(b.name)),
        disposition(a, snapshot) == disposition(b, snapshot),
{
}

/// Two tracks that are stored under the same stem cannot be told apart by
/// their files: the mirror holds the file of both or of neither.
pub proof fn lemma_same_stem_same_file(a: SongView, b: SongView, snapshot: SnapshotView)
    requires
        sanitised(a.name) == sanitised(b.name),
    ensures
        (disposition(a, snapshot) == Disposition::Exists) == (disposition(b, snapshot)
            == Disposition::Exists),
{
}

} // verus!
