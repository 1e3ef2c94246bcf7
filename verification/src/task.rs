//! The work on a single track: resolve its download address, fetch the
//! audio, fetch the lyrics, put them into the tag, and have the file
//! written. The task decides; its caller sends the requests, reads the tag
//! from the audio and writes it back, writes the file and reports back.

use crate::config::{Config, ConfigView};
use crate::error::{Failure, LyricError, ResolveError};
use crate::http::{Reply, ReplyView, Request, RequestView};
use crate::mirror::{file_name, file_stem, path_in, sanitised, target_path, temp_name, temp_path};
use crate::resolve::{
    audio_request, audio_request_of, download_url, download_url_of_reply, resolve_request,
    resolve_request_of,
};
use crate::song::{Song, SongView};
use crate::tag::{lyric_fits, lyric_is_short, lyrics_tag, set_lyrics, tag_lyrics, tag_others};
use crate::tx::{lyric_of_reply, lyric_request_of, TXLyric};
use vstd::prelude::*;

verus! {

/// How the work on a track ended.
#[derive(Debug, Clone, Copy, PartialEq, Eq, Structural)]
pub enum Outcome {
    /// The file was written, with the lyrics embedded.
    Written,
    /// The file was written as it was downloaded: no lyrics could be had.
    WrittenWithoutLyrics(LyricError),
    /// No file was written.
    Failed(Failure),
}

/// Where the work on a track stands.
#[derive(Debug, PartialEq, Eq)]
pub enum TaskState {
    /// The download address has been asked for.
    Resolving,
    /// The audio has been asked for.
    Fetching,
    /// The lyrics have been asked for; the audio is here.
    FetchingLyric { audio: Vec<u8> },
    /// The tag of the audio has been asked for; the lyrics are here.
    ReadingTag { lyric: String },
    /// The tag with the lyrics is being written into the audio.
    Tagging,
    /// The file is being written; `missing` tells why it has no lyrics, if
    /// it has none.
    Persisting { missing: Option<LyricError> },
    /// The work has ended.
    Done(Outcome),
}

/// The mathematical value of a [`TaskState`].
pub enum TaskStateView {
    Resolving,
    Fetching,
    FetchingLyric { audio: Seq<u8> },
    ReadingTag { lyric: Seq<char> },
    Tagging,
    Persisting { missing: Option<LyricError> },
    Done(Outcome),
}

impl View for TaskState {
    type V = TaskStateView;

    open spec fn view(&self) -> TaskStateView {
        match self {
            TaskState::Resolving => TaskStateView::Resolving,
            TaskState::Fetching => TaskStateView::Fetching,
            TaskState::FetchingLyric { audio } => TaskStateView::FetchingLyric { audio: audio@ },
            TaskState::ReadingTag { lyric } => TaskStateView::ReadingTag { lyric: lyric@ },
            TaskState::Tagging => TaskStateView::Tagging,
            TaskState::Persisting { missing } => TaskStateView::Persisting { missing: *missing },
            TaskState::Done(outcome) => TaskStateView::Done(*outcome),
        }
    }
}

/// What the caller reports to a task.
#[derive(Debug, PartialEq, Eq)]
pub enum TaskEvent {
    /// The answer to the request for the download address.
    Resolved(Reply),
    /// The audio, or nothing where it could not be fetched.
    Audio(Option<Vec<u8>>),
    /// The answer to the request for the lyrics.
    Lyric(Reply),
    /// The audio that was handed out, and the tag that was read from it,
    /// or no tag where none could be read.
    TagRead { audio: Vec<u8>, tag: Option<id3::Tag> },
    /// The audio with the tag written into it, or nothing where that
    /// failed.
    Tagged(Option<Vec<u8>>),
    /// Whether the file has reached its place.
    Persisted(bool),
}

/// The mathematical value of a [`TaskEvent`].
pub enum TaskEventView {
    Resolved(ReplyView),
    Audio(Option<Seq<u8>>),
    Lyric(ReplyView),
    TagRead { audio: Seq<u8>, tag: Option<id3::Tag> },
    Tagged(Option<Seq<u8>>),
    Persisted(bool),
}

impl View for TaskEvent {
    type V = TaskEventView;

    open spec fn view(&self) -> TaskEventView {
        match self {
            TaskEvent::Resolved(reply) => TaskEventView::Resolved(reply@),
            TaskEvent::Audio(Some(bytes)) => TaskEventView::Audio(Some(bytes@)),
            TaskEvent::Audio(None) => TaskEventView::Audio(None),
            TaskEvent::Lyric(reply) => TaskEventView::Lyric(reply@),
            TaskEvent::TagRead { audio, tag } => TaskEventView::TagRead { audio: audio@, tag: *tag },
            TaskEvent::Tagged(Some(bytes)) => TaskEventView::Tagged(Some(bytes@)),
            TaskEvent::Tagged(None) => TaskEventView::Tagged(None),
            TaskEvent::Persisted(done) => TaskEventView::Persisted(*done),
        }
    }
}

/// What a task asks of its caller.
#[derive(Debug, PartialEq, Eq)]
pub enum TaskAction {
    /// Send the request and report the answer as `Resolved`.
    Resolve(Request),
    /// Send the request and report the bytes that come back as `Audio`.
    GetBytes(Request),
    /// Send the request and report the answer as `Lyric`.
    GetLyric(Request),
    /// Read the tag of the audio and report both as `TagRead`.
    ReadTag { audio: Vec<u8> },
    /// Put the tag in place of the one the audio has, as ID3v2.4, and
    /// report the audio that comes of it as `Tagged`.
    Retag { tag: id3::Tag, audio: Vec<u8> },
    /// Write the bytes to `temp`, move that file to `target`, and report as
    /// `Persisted` whether both went well.
    Persist { temp: String, target: String, bytes: Vec<u8> },
    /// The work has ended in this way.
    Finish(Outcome),
    /// Nothing: the event does not belong to the state of the task.
    Ignore,
}

/// The mathematical value of a [`TaskAction`].
pub enum TaskActionView {
    Resolve(RequestView),
    GetBytes(RequestView),
    GetLyric(RequestView),
    ReadTag { audio: Seq<u8> },
    Retag { tag: id3::Tag, audio: Seq<u8> },
    Persist { temp: Seq<char>, target: Seq<char>, bytes: Seq<u8> },
    Finish(Outcome),
    Ignore,
}

impl View for TaskAction {
    type V = TaskActionView;

    open spec fn view(&self) -> TaskActionView {
        match self {
            TaskAction::Resolve(request) => TaskActionView::Resolve(request@),
            TaskAction::GetBytes(request) => TaskActionView::GetBytes(request@),
            TaskAction::GetLyric(request) => TaskActionView::GetLyric(request@),
            TaskAction::ReadTag { audio } => TaskActionView::ReadTag { audio: audio@ },
            TaskAction::Retag { tag, audio } => TaskActionView::Retag { tag: *tag, audio: audio@ },
            TaskAction::Persist { temp, target, bytes } => TaskActionView::Persist {
                temp: temp@,
                target: target@,
                bytes: bytes@,
            },
            TaskAction::Finish(outcome) => TaskActionView::Finish(*outcome),
            TaskAction::Ignore => TaskActionView::Ignore,
        }
    }
}

/// The work on one track.
#[derive(Debug, PartialEq, Eq)]
pub struct Task {
    pub song: Song,
    pub state: TaskState,
}

/// The mathematical value of a [`Task`].
pub struct TaskView {
    pub song: SongView,
    pub state: TaskStateView,
}

impl View for Task {
    type V = TaskView;

    open spec fn view(&self) -> TaskView {
        TaskView { song: self.song@, state: self.state@ }
    }
}

/// The task ends in this way.
pub open spec fn finish(song: SongView, outcome: Outcome) -> (TaskView, TaskActionView) {
    (TaskView { song, state: TaskStateView::Done(outcome) }, TaskActionView::Finish(outcome))
}

/// The order to write these bytes as the file of the track.
pub open spec fn persist(song: SongView, config: ConfigView, bytes: Seq<u8>) -> TaskActionView {
    TaskActionView::Persist {
        temp: path_in(config.dir, temp_name(sanitised(song.name))),
        target: path_in(config.dir, file_name(sanitised(song.name))),
        bytes,
    }
}

/// A task at its start, and the request for the download address that it
/// begins with.
pub open spec fn task_start(song: SongView, config: ConfigView) -> (TaskView, TaskActionView) {
    (
        TaskView { song, state: TaskStateView::Resolving },
        TaskActionView::Resolve(resolve_request_of(config.lx_api_url, config.lx_api_key, song.id)),
    )
}

/// What a task becomes on an event, and what it asks for next.
///
/// A failure to resolve, to fetch the audio, to read the tag, to write it
/// back or to write the file ends the task, and so do lyrics that are too
/// long for a tag. A failure to get the lyrics does not: the audio is then
/// written as it was downloaded. An event that does not belong to the state
/// changes nothing.
pub open spec fn task_step(task: TaskView, event: TaskEventView, config: ConfigView) -> (
    TaskView,
    TaskActionView,
) {
    let song = task.song;
    match (task.state, event) {
        (TaskStateView::Resolving, TaskEventView::Resolved(reply)) => match download_url_of_reply(
            reply,
        ) {
            Ok(url) => (
                TaskView { song, state: TaskStateView::Fetching },
                TaskActionView::GetBytes(audio_request_of(url, config.relaxed_tls)),
            ),
            Err(why) => finish(song, Outcome::Failed(Failure::ResolveFailed(why))),
        },
        (TaskStateView::Fetching, TaskEventView::Audio(Some(audio))) => (
            TaskView { song, state: TaskStateView::FetchingLyric { audio } },
            TaskActionView::GetLyric(lyric_request_of(song.id)),
        ),
        (TaskStateView::Fetching, TaskEventView::Audio(None)) => finish(
            song,
            Outcome::Failed(Failure::FetchFailed),
        ),
        (TaskStateView::FetchingLyric { audio }, TaskEventView::Lyric(reply)) => match lyric_of_reply(
            reply,
        ) {
            Ok(lyric) => if lyric_fits(lyric) {
                (
                    TaskView { song, state: TaskStateView::ReadingTag { lyric } },
                    TaskActionView::ReadTag { audio },
                )
            } else {
                finish(song, Outcome::Failed(Failure::TagWriteFailed))
            },
            Err(why) => (
                TaskView { song, state: TaskStateView::Persisting { missing: Some(why) } },
                persist(song, config, audio),
            ),
        },
        (TaskStateView::ReadingTag { lyric }, TaskEventView::TagRead { audio, tag }) => match tag {
            Some(tag) => (
                TaskView { song, state: TaskStateView::Tagging },
                TaskActionView::Retag { tag: lyrics_tag(tag, lyric), audio },
            ),
            None => finish(song, Outcome::Failed(Failure::TagWriteFailed)),
        },
        (TaskStateView::Tagging, TaskEventView::Tagged(Some(bytes))) => (
            TaskView { song, state: TaskStateView::Persisting { missing: None } },
            persist(song, config, bytes),
        ),
        (TaskStateView::Tagging, TaskEventView::Tagged(None)) => finish(
            song,
            Outcome::Failed(Failure::TagWriteFailed),
        ),
        (TaskStateView::Persisting { missing }, TaskEventView::Persisted(done)) => if !done {
            finish(song, Outcome::Failed(Failure::PersistFailed))
        } else {
            match missing {
                None => finish(song, Outcome::Written),
                Some(why) => finish(song, Outcome::WrittenWithoutLyrics(why)),
            }
        },
        _ => (task, TaskActionView::Ignore),
    }
}

/// Whether a tag that is handed out to be written carries the lyrics of
/// the task as its only lyrics, and with them the frames that are no lyrics
/// of the tag that was read, and goes with the audio that the tag was read
/// from.
pub open spec fn retag_carries_lyrics(task: TaskView, event: TaskEventView, action: TaskActionView)
    -> bool {
    (action matches TaskActionView::Retag { tag, audio } ==> {
        &&& task.state matches TaskStateView::ReadingTag { lyric }
        &&& event matches TaskEventView::TagRead { audio: read_from, tag: Some(read) }
        &&& audio == read_from
        &&& tag_lyrics(tag) == seq![("unknown"@, "lyrics"@, lyric)]
        &&& tag_others(tag) == tag_others(read)
    })
}

impl Task {
    /// Begins the work on a track: the task, and the request for the
    /// download address.
    pub fn start(song: Song, config: &Config) -> (begun: (Task, TaskAction))
        ensures
            (begun.0@, begun.1@) == task_start(song@, config@),
    {
        let request = resolve_request(
            config.lx_api_url.as_str(),
            config.lx_api_key.as_str(),
            song.id.as_str(),
        );
        (Task { song, state: TaskState::Resolving }, TaskAction::Resolve(request))
    }

    /// Whether the work has ended.
    pub fn is_done(&self) -> (done: bool)
        ensures
            done == (self@.state is Done),
    {
        match self.state {
            TaskState::Done(_) => true,
            _ => false,
        }
    }

    fn ended(song: Song, outcome: Outcome) -> (next: (Task, TaskAction))
        ensures
            (next.0@, next.1@) == finish(song@, outcome),
    {
        (Task { song, state: TaskState::Done(outcome) }, TaskAction::Finish(outcome))
    }

    fn persisting(song: Song, config: &Config, bytes: Vec<u8>, missing: Option<LyricError>) -> (next:
        (Task, TaskAction))
        ensures
            next.0@ == (TaskView { song: song@, state: TaskStateView::Persisting { missing } }),
            next.1@ == persist(song@, config@, bytes@),
    {
        let stem = file_stem(song.name.as_str());
        let temp = temp_path(config.dir.as_str(), stem.as_str());
        let target = target_path(config.dir.as_str(), stem.as_str());
        (
            Task { song, state: TaskState::Persisting { missing } },
            TaskAction::Persist { temp, target, bytes },
        )
    }

    /// Takes an event and says what to do next. A tag that is handed out
    /// to be written carries the lyrics as its only lyrics, and the other
    /// frames of the tag that was read.
    pub fn step(self, event: TaskEvent, config: &Config) -> (next: (Task, TaskAction))
        ensures
            (next.0@, next.1@) == task_step(self@, event@, config@),
            retag_carries_lyrics(self@, event@, next.1@),
    {
        let Task { song, state } = self;
        match state {
            TaskState::Resolving => match event {
                TaskEvent::Resolved(reply) => match download_url(&reply) {
                    Ok(url) => (
                        Task { song, state: TaskState::Fetching },
                        TaskAction::GetBytes(audio_request(url.as_str(), config.relaxed_tls)),
                    ),
                    Err(why) => Task::ended(song, Outcome::Failed(Failure::ResolveFailed(why))),
                },
                _ => (Task { song, state: TaskState::Resolving }, TaskAction::Ignore),
            },
            TaskState::Fetching => match event {
                TaskEvent::Audio(Some(audio)) => {
                    let request = song.lyric_request();
                    (
                        Task { song, state: TaskState::FetchingLyric { audio } },
                        TaskAction::GetLyric(request),
                    )
                },
                TaskEvent::Audio(None) => Task::ended(song, Outcome::Failed(Failure::FetchFailed)),
                _ => (Task { song, state: TaskState::Fetching }, TaskAction::Ignore),
            },
            TaskState::FetchingLyric { audio } => match event {
                TaskEvent::Lyric(reply) => match song.get_lyric(&reply) {
                    Ok(lyric) => {
                        if lyric_is_short(lyric.as_str()) {
                            (
                                Task { song, state: TaskState::ReadingTag { lyric } },
                                TaskAction::ReadTag { audio },
                            )
                        } else {
                            Task::ended(song, Outcome::Failed(Failure::TagWriteFailed))
                        }
                    },
                    Err(why) => Task::persisting(song, config, audio, Some(why)),
                },
                _ => (Task { song, state: TaskState::FetchingLyric { audio } }, TaskAction::Ignore),
            },
            TaskState::ReadingTag { lyric } => match event {
                TaskEvent::TagRead { audio, tag: Some(tag) } => (
                    Task { song, state: TaskState::Tagging },
                    TaskAction::Retag { tag: set_lyrics(tag, lyric.as_str()), audio },
                ),
                TaskEvent::TagRead { audio, tag: None } => Task::ended(
                    song,
                    Outcome::Failed(Failure::TagWriteFailed),
                ),
                _ => (Task { song, state: TaskState::ReadingTag { lyric } }, TaskAction::Ignore),
            },
            TaskState::Tagging => match event {
                TaskEvent::Tagged(Some(bytes)) => Task::persisting(song, config, bytes, None),
                TaskEvent::Tagged(None) => Task::ended(
                    song,
                    Outcome::Failed(Failure::TagWriteFailed),
                ),
                _ => (Task { song, state: TaskState::Tagging }, TaskAction::Ignore),
            },
            TaskState::Persisting { missing } => match event {
                TaskEvent::Persisted(done) => {
                    if !done {
                        Task::ended(song, Outcome::Failed(Failure::PersistFailed))
                    } else {
                        match missing {
                            None => Task::ended(song, Outcome::Written),
                            Some(why) => Task::ended(song, Outcome::WrittenWithoutLyrics(why)),
                        }
                    }
                },
                _ => (Task { song, state: TaskState::Persisting { missing } }, TaskAction::Ignore),
            },
            TaskState::Done(outcome) => (
                Task { song, state: TaskState::Done(outcome) },
                TaskAction::Ignore,
            ),
        }
    }
}

/// How many events a task may still take.
pub open spec fn steps_left(state: TaskStateView) -> nat {
    match state {
        TaskStateView::Resolving => 6,
        TaskStateView::Fetching => 5,
        TaskStateView::FetchingLyric { .. } => 4,
        TaskStateView::ReadingTag { .. } => 3,
        TaskStateView::Tagging => 2,
        TaskStateView::Persisting { .. } => 1,
        TaskStateView::Done(_) => 0,
    }
}

/// A task that has ended stays as it is, whatever is reported to it.
pub proof fn lemma_done_is_final(task: TaskView, event: TaskEventView, config: ConfigView)
    requires
        task.state is Done,
    ensures
        task_step(task, event, config) == (task, TaskActionView::Ignore),
{
}

/// Every event either changes nothing or brings the task nearer to its
/// end: it ends after six events at most. It says that it has ended when
/// it has, and with the outcome it holds.
pub proof fn lemma_task_advances(task: TaskView, event: TaskEventView, config: ConfigView)
    ensures
        ({
            let (next, action) = task_step(task, event, config);
            &&& next.song == task.song
            &&& action is Ignore <==> next == task
            &&& !(action is Ignore) ==> steps_left(next.state) < steps_left(task.state)
            &&& action matches TaskActionView::Finish(outcome) ==> next.state
                == TaskStateView::Done(outcome)
            &&& next.state is Done && !(task.state is Done) ==> action is Finish
        }),
{
}

/// Missing lyrics fail no track: when the lyrics cannot be had, the audio
/// is written as it was downloaded, and the task ends as written without
/// lyrics if the file reaches its place.
pub proof fn lemma_lyrics_are_optional(
    song: SongView,
    audio: Seq<u8>,
    reply: ReplyView,
    config: ConfigView,
)
    requires
        lyric_of_reply(reply) is Err,
    ensures
        ({
            let task = TaskView { song, state: TaskStateView::FetchingLyric { audio } };
            let (next, action) = task_step(task, TaskEventView::Lyric(reply), config);
            let (last, end) = task_step(next, TaskEventView::Persisted(true), config);
            &&& action == persist(song, config, audio)
            &&& end == TaskActionView::Finish(
                Outcome::WrittenWithoutLyrics(lyric_of_reply(reply)->Err_0),
            )
        }),
{
}

/// A failure names the step that failed: a task fails to resolve only
/// while it resolves, to fetch only while it fetches, on the tag only when
/// the lyrics are there, and to persist only while the file is written. It
/// never says of itself that it was abandoned.
pub proof fn lemma_failure_names_its_step(
    task: TaskView,
    event: TaskEventView,
    config: ConfigView,
    why: Failure,
)
    requires
        task_step(task, event, config).1 == TaskActionView::Finish(Outcome::Failed(why)),
    ensures
        match why {
            Failure::ResolveFailed(cause) => {
                &&& task.state is Resolving
                &&& event matches TaskEventView::Resolved(reply)
                &&& download_url_of_reply(reply) == Err::<Seq<char>, ResolveError>(cause)
            },
            Failure::FetchFailed => task.state is Fetching && event == TaskEventView::Audio(None),
            Failure::TagWriteFailed => {
                ||| {
                    &&& task.state is FetchingLyric
                    &&& event matches TaskEventView::Lyric(reply)
                    &&& lyric_of_reply(reply) matches Ok(lyric)
                    &&& !lyric_fits(lyric)
                }
                ||| {
                    &&& task.state is ReadingTag
                    &&& event matches TaskEventView::TagRead { tag, .. }
                    &&& tag is None
                }
                ||| task.state is Tagging && event == TaskEventView::Tagged(None)
            },
            Failure::PersistFailed => task.state is Persisting && event
                == TaskEventView::Persisted(false),
            Failure::Abandoned => false,
        },
{
}

/// The file is written beside its place, never in it: the temporary path
/// differs from the target path, and from the place of any audio file in
/// the same directory.
pub proof fn lemma_persist_writes_aside(song: SongView, config: ConfigView, bytes: Seq<u8>)
    ensures
        persist(song, config, bytes) matches TaskActionView::Persist { temp, target, .. }
            && temp != target && forall|stem: Seq<char>|
            temp != #[trigger] path_in(config.dir, file_name(stem)),
{
    let temp = path_in(config.dir, temp_name(sanitised(song.name)));
    assert forall|stem: Seq<char>| temp != #[trigger] path_in(config.dir, file_name(stem)) by {
        crate::mirror::lemma_temp_name_is_no_file_name(sanitised(song.name), stem);
        let other = path_in(config.dir, file_name(stem));
        let prefix = config.dir + "/"@;
        if temp == other {
            assert(temp.skip(prefix.len() as int) == temp_name(sanitised(song.name)));
            assert(other.skip(prefix.len() as int) == file_name(stem));
        }
    }
}

} // verus!
