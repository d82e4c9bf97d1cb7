//! The batch orchestrator as a state machine. The caller performs each
//! requested action (run the decoder, look at the file system) and hands the
//! outcome back; the machine decides what comes next and keeps the ordered
//! per-video outcomes. Only preflight failures end a batch early.
use vstd::prelude::*;
use crate::frames::{artifact_name, artifact_name_spec, extract_arg_list, extract_args, frames_wanted, output_pattern_name, pattern_name, total_frames};
use crate::paths::{clone_parts, file_stem, get_output_dir_for_video, output_dir_spec, render_path, rendered, stem_of};
use crate::probe::{is_network_path, is_network_spec, probe_arg_list, probe_args, probe_metadata, probe_result, probe_timeout_secs, ProbeError, ProbeReport};
use crate::text::{append_str, arg_texts, owned, push_arg};

verus! {

/// The parameters of one batch, fixed for its whole run. Paths are given as
/// components; `separator` joins them when a path is written out as text.
pub struct JobConfig {
    pub input_root: Vec<String>,
    pub output_root: Vec<String>,
    pub skip_start_sec: u64,
    pub frame_interval_sec: u64,
    pub preserve_dir_structure: bool,
    pub create_video_subdir: bool,
    pub separator: char,
}

/// The outcome of one video.
#[derive(Debug, Clone)]
pub struct ProcessResult {
    pub video_path: String,
    pub output_dir: String,
    pub frames_extracted: usize,
    pub success: bool,
    pub error: Option<String>,
}

/// Why a batch ended before any video was attempted.
#[derive(Debug)]
pub enum BatchError {
    /// The decoder could not be run.
    DecoderUnavailable,
    /// The frame interval is zero.
    ZeroInterval,
    /// The input root does not exist.
    InputRootMissing,
    /// The input tree could not be walked.
    DiscoveryFailed { message: String },
    /// The input tree holds no video.
    NoVideosFound,
}

/// Where a batch stands.
#[derive(PartialEq, Eq, Structural, Clone, Copy, Debug)]
pub enum Stage {
    Idle,
    VerifyingDecoder,
    CheckingInputRoot,
    Discovering,
    CreatingDir,
    Probing,
    Extracting,
    Counting,
    Completed,
    Failed,
}

/// What the caller is to do next.
#[derive(Debug)]
pub enum Action {
    /// Run the decoder with a version query; report with `on_decoder_checked`.
    VerifyDecoder,
    /// Report with `on_input_root_checked` whether this path exists.
    CheckInputRoot { path: String },
    /// Walk the tree under this path for videos; report with `on_discovered`.
    Discover { path: String },
    /// Video `index` of `total` begins: create this directory and its
    /// ancestors; report with `on_dir_created`.
    CreateDir { index: usize, total: usize, dir: String },
    /// Run the decoder with these arguments within the time budget; report
    /// with `on_probed`.
    Probe { args: Vec<String>, timeout_secs: u64 },
    /// Run the decoder with these arguments; report with `on_extracted`.
    Extract { args: Vec<String> },
    /// Report with `on_artifact_checked` whether this file exists.
    CheckArtifact { path: String },
    /// Every video was attempted; the outcomes are in `results`.
    Finished,
    /// The batch ended before any video was attempted.
    Abort { error: BatchError },
}

pub open spec fn is_video_stage(s: Stage) -> bool {
    s == Stage::CreatingDir || s == Stage::Probing || s == Stage::Extracting || s
        == Stage::Counting
}

/// The stem used to name a video's artifacts (`video` when it has none).
pub open spec fn stem_or_default(video: Seq<Seq<char>>) -> Seq<char> {
    if video.len() > 0 && stem_of(video.last()) is Some {
        stem_of(video.last())->0
    } else {
        "video"@
    }
}

/// The description of a failed video: the stage, the video, the detail.
pub open spec fn failure_text(stage: Seq<char>, video: Seq<char>, detail: Seq<char>) -> Seq<
    char,
> {
    stage + " "@ + video + ": "@ + detail
}

pub open spec fn probe_error_detail(e: ProbeError) -> Seq<char> {
    match e {
        ProbeError::Timeout => "timed out"@,
        ProbeError::Spawn { message } => "cannot run the decoder: "@ + message@,
    }
}

pub open spec fn failures(results: Seq<ProcessResult>) -> nat
    decreases results.len(),
{
    if results.len() == 0 {
        0
    } else {
        failures(results.drop_last()) + if results.last().success {
            0nat
        } else {
            1nat
        }
    }
}

/// A batch in progress: its configuration, where it stands, the videos
/// found, and the outcomes of the videos attempted so far.
pub struct Batch {
    pub config: JobConfig,
    pub stage: Stage,
    /// The videos found, in discovery order, as components.
    pub videos: Vec<Vec<String>>,
    /// The video being worked on; equally, the number of outcomes recorded.
    pub index: usize,
    /// The output directory of the current video.
    pub dir: Vec<String>,
    /// Whether the current video lies on a network share.
    pub remote: bool,
    /// Numbered artifacts of the current video found so far.
    pub found: usize,
    /// The outcomes so far, one per video attempted, in discovery order.
    pub results: Vec<ProcessResult>,
}

/// Video `i` of `videos`, as components.
pub open spec fn video_of(videos: Seq<Vec<String>>, i: int) -> Seq<Seq<char>> {
    arg_texts(videos[i]@)
}

/// Video `i` written out as text.
pub open spec fn video_text_of(config: JobConfig, videos: Seq<Vec<String>>, i: int) -> Seq<char> {
    rendered(video_of(videos, i), config.separator)
}

/// The output directory of video `i`.
pub open spec fn out_dir_of(config: JobConfig, videos: Seq<Vec<String>>, i: int) -> Seq<Seq<char>> {
    output_dir_spec(
        video_of(videos, i),
        arg_texts(config.input_root@),
        arg_texts(config.output_root@),
        config.preserve_dir_structure,
        config.create_video_subdir,
    )
}

/// Whether `r` is a well-formed outcome of video `i`.
pub open spec fn result_fits(config: JobConfig, videos: Seq<Vec<String>>, r: ProcessResult, i: int) -> bool {
    &&& r.video_path@ == video_text_of(config, videos, i)
    &&& r.output_dir@ == rendered(out_dir_of(config, videos, i), config.separator)
    &&& r.success ==> r.error is None
    &&& !r.success ==> r.error is Some && r.frames_extracted == 0
}

impl Batch {
    pub open spec fn video(&self, i: int) -> Seq<Seq<char>> {
        video_of(self.videos@, i)
    }

    pub open spec fn video_text(&self, i: int) -> Seq<char> {
        video_text_of(self.config, self.videos@, i)
    }

    pub open spec fn out_dir(&self, i: int) -> Seq<Seq<char>> {
        out_dir_of(self.config, self.videos@, i)
    }

    pub open spec fn out_dir_text(&self, i: int) -> Seq<char> {
        rendered(self.out_dir(i), self.config.separator)
    }

    pub open spec fn fits(&self, r: ProcessResult, i: int) -> bool {
        result_fits(self.config, self.videos@, r, i)
    }

    pub open spec fn wf(&self) -> bool {
        &&& self.stage != Stage::Idle && self.stage != Stage::Failed ==> self.config.frame_interval_sec
            > 0
        &&& !is_video_stage(self.stage) && self.stage != Stage::Completed ==> self.results.len()
            == 0
        &&& is_video_stage(self.stage) ==> {
            &&& self.index < self.videos.len()
            &&& self.results.len() == self.index
            &&& arg_texts(self.dir@) == self.out_dir(self.index as int)
            &&& self.remote == is_network_spec(self.video_text(self.index as int))
            &&& self.found < usize::MAX
        }
        &&& self.stage == Stage::Completed ==> self.results.len() == self.videos.len()
        &&& self.results.len() <= self.videos.len()
        &&& forall|k: int|
            0 <= k < self.results.len() ==> #[trigger] result_fits(
                self.config,
                self.videos@,
                self.results@[k],
                k,
            )
    }

    /// A batch that has not started.
    pub fn new(config: JobConfig) -> (r: Batch)
        ensures
            r.stage == Stage::Idle,
            r.config == config,
            r.results.len() == 0,
            r.videos.len() == 0,
            r.wf(),
    {
        Batch {
            config,
            stage: Stage::Idle,
            videos: Vec::new(),
            index: 0,
            dir: Vec::new(),
            remote: false,
            found: 0,
            results: Vec::new(),
        }
    }

    /// Starts the batch: a zero interval ends it, else the decoder is checked.
    pub fn start(&mut self) -> (a: Action)
        requires
            old(self).stage == Stage::Idle,
            old(self).wf(),
        ensures
            final(self).wf(),
            final(self).config == old(self).config,
            final(self).results == old(self).results,
            old(self).config.frame_interval_sec == 0 ==> final(self).stage == Stage::Failed
                && a == (Action::Abort { error: BatchError::ZeroInterval }),
            old(self).config.frame_interval_sec > 0 ==> final(self).stage
                == Stage::VerifyingDecoder && a == Action::VerifyDecoder,
    {
        if self.config.frame_interval_sec == 0 {
            self.stage = Stage::Failed;
            Action::Abort { error: BatchError::ZeroInterval }
        } else {
            self.stage = Stage::VerifyingDecoder;
            Action::VerifyDecoder
        }
    }

    /// The decoder check came back: without a decoder the batch ends, else
    /// the input root is checked.
    pub fn on_decoder_checked(&mut self, available: bool) -> (a: Action)
        requires
            old(self).stage == Stage::VerifyingDecoder,
            old(self).wf(),
        ensures
            final(self).wf(),
            final(self).config == old(self).config,
            final(self).results == old(self).results,
            !available ==> final(self).stage == Stage::Failed && a == (Action::Abort {
                error: BatchError::DecoderUnavailable,
            }),
            available ==> final(self).stage == Stage::CheckingInputRoot,
            available ==> (a matches Action::CheckInputRoot { path } && path@ == rendered(
                arg_texts(old(self).config.input_root@),
                old(self).config.separator,
            )),
    {
        if !available {
            self.stage = Stage::Failed;
            Action::Abort { error: BatchError::DecoderUnavailable }
        } else {
            self.stage = Stage::CheckingInputRoot;
            let path = render_path(&self.config.input_root, self.config.separator);
            Action::CheckInputRoot { path }
        }
    }

    /// The input root check came back: a missing root ends the batch, else
    /// the tree is walked.
    pub fn on_input_root_checked(&mut self, exists: bool) -> (a: Action)
        requires
            old(self).stage == Stage::CheckingInputRoot,
            old(self).wf(),
        ensures
            final(self).wf(),
            final(self).config == old(self).config,
            final(self).results == old(self).results,
            !exists ==> final(self).stage == Stage::Failed && a == (Action::Abort {
                error: BatchError::InputRootMissing,
            }),
            exists ==> final(self).stage == Stage::Discovering,
            exists ==> (a matches Action::Discover { path } && path@ == rendered(
                arg_texts(old(self).config.input_root@),
                old(self).config.separator,
            )),
    {
        if !exists {
            self.stage = Stage::Failed;
            Action::Abort { error: BatchError::InputRootMissing }
        } else {
            self.stage = Stage::Discovering;
            let path = render_path(&self.config.input_root, self.config.separator);
            Action::Discover { path }
        }
    }

    /// Whether `r` records video `i` with `frames` frames and, for a
    /// failure, the description `error`.
    pub open spec fn outcome_is(
        &self,
        r: ProcessResult,
        i: int,
        frames: nat,
        error: Option<Seq<char>>,
    ) -> bool {
        &&& r.video_path@ == self.video_text(i)
        &&& r.output_dir@ == self.out_dir_text(i)
        &&& r.frames_extracted == frames
        &&& r.success == (error is None)
        &&& match error {
            Some(e) => r.error matches Some(m) && m@ == e,
            None => r.error is None,
        }
    }

    /// Whether `a` begins video `i`.
    pub open spec fn begins(&self, a: Action, i: int) -> bool {
        a matches Action::CreateDir { index, total, dir } && index == i && total
            == self.videos.len() && dir@ == self.out_dir_text(i)
    }

    /// The text of a file named `name` in the current video's directory.
    pub open spec fn in_dir_text(&self, name: Seq<char>) -> Seq<char> {
        rendered(self.out_dir(self.index as int).push(name), self.config.separator)
    }

    /// Whether `self` went on from `prev` by recording an outcome of the
    /// current video and then beginning the next one or completing.
    pub open spec fn recorded(&self, prev: &Batch, a: Action, frames: nat, error: Option<Seq<char>>) -> bool {
        &&& self.config == prev.config
        &&& self.videos == prev.videos
        &&& self.results.len() == prev.results.len() + 1
        &&& self.results@.take(prev.results.len() as int) == prev.results@
        &&& self.outcome_is(self.results@.last(), prev.index as int, frames, error)
        &&& failures(self.results@) == failures(prev.results@) + if error is Some {
            1nat
        } else {
            0nat
        }
        &&& self.index == prev.index + 1
        &&& if self.index == self.videos.len() {
            self.stage == Stage::Completed && a == Action::Finished
        } else {
            self.stage == Stage::CreatingDir && self.begins(a, self.index as int)
        }
    }

    fn begin_video(&mut self) -> (a: Action)
        requires
            old(self).index < old(self).videos.len(),
            old(self).results.len() == old(self).index,
            old(self).config.frame_interval_sec > 0,
            forall|k: int|
                0 <= k < old(self).results.len() ==> #[trigger] result_fits(
                    old(self).config,
                    old(self).videos@,
                    old(self).results@[k],
                    k,
                ),
        ensures
            final(self).wf(),
            final(self).stage == Stage::CreatingDir,
            final(self).config == old(self).config,
            final(self).videos == old(self).videos,
            final(self).index == old(self).index,
            final(self).results == old(self).results,
            final(self).begins(a, old(self).index as int),
    {
        let i = self.index;
        let dir = get_output_dir_for_video(
            &self.videos[i],
            &self.config.input_root,
            &self.config.output_root,
            self.config.preserve_dir_structure,
            self.config.create_video_subdir,
        );
        let text = render_path(&self.videos[i], self.config.separator);
        self.remote = is_network_path(text.as_str());
        let dir_text = render_path(&dir, self.config.separator);
        self.dir = dir;
        self.found = 0;
        self.stage = Stage::CreatingDir;
        Action::CreateDir { index: i, total: self.videos.len(), dir: dir_text }
    }

    fn finish_video(&mut self, frames: usize, error: Option<String>) -> (a: Action)
        requires
            old(self).wf(),
            is_video_stage(old(self).stage),
            error is Some ==> frames == 0,
        ensures
            final(self).wf(),
            final(self).recorded(
                old(self),
                a,
                frames as nat,
                match error {
                    Some(e) => Some(e@),
                    None => None,
                },
            ),
    {
        let i = self.index;
        let video_path = render_path(&self.videos[i], self.config.separator);
        let output_dir = render_path(&self.dir, self.config.separator);
        let success = error.is_none();
        let r = ProcessResult { video_path, output_dir, frames_extracted: frames, success, error };
        let ghost prev = self.results@;
        let ghost before = *self;
        self.results.push(r);
        self.index = i + 1;
        assert(self.results@.drop_last() =~= prev);
        assert(self.results@.take(prev.len() as int) =~= prev);
        assert forall|k: int| 0 <= k < self.results.len() implies #[trigger] result_fits(
            self.config,
            self.videos@,
            self.results@[k],
            k,
        ) by {
            if k < prev.len() {
                assert(self.results@[k] == prev[k]);
                assert(result_fits(before.config, before.videos@, prev[k], k));
            }
        }
        if self.index == self.videos.len() {
            self.stage = Stage::Completed;
            Action::Finished
        } else {
            self.begin_video()
        }
    }

    /// The names of the videos found came back: a failed walk or an empty
    /// list ends the batch, else the first video begins.
    pub fn on_discovered(&mut self, videos: Result<Vec<Vec<String>>, String>) -> (a: Action)
        requires
            old(self).stage == Stage::Discovering,
            old(self).wf(),
        ensures
            final(self).wf(),
            final(self).config == old(self).config,
            match videos {
                Err(m) => final(self).stage == Stage::Failed && a == (Action::Abort {
                    error: BatchError::DiscoveryFailed { message: m },
                }) && final(self).results.len() == 0,
                Ok(v) => if v.len() == 0 {
                    final(self).stage == Stage::Failed && a == (Action::Abort {
                        error: BatchError::NoVideosFound,
                    }) && final(self).results.len() == 0
                } else {
                    &&& final(self).videos == v
                    &&& final(self).index == 0
                    &&& final(self).results.len() == 0
                    &&& final(self).stage == Stage::CreatingDir
                    &&& final(self).begins(a, 0)
                },
            },
    {
        match videos {
            Err(message) => {
                self.stage = Stage::Failed;
                Action::Abort { error: BatchError::DiscoveryFailed { message } }
            },
            Ok(v) => {
                if v.len() == 0 {
                    self.stage = Stage::Failed;
                    Action::Abort { error: BatchError::NoVideosFound }
                } else {
                    self.videos = v;
                    self.index = 0;
                    self.begin_video()
                }
            },
        }
    }

    /// Whether `self` is still at the same video as `prev`, with nothing recorded.
    pub open spec fn same_video(&self, prev: &Batch) -> bool {
        &&& self.config == prev.config
        &&& self.videos == prev.videos
        &&& self.index == prev.index
        &&& self.results == prev.results
        &&& self.dir == prev.dir
        &&& self.remote == prev.remote
    }

    fn in_dir(&self, name: String) -> (r: String)
        requires
            self.wf(),
            is_video_stage(self.stage),
        ensures
            r@ == self.in_dir_text(name@),
    {
        let mut parts: Vec<String> = Vec::new();
        clone_parts(&self.dir, 0, self.dir.len(), &mut parts);
        assert(arg_texts(parts@) =~= arg_texts(self.dir@));
        push_arg(&mut parts, name);
        render_path(&parts, self.config.separator)
    }

    fn stem_text(&self) -> (r: String)
        requires
            self.wf(),
            is_video_stage(self.stage),
        ensures
            r@ == stem_or_default(self.video(self.index as int)),
    {
        let v = &self.videos[self.index];
        if v.len() > 0 {
            if let Some(stem) = file_stem(v[v.len() - 1].as_str()) {
                return stem;
            }
        }
        owned("video")
    }

    fn current_text(&self) -> (r: String)
        requires
            self.wf(),
            is_video_stage(self.stage),
        ensures
            r@ == self.video_text(self.index as int),
    {
        render_path(&self.videos[self.index], self.config.separator)
    }

    /// The output directory came back created, or with why not: a failure
    /// is recorded for the video, else its probe runs.
    pub fn on_dir_created(&mut self, error: Option<String>) -> (a: Action)
        requires
            old(self).stage == Stage::CreatingDir,
            old(self).wf(),
        ensures
            final(self).wf(),
            final(self).stage != Stage::Failed,
            error matches Some(m) ==> final(self).recorded(
                old(self),
                a,
                0,
                Some(
                    failure_text(
                        "creating the output directory for"@,
                        old(self).video_text(old(self).index as int),
                        m@,
                    ),
                ),
            ),
            error is None ==> final(self).stage == Stage::Probing && final(self).same_video(
                old(self),
            ),
            error is None ==> (a matches Action::Probe { args, timeout_secs } && arg_texts(args@)
                == probe_arg_list(old(self).video_text(old(self).index as int), old(self).remote)
                && timeout_secs == if old(self).remote {
                30u64
            } else {
                15u64
            }),
            old(self).remote == is_network_spec(old(self).video_text(old(self).index as int)),
    {
        match error {
            Some(m) => {
                let video = self.current_text();
                let text = failure("creating the output directory for", video.as_str(), m.as_str());
                self.finish_video(0, Some(text))
            },
            None => {
                let video = self.current_text();
                let args = probe_args(video.as_str(), self.remote);
                let timeout_secs = probe_timeout_secs(self.remote);
                self.stage = Stage::Probing;
                Action::Probe { args, timeout_secs }
            },
        }
    }

    /// The probe's report came back. A probe that yields no metadata records
    /// a failure; metadata that leave no frame to take record a success with
    /// no frame, and the decoder is not run; else the extraction runs.
    pub fn on_probed(&mut self, report: ProbeReport) -> (a: Action)
        requires
            old(self).stage == Stage::Probing,
            old(self).wf(),
        ensures
            final(self).wf(),
            final(self).stage != Stage::Failed,
            probe_result(old(self).remote, report) matches Err(e) ==> final(self).recorded(
                old(self),
                a,
                0,
                Some(
                    failure_text(
                        "probing"@,
                        old(self).video_text(old(self).index as int),
                        probe_error_detail(e),
                    ),
                ),
            ),
            probe_result(old(self).remote, report) matches Ok((d, f)) && frames_wanted(
                d,
                old(self).config.skip_start_sec as nat,
                old(self).config.frame_interval_sec as nat,
            ) == 0 ==> final(self).recorded(old(self), a, 0, None),
            probe_result(old(self).remote, report) matches Ok((d, f)) && frames_wanted(
                d,
                old(self).config.skip_start_sec as nat,
                old(self).config.frame_interval_sec as nat,
            ) > 0 ==> final(self).stage == Stage::Extracting && final(self).same_video(old(self))
                && (a matches Action::Extract { args } && arg_texts(args@) == extract_arg_list(
                old(self).config.skip_start_sec as nat,
                old(self).config.frame_interval_sec as nat,
                old(self).video_text(old(self).index as int),
                old(self).in_dir_text(
                    pattern_name(stem_or_default(old(self).video(old(self).index as int))),
                ),
            )),
    {
        let video = self.current_text();
        match probe_metadata(self.remote, report) {
            Err(e) => {
                let detail = probe_error_text(e);
                let text = failure("probing", video.as_str(), detail.as_str());
                self.finish_video(0, Some(text))
            },
            Ok(meta) => {
                let n = total_frames(
                    meta.duration_cs,
                    self.config.skip_start_sec,
                    self.config.frame_interval_sec,
                );
                if n == 0 {
                    self.finish_video(0, None)
                } else {
                    let stem = self.stem_text();
                    let pattern = self.in_dir(output_pattern_name(stem.as_str()));
                    let args = extract_args(
                        self.config.skip_start_sec,
                        self.config.frame_interval_sec,
                        video.as_str(),
                        pattern.as_str(),
                    );
                    self.stage = Stage::Extracting;
                    Action::Extract { args }
                }
            },
        }
    }

    /// The extraction run came back, with whether it succeeded and its
    /// diagnostics. A failed run records a failure carrying the diagnostics;
    /// else the written artifacts are counted, from the first one.
    pub fn on_extracted(&mut self, success: bool, diagnostics: String) -> (a: Action)
        requires
            old(self).stage == Stage::Extracting,
            old(self).wf(),
        ensures
            final(self).wf(),
            final(self).stage != Stage::Failed,
            !success ==> final(self).recorded(
                old(self),
                a,
                0,
                Some(
                    failure_text(
                        "extracting frames from"@,
                        old(self).video_text(old(self).index as int),
                        diagnostics@,
                    ),
                ),
            ),
            success ==> final(self).stage == Stage::Counting && final(self).same_video(old(self))
                && final(self).found == 0,
            success ==> (a matches Action::CheckArtifact { path } && path@ == old(self).in_dir_text(
                artifact_name_spec(stem_or_default(old(self).video(old(self).index as int)), 1),
            )),
    {
        if !success {
            let video = self.current_text();
            let text = failure("extracting frames from", video.as_str(), diagnostics.as_str());
            self.finish_video(0, Some(text))
        } else {
            let stem = self.stem_text();
            let path = self.in_dir(artifact_name(stem.as_str(), 1));
            self.found = 0;
            self.stage = Stage::Counting;
            Action::CheckArtifact { path }
        }
    }

    /// Whether the next numbered artifact exists came back. The count of
    /// frames is the number of artifacts found before the first one missing.
    pub fn on_artifact_checked(&mut self, exists: bool) -> (a: Action)
        requires
            old(self).stage == Stage::Counting,
            old(self).wf(),
        ensures
            final(self).wf(),
            final(self).stage != Stage::Failed,
            !exists ==> final(self).recorded(old(self), a, old(self).found as nat, None),
            exists && old(self).found + 1 < usize::MAX ==> final(self).stage == Stage::Counting
                && final(self).same_video(old(self)) && final(self).found == old(self).found + 1,
            exists && old(self).found + 1 < usize::MAX ==> (a matches Action::CheckArtifact {
                path,
            } && path@ == old(self).in_dir_text(
                artifact_name_spec(
                    stem_or_default(old(self).video(old(self).index as int)),
                    (old(self).found + 2) as nat,
                ),
            )),
            exists && old(self).found + 1 == usize::MAX ==> final(self).recorded(
                old(self),
                a,
                usize::MAX as nat,
                None,
            ),
    {
        if !exists {
            let n = self.found;
            self.finish_video(n, None)
        } else if self.found + 1 < usize::MAX {
            let stem = self.stem_text();
            let next = (self.found + 2) as u64;
            let path = self.in_dir(artifact_name(stem.as_str(), next));
            self.found = self.found + 1;
            Action::CheckArtifact { path }
        } else {
            self.finish_video(usize::MAX, None)
        }
    }
}

fn failure(stage: &str, video: &str, detail: &str) -> (r: String)
    ensures
        r@ == failure_text(stage@, video@, detail@),
{
    let mut s = owned(stage);
    append_str(&mut s, " ");
    append_str(&mut s, video);
    append_str(&mut s, ": ");
    append_str(&mut s, detail);
    s
}

fn probe_error_text(e: ProbeError) -> (r: String)
    ensures
        r@ == probe_error_detail(e),
{
    match e {
        ProbeError::Timeout => owned("timed out"),
        ProbeError::Spawn { message } => {
            let mut s = owned("cannot run the decoder: ");
            append_str(&mut s, message.as_str());
            s
        },
    }
}

} // verus!

verus! {

/// How many of `results` succeeded.
pub open spec fn successes(results: Seq<ProcessResult>) -> nat
    decreases results.len(),
{
    if results.len() == 0 {
        0
    } else {
        successes(results.drop_last()) + if results.last().success {
            1nat
        } else {
            0nat
        }
    }
}

/// The frames written over all of `results`.
pub open spec fn frames_total(results: Seq<ProcessResult>) -> nat
    decreases results.len(),
{
    if results.len() == 0 {
        0
    } else {
        frames_total(results.drop_last()) + results.last().frames_extracted as nat
    }
}

/// The closing figures of a batch.
pub struct BatchSummary {
    pub attempted: usize,
    pub succeeded: usize,
    pub frames: u128,
}

/// Videos attempted, videos that succeeded, and frames written in all.
pub fn summarize(results: &Vec<ProcessResult>) -> (r: BatchSummary)
    ensures
        r.attempted == results.len(),
        r.succeeded == successes(results@),
        r.frames == frames_total(results@),
{
    let mut succeeded: usize = 0;
    let mut frames: u128 = 0;
    let mut k: usize = 0;
    while k < results.len()
        invariant
            k <= results.len(),
            succeeded == successes(results@.take(k as int)),
            succeeded <= k,
            frames == frames_total(results@.take(k as int)),
            frames <= k * (usize::MAX as int),
        decreases results.len() - k,
    {
        let ghost pre = results@.take(k as int);
        assert(results@.take(k + 1).drop_last() =~= pre);
        if results[k].success {
            succeeded = succeeded + 1;
        }
        proof {
            assert((k + 1) * (usize::MAX as int) == k * (usize::MAX as int) + usize::MAX) by (
            nonlinear_arith);
            assert(k * (usize::MAX as int) + usize::MAX <= u128::MAX) by (nonlinear_arith)
                requires
                    k < usize::MAX,
            ;
        }
        frames = frames + results[k].frames_extracted as u128;
        k = k + 1;
    }
    assert(results@.take(results.len() as int) =~= results@);
    BatchSummary { attempted: results.len(), succeeded, frames }
}

/// The percentage of the batch done when `current` of `total` videos are,
/// rounded down; 0 for an empty batch.
pub fn progress_percentage(current: usize, total: usize) -> (r: u32)
    requires
        current <= total,
    ensures
        r == if total == 0 {
            0
        } else {
            (current * 100) as int / total as int
        },
        r <= 100,
{
    if total == 0 {
        0
    } else {
        let p = (current as u128 * 100) / total as u128;
        proof {
            let c = current as int;
            let t = total as int;
            assert((c * 100) / t <= 100) by (nonlinear_arith)
                requires
                    c <= t,
                    t > 0,
                    c >= 0,
            {
                assert(c * 100 <= t * 100);
                vstd::arithmetic::div_mod::lemma_div_is_ordered(c * 100, t * 100, t);
                vstd::arithmetic::div_mod::lemma_div_by_multiple(100, t);
            }
        }
        p as u32
    }
}


/// The failures among `results` never outnumber them.
pub proof fn lemma_failures_bounded(results: Seq<ProcessResult>)
    ensures
        failures(results) + successes(results) == results.len(),
    decreases results.len(),
{
    if results.len() > 0 {
        lemma_failures_bounded(results.drop_last());
    }
}

/// A completed batch holds exactly one outcome per video found, in the
/// order found, and its failed and successful outcomes add up to them.
pub proof fn lemma_completed_batch_has_every_video(b: Batch)
    requires
        b.wf(),
        b.stage == Stage::Completed,
    ensures
        b.results.len() == b.videos.len(),
        failures(b.results@) + successes(b.results@) == b.videos.len(),
        forall|k: int|
            0 <= k < b.results.len() ==> #[trigger] b.results@[k].video_path@ == b.video_text(k),
{
    lemma_failures_bounded(b.results@);
    assert forall|k: int| 0 <= k < b.results.len() implies #[trigger] b.results@[k].video_path@
        == b.video_text(k) by {
        assert(result_fits(b.config, b.videos@, b.results@[k], k));
    }
}

} // verus!
