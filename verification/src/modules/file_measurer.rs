//! The file measurer: measures the content of files matching configured
//! glob patterns and extends each as an independent record.
//!
//! Its invocation is a small state machine, the [`FileSession`]. The
//! measurer first validates its parameters (the hash algorithm against
//! the closed supported set, each pattern's syntax) before any file is
//! touched; the surrounding process then expands the patterns, and the
//! session fixes the canonical submission order — each matched file
//! exactly once, lexicographically sorted — and walks it. A file that
//! cannot be read, or an extension the agent does not acknowledge, marks
//! the invocation failed but never stops the walk: every remaining file
//! is still measured and submitted, and no failed call is retried.

use vstd::prelude::*;

use crate::config::Config;
use crate::digest::{algorithm_of, digest_content, digest_string_of, parse_algorithm, HashAlgorithm};
use crate::error::MeasurementError;
use crate::modules::measurable::Measurable;
use crate::paths::{lemma_sorted_unique_paths_equal, path_views, plan_paths, same_path_set, sorted_strict};
use crate::record::MeasurementRecord;

verus! {

/// Whether a glob pattern is syntactically well formed; a function of the
/// pattern string alone.
pub uninterp spec fn pattern_ok(pattern: Seq<char>) -> bool;

/// Relies on glob::Pattern::new: it compiles Unix-shell-style glob
/// syntax, returning Ok exactly when the pattern is well formed, and on a
/// malformed pattern an error carrying the offending position and a
/// message.
#[verifier::external_body]
fn check_pattern_syntax(pattern: &str) -> (r: Result<(), (usize, String)>)
    ensures
        r is Ok <==> pattern_ok(pattern@),
{
    match glob::Pattern::new(pattern) {
        Ok(_) => Ok(()),
        Err(e) => Err((e.pos, e.msg.to_string())),
    }
}

/// Where a file-measurement procedure stands.
#[derive(Clone, Copy, PartialEq, Eq, Structural, Debug)]
pub enum SessionPhase {
    /// Parameters are validated; the patterns still have to be expanded
    /// against the filesystem.
    AwaitingExpansion,
    /// The content of the current path has to be read.
    AwaitingContent,
    /// An extension call for the current path is outstanding.
    AwaitingReply,
    /// Every planned path has been processed.
    Complete,
}

/// One invocation of the file measurer: the fixed measurement parameters,
/// the planned paths in canonical order, and how far the walk has come.
pub struct FileSession {
    /// The validated digest algorithm.
    pub algorithm: HashAlgorithm,
    /// Classification label of every record of this invocation.
    pub domain: String,
    /// Classification label of every record of this invocation.
    pub operation: String,
    /// Register to extend, if any, for every record of this invocation.
    pub register_index: Option<u64>,
    /// The planned paths: each matched file exactly once, sorted.
    pub paths: Vec<Vec<u8>>,
    /// Index of the current path.
    pub idx: usize,
    /// Whether any file failed to be read or extended.
    pub failed: bool,
    /// The first error recorded, kept for the invocation's final result.
    pub first_error: Option<MeasurementError>,
    /// Where the procedure stands.
    pub phase: SessionPhase,
    /// The read results seen so far, in walk order.
    pub contents_seen: Ghost<Seq<Option<Seq<u8>>>>,
    /// The records submitted so far, in walk order.
    pub submitted: Ghost<Seq<RecordView>>,
}

/// The submission-relevant view of one record: the four fields the remote
/// agent receives, as mathematical values.
pub struct RecordView {
    /// View of the record's domain label.
    pub domain: Seq<char>,
    /// View of the record's operation label.
    pub operation: Seq<char>,
    /// View of the record's digest string.
    pub content: Seq<char>,
    /// The record's register index.
    pub register_index: Option<u64>,
}

/// The view of a record value.
pub open spec fn record_view(rec: MeasurementRecord) -> RecordView {
    RecordView {
        domain: rec.domain@,
        operation: rec.operation@,
        content: rec.content@,
        register_index: rec.register_index,
    }
}

/// The record submitted for one readable file: a function of the fixed
/// measurement parameters and the file's bytes alone.
pub open spec fn submission_view(
    domain: Seq<char>,
    operation: Seq<char>,
    register_index: Option<u64>,
    alg: HashAlgorithm,
    bytes: Seq<u8>,
) -> RecordView {
    RecordView {
        domain: domain,
        operation: operation,
        content: digest_string_of(alg, bytes),
        register_index: register_index,
    }
}

/// The whole submission sequence of one invocation: for the read results
/// seen so far, in walk order, one record per readable file — a function
/// of the fixed parameters and the contents alone.
pub open spec fn submissions_of(
    domain: Seq<char>,
    operation: Seq<char>,
    register_index: Option<u64>,
    alg: HashAlgorithm,
    contents: Seq<Option<Seq<u8>>>,
) -> Seq<RecordView>
    decreases contents.len(),
{
    if contents.len() == 0 {
        Seq::empty()
    } else {
        let rest = submissions_of(domain, operation, register_index, alg, contents.drop_last());
        match contents.last() {
            Option::Some(bytes) => rest.push(
                submission_view(domain, operation, register_index, alg, bytes),
            ),
            Option::None => rest,
        }
    }
}

/// The record a session submits for one file is a function of the
/// session's fixed parameters and the file's bytes alone.
pub open spec fn record_for(s: FileSession, bytes: Seq<u8>, rec: MeasurementRecord) -> bool {
    record_view(rec) == submission_view(
        s.domain@,
        s.operation@,
        s.register_index,
        s.algorithm,
        bytes,
    )
}

/// The fixed measurement parameters of two session states coincide.
pub open spec fn same_target(a: FileSession, b: FileSession) -> bool {
    &&& b.algorithm == a.algorithm
    &&& b.domain == a.domain
    &&& b.operation == a.operation
    &&& b.register_index == a.register_index
}

/// One path of the walk is spent: the session moved to the next planned
/// path — never back, so no call is ever repeated — and the plan and the
/// fixed parameters are untouched.
pub open spec fn advanced(pre: FileSession, post: FileSession) -> bool {
    &&& same_target(pre, post)
    &&& post.paths == pre.paths
    &&& post.idx == pre.idx + 1
    &&& (post.phase is Complete <==> post.idx == post.paths@.len())
    &&& (post.phase is AwaitingContent <==> post.idx < post.paths@.len())
}

impl FileSession {
    /// A session is well formed: non-empty labels, a strictly sorted
    /// plan, an index within it that matches the phase, and a recorded
    /// first error exactly when the invocation has failed.
    pub open spec fn wf(&self) -> bool {
        &&& self.domain@.len() > 0
        &&& self.operation@.len() > 0
        &&& self.idx <= self.paths@.len()
        &&& sorted_strict(path_views(self.paths@))
        &&& (self.phase is AwaitingExpansion ==> self.idx == 0 && self.paths@.len() == 0)
        &&& (self.phase is AwaitingContent ==> self.idx < self.paths@.len())
        &&& (self.phase is AwaitingReply ==> self.idx < self.paths@.len())
        &&& (self.phase is Complete ==> self.idx == self.paths@.len())
        &&& (self.failed <==> self.first_error is Some)
        &&& (self.phase is AwaitingReply ==> self.contents_seen@.len() == self.idx + 1)
        &&& (!(self.phase is AwaitingReply) ==> self.contents_seen@.len() == self.idx)
        &&& self.submitted@ == submissions_of(
            self.domain@,
            self.operation@,
            self.register_index,
            self.algorithm,
            self.contents_seen@,
        )
    }

    /// Whether every planned path has been processed.
    pub fn is_complete(&self) -> (r: bool)
        ensures
            r == (self.phase is Complete),
    {
        match self.phase {
            SessionPhase::Complete => true,
            _ => false,
        }
    }

    /// Fixes the plan from the patterns' expansions: the same paths,
    /// each exactly once however often overlapping patterns repeated it,
    /// in the one canonical (lexicographic) order. A pattern set that
    /// matched nothing completes the invocation at once; that is not an
    /// error.
    pub fn supply_expansions(&mut self, found: Vec<Vec<u8>>)
        requires
            old(self).wf(),
            old(self).phase is AwaitingExpansion,
        ensures
            final(self).wf(),
            same_target(*old(self), *final(self)),
            final(self).idx == 0,
            final(self).failed == old(self).failed,
            final(self).first_error == old(self).first_error,
            sorted_strict(path_views(final(self).paths@)),
            same_path_set(path_views(final(self).paths@), path_views(found@)),
            final(self).phase is Complete <==> found@.len() == 0,
            found@.len() > 0 ==> final(self).phase is AwaitingContent,
            final(self).contents_seen == old(self).contents_seen,
            final(self).submitted == old(self).submitted,
    {
        let planned = plan_paths(&found);
        self.paths = planned;
        self.idx = 0;
        if self.paths.len() == 0 {
            proof {
                if found@.len() > 0 {
                    assert(path_views(found@)[0] == found@[0]@);
                    assert(path_views(found@).contains(found@[0]@));
                    assert(path_views(self.paths@).contains(found@[0]@));
                }
            }
            self.phase = SessionPhase::Complete;
        } else {
            proof {
                if found@.len() == 0 {
                    let x = path_views(self.paths@)[0];
                    assert(path_views(self.paths@).contains(x));
                    assert(path_views(found@).contains(x));
                }
            }
            self.phase = SessionPhase::AwaitingContent;
        }
    }

    /// The path whose content is wanted next.
    pub fn current_path(&self) -> (r: &Vec<u8>)
        requires
            self.wf(),
            self.phase is AwaitingContent,
        ensures
            r@ == self.paths@[self.idx as int]@,
    {
        &self.paths[self.idx]
    }

    /// Takes the read result for the current path. Readable content
    /// yields the record to submit — its content the digest string of
    /// exactly these bytes under the fixed algorithm, its labels and
    /// register the fixed ones. A read failure is recorded and the walk
    /// moves on: the remaining files are still measured, and the
    /// invocation's final result will be failure.
    pub fn supply_content(&mut self, content: Result<Vec<u8>, String>) -> (r: Option<
        MeasurementRecord,
    >)
        requires
            old(self).wf(),
            old(self).phase is AwaitingContent,
        ensures
            final(self).wf(),
            match content {
                Ok(bytes) => {
                    &&& r matches Some(rec) && record_for(*old(self), bytes@, rec) && rec.wf()
                        && final(self).submitted@ == old(self).submitted@.push(record_view(rec))
                    &&& same_target(*old(self), *final(self))
                    &&& final(self).paths == old(self).paths
                    &&& final(self).phase is AwaitingReply
                    &&& final(self).idx == old(self).idx
                    &&& final(self).failed == old(self).failed
                    &&& final(self).first_error == old(self).first_error
                    &&& final(self).contents_seen@ == old(self).contents_seen@.push(
                        Option::Some(bytes@),
                    )
                },
                Err(m) => {
                    &&& r is None
                    &&& advanced(*old(self), *final(self))
                    &&& final(self).failed
                    &&& final(self).first_error == (if old(self).first_error is Some {
                        old(self).first_error
                    } else {
                        Option::Some(MeasurementError::Io(m))
                    })
                    &&& final(self).contents_seen@ == old(self).contents_seen@.push(Option::None)
                    &&& final(self).submitted == old(self).submitted
                },
            },
    {
        match content {
            Ok(bytes) => {
                let digest_hex = digest_content(self.algorithm, &bytes);
                let rec = MeasurementRecord::new(
                    &self.domain,
                    &self.operation,
                    digest_hex,
                    self.register_index,
                );
                self.phase = SessionPhase::AwaitingReply;
                self.contents_seen = Ghost(self.contents_seen@.push(Some(bytes@)));
                self.submitted = Ghost(self.submitted@.push(record_view(rec)));
                proof {
                    let seen = self.contents_seen@;
                    assert(seen.drop_last() =~= old(self).contents_seen@);
                    assert(seen.last() == Option::Some(bytes@));
                }
                Some(rec)
            },
            Err(m) => {
                self.failed = true;
                if self.first_error.is_none() {
                    self.first_error = Some(MeasurementError::Io(m));
                }
                self.contents_seen = Ghost(self.contents_seen@.push(None));
                proof {
                    let seen = self.contents_seen@;
                    assert(seen.drop_last() =~= old(self).contents_seen@);
                    assert(seen.last() == Option::None::<Seq<u8>>);
                }
                let n = self.paths.len();
                assert(self.idx < n);
                self.idx = self.idx + 1;
                if self.idx == n {
                    self.phase = SessionPhase::Complete;
                } else {
                    self.phase = SessionPhase::AwaitingContent;
                }
                None
            },
        }
    }

    /// Takes the classified outcome of the extension call for the current
    /// path. Success leaves the invocation's standing untouched; a
    /// failure is recorded. Either way the walk moves to the next planned
    /// path: a failed or timed-out call is never retried, and the
    /// remaining files are still measured and submitted.
    pub fn extend_replied(&mut self, outcome: Result<(), MeasurementError>)
        requires
            old(self).wf(),
            old(self).phase is AwaitingReply,
        ensures
            final(self).wf(),
            advanced(*old(self), *final(self)),
            final(self).contents_seen == old(self).contents_seen,
            final(self).submitted == old(self).submitted,
            match outcome {
                Ok(_) => {
                    &&& final(self).failed == old(self).failed
                    &&& final(self).first_error == old(self).first_error
                },
                Err(e) => {
                    &&& final(self).failed
                    &&& final(self).first_error == (if old(self).first_error is Some {
                        old(self).first_error
                    } else {
                        Option::Some(e)
                    })
                },
            },
    {
        match outcome {
            Ok(_) => {},
            Err(e) => {
                self.failed = true;
                if self.first_error.is_none() {
                    self.first_error = Some(e);
                }
            },
        }
        let n = self.paths.len();
        assert(self.idx < n);
        self.idx = self.idx + 1;
        if self.idx == n {
            self.phase = SessionPhase::Complete;
        } else {
            self.phase = SessionPhase::AwaitingContent;
        }
    }

    /// The invocation's result: success exactly when every planned file
    /// was read and acknowledged; otherwise the first recorded error —
    /// partial success never masks an invocation-level failure.
    pub fn finish(self) -> (r: Result<(), MeasurementError>)
        requires
            self.wf(),
            self.phase is Complete,
        ensures
            r is Ok <==> !self.failed,
            match self.first_error {
                Option::Some(e) => r == Result::<(), MeasurementError>::Err(e),
                Option::None => r is Ok,
            },
    {
        match self.first_error {
            Some(e) => Err(e),
            None => Ok(()),
        }
    }
}

/// Two invocations over the same discovered path set plan the same
/// submission sequence: the canonical order is unique, so two runs over
/// an unchanged file set submit in the same order.
pub proof fn lemma_plan_deterministic(a: FileSession, b: FileSession)
    requires
        a.wf(),
        b.wf(),
        same_path_set(path_views(a.paths@), path_views(b.paths@)),
    ensures
        path_views(a.paths@) == path_views(b.paths@),
{
    lemma_sorted_unique_paths_equal(path_views(a.paths@), path_views(b.paths@));
}

/// For sessions with the same fixed parameters, the submitted record is a
/// function of the file's bytes alone: unchanged configuration and
/// unchanged contents give byte-for-byte identical submissions.
pub proof fn lemma_record_deterministic(
    a: FileSession,
    b: FileSession,
    bytes_a: Seq<u8>,
    bytes_b: Seq<u8>,
    rec_a: MeasurementRecord,
    rec_b: MeasurementRecord,
)
    requires
        same_target(a, b),
        bytes_a == bytes_b,
        record_for(a, bytes_a, rec_a),
        record_for(b, bytes_b, rec_b),
    ensures
        rec_a.domain@ == rec_b.domain@,
        rec_a.operation@ == rec_b.operation@,
        rec_a.content@ == rec_b.content@,
        rec_a.register_index == rec_b.register_index,
{
}

/// Two invocations with the same fixed parameters that saw the same read
/// results submit byte-for-byte identical record sequences, in the same
/// order: together with the uniqueness of the planned order, two runs
/// over an unchanged file set and unchanged configuration submit
/// identically.
pub proof fn lemma_run_deterministic(a: FileSession, b: FileSession)
    requires
        a.wf(),
        b.wf(),
        same_target(a, b),
        a.contents_seen@ == b.contents_seen@,
    ensures
        a.submitted@ == b.submitted@,
{
}

/// The measurer of files matched by configured glob patterns.
pub struct FileMeasurer {}

impl FileMeasurer {
    /// A fresh file measurer; it holds no state of its own.
    pub fn new() -> (r: FileMeasurer) {
        FileMeasurer {}
    }
}

impl Measurable for FileMeasurer {
    type Session = FileSession;

    open spec fn spec_name(&self) -> Seq<char> {
        "FileMeasurer"@
    }

    open spec fn spec_enabled(&self, config: Config) -> bool {
        config.file_measurer.enabled
    }

    /// Success is a fresh session carrying the validated algorithm and
    /// the configured labels, with every pattern's syntax checked and no
    /// file touched yet. Failure is exactly an unsupported algorithm —
    /// judged before anything else — or, the algorithm being supported, a
    /// malformed pattern.
    open spec fn measure_post(
        &self,
        config: Config,
        r: Result<FileSession, MeasurementError>,
    ) -> bool {
        match r {
            Ok(s) => {
                &&& algorithm_of(config.file_measurer.hash_algorithm@) == Option::Some(s.algorithm)
                &&& s.domain == config.file_measurer.domain
                &&& s.operation == config.file_measurer.operation
                &&& s.register_index == config.file_measurer.register_index
                &&& s.phase is AwaitingExpansion
                &&& !s.failed
                &&& s.first_error is None
                &&& s.idx == 0
                &&& s.paths@.len() == 0
                &&& s.contents_seen@.len() == 0
                &&& s.submitted@.len() == 0
                &&& s.wf()
                &&& forall|k: int|
                    0 <= k < config.file_measurer.patterns@.len() ==> pattern_ok(
                        #[trigger] config.file_measurer.patterns@[k]@,
                    )
            },
            Err(e) => {
                ||| {
                    &&& algorithm_of(config.file_measurer.hash_algorithm@) is None
                    &&& e matches MeasurementError::UnsupportedHashAlgorithm(m) && m@
                        == config.file_measurer.hash_algorithm@
                }
                ||| {
                    &&& algorithm_of(config.file_measurer.hash_algorithm@) is Some
                    &&& exists|k: int|
                        0 <= k < config.file_measurer.patterns@.len() && !pattern_ok(
                            #[trigger] config.file_measurer.patterns@[k]@,
                        )
                    &&& e matches MeasurementError::Pattern(_, _)
                }
            },
        }
    }

    fn name(&self) -> (r: String) {
        "FileMeasurer".to_owned()
    }

    fn is_enabled(&self, config: &Config) -> (r: bool) {
        config.file_measurer.enabled
    }

    fn measure(&self, config: &Config) -> (r: Result<FileSession, MeasurementError>) {
        let algorithm = match parse_algorithm(&config.file_measurer.hash_algorithm) {
            Some(a) => a,
            None => {
                return Err(
                    MeasurementError::UnsupportedHashAlgorithm(
                        config.file_measurer.hash_algorithm.clone(),
                    ),
                );
            },
        };
        let mut i: usize = 0;
        while i < config.file_measurer.patterns.len()
            invariant
                i <= config.file_measurer.patterns@.len(),
                algorithm_of(config.file_measurer.hash_algorithm@) == Option::Some(algorithm),
                config.wf(),
                forall|k: int|
                    0 <= k < i ==> pattern_ok(#[trigger] config.file_measurer.patterns@[k]@),
            decreases config.file_measurer.patterns@.len() - i,
        {
            match check_pattern_syntax(config.file_measurer.patterns[i].as_str()) {
                Ok(_) => {},
                Err((pos, msg)) => {
                    proof {
                        assert(!pattern_ok(config.file_measurer.patterns@[i as int]@));
                    }
                    return Err(MeasurementError::Pattern(pos, msg));
                },
            }
            i = i + 1;
        }
        Ok(
            FileSession {
                algorithm,
                domain: config.file_measurer.domain.clone(),
                operation: config.file_measurer.operation.clone(),
                register_index: config.file_measurer.register_index,
                paths: Vec::new(),
                idx: 0,
                failed: false,
                first_error: None,
                phase: SessionPhase::AwaitingExpansion,
                contents_seen: Ghost(Seq::empty()),
                submitted: Ghost(Seq::empty()),
            },
        )
    }
}

} // verus!
