//! The publisher: puts a report into the region of a file that two markers
//! delimit, and leads the steps that bring the file to the remote
//! repository.

use crate::adapter::address::{join_url, joined_url};
use crate::application::config::GitConfig;
use crate::error::{is_outcome, Error, Marker};
use crate::text::chars_of;
use vstd::prelude::*;

verus! {

/// `pattern` stands in `text` at the position `at`.
pub open spec fn occurs_at(text: Seq<char>, pattern: Seq<char>, at: int) -> bool {
    &&& 0 <= at
    &&& at + pattern.len() <= text.len()
    &&& text.subrange(at, at + pattern.len()) == pattern
}

/// `pattern` stands somewhere in `text`.
pub open spec fn occurs(text: Seq<char>, pattern: Seq<char>) -> bool {
    exists|at: int| occurs_at(text, pattern, at)
}

/// `at` is the first position at which `pattern` stands in `text`.
pub open spec fn is_first_occurrence(text: Seq<char>, pattern: Seq<char>, at: int) -> bool {
    &&& occurs_at(text, pattern, at)
    &&& forall|other: int| #[trigger] occurs_at(text, pattern, other) ==> at <= other
}

/// `at` is the last position at which `pattern` stands in `text`.
pub open spec fn is_last_occurrence(text: Seq<char>, pattern: Seq<char>, at: int) -> bool {
    &&& occurs_at(text, pattern, at)
    &&& forall|other: int| #[trigger] occurs_at(text, pattern, other) ==> other <= at
}

/// The first position at which `pattern` stands in `text`, if it stands there
/// at all.
pub open spec fn first_occurrence(text: Seq<char>, pattern: Seq<char>) -> Option<int> {
    if occurs(text, pattern) {
        Some(choose|at: int| is_first_occurrence(text, pattern, at))
    } else {
        None
    }
}

/// The last position at which `pattern` stands in `text`, if it stands there
/// at all.
pub open spec fn last_occurrence(text: Seq<char>, pattern: Seq<char>) -> Option<int> {
    if occurs(text, pattern) {
        Some(choose|at: int| is_last_occurrence(text, pattern, at))
    } else {
        None
    }
}

/// The replaceable region of `content`: from behind the first begin marker to
/// the start of the last end marker. There is none where a marker is absent,
/// and none where the region would be empty or reversed.
pub open spec fn region(content: Seq<char>, begin: Seq<char>, end: Seq<char>) -> Result<
    (int, int),
    Error,
> {
    match first_occurrence(content, begin) {
        None => Err(Error::RegionNotFound(Marker::Begin)),
        Some(begin_at) => match last_occurrence(content, end) {
            None => Err(Error::RegionNotFound(Marker::End)),
            Some(end_at) => if begin_at + begin.len() < end_at {
                Ok((begin_at + begin.len(), end_at))
            } else {
                Err(Error::InvalidRegion)
            },
        },
    }
}

/// `content` with the text of its region replaced by `metrics`; the markers
/// and all that stands outside them are kept.
pub open spec fn spliced(
    content: Seq<char>,
    begin: Seq<char>,
    end: Seq<char>,
    metrics: Seq<char>,
) -> Result<Seq<char>, Error> {
    match region(content, begin, end) {
        Ok((from, to)) => Ok(
            content.subrange(0, from) + metrics + content.subrange(to, content.len() as int),
        ),
        Err(error) => Err(error),
    }
}

/// Among the positions at which `pattern` stands in `text`, up to `bound`,
/// one is the first.
proof fn lemma_first_exists(text: Seq<char>, pattern: Seq<char>, bound: int)
    requires
        occurs_at(text, pattern, bound),
    ensures
        exists|at: int| is_first_occurrence(text, pattern, at),
    decreases bound,
{
    if exists|earlier: int| 0 <= earlier < bound && occurs_at(text, pattern, earlier) {
        let earlier = choose|earlier: int| 0 <= earlier < bound && occurs_at(text, pattern, earlier);
        lemma_first_exists(text, pattern, earlier);
    } else {
        assert(is_first_occurrence(text, pattern, bound));
    }
}

/// Among the positions at which `pattern` stands in `text`, from `bound` on,
/// one is the last.
proof fn lemma_last_exists(text: Seq<char>, pattern: Seq<char>, bound: int)
    requires
        occurs_at(text, pattern, bound),
    ensures
        exists|at: int| is_last_occurrence(text, pattern, at),
    decreases text.len() - bound,
{
    if exists|later: int| bound < later && occurs_at(text, pattern, later) {
        let later = choose|later: int| bound < later && occurs_at(text, pattern, later);
        lemma_last_exists(text, pattern, later);
    } else {
        assert(is_last_occurrence(text, pattern, bound));
    }
}

/// A pattern that stands in a text has a first and a last position there.
pub proof fn lemma_occurrence_ends(text: Seq<char>, pattern: Seq<char>)
    requires
        occurs(text, pattern),
    ensures
        is_first_occurrence(text, pattern, first_occurrence(text, pattern)->0),
        is_last_occurrence(text, pattern, last_occurrence(text, pattern)->0),
{
    let at = choose|at: int| occurs_at(text, pattern, at);
    lemma_first_exists(text, pattern, at);
    lemma_last_exists(text, pattern, at);
}

/// A first position is the first occurrence.
pub proof fn lemma_first_occurrence(text: Seq<char>, pattern: Seq<char>, at: int)
    requires
        is_first_occurrence(text, pattern, at),
    ensures
        first_occurrence(text, pattern) == Some(at),
{
    assert(occurs_at(text, pattern, at));
    let chosen = choose|at: int| is_first_occurrence(text, pattern, at);
    assert(is_first_occurrence(text, pattern, chosen));
}

/// A last position is the last occurrence.
pub proof fn lemma_last_occurrence(text: Seq<char>, pattern: Seq<char>, at: int)
    requires
        is_last_occurrence(text, pattern, at),
    ensures
        last_occurrence(text, pattern) == Some(at),
{
    assert(occurs_at(text, pattern, at));
    let chosen = choose|at: int| is_last_occurrence(text, pattern, at);
    assert(is_last_occurrence(text, pattern, chosen));
}

/// Putting into a file the text that its region already holds changes
/// nothing.
pub proof fn lemma_same_content_is_kept(content: Seq<char>, begin: Seq<char>, end: Seq<char>)
    requires
        region(content, begin, end) is Ok,
    ensures
        ({
            let (from, to) = region(content, begin, end)->Ok_0;
            spliced(content, begin, end, content.subrange(from, to)) == Ok::<Seq<char>, Error>(
                content,
            )
        }),
{
    let (from, to) = region(content, begin, end)->Ok_0;
    lemma_occurrence_ends(content, begin);
    lemma_occurrence_ends(content, end);
    assert(content.subrange(0, from) + content.subrange(from, to) + content.subrange(
        to,
        content.len() as int,
    ) =~= content);
}

/// After a report was put into a file, the region of the file starts where
/// it started before and holds exactly the report; both markers stand where
/// the region starts and ends.
pub proof fn lemma_region_after_splice(
    content: Seq<char>,
    begin: Seq<char>,
    end: Seq<char>,
    metrics: Seq<char>,
)
    requires
        region(content, begin, end) is Ok,
        metrics.len() > 0,
    ensures
        ({
            let (from, to) = region(content, begin, end)->Ok_0;
            let published = spliced(content, begin, end, metrics)->Ok_0;
            &&& spliced(content, begin, end, metrics) is Ok
            &&& region(published, begin, end) == Ok::<(int, int), Error>(
                (from, from + metrics.len()),
            )
            &&& published.subrange(from, from + metrics.len()) == metrics
            &&& occurs_at(published, begin, from - begin.len())
            &&& occurs_at(published, end, from + metrics.len())
        }),
{
    let (from, to) = region(content, begin, end)->Ok_0;
    let published = spliced(content, begin, end, metrics)->Ok_0;
    let shift = from + metrics.len() - to;
    lemma_occurrence_ends(content, begin);
    lemma_occurrence_ends(content, end);
    let begin_at = from - begin.len();
    assert(published.subrange(begin_at, from) =~= content.subrange(begin_at, from));
    assert(published.subrange(to + shift, to + shift + end.len()) =~= content.subrange(
        to,
        to + end.len(),
    ));
    assert forall|other: int| #[trigger] occurs_at(published, begin, other) implies begin_at
        <= other by {
        if other < begin_at {
            assert(published.subrange(other, other + begin.len()) =~= content.subrange(
                other,
                other + begin.len(),
            ));
            assert(occurs_at(content, begin, other));
        }
    }
    assert forall|other: int| #[trigger] occurs_at(published, end, other) implies other <= to
        + shift by {
        if other > to + shift {
            assert(published.subrange(other, other + end.len()) =~= content.subrange(
                other - shift,
                other - shift + end.len(),
            ));
            assert(occurs_at(content, end, other - shift));
        }
    }
    lemma_first_occurrence(published, begin, begin_at);
    lemma_last_occurrence(published, end, to + shift);
    assert(published.subrange(from, from + metrics.len()) =~= metrics);
}

/// Publishing the same report a second time leaves the file as the first
/// time left it.
pub proof fn lemma_publishing_twice(
    content: Seq<char>,
    begin: Seq<char>,
    end: Seq<char>,
    metrics: Seq<char>,
)
    requires
        region(content, begin, end) is Ok,
        metrics.len() > 0,
    ensures
        spliced(spliced(content, begin, end, metrics)->Ok_0, begin, end, metrics) == spliced(
            content,
            begin,
            end,
            metrics,
        ),
{
    let published = spliced(content, begin, end, metrics)->Ok_0;
    lemma_region_after_splice(content, begin, end, metrics);
    lemma_same_content_is_kept(published, begin, end);
}

/// Tells whether `pattern` stands in `text` at `at`.
fn occurs_here(text: &Vec<char>, pattern: &Vec<char>, at: usize) -> (found: bool)
    requires
        at + pattern@.len() <= text@.len(),
    ensures
        found == occurs_at(text@, pattern@, at as int),
{
    let total: usize = text.len();
    let mut k: usize = 0;
    while k < pattern.len()
        invariant
            k <= pattern@.len(),
            total == text@.len(),
            at + pattern@.len() <= text@.len(),
            forall|j: int| 0 <= j < k ==> text@[at + j] == pattern@[j],
        decreases pattern@.len() - k,
    {
        if text[at + k] != pattern[k] {
            assert(text@.subrange(at as int, at + pattern@.len())[k as int] != pattern@[k as int]);
            return false;
        }
        k = k + 1;
    }
    assert(text@.subrange(at as int, at + pattern@.len()) =~= pattern@);
    true
}

/// The first position at which `pattern` stands in `text`.
fn find_first(text: &Vec<char>, pattern: &Vec<char>) -> (found: Option<usize>)
    ensures
        match found {
            Some(at) => is_first_occurrence(text@, pattern@, at as int),
            None => !occurs(text@, pattern@),
        },
{
    if pattern.len() > text.len() {
        return None;
    }
    let last_start: usize = text.len() - pattern.len();
    let mut at: usize = 0;
    loop
        invariant
            at <= last_start,
            last_start == text@.len() - pattern@.len(),
            forall|other: int| 0 <= other < at ==> !occurs_at(text@, pattern@, other),
        decreases last_start - at,
    {
        if occurs_here(text, pattern, at) {
            return Some(at);
        }
        if at == last_start {
            return None;
        }
        at = at + 1;
    }
}

/// The last position at which `pattern` stands in `text`.
fn find_last(text: &Vec<char>, pattern: &Vec<char>) -> (found: Option<usize>)
    ensures
        match found {
            Some(at) => is_last_occurrence(text@, pattern@, at as int),
            None => !occurs(text@, pattern@),
        },
{
    if pattern.len() > text.len() {
        return None;
    }
    let last_start: usize = text.len() - pattern.len();
    let mut at: usize = last_start;
    loop
        invariant
            at <= last_start,
            last_start == text@.len() - pattern@.len(),
            forall|other: int| at < other ==> !occurs_at(text@, pattern@, other),
        decreases at,
    {
        if occurs_here(text, pattern, at) {
            return Some(at);
        }
        if at == 0 {
            return None;
        }
        at = at - 1;
    }
}

/// A step of publishing a report.
#[derive(Debug, Clone, Copy, PartialEq, Eq, Structural)]
pub enum UploadStep {
    /// Clone the branch of the repository into a scratch directory.
    DownloadRepo,
    /// Put the report into the region of the target file.
    InsertMetrics,
    /// Find out whether the working tree differs from the last commit.
    HasChanges,
    /// Stage the target file and commit it.
    MakeCommit,
    /// Push the branch to the remote repository.
    PushBranchToRemote,
}

/// What came of a step.
#[derive(Debug, Clone, Copy, PartialEq, Eq, Structural)]
pub enum StepOutcome {
    /// The step was carried out.
    Completed,
    /// The working tree was compared with the last commit: it differs, or it
    /// does not.
    Compared { differs: bool },
    /// The step failed.
    Failed(Error),
}

/// The first step of publishing a report.
pub open spec fn first_upload_step() -> UploadStep {
    UploadStep::DownloadRepo
}

/// The step that follows `step` after `outcome`; `Ok(None)` where publishing
/// is at its end, and an error where it is aborted.
///
/// A failed step aborts with its own error. A commit follows only a
/// comparison that found a difference; without one, publishing ends there.
/// An outcome that the step cannot have aborts as a failed Git operation.
pub open spec fn step_after(step: UploadStep, outcome: StepOutcome) -> Result<
    Option<UploadStep>,
    Error,
> {
    match (step, outcome) {
        (_, StepOutcome::Failed(error)) => Err(error),
        (UploadStep::DownloadRepo, StepOutcome::Completed) => Ok(Some(UploadStep::InsertMetrics)),
        (UploadStep::InsertMetrics, StepOutcome::Completed) => Ok(Some(UploadStep::HasChanges)),
        (UploadStep::HasChanges, StepOutcome::Compared { differs }) => if differs {
            Ok(Some(UploadStep::MakeCommit))
        } else {
            Ok(None)
        },
        (UploadStep::MakeCommit, StepOutcome::Completed) => Ok(
            Some(UploadStep::PushBranchToRemote),
        ),
        (UploadStep::PushBranchToRemote, StepOutcome::Completed) => Ok(None),
        _ => Err(Error::GitOperationFailed),
    }
}

/// Nothing is committed unless the working tree was just found to differ
/// from the last commit, and nothing is pushed unless it was just committed.
pub proof fn lemma_commit_needs_changes(step: UploadStep, outcome: StepOutcome)
    ensures
        step_after(step, outcome) == Ok::<Option<UploadStep>, Error>(Some(UploadStep::MakeCommit))
            <==> step == UploadStep::HasChanges && outcome == (StepOutcome::Compared {
            differs: true,
        }),
        step_after(step, outcome) == Ok::<Option<UploadStep>, Error>(
            Some(UploadStep::PushBranchToRemote),
        ) <==> step == UploadStep::MakeCommit && outcome == StepOutcome::Completed,
        step == UploadStep::HasChanges && outcome == (StepOutcome::Compared { differs: false })
            ==> step_after(step, outcome) == Ok::<Option<UploadStep>, Error>(None),
{
}

/// The status of a file that does not differ from the last commit.
pub const STATUS_CURRENT: u32 = 0;

/// The text before the name of a branch in the name of its reference.
pub open spec fn branch_prefix() -> Seq<char> {
    "refs/heads/"@
}

/// Publishes reports into a file of a Git repository.
pub struct GitAdapter {
    cfg: GitConfig,
}

impl GitAdapter {
    /// The configuration that the adapter publishes with.
    pub closed spec fn config(&self) -> GitConfig {
        self.cfg
    }

    /// Creates an adapter that publishes as `cfg` says.
    pub fn new(cfg: GitConfig) -> (adapter: Self)
        ensures
            adapter.config() == cfg,
    {
        Self { cfg }
    }

    /// The configuration that the adapter publishes with.
    pub fn cfg(&self) -> (cfg: &GitConfig)
        ensures
            *cfg == self.config(),
    {
        &self.cfg
    }

    /// The name and the password with which the remote repository is
    /// approached: the name of the author and the token.
    pub fn credentials(&self) -> (login: (String, String))
        ensures
            login.0 == self.config().author_name,
            login.1 == self.config().token,
    {
        (self.cfg.author_name.clone(), self.cfg.token.clone())
    }

    /// The address from which the repository is cloned: the repository,
    /// resolved relative to the base address. Where there is no such address
    /// the clone cannot be made.
    pub fn remote_url(&self) -> (r: Result<String, Error>)
        ensures
            is_outcome(
                r,
                match joined_url(self.config().base_url@, self.config().repository@) {
                    Some(address) => Ok(address),
                    None => Err(Error::GitOperationFailed),
                },
            ),
    {
        match join_url(self.cfg.base_url.as_str(), self.cfg.repository.as_str()) {
            Ok(address) => Ok(address),
            Err(_) => Err(Error::GitOperationFailed),
        }
    }

    /// The reference of the branch that is pushed.
    pub fn push_refspec(&self) -> (refspec: String)
        ensures
            refspec@ == branch_prefix() + self.config().branch_name@,
    {
        let mut refspec = String::from_str("refs/heads/");
        refspec.append(self.cfg.branch_name.as_str());
        refspec
    }

    /// Puts `metrics` into the region of `content`: between the first begin
    /// marker and the last end marker, which both stay.
    ///
    /// A missing begin marker is reported before a missing end marker. The
    /// region must hold at least one character.
    pub fn insert_metrics(&self, content: &str, metrics: &str) -> (r: Result<String, Error>)
        ensures
            is_outcome(
                r,
                spliced(content@, self.config().begin_block@, self.config().end_block@, metrics@),
            ),
    {
        let text = chars_of(content);
        let total: usize = text.len();
        let begin = chars_of(self.cfg.begin_block.as_str());
        let end = chars_of(self.cfg.end_block.as_str());
        let begin_at: usize = match find_first(&text, &begin) {
            Some(at) => at,
            None => return Err(Error::RegionNotFound(Marker::Begin)),
        };
        let end_at: usize = match find_last(&text, &end) {
            Some(at) => at,
            None => return Err(Error::RegionNotFound(Marker::End)),
        };
        proof {
            lemma_first_occurrence(text@, begin@, begin_at as int);
            lemma_last_occurrence(text@, end@, end_at as int);
        }
        let from: usize = begin_at + begin.len();
        if from < end_at {
            let mut out = String::from_str(content.substring_char(0, from));
            out.append(metrics);
            out.append(content.substring_char(end_at, total));
            Ok(out)
        } else {
            Err(Error::InvalidRegion)
        }
    }

    /// Tells whether the working tree differs from the last commit, given
    /// the status of each of its files: it does where some file is not
    /// current.
    pub fn has_changes(&self, statuses: &[u32]) -> (differs: bool)
        ensures
            differs == exists|i: int|
                0 <= i < statuses@.len() && #[trigger] statuses@[i] != STATUS_CURRENT,
    {
        let mut i: usize = 0;
        while i < statuses.len()
            invariant
                i <= statuses@.len(),
                forall|j: int| 0 <= j < i ==> #[trigger] statuses@[j] == STATUS_CURRENT,
            decreases statuses@.len() - i,
        {
            if statuses[i] != STATUS_CURRENT {
                return true;
            }
            i = i + 1;
        }
        false
    }

    /// The first step of publishing a report.
    pub fn first_step(&self) -> (step: UploadStep)
        ensures
            step == first_upload_step(),
    {
        UploadStep::DownloadRepo
    }

    /// Decides what follows `step` after `outcome`: the next step, the end
    /// of publishing (`Ok(None)`), or the error that aborts it.
    pub fn next_step(&self, step: UploadStep, outcome: StepOutcome) -> (r: Result<
        Option<UploadStep>,
        Error,
    >)
        ensures
            r == step_after(step, outcome),
    {
        match outcome {
            StepOutcome::Failed(error) => Err(error),
            StepOutcome::Completed => match step {
                UploadStep::DownloadRepo => Ok(Some(UploadStep::InsertMetrics)),
                UploadStep::InsertMetrics => Ok(Some(UploadStep::HasChanges)),
                UploadStep::MakeCommit => Ok(Some(UploadStep::PushBranchToRemote)),
                UploadStep::PushBranchToRemote => Ok(None),
                UploadStep::HasChanges => Err(Error::GitOperationFailed),
            },
            StepOutcome::Compared { differs } => match step {
                UploadStep::HasChanges => if differs {
                    Ok(Some(UploadStep::MakeCommit))
                } else {
                    Ok(None)
                },
                _ => Err(Error::GitOperationFailed),
            },
        }
    }
}

} // verus!
