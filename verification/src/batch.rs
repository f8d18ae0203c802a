use vstd::prelude::*;
use crate::cli::Cli;
use crate::converter::Converter;
use crate::converter::ConvertOutcome;
use crate::paths::spec_output_path;

verus! {

/// A condition that makes the whole batch meaningless. Everything else is
/// reported per file and never aborts the run.
#[derive(Debug, Clone, Copy, PartialEq, Eq, Structural)]
pub enum BatchError {
    /// The encoder binary is not available.
    EncoderUnavailable,
    /// The input root does not exist or is not a directory.
    DirectoryNotFound,
}

/// One unit of work: a discovered input file and its derived output path.
#[derive(Debug, Clone, PartialEq, Eq)]
pub struct ConversionTask {
    pub input_path: String,
    pub output_path: String,
}

/// The account of a batch: every task is counted once, either as a success
/// (converted, or skipped because the destination existed) or as a failure.
#[derive(Debug, Clone, Copy, PartialEq, Eq, Structural)]
pub struct BatchSummary {
    pub total: usize,
    pub succeeded: usize,
    pub failed: usize,
}

/// An outcome that counts as a success: a completed conversion, or a skip
/// of an existing destination.
pub open spec fn spec_is_success(o: ConvertOutcome) -> bool {
    o is Converted || o is SkippedExisting
}

/// How many outcomes in `s` count as successes.
pub open spec fn spec_success_count(s: Seq<ConvertOutcome>) -> int
    decreases s.len(),
{
    if s.len() == 0 {
        0
    } else {
        spec_success_count(s.drop_last()) + if spec_is_success(s.last()) {
            1int
        } else {
            0int
        }
    }
}

/// How many outcomes in `s` count as failures.
pub open spec fn spec_failure_count(s: Seq<ConvertOutcome>) -> int
    decreases s.len(),
{
    if s.len() == 0 {
        0
    } else {
        spec_failure_count(s.drop_last()) + if spec_is_success(s.last()) {
            0int
        } else {
            1int
        }
    }
}

/// Every outcome is exactly one of success and failure: over a batch of N
/// outcomes of which M are failures, N - M are successes, and the two
/// counts always add up to N.
pub proof fn lemma_batch_accounting(s: Seq<ConvertOutcome>)
    ensures
        0 <= spec_success_count(s) <= s.len(),
        0 <= spec_failure_count(s) <= s.len(),
        spec_success_count(s) + spec_failure_count(s) == s.len(),
    decreases s.len(),
{
    if s.len() > 0 {
        lemma_batch_accounting(s.drop_last());
    }
}

/// The view of an optional directory.
pub open spec fn spec_dir_view(d: Option<String>) -> Option<Seq<char>> {
    match d {
        Some(s) => Some(s@),
        None => None,
    }
}

impl BatchSummary {
    /// The counters add up: a summary never loses or double-counts a task.
    pub open spec fn wf(self) -> bool {
        self.total == self.succeeded + self.failed
    }

    pub fn new() -> (s: Self)
        ensures
            s.wf(),
            s.total == 0,
            s.succeeded == 0,
            s.failed == 0,
    {
        BatchSummary { total: 0, succeeded: 0, failed: 0 }
    }

    /// Counts one more outcome: the total grows by one, the success counter
    /// exactly on a success, the failure counter exactly on a failure.
    pub fn record(&mut self, outcome: &ConvertOutcome)
        requires
            old(self).wf(),
            old(self).total < usize::MAX,
        ensures
            final(self).wf(),
            final(self).total == old(self).total + 1,
            final(self).succeeded == old(self).succeeded + if spec_is_success(*outcome) {
                1int
            } else {
                0int
            },
            final(self).failed == old(self).failed + if spec_is_success(*outcome) {
                0int
            } else {
                1int
            },
    {
        self.total = self.total + 1;
        match outcome {
            ConvertOutcome::Converted => {
                self.succeeded = self.succeeded + 1;
            },
            ConvertOutcome::SkippedExisting => {
                self.succeeded = self.succeeded + 1;
            },
            ConvertOutcome::LaunchFailure { .. } => {
                self.failed = self.failed + 1;
            },
            ConvertOutcome::EncodingFailure { .. } => {
                self.failed = self.failed + 1;
            },
        }
    }
}

/// The summary of a finished batch: one count per outcome, split into
/// successes and failures exactly as `spec_is_success` splits them.
pub fn summarize(outcomes: &Vec<ConvertOutcome>) -> (s: BatchSummary)
    ensures
        s.wf(),
        s.total == outcomes@.len(),
        s.succeeded == spec_success_count(outcomes@),
        s.failed == spec_failure_count(outcomes@),
{
    let mut s = BatchSummary::new();
    let mut i: usize = 0;
    while i < outcomes.len()
        invariant
            i <= outcomes.len(),
            s.wf(),
            s.total == i,
            s.succeeded == spec_success_count(outcomes@.take(i as int)),
            s.failed == spec_failure_count(outcomes@.take(i as int)),
        decreases outcomes.len() - i,
    {
        proof {
            lemma_batch_accounting(outcomes@.take(i as int));
            let taken = outcomes@.take(i + 1 as int);
            assert(taken.drop_last() =~= outcomes@.take(i as int));
            assert(taken.last() == outcomes@[i as int]);
        }
        s.record(&outcomes[i]);
        i = i + 1;
    }
    proof {
        assert(outcomes@.take(outcomes@.len() as int) =~= outcomes@);
    }
    s
}

/// Drives one batch: probes the encoder once, gates the scan, derives each
/// task's output path afresh, and accounts for every outcome.
pub struct BatchRunner {
    pub recursive: bool,
    pub force_overwrite: bool,
    pub output_dir: Option<String>,
}

impl BatchRunner {
    pub fn new(recursive: bool, force_overwrite: bool, output_dir: Option<String>) -> (b: Self)
        ensures
            b.recursive == recursive,
            b.force_overwrite == force_overwrite,
            b.output_dir == output_dir,
    {
        BatchRunner { recursive, force_overwrite, output_dir }
    }

    /// A runner configured as the command line asks.
    pub fn from_cli(cli: Cli) -> (b: Self)
        ensures
            b.recursive == cli.recursive,
            b.force_overwrite == cli.force,
            b.output_dir == cli.output,
    {
        BatchRunner { recursive: cli.recursive, force_overwrite: cli.force, output_dir: cli.output }
    }

    /// The batch is meaningful only when the encoder is available and the
    /// input root is a directory. The encoder is decided first: when it is
    /// unavailable the run aborts before any scan, whatever the root.
    pub fn preflight(&self, encoder_available: bool, root_is_directory: bool) -> (r: Result<
        (),
        BatchError,
    >)
        ensures
            !encoder_available ==> r == Err::<(), BatchError>(BatchError::EncoderUnavailable),
            encoder_available && !root_is_directory ==> r == Err::<(), BatchError>(
                BatchError::DirectoryNotFound,
            ),
            encoder_available && root_is_directory ==> r is Ok,
    {
        if !encoder_available {
            Err(BatchError::EncoderUnavailable)
        } else if !root_is_directory {
            Err(BatchError::DirectoryNotFound)
        } else {
            Ok(())
        }
    }

    /// One task per discovered file, in order, each with its output path
    /// derived afresh from that file and the configured output directory.
    pub fn make_tasks(&self, converter: &Converter, files: &Vec<String>) -> (r: Vec<
        ConversionTask,
    >)
        ensures
            r@.len() == files@.len(),
            forall|i: int|
                0 <= i < r@.len() ==> #[trigger] r@[i].input_path@ == files@[i]@ && r@[
                    i
                ].output_path@ == spec_output_path(files@[i]@, spec_dir_view(self.output_dir)),
    {
        let mut out: Vec<ConversionTask> = Vec::new();
        let mut i: usize = 0;
        while i < files.len()
            invariant
                i <= files.len(),
                out@.len() == i,
                forall|j: int|
                    0 <= j < i ==> #[trigger] out@[j].input_path@ == files@[j]@ && out@[
                        j
                    ].output_path@ == spec_output_path(files@[j]@, spec_dir_view(self.output_dir)),
            decreases files.len() - i,
        {
            let input = &files[i];
            let output = match &self.output_dir {
                Some(d) => converter.generate_output_path(input.as_str(), Some(d.as_str())),
                None => converter.generate_output_path(input.as_str(), None),
            };
            out.push(ConversionTask { input_path: input.clone(), output_path: output });
            proof {
                assert(out@[i as int].input_path@ == files@[i as int]@);
                assert(out@[i as int].output_path@ == spec_output_path(
                    files@[i as int]@,
                    spec_dir_view(self.output_dir),
                ));
            }
            i = i + 1;
        }
        out
    }
}

} // verus!
