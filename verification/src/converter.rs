use vstd::prelude::*;
use vstd::string::*;
use crate::paths::file_name_part;
use crate::paths::join_path;
use crate::paths::output_base_part;
use crate::paths::parent_part;
use crate::paths::spec_output_path;

verus! {

/// Builds encoder invocations and derives output paths. `force_overwrite`
/// mirrors the `--force` flag: when it is unset, an existing destination
/// file turns the conversion into a skip.
pub struct Converter {
    pub force_overwrite: bool,
}

/// What one run of the encoder process did, as the caller observed it.
#[derive(Debug, Clone, PartialEq, Eq)]
pub enum EncoderRun {
    /// The process could not be started at all (for instance, the binary
    /// was not found).
    LaunchFailed { detail: String },
    /// The process ran to completion; `success` is its exit condition and
    /// `diagnostic` the captured diagnostic stream.
    Exited { success: bool, diagnostic: String },
}

/// The result of one conversion task.
#[derive(Debug, Clone, PartialEq, Eq)]
pub enum ConvertOutcome {
    /// The encoder ran and reported success.
    Converted,
    /// The destination already existed and overwriting was not requested;
    /// nothing was done.
    SkippedExisting,
    /// The encoder process could not be started.
    LaunchFailure { detail: String },
    /// The encoder ran and exited with a failure condition; `diagnostic`
    /// carries its captured diagnostic text.
    EncodingFailure { diagnostic: String },
}

/// The fixed encoder argument list for one input/output pair: re-encode
/// with the H.264 video codec and the AAC audio codec at a fixed preset and
/// quality, lay the result out for streaming, and overwrite at the process
/// level (existence was already decided at the task level).
pub open spec fn spec_encoder_args(input: Seq<char>, output: Seq<char>) -> Seq<Seq<char>> {
    seq![
        "-i"@,
        input,
        "-c:v"@,
        "libx264"@,
        "-c:a"@,
        "aac"@,
        "-preset"@,
        "medium"@,
        "-crf"@,
        "23"@,
        "-movflags"@,
        "+faststart"@,
        "-y"@,
        output,
    ]
}

/// The outcome one run of the encoder maps to: converted exactly when the
/// process ran and exited successfully; a run that failed keeps its
/// diagnostic text, and a launch failure keeps its detail.
pub open spec fn spec_outcome_of_run(run: EncoderRun) -> ConvertOutcome {
    match run {
        EncoderRun::LaunchFailed { detail } => ConvertOutcome::LaunchFailure { detail },
        EncoderRun::Exited { success, diagnostic } => if success {
            ConvertOutcome::Converted
        } else {
            ConvertOutcome::EncodingFailure { diagnostic }
        },
    }
}

impl Converter {
    pub fn new(force_overwrite: bool) -> (c: Self)
        ensures
            c.force_overwrite == force_overwrite,
    {
        Converter { force_overwrite }
    }

    /// The output path for `input_path`: its base name with the `.mp4`
    /// extension, under `output_dir` when one is given and in the input's
    /// own directory otherwise.
    pub fn generate_output_path(&self, input_path: &str, output_dir: Option<&str>) -> (r: String)
        ensures
            r@ == spec_output_path(
                input_path@,
                match output_dir {
                    Some(d) => Some(d@),
                    None => None,
                },
            ),
    {
        let name = file_name_part(input_path);
        let base = output_base_part(name);
        let mut file = String::from_str(base);
        file.append(".mp4");
        match output_dir {
            Some(d) => join_path(d, file.as_str()),
            None => join_path(parent_part(input_path), file.as_str()),
        }
    }

    /// A conversion is skipped exactly when the destination already exists
    /// and overwriting was not requested; a skipped destination is left
    /// untouched.
    pub fn should_skip(&self, output_exists: bool) -> (r: bool)
        ensures
            r == (output_exists && !self.force_overwrite),
    {
        output_exists && !self.force_overwrite
    }

    /// The argument list to hand the encoder for one input/output pair.
    pub fn encoder_args(&self, input_path: &str, output_path: &str) -> (r: Vec<String>)
        ensures
            r.deep_view() == spec_encoder_args(input_path@, output_path@),
    {
        let mut args: Vec<String> = Vec::new();
        args.push(String::from_str("-i"));
        args.push(String::from_str(input_path));
        args.push(String::from_str("-c:v"));
        args.push(String::from_str("libx264"));
        args.push(String::from_str("-c:a"));
        args.push(String::from_str("aac"));
        args.push(String::from_str("-preset"));
        args.push(String::from_str("medium"));
        args.push(String::from_str("-crf"));
        args.push(String::from_str("23"));
        args.push(String::from_str("-movflags"));
        args.push(String::from_str("+faststart"));
        args.push(String::from_str("-y"));
        args.push(String::from_str(output_path));
        proof {
            assert(args.deep_view() =~~= spec_encoder_args(input_path@, output_path@));
        }
        args
    }

    /// Folds what the encoder process did into a conversion outcome.
    pub fn outcome_of_run(&self, run: EncoderRun) -> (o: ConvertOutcome)
        ensures
            o == spec_outcome_of_run(run),
    {
        match run {
            EncoderRun::LaunchFailed { detail } => ConvertOutcome::LaunchFailure { detail },
            EncoderRun::Exited { success, diagnostic } => if success {
                ConvertOutcome::Converted
            } else {
                ConvertOutcome::EncodingFailure { diagnostic }
            },
        }
    }
}

} // verus!
