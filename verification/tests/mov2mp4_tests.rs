use mov2mp4::batch::summarize;
use mov2mp4::batch::BatchError;
use mov2mp4::batch::BatchRunner;
use mov2mp4::batch::BatchSummary;
use mov2mp4::cli::Cli;
use mov2mp4::converter::ConvertOutcome;
use mov2mp4::converter::Converter;
use mov2mp4::converter::EncoderRun;
use mov2mp4::finder::FileFinder;
use mov2mp4::finder::ScanEntry;

fn entry(path: &str, is_file: bool, depth: usize) -> ScanEntry {
    ScanEntry { path: path.to_string(), is_file, depth }
}

#[test]
fn test_generate_output_path() {
    let converter = Converter::new(false);
    let output = converter.generate_output_path("videos/test.MOV", None);
    assert_eq!(output, "videos/test.mp4");
}

#[test]
fn test_generate_output_path_with_custom_dir() {
    let converter = Converter::new(false);
    let output = converter.generate_output_path("videos/test.MOV", Some("converted"));
    assert_eq!(output, "converted/test.mp4");
}

#[test]
fn test_is_mov_file() {
    let finder = FileFinder::new(false);
    assert!(finder.is_mov_file("test.MOV"));
    assert!(finder.is_mov_file("test.mov"));
    assert!(!finder.is_mov_file("test.mp4"));
    assert!(!finder.is_mov_file("test"));
}

#[test]
fn output_path_is_deterministic() {
    let converter = Converter::new(false);
    let first = converter.generate_output_path("clips/a.mov", Some("out"));
    let again = converter.generate_output_path("clips/a.mov", Some("out"));
    assert_eq!(first, again);
    let beside_first = converter.generate_output_path("clips/a.mov", None);
    let beside_again = converter.generate_output_path("clips/a.mov", None);
    assert_eq!(beside_first, beside_again);
}

#[test]
fn output_path_placement() {
    let converter = Converter::new(false);
    assert_eq!(converter.generate_output_path("a/b/c.mov", None), "a/b/c.mp4");
    assert_eq!(converter.generate_output_path("a/b/c.mov", Some("d")), "d/c.mp4");
    assert_eq!(converter.generate_output_path("c.mov", None), "c.mp4");
}

#[test]
fn output_path_edge_cases() {
    let converter = Converter::new(true);
    assert_eq!(converter.generate_output_path("v/a.b.MOV", None), "v/a.b.mp4");
    assert_eq!(converter.generate_output_path("v/.hidden", None), "v/.hidden.mp4");
    assert_eq!(converter.generate_output_path("v/", None), "v/output.mp4");
    assert_eq!(converter.generate_output_path("", None), "output.mp4");
    assert_eq!(converter.generate_output_path("a/b.mov", Some("out/")), "out/b.mp4");
}

#[test]
fn path_parts() {
    assert_eq!(mov2mp4::paths::parent_part("a/b/c.mov"), "a/b");
    assert_eq!(mov2mp4::paths::parent_part("c.mov"), "");
    assert_eq!(mov2mp4::paths::file_name_part("a/b/c.mov"), "c.mov");
    assert_eq!(mov2mp4::paths::file_name_part("c.mov"), "c.mov");
    assert_eq!(mov2mp4::paths::stem_part("c.old.mov"), "c.old");
    assert_eq!(mov2mp4::paths::stem_part(".hidden"), ".hidden");
    assert_eq!(mov2mp4::paths::extension_part("c.old.mov"), Some("mov"));
    assert_eq!(mov2mp4::paths::extension_part(".hidden"), None);
    assert_eq!(mov2mp4::paths::rfind_char("abca", 'a'), Some(3));
    assert_eq!(mov2mp4::paths::rfind_char("abc", 'z'), None);
    assert_eq!(mov2mp4::paths::join_path("d", "f.mp4"), "d/f.mp4");
    assert_eq!(mov2mp4::paths::join_path("", "f.mp4"), "f.mp4");
    assert_eq!(mov2mp4::paths::join_path("d/", "f.mp4"), "d/f.mp4");
}

#[test]
fn finder_extension_cases() {
    let finder = FileFinder::new(false);
    assert!(finder.is_mov_file("TEST.MoV"));
    assert!(!finder.is_mov_file(".mov"));
    assert!(!finder.is_mov_file("test."));
    assert!(!finder.is_mov_file("dir.mov/file.txt"));
    assert!(finder.is_mov_file("dir.txt/file.mov"));
}

#[test]
fn finder_selects_mov_files_only() {
    let finder = FileFinder::new(false);
    let entries = vec![
        entry(".", false, 0),
        entry("a.mov", true, 1),
        entry("b.MOV", true, 1),
        entry("c.mp4", true, 1),
        entry("d", true, 1),
    ];
    let found = finder.find_mov_files(&entries);
    assert_eq!(found, vec!["a.mov".to_string(), "b.MOV".to_string()]);
}

#[test]
fn finder_depth_respects_recursive_flag() {
    let entries = vec![
        entry("a.mov", true, 1),
        entry("sub", false, 1),
        entry("sub/deep.mov", true, 2),
    ];
    let flat = FileFinder::new(false).find_mov_files(&entries);
    assert_eq!(flat, vec!["a.mov".to_string()]);
    let deep = FileFinder::new(true).find_mov_files(&entries);
    assert_eq!(deep, vec!["a.mov".to_string(), "sub/deep.mov".to_string()]);
}

#[test]
fn skip_requires_existing_and_no_force() {
    assert!(Converter::new(false).should_skip(true));
    assert!(!Converter::new(false).should_skip(false));
    assert!(!Converter::new(true).should_skip(true));
    assert!(!Converter::new(true).should_skip(false));
}

#[test]
fn outcome_of_run_keeps_diagnostics() {
    let converter = Converter::new(false);
    assert_eq!(
        converter.outcome_of_run(EncoderRun::Exited { success: true, diagnostic: String::new() }),
        ConvertOutcome::Converted
    );
    assert_eq!(
        converter.outcome_of_run(EncoderRun::Exited {
            success: false,
            diagnostic: "bad stream".to_string(),
        }),
        ConvertOutcome::EncodingFailure { diagnostic: "bad stream".to_string() }
    );
    assert_eq!(
        converter.outcome_of_run(EncoderRun::LaunchFailed { detail: "not found".to_string() }),
        ConvertOutcome::LaunchFailure { detail: "not found".to_string() }
    );
}

#[test]
fn encoder_args_are_fixed() {
    let converter = Converter::new(false);
    let args = converter.encoder_args("in.mov", "out.mp4");
    let got: Vec<&str> = args.iter().map(|s| s.as_str()).collect();
    let expected = vec![
        "-i", "in.mov", "-c:v", "libx264", "-c:a", "aac", "-preset", "medium", "-crf", "23",
        "-movflags", "+faststart", "-y", "out.mp4",
    ];
    assert_eq!(got, expected);
}

#[test]
fn preflight_checks_encoder_first() {
    let runner = BatchRunner::new(false, false, None);
    assert_eq!(runner.preflight(false, true), Err(BatchError::EncoderUnavailable));
    assert_eq!(runner.preflight(false, false), Err(BatchError::EncoderUnavailable));
    assert_eq!(runner.preflight(true, false), Err(BatchError::DirectoryNotFound));
    assert_eq!(runner.preflight(true, true), Ok(()));
}

#[test]
fn summary_counts_all_outcomes() {
    let outcomes = vec![
        ConvertOutcome::Converted,
        ConvertOutcome::EncodingFailure { diagnostic: "first".to_string() },
        ConvertOutcome::SkippedExisting,
        ConvertOutcome::LaunchFailure { detail: "gone".to_string() },
        ConvertOutcome::Converted,
    ];
    let summary = summarize(&outcomes);
    assert_eq!(summary.total, 5);
    assert_eq!(summary.succeeded, 3);
    assert_eq!(summary.failed, 2);
}

#[test]
fn summary_record_steps() {
    let mut summary = BatchSummary::new();
    summary.record(&ConvertOutcome::Converted);
    summary.record(&ConvertOutcome::SkippedExisting);
    summary.record(&ConvertOutcome::EncodingFailure { diagnostic: String::new() });
    assert_eq!(summary.total, 3);
    assert_eq!(summary.succeeded, 2);
    assert_eq!(summary.failed, 1);
}

#[test]
fn tasks_derive_paths_per_file() {
    let converter = Converter::new(false);
    let files = vec!["a/x.mov".to_string(), "y.MOV".to_string()];

    let under_dir = BatchRunner::new(true, false, Some("out".to_string()));
    let tasks = under_dir.make_tasks(&converter, &files);
    assert_eq!(tasks.len(), 2);
    assert_eq!(tasks[0].input_path, "a/x.mov");
    assert_eq!(tasks[0].output_path, "out/x.mp4");
    assert_eq!(tasks[1].input_path, "y.MOV");
    assert_eq!(tasks[1].output_path, "out/y.mp4");

    let beside = BatchRunner::new(false, false, None);
    let tasks2 = beside.make_tasks(&converter, &files);
    assert_eq!(tasks2[0].output_path, "a/x.mp4");
    assert_eq!(tasks2[1].output_path, "y.mp4");
}

#[test]
fn runner_from_cli_copies_flags() {
    let cli = Cli {
        input: "in".to_string(),
        output: Some("o".to_string()),
        recursive: true,
        verbose: false,
        force: true,
    };
    let runner = BatchRunner::from_cli(cli);
    assert!(runner.recursive);
    assert!(runner.force_overwrite);
    assert_eq!(runner.output_dir, Some("o".to_string()));
}
