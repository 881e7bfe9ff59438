use multirun::args::non_empty_string;
use multirun::command::{classify_status, prepare_command, split_command, Command, Outcome};
use multirun::job::{enumerate_jobs, Job, StartupError};
use multirun::naming::{decimal_string, sanitize_filename as out_name};
use multirun::template::expand;
use multirun::utils::sanitize_filename;

fn job(index: usize, input: &str) -> Job {
    Job { index, input: input.to_string() }
}

#[test]
fn template_validation_accepts_a_plain_template() {
    let r = non_empty_string("echo {}");
    assert_eq!(r, Ok("echo {}".to_string()));
}

#[test]
fn template_validation_rejects_empty_and_blank() {
    assert_eq!(non_empty_string(""), Err("template must be a non-empty string".to_string()));
    assert_eq!(non_empty_string("  \t "), Err("template must be a non-empty string".to_string()));
}

#[test]
fn template_validation_rejects_missing_placeholder() {
    assert_eq!(non_empty_string("echo hi"), Err("template must contain {} parameter".to_string()));
}

#[test]
fn expansion_replaces_every_input_placeholder() {
    assert_eq!(expand("echo {}", &job(1, "a")), "echo a");
    assert_eq!(expand("cp {} {}", &job(1, "f.txt")), "cp f.txt f.txt");
}

#[test]
fn expansion_replaces_out_with_index_derived_name() {
    assert_eq!(expand("gzip {} -c > {out}.gz", &job(2, "f")), "gzip f -c > output2.gz");
}

#[test]
fn expansion_is_deterministic() {
    let first = expand("echo processing {}", &job(7, "line"));
    let second = expand("echo processing {}", &job(7, "line"));
    assert_eq!(first, second);
}

#[test]
fn expansion_never_rescans_substituted_text() {
    assert_eq!(expand("echo {}", &job(3, "{out}")), "echo {out}");
    assert_eq!(expand("echo {}", &job(3, "{}")), "echo {}");
}

#[test]
fn output_names_are_prefix_plus_index() {
    assert_eq!(out_name(1), "output1");
    assert_eq!(out_name(12), "output12");
    assert_eq!(decimal_string(0), "0");
    assert_eq!(decimal_string(105), "105");
}

#[test]
fn sanitizing_keeps_alphanumerics_and_replaces_the_rest() {
    assert_eq!(sanitize_filename("a b/c.txt"), "a_b_c_txt");
    assert_eq!(sanitize_filename("abc123"), "abc123");
    assert_eq!(sanitize_filename(""), "");
}

#[test]
fn splitting_breaks_on_runs_of_whitespace() {
    let Command { program, args } = split_command("  echo   a  b ").expect("tokens expected");
    assert_eq!(program, "echo");
    assert_eq!(args, vec!["a".to_string(), "b".to_string()]);
}

#[test]
fn splitting_a_blank_line_yields_no_command() {
    assert!(split_command("").is_none());
    assert!(split_command(" \t  ").is_none());
}

#[test]
fn preparing_a_blank_expansion_is_a_skip() {
    assert!(prepare_command("{}", &job(1, "   ")).is_none());
    let cmd = prepare_command("{}", &job(1, "ls -l")).expect("non-blank expansion");
    assert_eq!(cmd.program, "ls");
    assert_eq!(cmd.args, vec!["-l".to_string()]);
}

#[test]
fn classification_covers_exit_signal_and_spawn_failure() {
    assert!(matches!(classify_status(Ok(Some(0))), Outcome::Exited(0)));
    assert!(matches!(classify_status(Ok(Some(1))), Outcome::Exited(1)));
    assert!(matches!(classify_status(Ok(None)), Outcome::TerminatedBySignal));
    let failed = classify_status(Err("no such program".to_string()));
    assert!(matches!(failed, Outcome::SpawnFailed(ref reason) if reason == "no such program"));
}

#[test]
fn enumeration_numbers_lines_from_one() {
    let jobs = enumerate_jobs(vec!["x".to_string(), "y".to_string()]).expect("two lines");
    assert_eq!(jobs.len(), 2);
    assert_eq!(jobs[0].index, 1);
    assert_eq!(jobs[0].input, "x");
    assert_eq!(jobs[1].index, 2);
    assert_eq!(jobs[1].input, "y");
}

#[test]
fn enumeration_of_no_input_is_a_startup_error() {
    let r = enumerate_jobs(Vec::new());
    assert!(matches!(r, Err(StartupError::NoInput)));
    assert_eq!(StartupError::NoInput.message(), "no input lines");
}
