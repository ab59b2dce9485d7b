use rustpix::config::parse_args;
use rustpix::config::Command;
use rustpix::config::ConfigError;

fn strings(args: &[&str]) -> Vec<String> {
    args.iter().map(|s| s.to_string()).collect()
}

fn run_of(r: Result<Command, ConfigError>) -> rustpix::config::ConversionRequest {
    match r {
        Ok(Command::Run(req)) => req,
        other => panic!("expected a run request, got {:?}", other),
    }
}

#[test]
fn empty_arguments_are_refused() {
    assert_eq!(parse_args(Vec::new()), Err(ConfigError::NoArguments));
}

#[test]
fn version_flag_wins() {
    assert_eq!(parse_args(strings(&["-v"])), Ok(Command::ShowVersion));
    assert_eq!(
        parse_args(strings(&["a.png", "--version", "-h"])),
        Ok(Command::ShowVersion)
    );
}

#[test]
fn help_flag_after_version_check() {
    assert_eq!(parse_args(strings(&["--help"])), Ok(Command::ShowHelp));
    assert_eq!(parse_args(strings(&["a.png", "-h"])), Ok(Command::ShowHelp));
}

#[test]
fn defaults_apply_without_flags() {
    let req = run_of(parse_args(strings(&["a.png", "b.png"])));
    assert_eq!(req.files, strings(&["a.png", "b.png"]));
    assert_eq!(req.output_base_name, None);
    assert!(!req.keep_original);
    assert_eq!(req.quality, 75);
}

#[test]
fn output_flag_takes_the_next_argument() {
    let req = run_of(parse_args(strings(&["a.png", "-o", "img", "b.png"])));
    assert_eq!(req.output_base_name, Some("img".to_string()));
    assert_eq!(req.files, strings(&["a.png", "b.png"]));
}

#[test]
fn output_flag_without_a_name_is_refused() {
    assert_eq!(
        parse_args(strings(&["a.png", "--output"])),
        Err(ConfigError::MissingOutputName)
    );
}

#[test]
fn keep_original_flag_is_consumed() {
    let req = run_of(parse_args(strings(&["-k", "a.png"])));
    assert!(req.keep_original);
    assert_eq!(req.files, strings(&["a.png"]));
    let req = run_of(parse_args(strings(&["a.png", "--keep-original"])));
    assert!(req.keep_original);
    assert_eq!(req.files, strings(&["a.png"]));
}

#[test]
fn quality_flag_takes_a_validated_number() {
    let req = run_of(parse_args(strings(&["a.png", "-q", "50"])));
    assert_eq!(req.quality, 50);
    let req = run_of(parse_args(strings(&["a.png", "--quality", "1"])));
    assert_eq!(req.quality, 1);
    let req = run_of(parse_args(strings(&["a.png", "-q", "100"])));
    assert_eq!(req.quality, 100);
    let req = run_of(parse_args(strings(&["a.png", "-q", "0075"])));
    assert_eq!(req.quality, 75);
}

#[test]
fn quality_flag_without_a_value_is_refused() {
    assert_eq!(
        parse_args(strings(&["a.png", "-q"])),
        Err(ConfigError::MissingQualityValue)
    );
}

#[test]
fn quality_must_be_a_number() {
    assert_eq!(
        parse_args(strings(&["a.png", "-q", "abc"])),
        Err(ConfigError::QualityNotANumber)
    );
    assert_eq!(
        parse_args(strings(&["a.png", "-q", ""])),
        Err(ConfigError::QualityNotANumber)
    );
    assert_eq!(
        parse_args(strings(&["a.png", "-q", "7.5"])),
        Err(ConfigError::QualityNotANumber)
    );
}

#[test]
fn quality_zero_is_out_of_range() {
    assert_eq!(
        parse_args(strings(&["a.png", "-q", "0"])),
        Err(ConfigError::QualityOutOfRange)
    );
}

#[test]
fn quality_above_hundred_is_out_of_range() {
    assert_eq!(
        parse_args(strings(&["a.png", "-q", "101"])),
        Err(ConfigError::QualityOutOfRange)
    );
    assert_eq!(
        parse_args(strings(&["a.png", "-q", "12345"])),
        Err(ConfigError::QualityOutOfRange)
    );
}

#[test]
fn flags_are_recognized_anywhere() {
    let req = run_of(parse_args(strings(&[
        "-q", "30", "b.png", "-o", "base", "-k", "a.png",
    ])));
    assert_eq!(req.files, strings(&["b.png", "a.png"]));
    assert_eq!(req.output_base_name, Some("base".to_string()));
    assert!(req.keep_original);
    assert_eq!(req.quality, 30);
}
