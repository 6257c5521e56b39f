use imgpress::args::{Args, ConfigError, DEFAULT_QUALITY};

fn with_quality(quality: u8) -> Args {
    Args { quality, ..Args::new("in".to_string(), "out".to_string()) }
}

fn with_threads(threads: Option<usize>) -> Args {
    Args { threads, ..Args::new("in".to_string(), "out".to_string()) }
}

#[test]
fn new_args_have_the_defaults() {
    let args = Args::new("photos".to_string(), "small".to_string());
    assert_eq!(args.input, "photos");
    assert_eq!(args.output, "small");
    assert_eq!(args.quality, 30);
    assert_eq!(DEFAULT_QUALITY, 30);
    assert_eq!(args.threads, None);
    assert!(!args.overwrite);
}

#[test]
fn quality_in_range_is_accepted() {
    assert_eq!(with_quality(1).validate(), Ok(()));
    assert_eq!(with_quality(30).validate(), Ok(()));
    assert_eq!(with_quality(100).validate(), Ok(()));
}

#[test]
fn quality_out_of_range_is_rejected() {
    assert_eq!(with_quality(0).validate(), Err(ConfigError::QualityOutOfRange(0)));
    assert_eq!(with_quality(101).validate(), Err(ConfigError::QualityOutOfRange(101)));
    assert_eq!(with_quality(255).validate(), Err(ConfigError::QualityOutOfRange(255)));
}

#[test]
fn worker_count_takes_the_override() {
    assert_eq!(with_threads(Some(3)).worker_count(8), 3);
    assert_eq!(with_threads(Some(1)).worker_count(8), 1);
    assert_eq!(with_threads(Some(64)).worker_count(2), 64);
}

#[test]
fn worker_count_falls_back_on_the_machine() {
    assert_eq!(with_threads(None).worker_count(8), 8);
    assert_eq!(with_threads(Some(0)).worker_count(6), 6);
}

#[test]
fn worker_count_is_never_zero() {
    assert_eq!(with_threads(None).worker_count(0), 1);
    assert_eq!(with_threads(Some(0)).worker_count(0), 1);
}
