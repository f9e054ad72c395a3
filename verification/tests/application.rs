use screenshot_hero::application::LaunchOptions;

fn args(list: &[&str]) -> Vec<String> {
    list.iter().map(|s| s.to_string()).collect()
}

#[test]
fn parse_capture_flag_and_keep_other_args() {
    let options = LaunchOptions::parse(args(&["screenshot-hero", "--capture", "--gapplication-service"]));

    assert!(options.start_with_capture);
    assert_eq!(
        options.passthrough_args,
        vec!["screenshot-hero".to_string(), "--capture".to_string(), "--gapplication-service".to_string()]
    );
}

#[test]
fn parse_without_capture_flag() {
    let options = LaunchOptions::parse(args(&["screenshot-hero"]));
    assert!(!options.start_with_capture);
    assert_eq!(options.passthrough_args, vec!["screenshot-hero".to_string()]);
}

#[test]
fn parse_needs_exact_flag() {
    let options = LaunchOptions::parse(args(&["app", "--capture=no", "capture"]));
    assert!(!options.start_with_capture);
}
