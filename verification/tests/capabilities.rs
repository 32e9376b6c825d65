use undetected_chromedriver::DefaultCapabilitiesBuilder;
use undetected_chromedriver::USER_AGENT;
use undetected_chromedriver::get_capabilities;
use undetected_chromedriver::text::i32_string;
use undetected_chromedriver::text::u32_string;

#[test]
fn default_launch_arguments() {
    let caps = DefaultCapabilitiesBuilder::new().into_chrome_caps();
    let expected = vec![
        "--no-sandbox".to_string(),
        "--disable-dev-shm-usage".to_string(),
        "--disable-blink-features=AutomationControlled".to_string(),
        "window-size=1920,1080".to_string(),
        format!("user-agent={}", USER_AGENT),
        "disable-infobars".to_string(),
        "--disable-search-engine-choice-screen".to_string(),
    ];
    assert_eq!(caps.args, expected);
    assert_eq!(caps.exclude_switches, vec!["enable-automation".to_string()]);
}

#[test]
fn every_option_shows_in_the_arguments() {
    let caps = DefaultCapabilitiesBuilder::new()
        .set_no_sandbox(false)
        .set_disable_dev_shm_usage(false)
        .set_window_size(800, 600)
        .set_user_agent("agent-under-test")
        .set_hide_chrome_is_being_controlled(false)
        .set_disable_search_engine_choice_screen(false)
        .set_window_position(Some((12, -7)))
        .set_headless(true)
        .into_chrome_caps();
    let expected = vec![
        "--disable-blink-features=AutomationControlled".to_string(),
        "window-size=800,600".to_string(),
        "user-agent=agent-under-test".to_string(),
        "--window-position=12,-7".to_string(),
        "--headless=new".to_string(),
    ];
    assert_eq!(caps.args, expected);
    assert!(caps.exclude_switches.is_empty());
}

#[test]
fn offscreen_window_position() {
    let caps = DefaultCapabilitiesBuilder::new()
        .put_window_offscreen()
        .into_chrome_caps();
    assert!(
        caps.args
            .iter()
            .any(|a| a == "--window-position=-32000,-32000")
    );
}

#[test]
fn fixed_capability_set_lacks_the_search_engine_switch() {
    let caps = get_capabilities();
    assert!(
        !caps
            .args
            .iter()
            .any(|a| a == "--disable-search-engine-choice-screen")
    );
    assert!(caps.args.iter().any(|a| a == "--no-sandbox"));
    assert_eq!(caps.exclude_switches, vec!["enable-automation".to_string()]);
}

#[test]
fn decimal_rendering() {
    assert_eq!(u32_string(0), "0");
    assert_eq!(u32_string(7), "7");
    assert_eq!(u32_string(1080), "1080");
    assert_eq!(u32_string(u32::MAX), "4294967295");
    assert_eq!(i32_string(0), "0");
    assert_eq!(i32_string(-1), "-1");
    assert_eq!(i32_string(-32000), "-32000");
    assert_eq!(i32_string(i32::MIN), "-2147483648");
    assert_eq!(i32_string(i32::MAX), "2147483647");
}
