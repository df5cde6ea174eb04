use weather::emoji::is_match;

#[test]
fn get_emoji() {
    assert_eq!(weather::emoji::get_emoji("clear sky"), Some("☀️"));
    assert_eq!(weather::emoji::get_emoji("few clouds"), Some("⛅"));
    assert_eq!(weather::emoji::get_emoji("scattered clouds"), Some("☁️"));
    assert_eq!(weather::emoji::get_emoji("broken clouds"), Some("☁️☁️"));
    assert_eq!(weather::emoji::get_emoji("overcast clouds"), Some("☁️☁️"));
    assert_eq!(weather::emoji::get_emoji("thunderstorm"), Some("⛈"));
    assert_eq!(weather::emoji::get_emoji("snow"), Some("🌨"));
    assert_eq!(weather::emoji::get_emoji("sleet"), Some("🌨"));
    assert_eq!(weather::emoji::get_emoji("drizzle"), Some("🌧"));
    assert_eq!(weather::emoji::get_emoji("rain"), Some("🌧"));
    assert_eq!(weather::emoji::get_emoji("mist"), Some("🌫"));
    assert_eq!(weather::emoji::get_emoji("smoke"), Some("🌫"));
    assert_eq!(weather::emoji::get_emoji("haze"), Some("🌫"));
    assert_eq!(weather::emoji::get_emoji("fog"), Some("🌫"));
    assert_eq!(weather::emoji::get_emoji("sand"), Some("🌫"));
    assert_eq!(weather::emoji::get_emoji("dust"), Some("🌫"));
    assert_eq!(weather::emoji::get_emoji("ash"), Some("🌫"));
    assert_eq!(weather::emoji::get_emoji("squalls"), Some("🌫"));
    assert_eq!(weather::emoji::get_emoji("tornado"), Some("🌪"));
    assert_eq!(weather::emoji::get_emoji("hurricane"), Some("🌪"));
    assert_eq!(weather::emoji::get_emoji("tropical storm"), Some("🌪"));
}

#[test]
fn get_emoji_prefixes_and_unknowns() {
    assert_eq!(weather::emoji::get_emoji("light rain"), None);
    assert_eq!(weather::emoji::get_emoji("rain and snow"), Some("🌧"));
    assert_eq!(weather::emoji::get_emoji("snow showers"), Some("🌨"));
    assert_eq!(weather::emoji::get_emoji(""), None);
    assert_eq!(weather::emoji::get_emoji("Clear sky"), None);
}

#[test]
fn is_match_alternatives() {
    assert!(is_match("overcast clouds", "broken clouds|overcast clouds"));
    assert!(is_match("fog bank", "mist|fog"));
    assert!(!is_match("fo", "mist|fog"));
    assert!(!is_match("smog", "mist|fog"));
    assert!(is_match("anything", "mist|"));
    assert!(is_match("", ""));
    assert!(!is_match("", "a|b"));
}
