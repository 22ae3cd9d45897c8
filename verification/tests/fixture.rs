use std::path::PathBuf;

use ropesim::fixture::{scenario_path, FixtureNameError, SCENARIO_DIRECTORY};

fn fixture_path(name: &str) -> Result<PathBuf, FixtureNameError> {
    scenario_path(name).map(PathBuf::from)
}

#[test]
fn scenario_names_cannot_escape_the_fixture_directory() {
    assert_eq!(
        fixture_path("rapid-drag.json").unwrap(),
        PathBuf::from("scenarios").join("rapid-drag.json")
    );
    assert!(fixture_path("../outside").is_err());
    assert!(fixture_path("nested/name").is_err());
}

#[test]
fn json_extension_is_optional() {
    assert_eq!(scenario_path("rapid-drag").unwrap(), "scenarios/rapid-drag.json");
    assert_eq!(scenario_path("rapid-drag.json").unwrap(), "scenarios/rapid-drag.json");
    assert_eq!(scenario_path("A_9-z").unwrap(), "scenarios/A_9-z.json");
}

#[test]
fn surrounding_white_space_is_ignored() {
    assert_eq!(scenario_path("  drop-test \t\n").unwrap(), "scenarios/drop-test.json");
    assert_eq!(scenario_path("\u{3000}drop-test.json\u{2029}").unwrap(), "scenarios/drop-test.json");
}

#[test]
fn invalid_names_are_rejected() {
    for name in ["", "   ", ".json", " .json ", "a.json.json", "name.JSON", "na me", "x.y", "über", "a/b", "a\\b", ".."] {
        assert_eq!(scenario_path(name), Err(FixtureNameError::InvalidName), "{name:?}");
    }
}

#[test]
fn trimming_matches_the_standard_library() {
    for code in 0u32..=0x3100 {
        let Some(c) = char::from_u32(code) else { continue };
        let name = format!("{c}ab{c}");
        let expected = c.is_whitespace() || c.is_ascii_alphanumeric() || c == '-' || c == '_';
        assert_eq!(scenario_path(&name).is_ok(), expected, "U+{code:04X}");
        if c.is_whitespace() {
            assert_eq!(scenario_path(&name).unwrap(), format!("scenarios/{}.json", name.trim()));
        }
    }
}

#[test]
fn fixture_directory_and_message() {
    assert_eq!(SCENARIO_DIRECTORY, "scenarios");
    assert_eq!(
        FixtureNameError::InvalidName.message(),
        "fixture name must contain only ASCII letters, numbers, '-' or '_'"
    );
}
