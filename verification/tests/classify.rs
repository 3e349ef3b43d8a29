use cube_scanner::classify::{classify, contains_substring, device_qualifies};
use cube_scanner::device::ScannedDevice;

fn dev(name: Option<&str>, address: &str, rssi: Option<i16>) -> ScannedDevice {
    ScannedDevice {
        name: name.map(|n| n.to_string()),
        address: address.to_string(),
        signal_strength: rssi,
    }
}

#[test]
fn scenario_mixed_input_keeps_only_family_entry() {
    let input = vec![
        dev(Some("GAN356"), "AA:BB", Some(-40)),
        dev(Some("Generic"), "CC:DD", Some(-70)),
        dev(None, "EE:FF", Some(-90)),
    ];
    let expected = vec![dev(Some("GAN356"), "AA:BB", Some(-40))];
    assert_eq!(classify(input), expected);
}

#[test]
fn scenario_missing_signal_strength_is_preserved() {
    let input = vec![dev(Some("MG-Cube"), "11:22", None)];
    let out = classify(input);
    assert_eq!(out, vec![dev(Some("MG-Cube"), "11:22", None)]);
    assert_eq!(out[0].signal_strength, None);
}

#[test]
fn scenario_substring_not_whole_word() {
    let input = vec![
        dev(Some("AiCube Pro"), "33:44", Some(-55)),
        dev(Some("AiCubePro2"), "55:66", Some(-60)),
    ];
    let out = classify(input);
    assert_eq!(
        out,
        vec![
            dev(Some("AiCube Pro"), "33:44", Some(-55)),
            dev(Some("AiCubePro2"), "55:66", Some(-60)),
        ]
    );
}

#[test]
fn scenario_organizer_false_positive_is_current_behavior() {
    // Known heuristic edge case, documented deliberately: "ORGANIZER"
    // contains "GAN" as a case-sensitive substring, so it qualifies even
    // though it is no cube. This asserts the current overmatching behavior
    // rather than silently assuming it is fixed.
    let input = vec![dev(Some("ORGANIZER"), "77:88", Some(-50))];
    let out = classify(input);
    assert_eq!(out, vec![dev(Some("ORGANIZER"), "77:88", Some(-50))]);
}

#[test]
fn empty_input_yields_empty_output() {
    assert_eq!(classify(vec![]), vec![]);
}

#[test]
fn nameless_observations_are_always_excluded() {
    let input = vec![
        dev(None, "AA:AA", Some(-10)),
        dev(None, "BB:BB", None),
    ];
    assert_eq!(classify(input), vec![]);
}

#[test]
fn output_is_subset_in_input_order() {
    let input = vec![
        dev(Some("Speaker"), "01:01", Some(-30)),
        dev(Some("MGCube"), "02:02", Some(-44)),
        dev(Some("Watch"), "03:03", None),
        dev(Some("GANCUBE-1234"), "04:04", Some(-61)),
        dev(None, "05:05", Some(-72)),
        dev(Some("AiCube-X"), "06:06", None),
    ];
    let out = classify(input);
    assert_eq!(
        out,
        vec![
            dev(Some("MGCube"), "02:02", Some(-44)),
            dev(Some("GANCUBE-1234"), "04:04", Some(-61)),
            dev(Some("AiCube-X"), "06:06", None),
        ]
    );
}

#[test]
fn classify_is_idempotent() {
    let input = || {
        vec![
            dev(Some("GAN356"), "AA:BB", Some(-40)),
            dev(Some("Generic"), "CC:DD", Some(-70)),
            dev(Some("MG-Cube"), "11:22", None),
            dev(None, "EE:FF", Some(-90)),
        ]
    };
    let once = classify(input());
    let twice = classify(classify(input()));
    assert_eq!(twice, once);
}

#[test]
fn duplicates_are_not_collapsed() {
    let input = vec![
        dev(Some("GAN356"), "AA:BB", Some(-40)),
        dev(Some("GAN356"), "AA:BB", Some(-40)),
    ];
    let out = classify(input);
    assert_eq!(out.len(), 2);
}

#[test]
fn matching_is_case_sensitive() {
    assert!(contains_substring("ORGANIZER", "GAN"));
    assert!(!contains_substring("organizer", "GAN"));
    assert!(!contains_substring("organ", "GAN"));
    assert!(contains_substring("MGCube", "MG"));
    assert!(!contains_substring("mgcube", "MG"));
}

#[test]
fn substring_search_finds_patterns_anywhere() {
    assert!(contains_substring("GANCUBE-1234", "GAN"));
    assert!(contains_substring("my AiCube here", "AiCube"));
    assert!(contains_substring("OMG", "MG"));
    assert!(!contains_substring("GA-N", "GAN"));
    assert!(!contains_substring("", "GAN"));
    assert!(contains_substring("anything", ""));
}

#[test]
fn device_qualifies_follows_the_membership_rule() {
    assert!(device_qualifies(&dev(Some("GAN356"), "AA:BB", Some(-40))));
    assert!(device_qualifies(&dev(Some("MG-Cube"), "11:22", None)));
    assert!(device_qualifies(&dev(Some("AiCube Pro"), "33:44", Some(-55))));
    assert!(!device_qualifies(&dev(Some("Generic"), "CC:DD", Some(-70))));
    assert!(!device_qualifies(&dev(None, "EE:FF", Some(-90))));
}
