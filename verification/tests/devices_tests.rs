use termixer::devices::{pick_headphone, output_candidates, pick_config, pick_sample_rate, rank_devices, score_device, Candidate};

#[test]
fn devices_are_scored_by_kind() {
    assert_eq!(score_device("MacBook Pro Speakers"), 100);
    assert_eq!(score_device("sof-nau8821-max"), 100);
    assert_eq!(score_device("HDA Intel PCH, ALC257 Analog"), 100);
    assert_eq!(score_device("HDA-Intel HDMI 0"), 40);
    assert_eq!(score_device("Discard all samples (Null Output)"), 0);
    assert_eq!(score_device("Null"), 0);
    assert_eq!(score_device("Scarlett 2i2 USB"), 80);
    assert_eq!(score_device("CalDigit TS3"), 75);
    assert_eq!(score_device("AirPods (Bluetooth)"), 70);
    assert_eq!(score_device("DELL U2720Q"), 40);
    assert_eq!(score_device("PulseAudio Sound Server"), 10);
    assert_eq!(score_device("Some Device"), 60);
}

fn names() -> Vec<Option<String>> {
    vec![
        Some("HDMI 0".to_string()),
        None,
        Some("MacBook Pro Speakers".to_string()),
        Some("Discard all samples".to_string()),
        Some("USB DAC".to_string()),
        Some("Generic".to_string()),
    ]
}

#[test]
fn ranking_puts_the_best_first_and_drops_null_devices() {
    assert_eq!(rank_devices(&names()), vec![(100, 2), (80, 4), (60, 5), (50, 1), (40, 0)]);
    assert_eq!(rank_devices(&[]), vec![]);
}

#[test]
fn without_a_sound_server_default_the_ranking_is_tried() {
    let (ranking, order) = output_candidates(&names(), None);
    assert_eq!(ranking.len(), 5);
    assert_eq!(
        order,
        vec![Candidate::Device(2), Candidate::Device(4), Candidate::Device(5), Candidate::Device(1), Candidate::Device(0)]
    );
    // only null devices: they are tried anyway
    let (ranking, order) = output_candidates(&[Some("null".to_string()), Some("(null)".to_string())], None);
    assert!(ranking.is_empty());
    assert_eq!(order, vec![Candidate::Device(0), Candidate::Device(1)]);
}

#[test]
fn sound_server_default_comes_first() {
    let (_, order) = output_candidates(&names(), Some(Some("MacBook Pro Speakers".to_string())));
    assert_eq!(
        order,
        vec![
            Candidate::SystemDefault,
            Candidate::Device(4),
            Candidate::Device(5),
            Candidate::Device(1),
            Candidate::Device(0),
            // a device whose name cannot be read is never found listed
            Candidate::Device(1),
            Candidate::Device(3),
        ]
    );
    let (_, order) = output_candidates(&names(), Some(None));
    assert_eq!(
        order,
        vec![
            Candidate::SystemDefault,
            Candidate::Device(2),
            Candidate::Device(4),
            Candidate::Device(5),
            Candidate::Device(1),
            Candidate::Device(0),
            Candidate::Device(1),
            Candidate::Device(3),
        ]
    );
}

#[test]
fn configs_and_rates_are_picked() {
    assert_eq!(pick_sample_rate(44100, 192000), 48000);
    assert_eq!(pick_sample_rate(8000, 44100), 44100);
    assert_eq!(pick_sample_rate(96000, 192000), 192000);
    assert_eq!(pick_config(&[(1, true), (2, false), (2, true)]), Some(2));
    assert_eq!(pick_config(&[(1, false), (1, true)]), Some(0));
    assert_eq!(pick_config(&[]), None);
}

#[test]
fn headphone_is_the_first_device_of_another_kind() {
    // Scores as `score_device` gives them: built-in 100, display 40, USB 80.
    let ranked = [(100u8, 3usize), (100, 1), (40, 0), (80, 2)];
    assert_eq!(pick_headphone(&ranked, 100), Some(2));
    // A null device (score 0) is never taken.
    let only_same = [(100u8, 0usize), (0, 1), (100, 2)];
    assert_eq!(pick_headphone(&only_same, 100), None);
    assert_eq!(pick_headphone(&[], 80), None);
    assert_eq!(pick_headphone(&[(0u8, 0usize), (80, 1)], 100), Some(1));
}
