use co2mon::SeverityLevel;
use co2mon::severity::classify;

#[test]
fn boundaries_map_to_their_buckets() {
    assert_eq!(classify(450), SeverityLevel::Fresh);
    assert_eq!(classify(451), SeverityLevel::Good);
    assert_eq!(classify(700), SeverityLevel::Good);
    assert_eq!(classify(701), SeverityLevel::Moderate);
    assert_eq!(classify(1000), SeverityLevel::Moderate);
    assert_eq!(classify(1001), SeverityLevel::Unhealthy);
    assert_eq!(classify(1500), SeverityLevel::Unhealthy);
    assert_eq!(classify(1501), SeverityLevel::Dangerous);
    assert_eq!(classify(2500), SeverityLevel::Dangerous);
    assert_eq!(classify(2501), SeverityLevel::Hazardous);
}

#[test]
fn negative_concentrations_fall_into_the_lowest_bucket() {
    assert_eq!(classify(-1), SeverityLevel::Fresh);
    assert_eq!(classify(i32::MIN), SeverityLevel::Fresh);
    assert_eq!(classify(0), SeverityLevel::Fresh);
}

#[test]
fn extremes_map_to_the_outer_buckets() {
    assert_eq!(classify(i32::MAX), SeverityLevel::Hazardous);
    assert_eq!(classify(300), SeverityLevel::Fresh);
    assert_eq!(classify(900), SeverityLevel::Moderate);
    assert_eq!(classify(3000), SeverityLevel::Hazardous);
}

#[test]
fn classification_is_monotonic_on_samples() {
    let samples = [
        i32::MIN,
        -10,
        0,
        450,
        451,
        700,
        701,
        1000,
        1001,
        1500,
        1501,
        2500,
        2501,
        10_000,
        i32::MAX,
    ];
    let mut previous_rank = 0u8;
    for c in samples {
        let rank = classify(c).rank();
        assert!(previous_rank <= rank);
        previous_rank = rank;
    }
}

#[test]
fn each_level_has_its_label_and_rank() {
    assert_eq!(SeverityLevel::Fresh.label(), "Fresh");
    assert_eq!(SeverityLevel::Good.label(), "Good");
    assert_eq!(SeverityLevel::Moderate.label(), "Moderate");
    assert_eq!(SeverityLevel::Unhealthy.label(), "Unhealthy");
    assert_eq!(SeverityLevel::Dangerous.label(), "Dangerous");
    assert_eq!(SeverityLevel::Hazardous.label(), "Hazardous");
    assert_eq!(SeverityLevel::Fresh.rank(), 0);
    assert_eq!(SeverityLevel::Hazardous.rank(), 5);
}
