use bereal::region::decimal_string;
use bereal::{Limit, Region};

const ALL_REGIONS: [Region; 4] = [Region::USCentral, Region::EuropeWest, Region::AsiaWest, Region::AsiaEast];

#[test]
fn region_tokens_are_exact() {
    assert_eq!(Region::USCentral.to_string(), "us-central");
    assert_eq!(Region::EuropeWest.to_string(), "europe-west");
    assert_eq!(Region::AsiaWest.to_string(), "asia-west");
    assert_eq!(Region::AsiaEast.to_string(), "asia-east");
}

#[test]
fn region_tokens_round_trip() {
    for r in ALL_REGIONS {
        assert_eq!(Region::from_token(&r.to_string()), Some(r));
    }
}

#[test]
fn region_tokens_are_distinct() {
    for a in ALL_REGIONS {
        for b in ALL_REGIONS {
            if a != b {
                assert_ne!(a.to_string(), b.to_string());
            }
        }
    }
}

#[test]
fn unknown_tokens_read_as_no_region() {
    assert_eq!(Region::from_token(""), None);
    assert_eq!(Region::from_token("asia"), None);
    assert_eq!(Region::from_token("Europe-West"), None);
    assert_eq!(Region::from_token("us-central "), None);
    assert_eq!(Region::from_token("europe_west"), None);
}

#[test]
fn limit_params_are_exact() {
    assert_eq!(Limit::Count(1).to_param(), "1");
    assert_eq!(Limit::Count(90).to_param(), "90");
    assert_eq!(Limit::Count(250).to_param(), "250");
    assert_eq!(Limit::Default.to_param(), "90");
    assert_eq!(Limit::All.to_param(), "NONE");
}

#[test]
fn limit_counts_outside_the_positive_range_are_sent_as_given() {
    assert_eq!(Limit::Count(0).to_param(), "0");
    assert_eq!(Limit::Count(-5).to_param(), "-5");
}

#[test]
fn decimal_string_matches_display() {
    for n in [i16::MIN, -1000, -10, -9, -1, 0, 7, 9, 10, 99, 100, 12345, i16::MAX] {
        assert_eq!(decimal_string(n), n.to_string());
    }
    assert_eq!(decimal_string(i16::MIN), "-32768");
    assert_eq!(decimal_string(i16::MAX), "32767");
}
