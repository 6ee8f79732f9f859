use calceph::codes::{PositionTarget, PositionUnit, TimeUnit, Timescale};
use calceph::error::Error;
use calceph::outcome::{
    bytes_representable, compute_request_codes, open_outcome, status_outcome, timescale_from_code,
    validate_path_bytes,
};

#[test]
fn a_path_with_an_interior_nul_is_rejected_before_any_native_call() {
    let bad = vec![b'/', b't', 0, b'p'];
    assert_eq!(validate_path_bytes(&bad), Err(Error::BadFile));
    assert!(!bytes_representable(&bad));
}

#[test]
fn a_nul_anywhere_in_the_path_is_rejected() {
    assert_eq!(validate_path_bytes(&vec![0]), Err(Error::BadFile));
    assert_eq!(validate_path_bytes(&vec![0, b'a']), Err(Error::BadFile));
    assert_eq!(validate_path_bytes(&vec![b'a', 0]), Err(Error::BadFile));
}

#[test]
fn a_nul_free_path_is_accepted() {
    let good = b"/data/ephemeris.dat".to_vec();
    assert_eq!(validate_path_bytes(&good), Ok(()));
    assert!(bytes_representable(&good));
    assert_eq!(validate_path_bytes(&Vec::new()), Ok(()));
}

#[test]
fn a_null_handle_from_open_carries_the_channel_message() {
    let r = open_outcome(true, String::from("open failure: no such file"));
    assert_eq!(
        r,
        Err(Error::LowerLevel(String::from("open failure: no such file")))
    );
    assert_eq!(open_outcome(false, String::from("stale message")), Ok(()));
}

#[test]
fn a_zero_status_carries_the_channel_message() {
    let r = status_outcome(0, String::from("segment missing"));
    assert_eq!(r, Err(Error::LowerLevel(String::from("segment missing"))));
    assert_eq!(status_outcome(1, String::from("stale message")), Ok(()));
    assert_eq!(status_outcome(-1, String::new()), Ok(()));
}

#[test]
fn the_two_documented_timescales_decode() {
    assert_eq!(timescale_from_code(1), Ok(Timescale::TDB));
    assert_eq!(timescale_from_code(2), Ok(Timescale::TCB));
}

#[test]
fn an_undocumented_timescale_is_a_recoverable_error() {
    assert_eq!(timescale_from_code(0), Err(Error::UnknownTimescale(0)));
    assert_eq!(timescale_from_code(3), Err(Error::UnknownTimescale(3)));
    assert_eq!(timescale_from_code(-7), Err(Error::UnknownTimescale(-7)));
}

#[test]
fn mars_from_the_solar_system_barycenter_in_au_per_second() {
    let r = compute_request_codes(
        PositionTarget::MarsBarycenter,
        PositionTarget::SolarSystemBarycenter,
        PositionUnit::AstronomicalUnit,
        TimeUnit::Second,
    );
    assert_eq!(r, Some((4, 12, 9)));
}

#[test]
fn a_request_with_an_overflowing_asteroid_is_refused() {
    let r = compute_request_codes(
        PositionTarget::Asteroid(i32::MAX),
        PositionTarget::SolarSystemBarycenter,
        PositionUnit::Kilometer,
        TimeUnit::Day,
    );
    assert_eq!(r, None);
    let r = compute_request_codes(
        PositionTarget::Earth,
        PositionTarget::Asteroid(i32::MAX),
        PositionUnit::Kilometer,
        TimeUnit::Day,
    );
    assert_eq!(r, None);
}
