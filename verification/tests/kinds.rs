use parametric_eq::eq::FilterKind;
use parametric_eq::eq_effect_parameters::{BandKind, BandMode};

#[test]
fn filter_kind_decodes_every_code() {
    assert_eq!(FilterKind::from_u32(1), FilterKind::Bell);
    assert_eq!(FilterKind::from_u32(2), FilterKind::LowPass);
    assert_eq!(FilterKind::from_u32(3), FilterKind::HighPass);
    assert_eq!(FilterKind::from_u32(4), FilterKind::LowShelf);
    assert_eq!(FilterKind::from_u32(5), FilterKind::HighShelf);
    assert_eq!(FilterKind::from_u32(6), FilterKind::Notch);
    assert_eq!(FilterKind::from_u32(7), FilterKind::BandPass);
    assert_eq!(FilterKind::from_u32(8), FilterKind::Tilt);
    assert_eq!(FilterKind::from_u32(9), FilterKind::Mesa);
    assert_eq!(FilterKind::from_u32(10), FilterKind::AllPass);
}

#[test]
fn filter_kind_unknown_code_falls_back_to_low_pass() {
    assert_eq!(FilterKind::from_u32(0), FilterKind::LowPass);
    assert_eq!(FilterKind::from_u32(11), FilterKind::LowPass);
    assert_eq!(FilterKind::from_u32(255), FilterKind::LowPass);
    assert_eq!(FilterKind::from_u32(u32::MAX), FilterKind::LowPass);
}

#[test]
fn filter_kind_names() {
    assert_eq!(FilterKind::Bell.to_string(), "Bell");
    assert_eq!(FilterKind::LowPass.to_string(), "LowPass");
    assert_eq!(FilterKind::HighPass.to_string(), "HighPass");
    assert_eq!(FilterKind::LowShelf.to_string(), "LowShelf");
    assert_eq!(FilterKind::HighShelf.to_string(), "HighShelf");
    assert_eq!(FilterKind::Notch.to_string(), "Notch");
    assert_eq!(FilterKind::BandPass.to_string(), "BandPass");
    assert_eq!(FilterKind::Tilt.to_string(), "Tilt");
    assert_eq!(FilterKind::Mesa.to_string(), "Mesa");
    assert_eq!(FilterKind::AllPass.to_string(), "AllPass");
}

#[test]
fn filter_kind_name_matches_debug_form() {
    for code in 1..=10u32 {
        let kind = FilterKind::from_u32(code);
        assert_eq!(kind.to_string(), format!("{:?}", kind));
    }
}

#[test]
fn band_kind_decodes_every_code() {
    assert_eq!(BandKind::from_u8(0), BandKind::Bell);
    assert_eq!(BandKind::from_u8(1), BandKind::LowPass);
    assert_eq!(BandKind::from_u8(2), BandKind::HighPass);
    assert_eq!(BandKind::from_u8(3), BandKind::LowShelf);
    assert_eq!(BandKind::from_u8(4), BandKind::HighShelf);
    assert_eq!(BandKind::from_u8(5), BandKind::Notch);
    assert_eq!(BandKind::from_u8(6), BandKind::BandPass);
    assert_eq!(BandKind::from_u8(7), BandKind::AllPass);
}

#[test]
fn band_kind_unknown_code_falls_back_to_low_pass() {
    assert_eq!(BandKind::from_u8(8), BandKind::LowPass);
    assert_eq!(BandKind::from_u8(100), BandKind::LowPass);
    assert_eq!(BandKind::from_u8(u8::MAX), BandKind::LowPass);
}

#[test]
fn band_kind_names() {
    assert_eq!(BandKind::Bell.to_string(), "Bell");
    assert_eq!(BandKind::LowPass.to_string(), "LowPass");
    assert_eq!(BandKind::HighPass.to_string(), "HighPass");
    assert_eq!(BandKind::LowShelf.to_string(), "LowShelf");
    assert_eq!(BandKind::HighShelf.to_string(), "HighShelf");
    assert_eq!(BandKind::Notch.to_string(), "Notch");
    assert_eq!(BandKind::BandPass.to_string(), "BandPass");
    assert_eq!(BandKind::AllPass.to_string(), "AllPass");
}

#[test]
fn band_mode_decodes_codes() {
    assert_eq!(BandMode::from_u8(0), BandMode::Butterworth);
    assert_eq!(BandMode::from_u8(1), BandMode::LinkwitzRiley);
}

#[test]
fn band_mode_unknown_code_falls_back_to_butterworth() {
    assert_eq!(BandMode::from_u8(2), BandMode::Butterworth);
    assert_eq!(BandMode::from_u8(u8::MAX), BandMode::Butterworth);
}

#[test]
fn band_mode_names() {
    assert_eq!(BandMode::Butterworth.to_string(), "Butterworth");
    assert_eq!(BandMode::LinkwitzRiley.to_string(), "LinkwitzRiley");
}
