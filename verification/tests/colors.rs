use tinyfiledialogs::{hex_to_rgb, rgb_to_hex};

#[test]
fn rgb_to_hex_red() {
    assert_eq!(rgb_to_hex(&[255, 0, 0]), "#ff0000");
}

#[test]
fn rgb_to_hex_mixed() {
    assert_eq!(rgb_to_hex(&[1, 2, 3]), "#010203");
    assert_eq!(rgb_to_hex(&[0, 0, 0]), "#000000");
    assert_eq!(rgb_to_hex(&[255, 255, 255]), "#ffffff");
    assert_eq!(rgb_to_hex(&[171, 205, 239]), "#abcdef");
}

#[test]
fn hex_to_rgb_with_hash() {
    assert_eq!(hex_to_rgb("#ff0000"), [255, 0, 0]);
}

#[test]
fn hex_to_rgb_without_hash() {
    assert_eq!(hex_to_rgb("ff0000"), [255, 0, 0]);
}

#[test]
fn hex_to_rgb_uppercase() {
    assert_eq!(hex_to_rgb("#ABCDEF"), [171, 205, 239]);
}

#[test]
fn hex_to_rgb_malformed_digits_read_as_zero() {
    assert_eq!(hex_to_rgb("zz0000"), [0, 0, 0]);
    assert_eq!(hex_to_rgb("#zzff00"), [0, 255, 0]);
    assert_eq!(hex_to_rgb("00z0ff"), [0, 0, 255]);
}

#[test]
fn hex_to_rgb_round_trip_samples() {
    for rgb in [
        [0u8, 0, 0],
        [255, 255, 255],
        [255, 0, 0],
        [1, 2, 3],
        [16, 32, 64],
        [9, 99, 199],
        [128, 200, 254],
    ] {
        assert_eq!(hex_to_rgb(&rgb_to_hex(&rgb)), rgb);
    }
}

#[test]
fn hex_to_rgb_extra_hashes() {
    assert_eq!(hex_to_rgb("##ff0000"), [255, 0, 0]);
}
