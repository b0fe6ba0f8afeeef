use meteo_station::theme::{
    battery_color, chip_health, css, health_color, palette_scss, palette_swatches, rssi_color,
    Health, Rgb, Swatch,
};

#[test]
fn battery_color_thresholds() {
    assert_eq!(battery_color(50), Swatch::Green);
    assert_eq!(battery_color(49), Swatch::Yellow);
    assert_eq!(battery_color(20), Swatch::Yellow);
    assert_eq!(battery_color(19), Swatch::Red);
}

#[test]
fn rssi_color_thresholds() {
    assert_eq!(rssi_color(-70), Swatch::Green);
    assert_eq!(rssi_color(-81), Swatch::Yellow);
    assert_eq!(rssi_color(-91), Swatch::Red);
    assert_eq!(rssi_color(-90), Swatch::Yellow);
}

#[test]
fn css_base_colour() {
    assert_eq!(css(Swatch::Base.rgb()), "#1e1e2e");
}

#[test]
fn css_red_colour() {
    assert_eq!(css(Swatch::Red.rgb()), "#f38ba8");
}

#[test]
fn css_formats_extremes() {
    assert_eq!(css(Rgb { r: 0, g: 0x0a, b: 0xff }), "#000aff");
}

#[test]
fn generated_palette_scss_contains_all_vars() {
    let scss = palette_scss();
    let expected_vars = [
        "--base:", "--mantle:", "--crust:", "--border:", "--surface0:", "--surface2:",
        "--text:", "--subtext1:", "--subtext0:", "--overlay2:", "--overlay1:", "--overlay0:",
        "--peach:", "--lavender:", "--teal:", "--sapphire:", "--yellow:", "--blue:", "--sky:",
        "--green:", "--mauve:", "--red:",
    ];
    for var in &expected_vars {
        assert!(scss.contains(var), "Missing CSS variable {var} in _palette.scss");
    }
    assert!(scss.starts_with(":root {\n    --base: #1e1e2e;\n"));
    assert!(scss.ends_with("    --red: #f38ba8;\n}\n"));
    assert_eq!(palette_swatches().len(), 22);
}

#[test]
fn chip_health_fault_wins() {
    assert_eq!(chip_health(true, true), Health::Fault);
    assert_eq!(chip_health(false, true), Health::Alert);
    assert_eq!(chip_health(false, false), Health::Good);
    assert_eq!(health_color(Health::Fault), Swatch::Red);
    assert_eq!(health_color(Health::Alert), Swatch::Yellow);
    assert_eq!(health_color(Health::Good), Swatch::Green);
}
