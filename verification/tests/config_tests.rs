use ricture::color::{is_valid_hex_color, parse_rrggbbaa, Rgba8};
use ricture::config::{config_path, AppConfig, Config, ConfigAppearance, ConfigGeneral};

#[test]
fn hex_colors_are_checked() {
    assert!(is_valid_hex_color("#ffffff"));
    assert!(is_valid_hex_color("#A0b1C2"));
    assert!(is_valid_hex_color("#00112233"));
    assert!(!is_valid_hex_color("ffffff"));
    assert!(!is_valid_hex_color("#fffff"));
    assert!(!is_valid_hex_color("#fffffff"));
    assert!(!is_valid_hex_color("#ggffff"));
    assert!(!is_valid_hex_color("#ffffff\n"));
    assert!(!is_valid_hex_color("##ffffff"));
    assert!(!is_valid_hex_color(""));
}

#[test]
fn colors_parse_with_default_alpha() {
    assert_eq!(parse_rrggbbaa("#12abEF"), Rgba8 { r: 0x12, g: 0xab, b: 0xef, a: 0xff });
    assert_eq!(parse_rrggbbaa("#12abEF80"), Rgba8 { r: 0x12, g: 0xab, b: 0xef, a: 0x80 });
}

#[test]
fn appearance_validation_message() {
    let bad = ConfigAppearance { rect_color: "white".to_string() };
    assert_eq!(
        bad.validate(),
        Err("invalid value for 'rect_color': valid value is '#rrggbb' or '#rrggbbaa'.".to_string())
    );
    assert_eq!(ConfigAppearance::default().validate(), Ok(()));
}

#[test]
fn defaults_for_home() {
    let c = Config::for_home("/home/me");
    assert_eq!(c.general.save_path, "/home/me/Pictures/Screenshots");
    assert_eq!(c.appearance.rect_color, "#ffffff");
    assert!(!c.general.enable_notifications);
}

#[test]
fn save_dir_is_the_parent() {
    let g = ConfigGeneral { save_path: "/tmp/shots/a.png".to_string(), enable_notifications: false };
    assert_eq!(g.save_dir(), Some("/tmp/shots".to_string()));
    let bare = ConfigGeneral { save_path: "shots".to_string(), enable_notifications: false };
    assert_eq!(bare.save_dir(), None);
    let root = ConfigGeneral { save_path: "/".to_string(), enable_notifications: false };
    assert_eq!(root.save_dir(), None);
}

#[test]
fn missing_save_dir_is_an_error() {
    let g = ConfigGeneral { save_path: "/nowhere/shots".to_string(), enable_notifications: false };
    assert_eq!(
        g.validate(false),
        Err("invalid value for 'save_path': directory '/nowhere' does not exist.".to_string())
    );
    assert_eq!(g.validate(true), Ok(()));
}

#[test]
fn general_error_comes_first() {
    let c = Config {
        general: ConfigGeneral { save_path: "/nowhere/shots".to_string(), enable_notifications: true },
        appearance: ConfigAppearance { rect_color: "red".to_string() },
    };
    assert!(c.validate(false).unwrap_err().contains("save_path"));
    assert!(c.validate(true).unwrap_err().contains("rect_color"));
}

#[test]
fn config_file_location() {
    assert_eq!(config_path(Some("/xdg".to_string()), None), "/xdg/ricture/config.toml");
    assert_eq!(config_path(Some("/xdg/".to_string()), Some("/h".to_string())), "/xdg/ricture/config.toml");
    assert_eq!(config_path(None, Some("/home/me".to_string())), "/home/me/.config/ricture/config.toml");
    assert_eq!(config_path(Some(String::new()), None), "ricture/config.toml");
}

#[test]
fn app_config_from_validated_config() {
    let mut c = Config::for_home("/h");
    c.appearance.rect_color = "#ff000080".to_string();
    assert_eq!(AppConfig::from_config(&c).rect_color, Rgba8 { r: 255, g: 0, b: 0, a: 0x80 });
    assert_eq!(AppConfig::default().rect_color, Rgba8 { r: 255, g: 255, b: 255, a: 255 });
}

#[test]
fn empty_save_path_needs_no_directory() {
    let g = ConfigGeneral { save_path: String::new(), enable_notifications: false };
    assert_eq!(g.save_dir(), None);
    assert_eq!(g.validate(false), Ok(()));
    let c = Config { general: g, appearance: ConfigAppearance { rect_color: "#123456".to_string() } };
    assert_eq!(c.validate(false), Ok(()));
}
