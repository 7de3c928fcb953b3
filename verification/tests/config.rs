use termal::color::{Color, ColorError};
use termal::config::{Config, ConfigError};

#[test]
fn defaults_without_a_file() {
    let config = Config::load(None).ok().unwrap();
    assert_eq!(config.fg, Color::new(0xd7, 0xe0, 0xda));
    assert_eq!(config.bg, Color::new(0x0d, 0x16, 0x17));
    assert_eq!(
        config.colors,
        vec![
            Color::new(0x28, 0x28, 0x28),
            Color::new(0xcc, 0x24, 0x1d),
            Color::new(0x98, 0x97, 0x1a),
            Color::new(0xd6, 0x5d, 0x0e),
            Color::new(0x45, 0x85, 0x88),
            Color::new(0xb1, 0x62, 0x86),
            Color::new(0x83, 0xa5, 0x98),
            Color::new(0xeb, 0xdb, 0xb2),
        ]
    );
    assert_eq!(config.tab_max, 400);
    assert_eq!(config.scrollback, 400);
    assert_eq!(config.font, "Iosevka Nerd Font Mono:style=Regular");
    assert_eq!(config.bell, "assets/pluh.wav");
}

#[test]
fn defaults_for_an_empty_document() {
    let config = Config::load(Some("")).ok().unwrap();
    let standard = Config::standard().ok().unwrap();
    assert_eq!(config.fg, standard.fg);
    assert_eq!(config.bg, standard.bg);
    assert_eq!(config.colors, standard.colors);
    assert_eq!(config.tab_max, 400);
    assert_eq!(config.font, standard.font);
}

#[test]
fn options_from_a_document() {
    let text = "foreground = \"ff-00-01\"\nbackground = \"\"\ncolors = [\"01-02-03\", 7, \"0a-0b-0c\"]\ntab_max = 120\nscrollback = \"many\"\nfont = \"Mono\"\nbell = 3\n";
    let config = Config::load(Some(text)).ok().unwrap();
    assert_eq!(config.fg, Color::new(255, 0, 1));
    assert_eq!(config.bg, Color::new(0, 0, 0));
    assert_eq!(
        config.colors,
        vec![Color::new(1, 2, 3), Color::new(0, 0, 0), Color::new(10, 11, 12)]
    );
    assert_eq!(config.tab_max, 120);
    assert_eq!(config.scrollback, 0);
    assert_eq!(config.font, "Mono");
    assert_eq!(config.bell, "assets/pluh.wav");
}

#[test]
fn colors_that_are_no_array_give_an_empty_palette() {
    let config = Config::load(Some("colors = \"cc-24-1d\"")).ok().unwrap();
    assert!(config.colors.is_empty());
}

#[test]
fn negative_number_is_cut_to_the_word() {
    let config = Config::load(Some("tab_max = -1")).ok().unwrap();
    assert_eq!(config.tab_max, usize::MAX);
}

#[test]
fn config_errors() {
    assert_eq!(Config::load(Some("foreground = ")).err(), Some(ConfigError::Syntax));
    assert_eq!(Config::load(Some("= 3")).err(), Some(ConfigError::Syntax));
    assert_eq!(
        Config::load(Some("foreground = \"zz-00-00\"")).err(),
        Some(ConfigError::Color(ColorError::InvalidDigit))
    );
    assert_eq!(
        Config::load(Some("background = \"00-00\"")).err(),
        Some(ConfigError::Color(ColorError::Format))
    );
    assert_eq!(
        Config::load(Some("colors = [\"00-00-00\", \"1--2\"]")).err(),
        Some(ConfigError::Color(ColorError::Empty))
    );
    assert_eq!(
        Config::load(Some("foreground = \"x\"\nbackground = \"1--2\"")).err(),
        Some(ConfigError::Color(ColorError::Format))
    );
}
