use barkdocs::style::Color;
use barkdocs::theme::Theme;

#[test]
fn test_default_theme() {
    let theme = Theme::default();
    assert_eq!(theme.name, "default");
}

#[test]
fn test_by_name_default() {
    let theme = Theme::by_name("default");
    assert_eq!(theme.name, "default");
}

#[test]
fn test_by_name_case_insensitive() {
    let theme1 = Theme::by_name("DRACULA");
    let theme2 = Theme::by_name("dracula");
    let theme3 = Theme::by_name("Dracula");

    assert_eq!(theme1.name, "dracula");
    assert_eq!(theme2.name, "dracula");
    assert_eq!(theme3.name, "dracula");
}

#[test]
fn test_by_name_unknown_returns_default() {
    let theme = Theme::by_name("nonexistent-theme");
    assert_eq!(theme.name, "default");
}

#[test]
fn test_all_themes_loadable() {
    for name in Theme::available_themes() {
        let theme = Theme::by_name(name);
        assert!(!theme.name.is_empty());
    }
}

#[test]
fn test_available_themes_includes_known() {
    let themes = Theme::available_themes();
    assert!(themes.contains(&"default"));
    assert!(themes.contains(&"dracula"));
    assert!(themes.contains(&"gruvbox"));
    assert!(themes.contains(&"nord"));
    assert!(themes.contains(&"catppuccin"));
}

#[test]
fn test_theme_aliases() {
    let theme1 = Theme::by_name("solarized");
    let theme2 = Theme::by_name("solarized-dark");
    assert_eq!(theme1.name, theme2.name);

    let theme3 = Theme::by_name("tokyo-night");
    let theme4 = Theme::by_name("tokyonight");
    assert_eq!(theme3.name, theme4.name);

    let theme5 = Theme::by_name("onedark");
    let theme6 = Theme::by_name("one-dark");
    assert_eq!(theme5.name, theme6.name);
}

#[test]
fn test_dracula_theme() {
    let theme = Theme::dracula();
    assert_eq!(theme.name, "dracula");
    assert_eq!(theme.border_focused, Color::Rgb(189, 147, 249));
}

#[test]
fn test_gruvbox_theme() {
    let theme = Theme::gruvbox();
    assert_eq!(theme.name, "gruvbox");
}

#[test]
fn test_nord_theme() {
    let theme = Theme::nord();
    assert_eq!(theme.name, "nord");
}

#[test]
fn test_matrix_theme() {
    let theme = Theme::matrix();
    assert_eq!(theme.name, "matrix");
    assert_eq!(theme.border_focused, Color::Rgb(0, 255, 0));
}

#[test]
fn test_solarized_light_vs_dark() {
    let dark = Theme::solarized_dark();
    let light = Theme::solarized_light();

    assert_eq!(dark.name, "solarized-dark");
    assert_eq!(light.name, "solarized-light");
    assert_ne!(dark.header_bg, light.header_bg);
}

#[test]
fn themes_cycle_in_the_order_of_their_names() {
    let names = Theme::available_themes();
    let mut theme = Theme::by_name(names[0]);
    for i in 1..=names.len() {
        theme = theme.next();
        assert_eq!(theme.name, names[i % names.len()]);
    }
    assert_eq!(Theme::matrix().next().name, "default");
}

#[test]
fn by_name_lowers_every_letter() {
    assert_eq!(Theme::by_name("ToKyO-NiGhT").name, "tokyo-night");
    assert_eq!(Theme::by_name("Solarized-Light").name, "solarized-light");
    assert_eq!(Theme::by_name("MONOKAI").name, "monokai");
    assert_eq!(Theme::by_name("Catppuccin").name, "catppuccin");
    assert_eq!(Theme::by_name("Matrix").header_bg, Color::Black);
}
