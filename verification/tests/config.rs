use litematica_json_parser::config::{Config, Theme};

#[test]
fn new_config_follows_system_theme() {
    assert_eq!(Config::new().theme, Theme::System);
    assert_eq!(Config::default().theme, Theme::System);
    assert_eq!(Theme::default(), Theme::System);
}

#[test]
fn theme_positions_follow_iced_order() {
    assert_eq!(Theme::System.builtin_index(), None);
    assert_eq!(Theme::Light.builtin_index(), Some(0));
    assert_eq!(Theme::Dark.builtin_index(), Some(1));
    assert_eq!(Theme::Ferra.builtin_index(), Some(21));
    assert_eq!(Theme::from_builtin_index(Some(12)), Theme::TokyoNight);
    assert_eq!(Theme::from_builtin_index(Some(22)), Theme::System);
    assert_eq!(Theme::from_builtin_index(None), Theme::System);
}

#[test]
fn every_position_round_trips() {
    for i in 0..22 {
        let t = Theme::from_builtin_index(Some(i));
        assert_ne!(t, Theme::System);
        assert_eq!(t.builtin_index(), Some(i));
    }
}

#[test]
fn to_iced_theme_picks_builtin() {
    assert!(Theme::to_iced_theme(Theme::System).is_none());
    assert_eq!(Theme::to_iced_theme(Theme::Light), Some(iced::Theme::Light));
    assert_eq!(Theme::to_iced_theme(Theme::Dracula), Some(iced::Theme::Dracula));
    assert_eq!(Theme::to_iced_theme(Theme::CatppuccinMocha), Some(iced::Theme::CatppuccinMocha));
    assert_eq!(Theme::to_iced_theme(Theme::Ferra), Some(iced::Theme::Ferra));
}

#[test]
fn from_iced_theme_matches_variant() {
    assert_eq!(Theme::from_iced_theme(None), Theme::System);
    assert_eq!(Theme::from_iced_theme(Some(iced::Theme::Nord)), Theme::Nord);
    assert_eq!(Theme::from_iced_theme(Some(iced::Theme::KanagawaLotus)), Theme::KanagawaLotus);
    let custom = iced::Theme::custom("Mine", iced::Theme::Dark.palette());
    assert_eq!(Theme::from_iced_theme(Some(custom)), Theme::System);
}

#[test]
fn iced_round_trip_for_every_theme() {
    for i in 0..22 {
        let t = Theme::from_builtin_index(Some(i));
        assert_eq!(Theme::from_iced_theme(Theme::to_iced_theme(t)), t);
    }
    assert_eq!(Theme::from_iced_theme(Theme::to_iced_theme(Theme::System)), Theme::System);
}
