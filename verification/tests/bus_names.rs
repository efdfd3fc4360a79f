use kairpods_service::bus_names::{
    concat3, contains, is_kdeconnect_bus_name, is_mpris_bus_name, same_text, scan_players,
    starts_with,
};

#[test]
fn text_helpers() {
    assert!(starts_with("org.mpris.x", "org."));
    assert!(starts_with("abc", ""));
    assert!(!starts_with("ab", "abc"));
    assert!(contains("xxkdeconnectyy", "kdeconnect"));
    assert!(contains("abc", ""));
    assert!(!contains("kdeconnec", "kdeconnect"));
    assert!(same_text("Playing", "Playing"));
    assert!(!same_text("Playing", "Play"));
    assert_eq!(concat3("a", "bc", "d"), "abcd");
}

#[test]
fn name_classes() {
    assert!(is_mpris_bus_name("org.mpris.MediaPlayer2.vlc"));
    assert!(!is_mpris_bus_name("org.mpris.MediaPlayer3.vlc"));
    assert!(is_kdeconnect_bus_name("x.KDEConnect"));
    assert!(!is_kdeconnect_bus_name("x.KdeConnect"));
    let names = vec![
        "org.mpris.MediaPlayer2.kdeconnect.a".to_string(),
        "org.gnome.Shell".to_string(),
    ];
    assert_eq!(scan_players(&names), (false, true));
    assert_eq!(scan_players(&Vec::new()), (false, false));
}
