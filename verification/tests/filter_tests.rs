use deadlocked::filter::matches_filter;

#[test]
fn empty_filter_matches_everything() {
    assert!(matches_filter("", "Aimbot FOV"));
    assert!(matches_filter("", ""));
}

#[test]
fn case_insensitive_substring() {
    assert!(matches_filter("fov", "Aimbot FOV"));
    assert!(matches_filter("AIM", "aimbot fov"));
    assert!(matches_filter("bot f", "Aimbot FOV"));
    assert!(!matches_filter("fovx", "Aimbot FOV"));
    assert!(!matches_filter("x", ""));
}

#[test]
fn unicode_labels() {
    assert!(matches_filter("ÇEK", "geri çekim"));
    // Unicode lower-casing maps the dotted capital I to "i" followed by a
    // combining dot, which plain "i" does not match.
    assert!(!matches_filter("GECİKME", "tetik gecikme"));
    assert!(matches_filter("GECIKME", "tetik gecikme"));
    assert!(matches_filter("ü", "Über"));
}

#[test]
fn label_matches_itself() {
    for label in ["Recoil", "Görünürlük kontrolü", "a"] {
        assert!(matches_filter(label, label));
    }
}
