use rabbit_infra::drm_device::card_for_connector;

#[test]
fn drm_class_entries_name_the_card_of_a_connector() {
    assert_eq!(card_for_connector("card0-HDMI-A-1", "HDMI-A-1"), Some("card0"));
    assert_eq!(card_for_connector("card12-eDP-1", "eDP-1"), Some("card12"));
    assert_eq!(card_for_connector("card0-HDMI-A-1", "HDMI-A-2"), None);
    assert_eq!(card_for_connector("card0", "card0"), None);
    assert_eq!(card_for_connector("renderD128-x", "x"), None);
    assert_eq!(card_for_connector("card-DP-1", "DP-1"), None);
    assert_eq!(card_for_connector("cardX-DP-1", "DP-1"), None);
    assert_eq!(card_for_connector("version", "version"), None);
}
