use mcmc_demo::settings::Settings;

#[test]
fn settings_default_is_default_panel() {
    assert!(Settings::default() == Settings::Default);
    assert!(Settings::default() != Settings::EditDistribution);
}
