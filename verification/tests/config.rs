use arkv::config::Config;

#[test]
fn config_dir_is_under_home() {
    assert_eq!(Config::config_dir("/home/u"), "/home/u/.config/arkv");
}

#[test]
fn config_path_names_the_file() {
    assert_eq!(Config::config_path("/home/u"), "/home/u/.config/arkv/config.toml");
}

#[test]
fn config_path_tolerates_trailing_separator() {
    assert_eq!(Config::config_path("/home/u/"), "/home/u/.config/arkv/config.toml");
}
