use weztermocil::paths::{
    config_dirs, get_global_config_path, get_local_config_path, get_path_for_layout_file,
    global_config_candidates, layout_file_candidates, session_layout_path,
};

fn list(items: &[&str]) -> Vec<String> {
    items.iter().map(|s| String::from(*s)).collect()
}

#[test]
fn the_folders_that_may_hold_layouts() {
    assert_eq!(config_dirs(), list(&[".weztermocil", ".teamocil", ".itermocil"]));
}

#[test]
fn folders_in_the_home_directory_have_the_tilde_expanded() {
    let candidates = global_config_candidates();
    assert_eq!(candidates.len(), 3);
    let names = config_dirs();
    for (candidate, name) in candidates.iter().zip(names.iter()) {
        assert!(candidate.ends_with(&format!("/{}", name)), "{}", candidate);
        assert_ne!(*candidate, format!("~/{}", name));
        assert!(!candidate.starts_with('~'), "{}", candidate);
    }
}

#[test]
fn the_last_folder_that_exists_is_used() {
    let dirs = list(&["/h/.weztermocil", "/h/.teamocil", "/h/.itermocil"]);
    assert_eq!(
        get_global_config_path(&dirs, &vec![true, true, false]),
        Ok(String::from("/h/.teamocil"))
    );
    assert_eq!(
        get_global_config_path(&dirs, &vec![true, false, true]),
        Ok(String::from("/h/.itermocil"))
    );
    assert_eq!(
        get_local_config_path(&dirs, &vec![true, false, false]),
        Ok(String::from("/h/.weztermocil"))
    );
    assert_eq!(get_local_config_path(&dirs, &vec![false, true]), Ok(String::from("/h/.teamocil")));
}

#[test]
fn no_folder_is_an_error_that_names_the_place() {
    let dirs = list(&[".weztermocil", ".teamocil", ".itermocil"]);
    assert_eq!(
        get_global_config_path(&dirs, &vec![false, false, false]),
        Err(String::from("Couldn't find a .weztermocil, .teamocil or .itermocil folder in the home directory (~)\nPlease make sure one of them exists before continuing"))
    );
    assert_eq!(
        get_local_config_path(&dirs, &vec![]),
        Err(String::from("Couldn't find a .weztermocil, .teamocil or .itermocil folder in the current directory\nPlease make sure one of them exists before continuing"))
    );
    assert!(get_global_config_path(&Vec::new(), &vec![true]).is_err());
    assert!(get_local_config_path(&list(&["a", ""]), &vec![true, true]).is_err());
}

#[test]
fn the_places_of_a_layout_file() {
    assert_eq!(
        layout_file_candidates("/work", Some(".teamocil"), Some("/home/me/.weztermocil"), "dev.yml"),
        list(&["/work/dev.yml", "/work/.teamocil/dev.yml", "/home/me/.weztermocil/dev.yml"])
    );
    assert_eq!(
        layout_file_candidates("/work", None, Some("/home/me/.weztermocil"), "dev.yml"),
        list(&["/work/dev.yml", "/home/me/.weztermocil/dev.yml"])
    );
    assert_eq!(
        layout_file_candidates("/work", Some(".itermocil"), None, "a.yml"),
        list(&["/work/a.yml", "/work/.itermocil/a.yml"])
    );
    assert_eq!(layout_file_candidates("", None, None, "a"), list(&["/a"]));
}

#[test]
fn the_first_place_that_has_the_file_is_used() {
    let places = list(&["/work/dev.yml", "/work/.teamocil/dev.yml", "/home/me/.weztermocil/dev.yml"]);
    assert_eq!(
        get_path_for_layout_file(&places, &vec![false, true, true]),
        Ok(String::from("/work/.teamocil/dev.yml"))
    );
    assert_eq!(
        get_path_for_layout_file(&places, &vec![true, true, true]),
        Ok(String::from("/work/dev.yml"))
    );
    assert_eq!(
        get_path_for_layout_file(&places, &vec![false, false, true]),
        Ok(String::from("/home/me/.weztermocil/dev.yml"))
    );
    assert_eq!(
        get_path_for_layout_file(&places, &vec![false, false, false]),
        Err(String::from("Couldn't find layout"))
    );
    assert_eq!(
        get_path_for_layout_file(&places, &vec![false]),
        Err(String::from("Couldn't find layout"))
    );
}

#[test]
fn the_file_named_outright_comes_before_the_file_found_by_name() {
    let found = || Some(String::from("/home/me/.weztermocil/dev.yml"));
    let named = || Some(String::from("/work/other.yml"));
    assert_eq!(session_layout_path(found(), named()), "/work/other.yml");
    assert_eq!(session_layout_path(found(), None), "/home/me/.weztermocil/dev.yml");
    assert_eq!(session_layout_path(None, named()), "/work/other.yml");
}

#[test]
fn without_a_path_the_layout_file_of_the_current_directory_is_used() {
    assert_eq!(session_layout_path(None, None), "./weztermocil.yml");
    assert_eq!(session_layout_path(Some(String::new()), None), "./weztermocil.yml");
    assert_eq!(session_layout_path(Some(String::from("a.yml")), Some(String::new())), "./weztermocil.yml");
}
