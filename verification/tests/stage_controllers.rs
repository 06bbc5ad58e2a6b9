use kmf_installer::select_game::{PathCheck, SelectGameState};
use kmf_installer::select_mods::{
    catalog, find_mod_index, mod_input_id, mods_item_class, SelectModsState,
};
use kmf_installer::select_source::SelectSourceState;

#[test]
fn focus_clears_only_for_focused_package() {
    // Select {pack-a, pack-b} with the focus on pack-a.
    let a = String::from("pack-a");
    let b = String::from("pack-b");
    let mut st = SelectModsState::new();
    st.set_checked(&b, true);
    st.set_checked(&a, true);
    assert_eq!(st.focus, Some(a.clone()));

    // Unchecking the non-focused package keeps the focus.
    st.set_checked(&b, false);
    assert_eq!(st.focus, Some(a.clone()));
    assert_eq!(st.selected, vec![a.clone()]);

    // From the same starting point, unchecking the focused one clears it.
    let mut st = SelectModsState::new();
    st.set_checked(&b, true);
    st.set_checked(&a, true);
    st.set_checked(&a, false);
    assert_eq!(st.focus, None);
    assert_eq!(st.selected, vec![b.clone()]);
}

#[test]
fn checking_twice_keeps_selection_duplicate_free() {
    let a = String::from("pack-a");
    let mut st = SelectModsState::new();
    st.set_checked(&a, true);
    st.set_checked(&a, true);
    assert_eq!(st.selected, vec![a.clone()]);
    assert_eq!(st.focus, Some(a));
}

#[test]
fn next_control_iff_selection_nonempty() {
    let a = String::from("pack-a");
    let mut st = SelectModsState::new();
    assert!(!st.next_available());
    st.set_checked(&a, true);
    assert!(st.next_available());
    assert_eq!(st.confirm(), vec![a.clone()]);
    st.set_checked(&a, false);
    assert!(!st.next_available());
}

#[test]
fn next_control_iff_source_chosen() {
    let mut st = SelectSourceState::new();
    assert!(!st.next_available());
    st.choose_option(&String::from("somewhere-else"));
    assert!(!st.next_available());
    st.choose_option(&String::from("kmf-station"));
    assert!(st.next_available());
    assert_eq!(st.confirm(), Some(String::from("https://kmf-station.zice.top")));
}

#[test]
fn unknown_source_option_is_ignored() {
    let mut st = SelectSourceState::new();
    st.choose_option(&String::from("kmf-station"));
    st.choose_option(&String::from("bogus"));
    assert_eq!(st.confirm(), Some(String::from("https://kmf-station.zice.top")));
}

#[test]
fn next_control_iff_path_check_succeeded() {
    let mut st = SelectGameState::new();
    assert!(!st.next_available());
    assert!(st.commit_path(String::from("/game")));
    assert!(!st.next_available());
    st.apply_check_result(Ok(true));
    assert!(st.next_available());
    assert_eq!(st.status_text(), None);
}

#[test]
fn missing_path_blocks_advancement() {
    let mut st = SelectGameState::new();
    assert!(st.commit_path(String::from("/does/not/exist")));
    st.apply_check_result(Ok(false));
    assert_eq!(st.status, PathCheck::Failed);
    assert!(!st.next_available());
    assert_eq!(st.status_text(), Some(String::from("错误")));

    // An I/O error blocks just the same.
    st.apply_check_result(Err(String::from("permission denied")));
    assert!(!st.next_available());

    // Only a path that exists unblocks the stage.
    assert!(st.commit_path(String::from("/game")));
    st.apply_check_result(Ok(true));
    assert!(st.next_available());
}

#[test]
fn empty_path_short_circuits_to_pending() {
    let mut st = SelectGameState::new();
    st.apply_check_result(Ok(true));
    assert!(st.next_available());
    assert!(!st.commit_path(String::new()));
    assert_eq!(st.status, PathCheck::Pending);
    assert!(!st.next_available());
    assert_eq!(st.status_text(), Some(String::from("正在检查")));
}

#[test]
fn catalog_has_the_localization_package() {
    let cat = catalog();
    assert_eq!(cat.len(), 1);
    assert_eq!(cat[0].id, "korabli-lesta-l10n");
    assert_eq!(cat[0].name, "澪刻战舰世界汉化");
    assert_eq!(cat[0].description, "基本汉化包");
}

#[test]
fn package_row_strings_are_exact() {
    assert_eq!(mods_item_class(true), "mods-sidebar-item checked");
    assert_eq!(mods_item_class(false), "mods-sidebar-item");
    assert_eq!(mod_input_id(&String::from("pack-a")), "select-mod-pack-a");
}

#[test]
fn find_mod_index_hits_and_misses() {
    let cat = catalog();
    assert_eq!(find_mod_index(&cat, &String::from("korabli-lesta-l10n")), Some(0));
    assert_eq!(find_mod_index(&cat, &String::from("absent")), None);
}
