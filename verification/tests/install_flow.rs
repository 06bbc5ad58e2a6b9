use kmf_installer::install::{
    build_plan, engine_cache_dir, game_location, package_uri, validated_package_uris,
    EngineOutcome, InstallStatus,
};
use kmf_installer::view::{active_stage_view, StageView};
use kmf_installer::wizard::{Event, Wizard};

#[test]
fn engine_strings_are_exact() {
    assert_eq!(game_location(&String::from("/game")), "file:/game");
    assert_eq!(package_uri(&String::from("pack-a")), "kmf:pack-a");
}

#[test]
fn package_uris_are_validated_against_the_url_parser() {
    let ids = vec![String::from("pack-a"), String::from("korabli-lesta-l10n")];
    let uris = validated_package_uris(&ids).expect("well-formed package URIs");
    assert_eq!(uris, vec![String::from("kmf:pack-a"), String::from("kmf:korabli-lesta-l10n")]);

    // An identifier that yields an unparseable URL (a port beyond u16) is
    // reported by position.
    let bad = vec![String::from("pack-a"), String::from("//host:99999999999")];
    assert_eq!(validated_package_uris(&bad), Err(1));
}

#[test]
fn end_to_end_success_advances_to_completed() {
    let mut w = Wizard::new();
    w.dispatch(Event::SetGamePath(String::from("/game")));
    w.dispatch(Event::Advance);
    w.dispatch(Event::SetSource(String::from("https://kmf-station.zice.top")));
    w.dispatch(Event::Advance);
    w.dispatch(Event::SetMods(vec![String::from("pack-a")]));
    w.dispatch(Event::Advance);
    assert_eq!(active_stage_view(w.stage), StageView::Installing);

    let uris = validated_package_uris(&w.context.mods).expect("well-formed package URIs");
    let plan = build_plan(String::from("/home/user/.cache/kmf-installer"), &w.context, uris);
    assert_eq!(plan.default_game, "file:/game");
    assert_eq!(plan.package_uris, vec![String::from("kmf:pack-a")]);
    assert_eq!(plan.cache_dir, "/home/user/.cache/kmf-installer");

    let st = w.on_engine_outcome(EngineOutcome::TaskFinished(Ok(())));
    assert!(matches!(st, InstallStatus::Succeeded));
    assert_eq!(w.stage, 4);
    assert_eq!(active_stage_view(w.stage), StageView::Completed);
}

#[test]
fn task_failure_stays_on_installing_and_renders_the_error() {
    let mut w = Wizard::new();
    w.dispatch(Event::SetGamePath(String::from("/game")));
    w.dispatch(Event::SetMods(vec![String::from("pack-a")]));
    w.stage = 3;

    let st = w.on_engine_outcome(EngineOutcome::TaskFinished(Err(String::from("disk full"))));
    assert_eq!(w.stage, 3);
    assert_eq!(active_stage_view(w.stage), StageView::Installing);
    assert!(matches!(&st, InstallStatus::Failed(m) if m == "disk full"));
    assert_eq!(st.display_text(), "出现错误:disk full");
    assert_eq!(w.context.game_path, "/game");
}

#[test]
fn session_failure_stays_on_installing() {
    let mut w = Wizard::new();
    w.stage = 3;
    let st = w.on_engine_outcome(EngineOutcome::SessionFailed(String::from("no cache dir")));
    assert_eq!(w.stage, 3);
    assert!(matches!(&st, InstallStatus::Failed(m) if m == "no cache dir"));
    assert_eq!(st.display_text(), "出现错误:no cache dir");
}

#[test]
fn install_status_texts() {
    assert_eq!(InstallStatus::Pending.display_text(), "正在安装中，请坐和放宽");
    assert_eq!(InstallStatus::Succeeded.display_text(), "");
}

#[test]
fn cache_dir_lookup_returns_a_plain_path_or_nothing() {
    // Environment-dependent: only the shape can be asserted.
    match engine_cache_dir() {
        Some(dir) => assert!(!dir.is_empty()),
        None => {},
    }
}
