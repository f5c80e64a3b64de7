use taidan::nav::{handles_message, AppModel, AppMsg, NavAction, NavEffect, NoSuchPage, Page, PAGE_COUNT};

const PAGES: [Page; 12] = [
    Page::Welcome,
    Page::WhoAreYou,
    Page::Password,
    Page::Internet,
    Page::Analytics,
    Page::CrashReport,
    Page::Location,
    Page::NightLight,
    Page::Theme,
    Page::Browser,
    Page::Categories,
    Page::Installing,
];

fn go(page: Page, action: NavAction, skipconfig: bool) -> (Page, NavEffect) {
    let mut model = AppModel { page };
    let effect = model.update(AppMsg::Nav(action), skipconfig);
    (model.page, effect)
}

#[test]
fn page_indices_round_trip() {
    assert_eq!(PAGE_COUNT, 12);
    for (i, p) in PAGES.iter().enumerate() {
        assert_eq!(usize::from(*p), i);
        assert_eq!(Page::try_from(i), Ok(*p));
    }
    assert_eq!(Page::try_from(12usize), Err(NoSuchPage { index: 12 }));
    assert_eq!(Page::try_from(usize::MAX), Err(NoSuchPage { index: usize::MAX }));
}

#[test]
fn full_flow_forward() {
    let mut model = AppModel { page: Page::Welcome };
    let mut seen = vec![model.page];
    let mut effects = vec![];
    while model.page != Page::Installing {
        effects.push(model.update(AppMsg::Nav(NavAction::Next), false));
        seen.push(model.page);
    }
    assert_eq!(
        seen,
        vec![
            Page::Welcome,
            Page::WhoAreYou,
            Page::Password,
            Page::Internet,
            Page::NightLight,
            Page::Theme,
            Page::Browser,
            Page::Categories,
            Page::Installing,
        ]
    );
    let last = effects.pop().unwrap();
    assert_eq!(last, NavEffect::StartInstall);
    assert!(effects.iter().all(|e| *e == NavEffect::Nothing));
}

#[test]
fn full_flow_backward() {
    let mut model = AppModel { page: Page::Installing };
    let mut seen = vec![model.page];
    while model.page != Page::Welcome {
        assert_eq!(model.update(AppMsg::Nav(NavAction::Back), true), NavEffect::Nothing);
        seen.push(model.page);
    }
    assert_eq!(
        seen,
        vec![
            Page::Installing,
            Page::Categories,
            Page::Browser,
            Page::Theme,
            Page::NightLight,
            Page::Internet,
            Page::Password,
            Page::WhoAreYou,
            Page::Welcome,
        ]
    );
}

#[test]
fn skipconfig_goes_from_password_to_install() {
    assert_eq!(
        go(Page::Password, NavAction::Next, true),
        (Page::Installing, NavEffect::StartInstall)
    );
    assert_eq!(go(Page::Password, NavAction::Next, false), (Page::Internet, NavEffect::Nothing));
    assert_eq!(go(Page::WhoAreYou, NavAction::Next, true), (Page::Password, NavEffect::Nothing));
}

#[test]
fn internet_skips_to_night_light() {
    assert_eq!(go(Page::Internet, NavAction::Next, false), (Page::NightLight, NavEffect::Nothing));
    assert_eq!(go(Page::NightLight, NavAction::Back, false), (Page::Internet, NavEffect::Nothing));
}

#[test]
fn pages_reached_only_by_goto_move_on_normally() {
    assert_eq!(go(Page::Analytics, NavAction::Next, false), (Page::CrashReport, NavEffect::Nothing));
    assert_eq!(go(Page::Location, NavAction::Next, false), (Page::NightLight, NavEffect::Nothing));
    assert_eq!(go(Page::Analytics, NavAction::Back, false), (Page::Internet, NavEffect::Nothing));
}

#[test]
fn goto_and_quit() {
    for p in PAGES {
        assert_eq!(go(Page::Theme, NavAction::GoTo(p), true), (p, NavEffect::Nothing));
        assert_eq!(go(p, NavAction::Quit, false), (p, NavEffect::Quit));
    }
    assert_eq!(
        go(Page::Welcome, NavAction::GoTo(Page::Installing), false),
        (Page::Installing, NavEffect::Nothing)
    );
}

#[test]
fn back_undoes_next() {
    for p in PAGES {
        for skip in [false, true] {
            if p == Page::Installing || p == Page::Location || (p == Page::Password && skip) {
                continue;
            }
            let (q, _) = go(p, NavAction::Next, skip);
            assert_eq!(go(q, NavAction::Back, skip).0, p);
        }
    }
    let (q, _) = go(Page::Location, NavAction::Next, false);
    assert_eq!(go(q, NavAction::Back, false).0, Page::Internet);
}

#[test]
fn next_undoes_back() {
    for p in PAGES {
        for skip in [false, true] {
            if p == Page::Welcome || p == Page::Analytics || (p == Page::Internet && skip) {
                continue;
            }
            let (q, _) = go(p, NavAction::Back, skip);
            assert_eq!(go(q, NavAction::Next, skip).0, p);
        }
    }
    let (q, _) = go(Page::Analytics, NavAction::Back, false);
    assert_eq!(go(q, NavAction::Next, false).0, Page::NightLight);
}

#[test]
fn next_moves_forward_and_back_moves_backward() {
    for p in PAGES {
        for skip in [false, true] {
            if p != Page::Installing {
                assert!(usize::from(go(p, NavAction::Next, skip).0) > usize::from(p));
            }
            if p != Page::Welcome {
                assert!(usize::from(go(p, NavAction::Back, skip).0) < usize::from(p));
            }
        }
    }
}

#[test]
fn install_starts_only_when_reached_by_next() {
    for p in PAGES {
        for skip in [false, true] {
            if p != Page::Installing {
                let (q, e) = go(p, NavAction::Next, skip);
                assert_eq!(e == NavEffect::StartInstall, q == Page::Installing);
            }
        }
    }
}

#[test]
fn connectivity_pages_skipped() {
    let optional = [Page::Analytics, Page::CrashReport, Page::Location];
    for p in PAGES {
        if optional.contains(&p) {
            continue;
        }
        for skip in [false, true] {
            if p != Page::Installing {
                assert!(!optional.contains(&go(p, NavAction::Next, skip).0));
            }
            if p != Page::Welcome {
                assert!(!optional.contains(&go(p, NavAction::Back, skip).0));
            }
        }
    }
}

#[test]
fn handled_messages() {
    for p in PAGES {
        assert_eq!(handles_message(p, AppMsg::Nav(NavAction::Next)), p != Page::Installing);
        assert_eq!(handles_message(p, AppMsg::Nav(NavAction::Back)), p != Page::Welcome);
        assert!(handles_message(p, AppMsg::Nav(NavAction::Quit)));
        assert!(handles_message(p, AppMsg::Nav(NavAction::GoTo(Page::Theme))));
    }
}
