use taidan::theme::{
    command_outcome, plan_step, su_program, plasma_set_theme_only, set_night_light, set_theme, AccentColor,
    CommandOutcome, CommandVerdict, PlanStep, SuCommand,
};

const ALL: [AccentColor; 9] = [
    AccentColor::Blue,
    AccentColor::Teal,
    AccentColor::Green,
    AccentColor::Yellow,
    AccentColor::Orange,
    AccentColor::Red,
    AccentColor::Pink,
    AccentColor::Purple,
    AccentColor::Slate,
];

fn parts(c: &SuCommand) -> (&str, &str, &str, &str) {
    (c.user.as_str(), c.script.as_str(), c.spawn_error.as_str(), c.failure.as_str())
}

#[test]
fn accent_names() {
    let names: Vec<&str> = ALL.iter().map(|c| <&str>::from(*c)).collect();
    assert_eq!(
        names,
        vec!["blue", "teal", "green", "yellow", "orange", "red", "pink", "purple", "slate"]
    );
}

#[test]
fn w3_keywords_equal_names_except_slate() {
    for c in ALL {
        let name: &str = c.into();
        if c == AccentColor::Slate {
            assert_eq!(c.w3_color_keywords(), "slategrey");
        } else {
            assert_eq!(c.w3_color_keywords(), name);
        }
    }
}

#[test]
fn accent_names_are_distinct() {
    for a in ALL {
        for b in ALL {
            assert_eq!(<&str>::from(a) == <&str>::from(b), a == b);
        }
    }
}

#[test]
fn default_accent_is_blue() {
    assert_eq!(AccentColor::default(), AccentColor::Blue);
}

#[test]
fn gsettings_dark() {
    let cmds = AccentColor::Teal.gsettings("alice", true);
    assert_eq!(cmds.len(), 3);
    assert_eq!(
        parts(&cmds[0]),
        (
            "alice",
            "gsettings set org.gnome.desktop.interface accent-color teal",
            "fail to run `gsettings`",
            "cannot set accent-color"
        )
    );
    assert_eq!(
        parts(&cmds[1]),
        (
            "alice",
            "gsettings set org.gnome.desktop.interface color-scheme prefer-dark",
            "fail to run `gsettings`",
            "cannot set color-scheme"
        )
    );
    assert_eq!(
        parts(&cmds[2]),
        (
            "alice",
            "gsettings set org.gnome.desktop.interface gtk-theme Adwaita-dark",
            "fail to run `gsettings`",
            "cannot set gtk-theme"
        )
    );
}

#[test]
fn gsettings_light_uses_gnome_name_for_slate() {
    let cmds = AccentColor::Slate.gsettings("bob", false);
    assert_eq!(cmds[0].script, "gsettings set org.gnome.desktop.interface accent-color slate");
    assert_eq!(cmds[1].script, "gsettings set org.gnome.desktop.interface color-scheme default");
    assert_eq!(cmds[2].script, "gsettings set org.gnome.desktop.interface gtk-theme Adwaita");
}

#[test]
fn plasma_uses_w3_keyword() {
    let cmds = AccentColor::Slate.plasma("carol", true);
    assert_eq!(cmds.len(), 1);
    assert_eq!(
        parts(&cmds[0]),
        (
            "carol",
            "plasma-apply-colorscheme BreezeDark -a slategrey",
            "fail to run `plasma-apply-colorscheme`",
            "`plasma-apply-colorscheme` failed"
        )
    );
    let light = AccentColor::Orange.plasma("carol", false);
    assert_eq!(light[0].script, "plasma-apply-colorscheme BreezeLight -a orange");
}

#[test]
fn plasma_theme_only() {
    let dark = plasma_set_theme_only("dave", true);
    assert_eq!(dark.len(), 1);
    assert_eq!(dark[0].script, "plasma-apply-colorscheme BreezeDark");
    assert_eq!(dark[0].user, "dave");
    let light = plasma_set_theme_only("dave", false);
    assert_eq!(light[0].script, "plasma-apply-colorscheme BreezeLight");
    assert_eq!(light[0].failure, "`plasma-apply-colorscheme` failed");
}

#[test]
fn set_theme_prefers_plasma_with_accent() {
    let job = set_theme("erin", true, Some(AccentColor::Pink), true, true);
    assert_eq!(job.context, "cannot set accent and theme for plama");
    assert_eq!(job.commands.len(), 1);
    assert_eq!(job.commands[0].script, "plasma-apply-colorscheme BreezeDark -a pink");
}

#[test]
fn set_theme_plasma_without_accent() {
    let job = set_theme("erin", false, None, true, false);
    assert_eq!(job.context, "cannot set theme for plasma");
    assert_eq!(job.commands.len(), 1);
    assert_eq!(job.commands[0].script, "plasma-apply-colorscheme BreezeLight");
}

#[test]
fn set_theme_gsettings_with_accent() {
    let job = set_theme("frank", true, Some(AccentColor::Green), false, true);
    assert_eq!(job.context, "cannot set accent/theme using gsettings");
    assert_eq!(job.commands.len(), 3);
    assert_eq!(
        job.commands[0].script,
        "gsettings set org.gnome.desktop.interface accent-color green"
    );
}

#[test]
fn set_theme_gsettings_defaults_to_blue() {
    let job = set_theme("frank", false, None, false, true);
    assert_eq!(job.commands.len(), 3);
    assert_eq!(
        job.commands[0].script,
        "gsettings set org.gnome.desktop.interface accent-color blue"
    );
    let blue = set_theme("frank", false, Some(AccentColor::Blue), false, true);
    for (a, b) in job.commands.iter().zip(blue.commands.iter()) {
        assert_eq!(parts(a), parts(b));
    }
}

#[test]
fn every_command_runs_as_the_user() {
    for plasma in [false, true] {
        for accent in [None, Some(AccentColor::Red)] {
            let job = set_theme("gina", true, accent, plasma, true);
            assert!(!job.commands.is_empty());
            assert!(job.commands.iter().all(|c| c.user == "gina"));
        }
    }
    for kw in [false, true] {
        let cmds = set_night_light("gina", true, kw);
        assert_eq!(cmds.len(), 1);
        assert_eq!(cmds[0].user, "gina");
    }
}

#[test]
fn night_light_kwriteconfig() {
    let cmds = set_night_light("hank", true, true);
    assert_eq!(
        parts(&cmds[0]),
        (
            "hank",
            "kwriteconfig6 --file ~/.config/kwinrc --group NightColor --key Active --type bool true",
            "fail to run `kwriteconfig6`",
            "`kwriteconfig6` failed"
        )
    );
}

#[test]
fn night_light_gsettings() {
    let cmds = set_night_light("hank", false, false);
    assert_eq!(
        parts(&cmds[0]),
        (
            "hank",
            "gsettings set org.gnome.settings-daemon.plugins.color night-light-enabled false",
            "fail to run `gsettings`",
            "`gsettings` failed"
        )
    );
}

#[test]
fn su_arguments() {
    let cmds = plasma_set_theme_only("ivy", true);
    assert_eq!(cmds[0].su_args(), vec!["ivy", "-c", "plasma-apply-colorscheme BreezeDark"]);
}


#[test]
fn outcome_of_one_command() {
    let cmds = AccentColor::Red.gsettings("jo", true);
    assert!(matches!(
        command_outcome(&cmds[0], CommandOutcome::Exited { success: true, code: Some(0) }),
        CommandVerdict::Continue
    ));
    match command_outcome(&cmds[1], CommandOutcome::Exited { success: false, code: Some(1) }) {
        CommandVerdict::Failed(m, note) => {
            assert_eq!(m, "cannot set color-scheme");
            assert_eq!(note, "Exit code: Some(1)");
        }
        _ => panic!("expected a failure"),
    }
    match command_outcome(&cmds[2], CommandOutcome::NotStarted) {
        CommandVerdict::NotStarted(m) => assert_eq!(m, "fail to run `gsettings`"),
        _ => panic!("expected a spawn error"),
    }
}

#[test]
fn plan_runs_in_order_and_succeeds_when_all_succeed() {
    let cmds = AccentColor::Red.gsettings("jo", false);
    let ok = CommandOutcome::Exited { success: true, code: Some(0) };
    let mut outcomes = vec![];
    for i in 0..3 {
        assert!(matches!(plan_step(&cmds, &outcomes), PlanStep::Run(j) if j == i));
        outcomes.push(ok);
    }
    assert!(matches!(plan_step(&cmds, &outcomes), PlanStep::Succeeded));
    assert!(matches!(plan_step(&Vec::new(), &Vec::new()), PlanStep::Succeeded));
}

#[test]
fn plan_stops_at_first_failure() {
    let cmds = AccentColor::Red.gsettings("jo", false);
    let outcomes = vec![
        CommandOutcome::Exited { success: true, code: Some(0) },
        CommandOutcome::Exited { success: false, code: Some(1) },
    ];
    match plan_step(&cmds, &outcomes) {
        PlanStep::Stopped(1, CommandVerdict::Failed(m, note)) => {
            assert_eq!(m, "cannot set color-scheme");
            assert_eq!(note, "Exit code: Some(1)");
        }
        _ => panic!("expected the second command to stop the plan"),
    }
    let not_started = vec![CommandOutcome::NotStarted];
    match plan_step(&cmds, &not_started) {
        PlanStep::Stopped(0, CommandVerdict::NotStarted(m)) => {
            assert_eq!(m, "fail to run `gsettings`")
        }
        _ => panic!("expected the first command to stop the plan"),
    }
}

#[test]
fn exit_code_notes() {
    let cmds = plasma_set_theme_only("kim", true);
    for code in [None, Some(0), Some(1), Some(127), Some(-1), Some(i32::MIN), Some(i32::MAX)] {
        match command_outcome(&cmds[0], CommandOutcome::Exited { success: false, code }) {
            CommandVerdict::Failed(m, note) => {
                assert_eq!(m, "`plasma-apply-colorscheme` failed");
                assert_eq!(note, format!("Exit code: {:?}", code));
            }
            _ => panic!("expected a failure"),
        }
    }
}

#[test]
fn commands_run_through_su() {
    assert_eq!(su_program(), "su");
}
