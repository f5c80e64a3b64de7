use vstd::prelude::*;
use vstd::string::StringExecFns;
use crate::text::{debug_option_int, debug_option_text};

verus! {

/// The accent colours offered by the theme page, in the order of the
/// GNOME `accent-color` setting.
#[derive(Clone, Copy, Debug, PartialEq, Eq, Structural)]
pub enum AccentColor {
    Blue,
    Teal,
    Green,
    Yellow,
    Orange,
    Red,
    Pink,
    Purple,
    Slate,
}

/// The name by which GNOME knows an accent colour.
pub open spec fn accent_name(c: AccentColor) -> Seq<char> {
    match c {
        AccentColor::Blue => "blue"@,
        AccentColor::Teal => "teal"@,
        AccentColor::Green => "green"@,
        AccentColor::Yellow => "yellow"@,
        AccentColor::Orange => "orange"@,
        AccentColor::Red => "red"@,
        AccentColor::Pink => "pink"@,
        AccentColor::Purple => "purple"@,
        AccentColor::Slate => "slate"@,
    }
}

/// The CSS (W3C) colour keyword that KDE Plasma accepts for an accent colour.
pub open spec fn w3_keyword(c: AccentColor) -> Seq<char> {
    match c {
        AccentColor::Slate => "slategrey"@,
        _ => accent_name(c),
    }
}

impl AccentColor {
    /// The W3C colour keyword of this accent: its name, except that slate is
    /// spelled `slategrey`.
    pub fn w3_color_keywords(self) -> (r: &'static str)
        ensures
            r@ == w3_keyword(self),
    {
        match self {
            AccentColor::Slate => "slategrey",
            x => x.into(),
        }
    }
}

impl From<AccentColor> for &'static str {
    /// The GNOME name of an accent colour.
    fn from(value: AccentColor) -> (r: &'static str)
        ensures
            r@ == accent_name(value),
    {
        match value {
            AccentColor::Blue => "blue",
            AccentColor::Teal => "teal",
            AccentColor::Green => "green",
            AccentColor::Yellow => "yellow",
            AccentColor::Orange => "orange",
            AccentColor::Red => "red",
            AccentColor::Pink => "pink",
            AccentColor::Purple => "purple",
            AccentColor::Slate => "slate",
        }
    }
}

impl vstd::std_specs::convert::FromSpecImpl<AccentColor> for &'static str {
    open spec fn obeys_from_spec() -> bool {
        true
    }

    open spec fn from_spec(v: AccentColor) -> &'static str {
        match v {
            AccentColor::Blue => "blue",
            AccentColor::Teal => "teal",
            AccentColor::Green => "green",
            AccentColor::Yellow => "yellow",
            AccentColor::Orange => "orange",
            AccentColor::Red => "red",
            AccentColor::Pink => "pink",
            AccentColor::Purple => "purple",
            AccentColor::Slate => "slate",
        }
    }
}

impl AccentColor {
    /// The default accent colour: blue.
    pub open spec fn default_spec() -> AccentColor {
        AccentColor::Blue
    }
}

impl Default for AccentColor {
    /// Blue, the accent that GNOME uses when none was chosen.
    fn default() -> (r: AccentColor)
        ensures
            r == AccentColor::default_spec(),
    {
        AccentColor::Blue
    }
}

/// The program that runs every command: `su`.
pub fn su_program() -> (r: &'static str)
    ensures
        r@ == "su"@,
{
    "su"
}

/// A shell command line that is run as a given user, through `su USER -c SCRIPT`,
/// together with the two messages that report its failure.
pub struct SuCommand {
    /// The account the script runs as.
    pub user: String,
    /// The command line handed to `su -c`.
    pub script: String,
    /// The context given when `su` itself could not be started.
    pub spawn_error: String,
    /// The message given when the script exits unsuccessfully.
    pub failure: String,
}

/// What a `SuCommand` holds, as character sequences.
pub struct SuCommandView {
    pub user: Seq<char>,
    pub script: Seq<char>,
    pub spawn_error: Seq<char>,
    pub failure: Seq<char>,
}

impl View for SuCommand {
    type V = SuCommandView;

    open spec fn view(&self) -> SuCommandView {
        SuCommandView {
            user: self.user@,
            script: self.script@,
            spawn_error: self.spawn_error@,
            failure: self.failure@,
        }
    }
}

pub open spec fn su_command(
    user: Seq<char>,
    script: Seq<char>,
    spawn_error: Seq<char>,
    failure: Seq<char>,
) -> SuCommandView {
    SuCommandView { user, script, spawn_error, failure }
}

/// The commands of a plan, each by its view.
pub open spec fn plan_view(cmds: Seq<SuCommand>) -> Seq<SuCommandView> {
    cmds.map_values(|c: SuCommand| c@)
}

impl SuCommand {
    pub fn new(user: &str, script: String, spawn_error: &str, failure: &str) -> (c: SuCommand)
        ensures
            c@ == su_command(user@, script@, spawn_error@, failure@),
    {
        SuCommand {
            user: String::from_str(user),
            script,
            spawn_error: String::from_str(spawn_error),
            failure: String::from_str(failure),
        }
    }

    /// The arguments of `su` that run the script as the user:
    /// `USER -c SCRIPT`.
    pub fn su_args(&self) -> (args: Vec<String>)
        ensures
            args@.map_values(|a: String| a@) == seq![self.user@, "-c"@, self.script@],
    {
        let mut args: Vec<String> = Vec::new();
        args.push(self.user.clone());
        args.push(String::from_str("-c"));
        args.push(self.script.clone());
        assert(args@.map_values(|a: String| a@) =~= seq![self.user@, "-c"@, self.script@]);
        args
    }
}

/// The Plasma colour scheme for a light or a dark desktop.
pub open spec fn plasma_scheme(is_dark: bool) -> Seq<char> {
    if is_dark {
        "BreezeDark"@
    } else {
        "BreezeLight"@
    }
}

/// The GNOME `color-scheme` value for a light or a dark desktop.
pub open spec fn gnome_color_scheme(is_dark: bool) -> Seq<char> {
    if is_dark {
        "prefer-dark"@
    } else {
        "default"@
    }
}

/// The GTK theme for a light or a dark desktop.
pub open spec fn gtk_theme(is_dark: bool) -> Seq<char> {
    if is_dark {
        "Adwaita-dark"@
    } else {
        "Adwaita"@
    }
}

/// The three `gsettings` calls that set the accent colour, the colour scheme
/// and the GTK theme, in that order.
pub open spec fn gsettings_plan(accent: AccentColor, user: Seq<char>, is_dark: bool) -> Seq<
    SuCommandView,
> {
    seq![
        su_command(
            user,
            "gsettings set org.gnome.desktop.interface accent-color "@ + accent_name(accent),
            "fail to run `gsettings`"@,
            "cannot set accent-color"@,
        ),
        su_command(
            user,
            "gsettings set org.gnome.desktop.interface color-scheme "@ + gnome_color_scheme(
                is_dark,
            ),
            "fail to run `gsettings`"@,
            "cannot set color-scheme"@,
        ),
        su_command(
            user,
            "gsettings set org.gnome.desktop.interface gtk-theme "@ + gtk_theme(is_dark),
            "fail to run `gsettings`"@,
            "cannot set gtk-theme"@,
        ),
    ]
}

/// The one `plasma-apply-colorscheme` call that sets the scheme and the accent.
pub open spec fn plasma_plan(accent: AccentColor, user: Seq<char>, is_dark: bool) -> Seq<
    SuCommandView,
> {
    seq![
        su_command(
            user,
            "plasma-apply-colorscheme "@ + plasma_scheme(is_dark) + " -a "@ + w3_keyword(accent),
            "fail to run `plasma-apply-colorscheme`"@,
            "`plasma-apply-colorscheme` failed"@,
        ),
    ]
}

/// The one `plasma-apply-colorscheme` call that sets the scheme alone.
pub open spec fn plasma_theme_only_plan(user: Seq<char>, is_dark: bool) -> Seq<SuCommandView> {
    seq![
        su_command(
            user,
            "plasma-apply-colorscheme "@ + plasma_scheme(is_dark),
            "fail to run `plasma-apply-colorscheme`"@,
            "`plasma-apply-colorscheme` failed"@,
        ),
    ]
}

/// One of two texts, by a condition.
fn select_text(cond: bool, if_true: &'static str, if_false: &'static str) -> (r: &'static str)
    ensures
        r@ == (if cond {
            if_true@
        } else {
            if_false@
        }),
{
    if cond {
        if_true
    } else {
        if_false
    }
}

impl AccentColor {
    /// The `gsettings` calls, run as `user`, that set this accent colour and a
    /// light or dark theme on GNOME.
    pub fn gsettings(self, user: &str, is_dark: bool) -> (cmds: Vec<SuCommand>)
        ensures
            plan_view(cmds@) == gsettings_plan(self, user@, is_dark),
    {
        let mut cmds: Vec<SuCommand> = Vec::new();
        let name: &str = self.into();
        let accent = String::from_str("gsettings set org.gnome.desktop.interface accent-color ")
            .concat(name);
        cmds.push(SuCommand::new(user, accent, "fail to run `gsettings`", "cannot set accent-color"));
        let scheme = String::from_str("gsettings set org.gnome.desktop.interface color-scheme ")
            .concat(select_text(is_dark, "prefer-dark", "default"));
        cmds.push(SuCommand::new(user, scheme, "fail to run `gsettings`", "cannot set color-scheme"));
        let gtk = String::from_str("gsettings set org.gnome.desktop.interface gtk-theme ")
            .concat(select_text(is_dark, "Adwaita-dark", "Adwaita"));
        cmds.push(SuCommand::new(user, gtk, "fail to run `gsettings`", "cannot set gtk-theme"));
        assert(plan_view(cmds@) =~= gsettings_plan(self, user@, is_dark));
        cmds
    }

    /// The `plasma-apply-colorscheme` call, run as `user`, that sets this accent
    /// colour and a light or dark scheme on KDE Plasma.
    pub fn plasma(self, user: &str, is_dark: bool) -> (cmds: Vec<SuCommand>)
        ensures
            plan_view(cmds@) == plasma_plan(self, user@, is_dark),
    {
        let theme = select_text(is_dark, "BreezeDark", "BreezeLight");
        let accent = self.w3_color_keywords();
        let script = String::from_str("plasma-apply-colorscheme ").concat(theme).concat(
            " -a ",
        ).concat(accent);
        let mut cmds: Vec<SuCommand> = Vec::new();
        cmds.push(
            SuCommand::new(
                user,
                script,
                "fail to run `plasma-apply-colorscheme`",
                "`plasma-apply-colorscheme` failed",
            ),
        );
        assert(plan_view(cmds@) =~= plasma_plan(self, user@, is_dark));
        cmds
    }
}

/// The `plasma-apply-colorscheme` call, run as `user`, that sets a light or
/// dark scheme on KDE Plasma and leaves the accent colour alone.
pub fn plasma_set_theme_only(user: &str, is_dark: bool) -> (cmds: Vec<SuCommand>)
    ensures
        plan_view(cmds@) == plasma_theme_only_plan(user@, is_dark),
{
    let theme = select_text(is_dark, "BreezeDark", "BreezeLight");
    let script = String::from_str("plasma-apply-colorscheme ").concat(theme);
    let mut cmds: Vec<SuCommand> = Vec::new();
    cmds.push(
        SuCommand::new(
            user,
            script,
            "fail to run `plasma-apply-colorscheme`",
            "`plasma-apply-colorscheme` failed",
        ),
    );
    assert(plan_view(cmds@) =~= plasma_theme_only_plan(user@, is_dark));
    cmds
}


/// The commands that set the desktop theme, with the context that an error of
/// any of them is reported in.
pub struct ThemeJob {
    pub commands: Vec<SuCommand>,
    pub context: String,
}

/// What a `ThemeJob` holds, as views.
pub struct ThemeJobView {
    pub commands: Seq<SuCommandView>,
    pub context: Seq<char>,
}

impl View for ThemeJob {
    type V = ThemeJobView;

    open spec fn view(&self) -> ThemeJobView {
        ThemeJobView { commands: plan_view(self.commands@), context: self.context@ }
    }
}

/// The accent that stands in for a missing one: `AccentColor::default()`.
pub open spec fn accent_or_default(accent: Option<AccentColor>) -> AccentColor {
    match accent {
        Some(a) => a,
        None => AccentColor::default_spec(),
    }
}

/// How the theme is set: through Plasma when `plasma-apply-colorscheme` is
/// installed (with the accent when one was chosen), else through `gsettings`
/// (with the default accent when none was chosen).
pub open spec fn theme_job(
    user: Seq<char>,
    is_dark: bool,
    accent: Option<AccentColor>,
    plasma_found: bool,
) -> ThemeJobView {
    if plasma_found {
        match accent {
            Some(a) => ThemeJobView {
                commands: plasma_plan(a, user, is_dark),
                context: "cannot set accent and theme for plama"@,
            },
            None => ThemeJobView {
                commands: plasma_theme_only_plan(user, is_dark),
                context: "cannot set theme for plasma"@,
            },
        }
    } else {
        ThemeJobView {
            commands: gsettings_plan(accent_or_default(accent), user, is_dark),
            context: "cannot set accent/theme using gsettings"@,
        }
    }
}

/// Chooses how to set a light or dark theme, and the accent colour where one
/// is given, for `user`. `plasma_found` and `gsettings_found` say whether
/// `/usr/bin/plasma-apply-colorscheme` and `/usr/bin/gsettings` exist; one of
/// them must.
pub fn set_theme(
    user: &str,
    is_dark: bool,
    accent: Option<AccentColor>,
    plasma_found: bool,
    gsettings_found: bool,
) -> (job: ThemeJob)
    requires
        plasma_found || gsettings_found,
    ensures
        job@ == theme_job(user@, is_dark, accent, plasma_found),
{
    if plasma_found {
        match accent {
            Some(accent) => ThemeJob {
                commands: accent.plasma(user, is_dark),
                context: String::from_str("cannot set accent and theme for plama"),
            },
            None => ThemeJob {
                commands: plasma_set_theme_only(user, is_dark),
                context: String::from_str("cannot set theme for plasma"),
            },
        }
    } else {
        let accent = match accent {
            Some(a) => a,
            None => AccentColor::default(),
        };
        ThemeJob {
            commands: accent.gsettings(user, is_dark),
            context: String::from_str("cannot set accent/theme using gsettings"),
        }
    }
}

/// `true` or `false`, as a boolean is written.
pub open spec fn bool_text(b: bool) -> Seq<char> {
    if b {
        "true"@
    } else {
        "false"@
    }
}

/// The one command that turns night light on or off: through `kwriteconfig6`
/// when it was found, else through `gsettings`.
pub open spec fn night_light_plan(user: Seq<char>, enabled: bool, kwriteconfig_found: bool) -> Seq<
    SuCommandView,
> {
    if kwriteconfig_found {
        seq![
            su_command(
                user,
                "kwriteconfig6 --file ~/.config/kwinrc --group NightColor --key Active --type bool "@
                    + bool_text(enabled),
                "fail to run `kwriteconfig6`"@,
                "`kwriteconfig6` failed"@,
            ),
        ]
    } else {
        seq![
            su_command(
                user,
                "gsettings set org.gnome.settings-daemon.plugins.color night-light-enabled "@
                    + bool_text(enabled),
                "fail to run `gsettings`"@,
                "`gsettings` failed"@,
            ),
        ]
    }
}

/// The command, run as `user`, that turns night light on or off.
/// `kwriteconfig_found` says whether `kwriteconfig6` was found.
pub fn set_night_light(user: &str, enabled: bool, kwriteconfig_found: bool) -> (cmds: Vec<
    SuCommand,
>)
    ensures
        plan_view(cmds@) == night_light_plan(user@, enabled, kwriteconfig_found),
{
    let value = select_text(enabled, "true", "false");
    let mut cmds: Vec<SuCommand> = Vec::new();
    if kwriteconfig_found {
        let script = String::from_str(
            "kwriteconfig6 --file ~/.config/kwinrc --group NightColor --key Active --type bool ",
        ).concat(value);
        cmds.push(
            SuCommand::new(user, script, "fail to run `kwriteconfig6`", "`kwriteconfig6` failed"),
        );
    } else {
        let script = String::from_str(
            "gsettings set org.gnome.settings-daemon.plugins.color night-light-enabled ",
        ).concat(value);
        cmds.push(SuCommand::new(user, script, "fail to run `gsettings`", "`gsettings` failed"));
    }
    assert(plan_view(cmds@) =~= night_light_plan(user@, enabled, kwriteconfig_found));
    cmds
}


/// What became of one command: `su` could not be started, or the script ran
/// and exited successfully or not.
#[derive(Clone, Copy, Debug, PartialEq, Eq, Structural)]
pub enum CommandOutcome {
    NotStarted,
    /// The script ran; `code` is its exit code, absent when a signal ended it.
    Exited { success: bool, code: Option<i32> },
}

/// Whether to go on after a command, or the error that stops the plan.
pub enum CommandVerdict {
    Continue,
    /// `su` could not be started; the text is the context of that error.
    NotStarted(String),
    /// The script failed; the texts are the error's message and the note
    /// that gives the exit code.
    Failed(String, String),
}

/// What a `CommandVerdict` holds, as character sequences.
pub enum CommandVerdictView {
    Continue,
    NotStarted(Seq<char>),
    Failed(Seq<char>, Seq<char>),
}

impl View for CommandVerdict {
    type V = CommandVerdictView;

    open spec fn view(&self) -> CommandVerdictView {
        match self {
            CommandVerdict::Continue => CommandVerdictView::Continue,
            CommandVerdict::NotStarted(m) => CommandVerdictView::NotStarted(m@),
            CommandVerdict::Failed(m, n) => CommandVerdictView::Failed(m@, n@),
        }
    }
}

/// A command succeeded when its script ran and exited successfully.
pub open spec fn succeeded(o: CommandOutcome) -> bool {
    o matches CommandOutcome::Exited { success: true, .. }
}

/// The note that tells the exit code of a failed script, as
/// `format!("Exit code: {:?}", code)` writes it.
pub open spec fn exit_code_note(code: Option<i32>) -> Seq<char> {
    "Exit code: "@ + debug_option_int(code)
}

/// The verdict on a command: go on after a success, else stop with the
/// command's own context or message.
pub open spec fn verdict(cmd: SuCommandView, o: CommandOutcome) -> CommandVerdictView {
    match o {
        CommandOutcome::NotStarted => CommandVerdictView::NotStarted(cmd.spawn_error),
        CommandOutcome::Exited { success, code } => if success {
            CommandVerdictView::Continue
        } else {
            CommandVerdictView::Failed(cmd.failure, exit_code_note(code))
        },
    }
}

/// Judges the outcome of one command.
pub fn command_outcome(cmd: &SuCommand, outcome: CommandOutcome) -> (r: CommandVerdict)
    ensures
        r@ == verdict(cmd@, outcome),
{
    match outcome {
        CommandOutcome::NotStarted => CommandVerdict::NotStarted(cmd.spawn_error.clone()),
        CommandOutcome::Exited { success, code } => if success {
            CommandVerdict::Continue
        } else {
            CommandVerdict::Failed(
                cmd.failure.clone(),
                String::from_str("Exit code: ").concat(debug_option_text(code).as_str()),
            )
        },
    }
}

/// What to do next with a plan of commands.
pub enum PlanStep {
    /// Run the command at this position.
    Run(usize),
    /// Every command succeeded.
    Succeeded,
    /// The command at this position stopped the plan, with this verdict.
    Stopped(usize, CommandVerdict),
}

/// Runs a plan one command at a time: given the outcomes of the commands run
/// so far, in order, says which command to run next, or that the plan is
/// over. The plan stops at the first command that did not succeed; it
/// succeeds exactly when every command of it succeeded.
pub fn plan_step(cmds: &Vec<SuCommand>, outcomes: &Vec<CommandOutcome>) -> (r: PlanStep)
    requires
        outcomes.len() <= cmds.len(),
    ensures
        match r {
            PlanStep::Run(i) => {
                &&& i == outcomes.len() < cmds.len()
                &&& forall|j: int| 0 <= j < outcomes.len() ==> succeeded(#[trigger] outcomes@[j])
            },
            PlanStep::Succeeded => {
                &&& outcomes.len() == cmds.len()
                &&& forall|j: int| 0 <= j < outcomes.len() ==> succeeded(#[trigger] outcomes@[j])
            },
            PlanStep::Stopped(i, v) => {
                &&& i < outcomes.len()
                &&& !succeeded(outcomes@[i as int])
                &&& forall|j: int| 0 <= j < i ==> succeeded(#[trigger] outcomes@[j])
                &&& v@ == verdict(cmds@[i as int]@, outcomes@[i as int])
            },
        },
{
    let mut i: usize = 0;
    while i < outcomes.len()
        invariant
            i <= outcomes.len() <= cmds.len(),
            forall|j: int| 0 <= j < i ==> succeeded(#[trigger] outcomes@[j]),
        decreases outcomes.len() - i,
    {
        let o = outcomes[i];
        let ok = match o {
            CommandOutcome::Exited { success, .. } => success,
            CommandOutcome::NotStarted => false,
        };
        if !ok {
            return PlanStep::Stopped(i, command_outcome(&cmds[i], o));
        }
        i = i + 1;
    }
    if outcomes.len() < cmds.len() {
        PlanStep::Run(outcomes.len())
    } else {
        PlanStep::Succeeded
    }
}

/// Every command that sets the theme or the night light runs as the user it
/// was asked for.
pub proof fn lemma_commands_run_as_user(
    user: Seq<char>,
    is_dark: bool,
    accent: Option<AccentColor>,
    plasma_found: bool,
    enabled: bool,
    kwriteconfig_found: bool,
)
    ensures
        theme_job(user, is_dark, accent, plasma_found).commands.len() > 0,
        forall|i: int|
            0 <= i < theme_job(user, is_dark, accent, plasma_found).commands.len() ==> (
            #[trigger] theme_job(user, is_dark, accent, plasma_found).commands[i]).user == user,
        night_light_plan(user, enabled, kwriteconfig_found).len() == 1,
        night_light_plan(user, enabled, kwriteconfig_found)[0].user == user,
{
}

/// On GNOME a missing accent colour is set as blue, the default accent.
pub proof fn lemma_gnome_default_accent(user: Seq<char>, is_dark: bool)
    ensures
        theme_job(user, is_dark, None, false) == theme_job(
            user,
            is_dark,
            Some(AccentColor::default_spec()),
            false,
        ),
{
}

/// The W3C keyword of an accent is its GNOME name, except for slate.
pub proof fn lemma_w3_keyword_differs_only_for_slate(c: AccentColor)
    ensures
        (w3_keyword(c) == accent_name(c)) <==> c != AccentColor::Slate,
{
    reveal_strlit("slate");
    reveal_strlit("slategrey");
    assert("slate"@.len() != "slategrey"@.len());
}

/// Distinct accent colours have distinct names, so no two accents set the
/// same GNOME setting.
pub proof fn lemma_accent_names_distinct(a: AccentColor, b: AccentColor)
    ensures
        accent_name(a) == accent_name(b) ==> a == b,
{
    reveal_strlit("blue");
    reveal_strlit("teal");
    reveal_strlit("green");
    reveal_strlit("yellow");
    reveal_strlit("orange");
    reveal_strlit("red");
    reveal_strlit("pink");
    reveal_strlit("purple");
    reveal_strlit("slate");
    if accent_name(a) == accent_name(b) {
        assert(accent_name(a).len() == accent_name(b).len());
        assert(accent_name(a)[0] == accent_name(b)[0]);
        assert(accent_name(a)[1] == accent_name(b)[1]);
    }
}

} // verus!

verus! {

/// The GNOME name that `From<AccentColor> for &str` gives an accent.
pub open spec fn from_name(a: AccentColor) -> Seq<char> {
    <&'static str as vstd::std_specs::convert::FromSpec<AccentColor>>::from_spec(a)@
}

/// The Plasma scheme written for a light or dark request.
pub open spec fn breeze(is_dark: bool) -> Seq<char> {
    if is_dark {
        "BreezeDark"@
    } else {
        "BreezeLight"@
    }
}

/// The GNOME name of an accent is the text that `From` gives it, and its W3C
/// keyword is that same text, except `slategrey` for slate.
pub proof fn lemma_names_come_from_from(a: AccentColor)
    ensures
        accent_name(a) == from_name(a),
        w3_keyword(a) == (if a == AccentColor::Slate {
            "slategrey"@
        } else {
            from_name(a)
        }),
{
}

/// `From` gives the nine accents, in their order, exactly the values of the
/// GNOME `accent-color` setting.
pub proof fn lemma_accent_names_are_gnome_values()
    ensures
        seq![
            from_name(AccentColor::Blue),
            from_name(AccentColor::Teal),
            from_name(AccentColor::Green),
            from_name(AccentColor::Yellow),
            from_name(AccentColor::Orange),
            from_name(AccentColor::Red),
            from_name(AccentColor::Pink),
            from_name(AccentColor::Purple),
            from_name(AccentColor::Slate),
        ] == seq![
            "blue"@,
            "teal"@,
            "green"@,
            "yellow"@,
            "orange"@,
            "red"@,
            "pink"@,
            "purple"@,
            "slate"@,
        ],
{
}

/// With Plasma found, `set_theme` writes the Breeze scheme that the light or
/// dark request asks for, followed by the W3C keyword of the accent when one
/// is given; the scheme follows `is_dark` in every branch, and the two
/// requests give different commands.
pub proof fn lemma_plasma_follows_request(user: Seq<char>, a: AccentColor, is_dark: bool)
    ensures
        theme_job(user, is_dark, Some(a), true).commands.len() == 1,
        theme_job(user, is_dark, Some(a), true).commands[0].script == "plasma-apply-colorscheme "@
            + breeze(is_dark) + " -a "@ + (if a == AccentColor::Slate {
            "slategrey"@
        } else {
            from_name(a)
        }),
        theme_job(user, is_dark, Some(a), true).context == "cannot set accent and theme for plama"@,
        theme_job(user, is_dark, None, true).context == "cannot set theme for plasma"@,
        theme_job(user, is_dark, None, true).commands.len() == 1,
        theme_job(user, is_dark, None, true).commands[0].script == "plasma-apply-colorscheme "@
            + breeze(is_dark),
        plasma_plan(a, user, is_dark)[0].script == plasma_theme_only_plan(user, is_dark)[0].script
            + " -a "@ + w3_keyword(a),
        theme_job(user, true, Some(a), true).commands[0].script != theme_job(
            user,
            false,
            Some(a),
            true,
        ).commands[0].script,
        theme_job(user, true, None, true).commands[0].script != theme_job(
            user,
            false,
            None,
            true,
        ).commands[0].script,
{
    lemma_names_come_from_from(a);
    reveal_strlit("BreezeDark");
    reveal_strlit("BreezeLight");
    reveal_strlit("plasma-apply-colorscheme ");
    let p = "plasma-apply-colorscheme "@;
    assert((p + "BreezeDark"@ + " -a "@ + w3_keyword(a))[p.len() + 6int] == 'D');
    assert((p + "BreezeLight"@ + " -a "@ + w3_keyword(a))[p.len() + 6int] == 'L');
    assert((p + "BreezeDark"@)[p.len() + 6int] == 'D');
    assert((p + "BreezeLight"@)[p.len() + 6int] == 'L');
}

/// Without Plasma, `set_theme` sets through `gsettings` the accent's GNOME name
/// (the text of `From`, blue when none is given), the colour scheme and the GTK
/// theme that the light or dark request asks for.
pub proof fn lemma_gsettings_follows_request(
    user: Seq<char>,
    accent: Option<AccentColor>,
    is_dark: bool,
)
    ensures
        theme_job(user, is_dark, accent, false).commands.len() == 3,
        theme_job(user, is_dark, accent, false).context
            == "cannot set accent/theme using gsettings"@,
        theme_job(user, is_dark, accent, false).commands[0].script
            == "gsettings set org.gnome.desktop.interface accent-color "@ + from_name(
            match accent {
                Some(a) => a,
                None => AccentColor::Blue,
            },
        ),
        theme_job(user, is_dark, accent, false).commands[1].script
            == "gsettings set org.gnome.desktop.interface color-scheme "@ + (if is_dark {
            "prefer-dark"@
        } else {
            "default"@
        }),
        theme_job(user, is_dark, accent, false).commands[2].script
            == "gsettings set org.gnome.desktop.interface gtk-theme "@ + (if is_dark {
            "Adwaita-dark"@
        } else {
            "Adwaita"@
        }),
        forall|a: AccentColor|
            #![trigger gsettings_plan(a, user, is_dark)]
            gsettings_plan(a, user, is_dark)[0].script
                == "gsettings set org.gnome.desktop.interface accent-color "@ + from_name(a),
{
    match accent {
        Some(a) => lemma_names_come_from_from(a),
        None => lemma_names_come_from_from(AccentColor::Blue),
    }
    assert forall|a: AccentColor|
        #![trigger gsettings_plan(a, user, is_dark)]
        gsettings_plan(a, user, is_dark)[0].script
            == "gsettings set org.gnome.desktop.interface accent-color "@ + from_name(a) by {
        lemma_names_come_from_from(a);
    }
}

/// The night-light command writes the state that was asked for: its script is
/// the backend's setter followed by `true` when night light is turned on and
/// `false` when it is turned off, so the two requests differ.
pub proof fn lemma_night_light_writes_request(user: Seq<char>, enabled: bool, kwriteconfig_found: bool)
    ensures
        night_light_plan(user, enabled, kwriteconfig_found).len() == 1,
        night_light_plan(user, enabled, kwriteconfig_found)[0].script == (if kwriteconfig_found {
            "kwriteconfig6 --file ~/.config/kwinrc --group NightColor --key Active --type bool "@
        } else {
            "gsettings set org.gnome.settings-daemon.plugins.color night-light-enabled "@
        }) + (if enabled {
            "true"@
        } else {
            "false"@
        }),
        night_light_plan(user, true, kwriteconfig_found)[0].script != night_light_plan(
            user,
            false,
            kwriteconfig_found,
        )[0].script,
{
    reveal_strlit("true");
    reveal_strlit("false");
    let on = night_light_plan(user, true, kwriteconfig_found)[0].script;
    let off = night_light_plan(user, false, kwriteconfig_found)[0].script;
    assert(on.len() + 1 == off.len());
}

} // verus!
