use vstd::prelude::*;

verus! {

/// The pages of the out-of-box experience, in the order in which they are shown.
#[derive(Clone, Copy, Debug, PartialEq, Eq, Structural)]
pub enum Page {
    Welcome,
    WhoAreYou,
    Password,
    Internet,
    Analytics,
    CrashReport,
    Location,
    NightLight,
    Theme,
    Browser,
    Categories,
    Installing,
}

/// The number of pages.
pub const PAGE_COUNT: usize = 12;

/// The position of a page, from 0 for `Welcome` to 11 for `Installing`.
pub open spec fn page_index(p: Page) -> nat {
    match p {
        Page::Welcome => 0,
        Page::WhoAreYou => 1,
        Page::Password => 2,
        Page::Internet => 3,
        Page::Analytics => 4,
        Page::CrashReport => 5,
        Page::Location => 6,
        Page::NightLight => 7,
        Page::Theme => 8,
        Page::Browser => 9,
        Page::Categories => 10,
        Page::Installing => 11,
    }
}

/// The page at a position, where there is one.
pub open spec fn page_at(i: int) -> Option<Page> {
    if i == 0 {
        Some(Page::Welcome)
    } else if i == 1 {
        Some(Page::WhoAreYou)
    } else if i == 2 {
        Some(Page::Password)
    } else if i == 3 {
        Some(Page::Internet)
    } else if i == 4 {
        Some(Page::Analytics)
    } else if i == 5 {
        Some(Page::CrashReport)
    } else if i == 6 {
        Some(Page::Location)
    } else if i == 7 {
        Some(Page::NightLight)
    } else if i == 8 {
        Some(Page::Theme)
    } else if i == 9 {
        Some(Page::Browser)
    } else if i == 10 {
        Some(Page::Categories)
    } else if i == 11 {
        Some(Page::Installing)
    } else {
        None
    }
}

impl From<Page> for usize {
    fn from(p: Page) -> (r: usize) {
        match p {
            Page::Welcome => 0,
            Page::WhoAreYou => 1,
            Page::Password => 2,
            Page::Internet => 3,
            Page::Analytics => 4,
            Page::CrashReport => 5,
            Page::Location => 6,
            Page::NightLight => 7,
            Page::Theme => 8,
            Page::Browser => 9,
            Page::Categories => 10,
            Page::Installing => 11,
        }
    }
}

impl vstd::std_specs::convert::FromSpecImpl<Page> for usize {
    open spec fn obeys_from_spec() -> bool {
        true
    }

    open spec fn from_spec(v: Page) -> usize {
        page_index(v) as usize
    }
}

/// The error of a position past the last page.
#[derive(Clone, Copy, Debug, PartialEq, Eq, Structural)]
pub struct NoSuchPage {
    pub index: usize,
}

pub open spec fn page_from_index(i: usize) -> Result<Page, NoSuchPage> {
    match page_at(i as int) {
        Some(p) => Ok(p),
        None => Err(NoSuchPage { index: i }),
    }
}

impl TryFrom<usize> for Page {
    type Error = NoSuchPage;

    fn try_from(i: usize) -> (r: Result<Page, NoSuchPage>) {
        match i {
            0 => Ok(Page::Welcome),
            1 => Ok(Page::WhoAreYou),
            2 => Ok(Page::Password),
            3 => Ok(Page::Internet),
            4 => Ok(Page::Analytics),
            5 => Ok(Page::CrashReport),
            6 => Ok(Page::Location),
            7 => Ok(Page::NightLight),
            8 => Ok(Page::Theme),
            9 => Ok(Page::Browser),
            10 => Ok(Page::Categories),
            11 => Ok(Page::Installing),
            _ => Err(NoSuchPage { index: i }),
        }
    }
}

impl vstd::std_specs::convert::TryFromSpecImpl<usize> for Page {
    open spec fn obeys_try_from_spec() -> bool {
        true
    }

    open spec fn try_from_spec(v: usize) -> Result<Page, NoSuchPage> {
        page_from_index(v)
    }
}

/// A request to move between pages.
#[derive(Clone, Copy, Debug, PartialEq, Eq, Structural)]
pub enum NavAction {
    GoTo(Page),
    Next,
    Back,
    Quit,
}

/// A message to the application window.
#[derive(Clone, Copy, Debug, PartialEq, Eq, Structural)]
pub enum AppMsg {
    Nav(NavAction),
}

/// What the application must do after a navigation step, besides showing the
/// new page.
#[derive(Clone, Copy, Debug, PartialEq, Eq, Structural)]
pub enum NavEffect {
    Nothing,
    /// Start the installation with the settings gathered so far.
    StartInstall,
    /// Leave the program.
    Quit,
}

/// The navigation state of the application window: the page shown.
#[derive(Clone, Copy, Debug, PartialEq, Eq, Structural)]
pub struct AppModel {
    pub page: Page,
}

/// A message is handled on every page, except that there is no page after
/// `Installing` to go forward to and no page before `Welcome` to go back to.
pub open spec fn handles(page: Page, message: AppMsg) -> bool {
    match message {
        AppMsg::Nav(NavAction::Next) => page != Page::Installing,
        AppMsg::Nav(NavAction::Back) => page != Page::Welcome,
        _ => true,
    }
}

/// Whether a message can be handled on a page: whether
/// `AppModel::update` may be called with it.
pub fn handles_message(page: Page, message: AppMsg) -> (r: bool)
    ensures
        r == handles(page, message),
{
    match message {
        AppMsg::Nav(NavAction::Next) => page != Page::Installing,
        AppMsg::Nav(NavAction::Back) => page != Page::Welcome,
        _ => true,
    }
}

/// The page that follows a page in the flow, and what it triggers. With
/// `skipconfig`, the password page leads straight to the installation;
/// the internet page skips the analytics, crash report and location pages.
pub open spec fn next_page(page: Page, skipconfig: bool) -> (Page, NavEffect) {
    if page == Page::Password && skipconfig {
        (Page::Installing, NavEffect::StartInstall)
    } else if page == Page::Internet {
        (Page::NightLight, NavEffect::Nothing)
    } else {
        let q = page_at(page_index(page) + 1int).unwrap();
        (q, if q == Page::Installing { NavEffect::StartInstall } else { NavEffect::Nothing })
    }
}

/// The page that precedes a page in the flow: the night light page goes back
/// to the internet page.
pub open spec fn prev_page(page: Page) -> Page {
    if page == Page::NightLight {
        Page::Internet
    } else {
        page_at(page_index(page) - 1).unwrap()
    }
}

/// The page shown after a message, and what the message triggers.
pub open spec fn step(page: Page, message: AppMsg, skipconfig: bool) -> (Page, NavEffect) {
    match message {
        AppMsg::Nav(NavAction::Next) => next_page(page, skipconfig),
        AppMsg::Nav(NavAction::Back) => (prev_page(page), NavEffect::Nothing),
        AppMsg::Nav(NavAction::GoTo(q)) => (q, NavEffect::Nothing),
        AppMsg::Nav(NavAction::Quit) => (page, NavEffect::Quit),
    }
}

impl AppModel {
    /// Handles a navigation message. `skipconfig` is the setting that skips
    /// the configuration pages after the password page.
    pub fn update(&mut self, message: AppMsg, skipconfig: bool) -> (effect: NavEffect)
        requires
            handles(old(self).page, message),
        ensures
            (final(self).page, effect) == step(old(self).page, message, skipconfig),
    {
        match message {
            AppMsg::Nav(NavAction::Next) if self.page == Page::Password && skipconfig => {
                self.page = Page::Installing;
                NavEffect::StartInstall
            },
            AppMsg::Nav(NavAction::Next) if usize::from(self.page) == 3 => {
                self.page = 7usize.try_into().expect("No page 7!");
                NavEffect::Nothing
            },
            AppMsg::Nav(NavAction::Back) if usize::from(self.page) == 7 => {
                self.page = 3usize.try_into().expect("No page 3!");
                NavEffect::Nothing
            },
            AppMsg::Nav(NavAction::GoTo(page)) => {
                self.page = page;
                NavEffect::Nothing
            },
            AppMsg::Nav(NavAction::Quit) => NavEffect::Quit,
            AppMsg::Nav(NavAction::Next) => {
                self.page = usize::from(self.page).wrapping_add(1).try_into().expect(
                    "No next page!",
                );
                if self.page == Page::Installing {
                    NavEffect::StartInstall
                } else {
                    NavEffect::Nothing
                }
            },
            AppMsg::Nav(NavAction::Back) => {
                self.page = usize::from(self.page).wrapping_sub(1).try_into().expect(
                    "No prev page!",
                );
                NavEffect::Nothing
            },
        }
    }
}


/// Every page has a position below `PAGE_COUNT`, and that position leads back
/// to the page: `Page::try_from(usize::from(p)) == Ok(p)`.
pub proof fn lemma_page_index_round_trip(p: Page)
    ensures
        page_index(p) < PAGE_COUNT,
        page_at(page_index(p) as int) == Some(p),
        page_from_index(page_index(p) as usize) == Ok::<Page, NoSuchPage>(p),
{
}

/// A position names a page exactly when it is below `PAGE_COUNT`, and the
/// page it names has that position: `usize::from(Page::try_from(i)?) == i`.
pub proof fn lemma_page_at_round_trip(i: int)
    ensures
        page_at(i) is Some <==> 0 <= i < PAGE_COUNT,
        page_at(i) is Some ==> page_index(page_at(i).unwrap()) == i,
{
}

/// Going forward always shows a later page.
pub proof fn lemma_next_moves_forward(page: Page, skipconfig: bool)
    requires
        page != Page::Installing,
    ensures
        page_index(next_page(page, skipconfig).0) > page_index(page),
{
}

/// Going back always shows an earlier page, and never starts anything.
pub proof fn lemma_back_moves_backward(page: Page, skipconfig: bool)
    requires
        page != Page::Welcome,
    ensures
        page_index(step(page, AppMsg::Nav(NavAction::Back), skipconfig).0) < page_index(page),
        step(page, AppMsg::Nav(NavAction::Back), skipconfig).1 == NavEffect::Nothing,
{
}

/// Going forward and then back returns to the page one started from, except
/// from the location page (whose successor goes back to the internet page)
/// and from the password page when the configuration is skipped.
pub proof fn lemma_back_undoes_next(page: Page, skipconfig: bool)
    requires
        page != Page::Installing,
        page != Page::Location,
        !(page == Page::Password && skipconfig),
    ensures
        prev_page(next_page(page, skipconfig).0) == page,
{
}

/// Going back and then forward returns to the page one started from, except
/// from the analytics page (whose predecessor goes forward to the night light
/// page) and from the internet page when the configuration is skipped.
pub proof fn lemma_next_undoes_back(page: Page, skipconfig: bool)
    requires
        page != Page::Welcome,
        page != Page::Analytics,
        !(page == Page::Internet && skipconfig),
    ensures
        next_page(prev_page(page), skipconfig).0 == page,
{
}

/// The installation starts exactly when going forward reaches the
/// installation page; the program quits exactly on `Quit`, which keeps the
/// page; `GoTo` shows the page asked for and starts nothing.
pub proof fn lemma_effects(page: Page, message: AppMsg, skipconfig: bool)
    requires
        handles(page, message),
    ensures
        (step(page, message, skipconfig).1 == NavEffect::StartInstall) <==> (message
            == AppMsg::Nav(NavAction::Next) && step(page, message, skipconfig).0
            == Page::Installing),
        (step(page, message, skipconfig).1 == NavEffect::Quit) <==> message == AppMsg::Nav(
            NavAction::Quit,
        ),
        message == AppMsg::Nav(NavAction::Quit) ==> step(page, message, skipconfig).0 == page,
        forall|q: Page|
            message == AppMsg::Nav(NavAction::GoTo(q)) ==> step(page, message, skipconfig) == (
                q,
                NavEffect::Nothing,
            ),
{
}

/// The analytics, crash report and location pages are reached only by
/// `GoTo`: going forward or back from any other page never shows them.
pub proof fn lemma_connectivity_pages_skipped(page: Page, message: AppMsg, skipconfig: bool)
    requires
        handles(page, message),
        message == AppMsg::Nav(NavAction::Next) || message == AppMsg::Nav(NavAction::Back),
        page != Page::Analytics,
        page != Page::CrashReport,
        page != Page::Location,
    ensures
        step(page, message, skipconfig).0 != Page::Analytics,
        step(page, message, skipconfig).0 != Page::CrashReport,
        step(page, message, skipconfig).0 != Page::Location,
{
}

} // verus!
