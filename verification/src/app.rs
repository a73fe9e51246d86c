//! The dashboard's state and its elementary transitions.

use vstd::prelude::*;
use crate::homebrew::Package;
use crate::keyboard_events::KeyboardEvent;
use crate::scroll;
use crate::ui::APP_MARGIN;

verus! {

/// Which screen is up: `Init` until the listing has arrived, `Main` after.
#[derive(Clone, Copy, Debug, PartialEq, Eq, Structural)]
pub enum AppScreen {
    Init,
    Main,
}

/// The most packages a listing can hold: with more, an offset of 16 bits
/// could not reach its end.
pub const MAX_PACKAGES: usize = 65533;

/// A running upgrade: the output gathered so far and the handle `P` of the
/// process that writes it.
#[derive(Debug)]
pub struct AppPackagesUpdate<P> {
    pub progress: Vec<u8>,
    pub process: P,
}

/// The listing and how far it is scrolled.
#[derive(Debug)]
pub struct AppPackages {
    pub items: Vec<Package>,
    pub scroll: u16,
}

/// The model of a listing: its items in order, and the offset.
pub struct ListingView {
    pub items: Seq<Package>,
    pub scroll: int,
}

impl ListingView {
    /// The offset type can reach the end of the listing.
    pub open spec fn wf(self) -> bool {
        &&& self.items.len() <= MAX_PACKAGES
        &&& 0 <= self.scroll <= u16::MAX
    }

    pub open spec fn scroll_down(self, viewport_height: int) -> ListingView {
        ListingView {
            scroll: scroll::down(self.scroll, self.items.len() as int, viewport_height),
            ..self
        }
    }

    pub open spec fn scroll_up(self) -> ListingView {
        ListingView { scroll: scroll::up(self.scroll), ..self }
    }

    pub open spec fn scroll_page_down(self, viewport_height: int) -> ListingView {
        ListingView {
            scroll: scroll::page_down(self.scroll, self.items.len() as int, viewport_height),
            ..self
        }
    }

    pub open spec fn scroll_page_up(self, viewport_height: int) -> ListingView {
        ListingView { scroll: scroll::page_up(self.scroll, viewport_height), ..self }
    }

    pub open spec fn scroll_end(self, viewport_height: int) -> ListingView {
        ListingView { scroll: scroll::end(self.items.len() as int, viewport_height), ..self }
    }

    pub open spec fn scroll_start(self) -> ListingView {
        ListingView { scroll: scroll::start(), ..self }
    }
}

impl View for AppPackages {
    type V = ListingView;

    open spec fn view(&self) -> ListingView {
        ListingView { items: self.items@, scroll: self.scroll as int }
    }
}

impl AppPackages {
    /// A listing of `items`, scrolled to the top.
    pub fn new(items: Vec<Package>) -> (packages: Self)
        requires
            items@.len() <= MAX_PACKAGES,
        ensures
            packages.items == items,
            packages.scroll == 0,
            packages@.wf(),
    {
        Self { items, scroll: 0 }
    }

    /// One line down, unless the viewport already ends more than half the
    /// margin past the listing.
    pub fn scroll_down(&mut self, terminal_height: u16)
        requires
            old(self)@.wf(),
        ensures
            final(self).items == old(self).items,
            final(self)@ == old(self)@.scroll_down(terminal_height as int),
    {
        let packages_count: u32 = self.items.len() as u32;
        let half_margin: u32 = (APP_MARGIN / 2) as u32;
        if self.scroll as u32 + terminal_height as u32 <= packages_count + half_margin {
            self.scroll = self.scroll + 1;
        }
    }

    /// One line up, unless already at the top.
    pub fn scroll_up(&mut self)
        ensures
            final(self).items == old(self).items,
            final(self)@ == old(self)@.scroll_up(),
    {
        if self.scroll > 0 {
            self.scroll = self.scroll - 1;
        }
    }

    /// One viewport down, stopping at the largest offset.
    pub fn scroll_page_down(&mut self, terminal_height: u16)
        requires
            old(self)@.wf(),
        ensures
            final(self).items == old(self).items,
            final(self)@ == old(self)@.scroll_page_down(terminal_height as int),
    {
        let packages_count: u32 = self.items.len() as u32;
        let new_scroll: u32 = self.scroll as u32 + terminal_height as u32;
        let reach: u32 = packages_count + APP_MARGIN as u32;
        let max_size: u32 = if reach >= terminal_height as u32 {
            reach - terminal_height as u32
        } else {
            0
        };
        self.scroll = if new_scroll <= max_size {
            new_scroll as u16
        } else {
            max_size as u16
        };
    }

    /// One viewport up, stopping at the top.
    pub fn scroll_page_up(&mut self, terminal_height: u16)
        ensures
            final(self).items == old(self).items,
            final(self)@ == old(self)@.scroll_page_up(terminal_height as int),
    {
        self.scroll = if self.scroll >= terminal_height {
            self.scroll - terminal_height
        } else {
            0
        };
    }

    /// To the largest offset, which shows the end of the listing.
    pub fn scroll_end(&mut self, terminal_height: u16)
        requires
            old(self)@.wf(),
        ensures
            final(self).items == old(self).items,
            final(self)@ == old(self)@.scroll_end(terminal_height as int),
    {
        let reach: u32 = self.items.len() as u32 + APP_MARGIN as u32;
        self.scroll = if reach >= terminal_height as u32 {
            (reach - terminal_height as u32) as u16
        } else {
            0
        };
    }

    /// To the top.
    pub fn scroll_start(&mut self)
        ensures
            final(self).items == old(self).items,
            final(self)@ == old(self)@.scroll_start(),
    {
        self.scroll = 0;
    }
}

/// The model of a running upgrade: the bytes gathered so far, in order, and
/// the process handle.
pub struct UpdateView<P> {
    pub progress: Seq<u8>,
    pub process: P,
}

impl<P> View for AppPackagesUpdate<P> {
    type V = UpdateView<P>;

    open spec fn view(&self) -> UpdateView<P> {
        UpdateView { progress: self.progress@, process: self.process }
    }
}

impl<P> AppPackagesUpdate<P> {
    /// An upgrade whose process is `process` and whose output so far is
    /// `progress`.
    pub fn new(progress: Vec<u8>, process: P) -> (update: Self)
        ensures
            update.progress == progress,
            update.process == process,
    {
        Self { progress, process }
    }
}

/// The whole state of the dashboard. `P` is the handle of the upgrade
/// process, which the state keeps and never looks into.
#[derive(Debug)]
pub struct App<P> {
    pub screen: AppScreen,
    pub packages: Option<AppPackages>,
    pub update: Option<AppPackagesUpdate<P>>,
    pub quitting: bool,
}

/// What the caller has to do after a command was applied to the state.
#[derive(Clone, Copy, Debug, PartialEq, Eq, Structural)]
pub enum Action {
    /// Nothing beyond the next redraw.
    Continue,
    /// Leave the loop.
    Quit,
    /// Spawn the upgrade process and hand it to `start_update`.
    StartUpgrade,
    /// Terminate the upgrade process, then call `finish_update`.
    StopUpgrade,
}

/// The model of the state.
pub struct AppView<P> {
    pub screen: AppScreen,
    pub packages: Option<ListingView>,
    pub update: Option<UpdateView<P>>,
    pub quitting: bool,
}

/// Whether `command` moves the listing.
pub open spec fn is_scroll(command: KeyboardEvent) -> bool {
    ||| command == KeyboardEvent::ScrollDown
    ||| command == KeyboardEvent::ScrollUp
    ||| command == KeyboardEvent::ScrollPageDown
    ||| command == KeyboardEvent::ScrollPageUp
    ||| command == KeyboardEvent::ScrollEnd
    ||| command == KeyboardEvent::ScrollStart
}

impl ListingView {
    /// The listing after `command`, seen through a viewport of
    /// `viewport_height` rows. Commands that do not scroll leave it as it is.
    pub open spec fn after_command(
        self,
        command: KeyboardEvent,
        viewport_height: int,
    ) -> ListingView {
        match command {
            KeyboardEvent::ScrollDown => self.scroll_down(viewport_height),
            KeyboardEvent::ScrollUp => self.scroll_up(),
            KeyboardEvent::ScrollPageDown => self.scroll_page_down(viewport_height),
            KeyboardEvent::ScrollPageUp => self.scroll_page_up(viewport_height),
            KeyboardEvent::ScrollEnd => self.scroll_end(viewport_height),
            KeyboardEvent::ScrollStart => self.scroll_start(),
            _ => self,
        }
    }
}

impl<P> AppView<P> {
    /// The listing is there exactly on the main screen, and it is one the
    /// offset can cover.
    pub open spec fn wf(self) -> bool {
        &&& self.packages is Some <==> self.screen == AppScreen::Main
        &&& self.packages matches Some(listing) ==> listing.wf()
    }

    /// The state at start: no listing yet, no upgrade.
    pub open spec fn initial() -> AppView<P> {
        AppView { screen: AppScreen::Init, packages: None, update: None, quitting: false }
    }

    /// The state once the listing `items` has arrived.
    pub open spec fn load_packages(self, items: Seq<Package>) -> AppView<P> {
        AppView {
            screen: AppScreen::Main,
            packages: Some(ListingView { items, scroll: 0 }),
            ..self
        }
    }

    /// The state once an upgrade runs in `process`, with no output yet.
    pub open spec fn start_update(self, process: P) -> AppView<P> {
        AppView { update: Some(UpdateView { progress: Seq::empty(), process }), ..self }
    }

    /// The state once the upgrade is closed.
    pub open spec fn finish_update(self) -> AppView<P> {
        AppView { update: None, ..self }
    }

    /// The state once `byte` has been added to the upgrade's output.
    pub open spec fn push_progress(self, byte: u8) -> AppView<P>
        recommends
            self.update is Some,
    {
        AppView {
            update: Some(
                UpdateView {
                    progress: self.update->0.progress.push(byte),
                    process: self.update->0.process,
                },
            ),
            ..self
        }
    }

    /// The state after `command`. Only scrolling changes it, and only
    /// while there is a listing to scroll: an upgrade starts and ends
    /// through `start_update` and `finish_update`, once the caller has done
    /// what `action_for` asks.
    pub open spec fn after_command(self, command: KeyboardEvent, viewport_height: int) -> AppView<
        P,
    > {
        match self.packages {
            Some(listing) => AppView {
                packages: Some(listing.after_command(command, viewport_height)),
                ..self
            },
            None => self,
        }
    }

    /// What `command` asks of the caller. `Update` starts an upgrade only
    /// when none runs, and `Close` stops one only when one does.
    pub open spec fn action_for(self, command: KeyboardEvent) -> Action {
        match command {
            KeyboardEvent::Quit => Action::Quit,
            KeyboardEvent::Close => if self.update is Some {
                Action::StopUpgrade
            } else {
                Action::Continue
            },
            KeyboardEvent::Update => if self.update is None {
                Action::StartUpgrade
            } else {
                Action::Continue
            },
            _ => Action::Continue,
        }
    }
}

impl<P> View for App<P> {
    type V = AppView<P>;

    open spec fn view(&self) -> AppView<P> {
        AppView {
            screen: self.screen,
            packages: match self.packages {
                Some(packages) => Some(packages@),
                None => None,
            },
            update: match self.update {
                Some(update) => Some(update@),
                None => None,
            },
            quitting: self.quitting,
        }
    }
}

impl<P> App<P> {
    /// The state at start.
    pub fn new() -> (app: Self)
        ensures
            app@ == AppView::<P>::initial(),
            app@.wf(),
    {
        Self { packages: None, screen: AppScreen::Init, update: None, quitting: false }
    }

    /// Whether the listing is there exactly on the main screen and is one
    /// the offset can cover. Every method keeps this; only a write to a
    /// field from outside can break it.
    pub fn well_formed(&self) -> (ok: bool)
        ensures
            ok == self@.wf(),
    {
        match &self.packages {
            Some(packages) => self.screen == AppScreen::Main && packages.items.len()
                <= MAX_PACKAGES,
            None => self.screen == AppScreen::Init,
        }
    }

    /// Takes the listing in and switches to the main screen, in one step.
    /// This happens once: the listing is never replaced.
    pub fn load_packages(&mut self, items: Vec<Package>)
        requires
            old(self).screen == AppScreen::Init,
            items@.len() <= MAX_PACKAGES,
        ensures
            final(self)@ == old(self)@.load_packages(items@),
            final(self)@.wf(),
    {
        self.packages = Some(AppPackages::new(items));
        self.screen = AppScreen::Main;
    }

    /// Records that an upgrade now runs in `process`.
    pub fn start_update(&mut self, process: P)
        requires
            old(self).update is None,
        ensures
            final(self)@ == old(self)@.start_update(process),
    {
        self.update = Some(AppPackagesUpdate::new(Vec::new(), process));
    }

    /// Adds one byte of the upgrade's output.
    pub fn push_progress(&mut self, byte: u8)
        requires
            old(self).update is Some,
        ensures
            final(self)@ == old(self)@.push_progress(byte),
    {
        match &mut self.update {
            Some(update) => {
                update.progress.push(byte);
            },
            None => {},
        }
    }

    /// Forgets the upgrade, after its process was terminated.
    pub fn finish_update(&mut self)
        ensures
            final(self)@ == old(self)@.finish_update(),
    {
        self.update = None;
    }

    /// Applies `command` and says what is left for the caller to do.
    /// `terminal_height` is the viewport height at this moment. A scroll
    /// while there is no listing changes nothing.
    pub fn dispatch(&mut self, command: KeyboardEvent, terminal_height: u16) -> (action: Action)
        requires
            old(self)@.wf(),
        ensures
            final(self)@ == old(self)@.after_command(command, terminal_height as int),
            final(self)@.wf(),
            action == old(self)@.action_for(command),
    {
        match command {
            KeyboardEvent::Quit => Action::Quit,
            KeyboardEvent::Close => if self.update.is_some() {
                Action::StopUpgrade
            } else {
                Action::Continue
            },
            KeyboardEvent::Update => if self.update.is_none() {
                Action::StartUpgrade
            } else {
                Action::Continue
            },
            KeyboardEvent::ScrollDown => {
                match &mut self.packages {
                    Some(packages) => packages.scroll_down(terminal_height),
                    None => {},
                }
                Action::Continue
            },
            KeyboardEvent::ScrollUp => {
                match &mut self.packages {
                    Some(packages) => packages.scroll_up(),
                    None => {},
                }
                Action::Continue
            },
            KeyboardEvent::ScrollPageDown => {
                match &mut self.packages {
                    Some(packages) => packages.scroll_page_down(terminal_height),
                    None => {},
                }
                Action::Continue
            },
            KeyboardEvent::ScrollPageUp => {
                match &mut self.packages {
                    Some(packages) => packages.scroll_page_up(terminal_height),
                    None => {},
                }
                Action::Continue
            },
            KeyboardEvent::ScrollEnd => {
                match &mut self.packages {
                    Some(packages) => packages.scroll_end(terminal_height),
                    None => {},
                }
                Action::Continue
            },
            KeyboardEvent::ScrollStart => {
                match &mut self.packages {
                    Some(packages) => packages.scroll_start(),
                    None => {},
                }
                Action::Continue
            },
            KeyboardEvent::Other => Action::Continue,
        }
    }
}

/// A move to the end followed by a move to the start leaves the offset at
/// zero and the items as they were, whatever the listing and the viewport
/// heights of the two moves.
pub proof fn lemma_end_then_start(listing: ListingView, end_height: int, start_height: int)
    ensures
        listing.after_command(KeyboardEvent::ScrollEnd, end_height).after_command(
            KeyboardEvent::ScrollStart,
            start_height,
        ) == (ListingView { items: listing.items, scroll: 0 }),
{
}

/// Scrolling keeps a listing within what the offset can cover.
pub proof fn lemma_scroll_keeps_wf(listing: ListingView, command: KeyboardEvent, viewport_height: int)
    requires
        listing.wf(),
        0 <= viewport_height,
    ensures
        listing.after_command(command, viewport_height).wf(),
        listing.after_command(command, viewport_height).items == listing.items,
{
}

/// Of two `Update` commands in a row only the first starts an upgrade. The
/// second finds the one that the first led to, asks for nothing and changes
/// nothing, so one upgrade runs after both.
pub proof fn lemma_second_update_is_ignored<P>(app: AppView<P>, process: P, viewport_height: int)
    requires
        app.update is None,
    ensures
        app.action_for(KeyboardEvent::Update) == Action::StartUpgrade,
        ({
            let started = app.after_command(KeyboardEvent::Update, viewport_height).start_update(
                process,
            );
            &&& started.update == Some(UpdateView { progress: Seq::<u8>::empty(), process })
            &&& started.action_for(KeyboardEvent::Update) == Action::Continue
            &&& started.after_command(KeyboardEvent::Update, viewport_height) == started
        }),
{
}

/// `Close` asks to stop an upgrade exactly when one runs, and once that
/// one is finished a second `Close` asks for nothing.
pub proof fn lemma_close_stops_once<P>(app: AppView<P>, viewport_height: int)
    ensures
        app.action_for(KeyboardEvent::Close) == Action::StopUpgrade <==> app.update is Some,
        app.after_command(KeyboardEvent::Close, viewport_height) == app,
        app.finish_update().action_for(KeyboardEvent::Close) == Action::Continue,
{
}

/// No transition leaves the main screen or drops the listing, and every one
/// keeps the state well formed.
pub proof fn lemma_main_screen_stays<P>(
    app: AppView<P>,
    command: KeyboardEvent,
    viewport_height: int,
    process: P,
    byte: u8,
)
    requires
        app.wf(),
        0 <= viewport_height,
    ensures
        app.after_command(command, viewport_height).wf(),
        app.start_update(process).wf(),
        app.push_progress(byte).wf(),
        app.finish_update().wf(),
        app.after_command(command, viewport_height).screen == app.screen,
        app.start_update(process).screen == app.screen,
        app.push_progress(byte).screen == app.screen,
        app.finish_update().screen == app.screen,
{
    if app.packages is Some {
        lemma_scroll_keeps_wf(app.packages->0, command, viewport_height);
    }
}

} // verus!
