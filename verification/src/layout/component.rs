//! One component of a layout, whatever its kind.

use super::general_settings::GeneralSettings;
use crate::component::{blank_space, previous_segment, splits, timer, title, total_playtime};
use crate::settings::color::Color;
use crate::timing::timer::{Timer, TimerView};
use vstd::prelude::*;

verus! {

/// A component of a layout.
pub enum Component {
    /// An empty row.
    BlankSpace(blank_space::Component),
    /// The time gained or lost on the segment that was run last.
    PreviousSegment(previous_segment::Component),
    /// The segments of the run as rows.
    Splits(splits::Component),
    /// The time of the attempt.
    Timer(timer::Component),
    /// The category that is run.
    Title(title::Component),
    /// The time that went into the category.
    TotalPlaytime(total_playtime::Component),
}

/// The settings of a component of a layout.
#[derive(Clone, Copy, Debug, PartialEq, Eq, Structural)]
pub enum ComponentSettings {
    /// Those of an empty row.
    BlankSpace(blank_space::Settings),
    /// Those of a previous segment component.
    PreviousSegment(previous_segment::Settings),
    /// Those of a splits component.
    Splits(splits::Settings),
    /// Those of a timer component.
    Timer(timer::Settings),
    /// Those of a title component.
    Title(title::Settings),
    /// Those of a total playtime component.
    TotalPlaytime(total_playtime::Settings),
}

/// What a component of a layout shows.
pub enum ComponentState {
    /// What an empty row shows.
    BlankSpace(blank_space::State),
    /// What a previous segment component shows.
    PreviousSegment(previous_segment::State),
    /// What a splits component shows.
    Splits(splits::State),
    /// What a timer component shows.
    Timer(timer::State),
    /// What a title component shows.
    Title(title::State),
    /// What a total playtime component shows.
    TotalPlaytime(total_playtime::State),
}

/// What a component of a layout holds: its settings, and for a splits
/// component how far it is scrolled.
pub enum ComponentView {
    /// An empty row with these settings.
    BlankSpace(blank_space::Settings),
    /// A previous segment component with these settings.
    PreviousSegment(previous_segment::Settings),
    /// A splits component with its settings and scroll offset.
    Splits(splits::ComponentView),
    /// A timer component with these settings.
    Timer(timer::Settings),
    /// A title component with these settings.
    Title(title::Settings),
    /// A total playtime component with these settings.
    TotalPlaytime(total_playtime::Settings),
}

impl ComponentView {
    /// The settings of the component.
    pub open spec fn settings(self) -> ComponentSettings {
        match self {
            ComponentView::BlankSpace(settings) => ComponentSettings::BlankSpace(settings),
            ComponentView::PreviousSegment(settings) => ComponentSettings::PreviousSegment(
                settings,
            ),
            ComponentView::Splits(component) => ComponentSettings::Splits(component.settings),
            ComponentView::Timer(settings) => ComponentSettings::Timer(settings),
            ComponentView::Title(settings) => ComponentSettings::Title(settings),
            ComponentView::TotalPlaytime(settings) => ComponentSettings::TotalPlaytime(settings),
        }
    }

    /// The component of the kind of `settings` with these settings, not
    /// scrolled.
    pub open spec fn fresh(settings: ComponentSettings) -> ComponentView {
        match settings {
            ComponentSettings::BlankSpace(settings) => ComponentView::BlankSpace(settings),
            ComponentSettings::PreviousSegment(settings) => ComponentView::PreviousSegment(
                settings,
            ),
            ComponentSettings::Splits(settings) => ComponentView::Splits(
                splits::ComponentView::fresh(settings),
            ),
            ComponentSettings::Timer(settings) => ComponentView::Timer(settings),
            ComponentSettings::Title(settings) => ComponentView::Title(settings),
            ComponentSettings::TotalPlaytime(settings) => ComponentView::TotalPlaytime(settings),
        }
    }

    /// The component scrolled by `rows` rows down: a splits component moves
    /// its window, every other component stays as it is.
    pub open spec fn scrolled(self, rows: int) -> ComponentView {
        match self {
            ComponentView::Splits(component) => ComponentView::Splits(component.scrolled(rows)),
            _ => self,
        }
    }
}

impl View for Component {
    type V = ComponentView;

    open spec fn view(&self) -> ComponentView {
        match self {
            Component::BlankSpace(component) => ComponentView::BlankSpace(component@),
            Component::PreviousSegment(component) => ComponentView::PreviousSegment(component@),
            Component::Splits(component) => ComponentView::Splits(component@),
            Component::Timer(component) => ComponentView::Timer(component@),
            Component::Title(component) => ComponentView::Title(component@),
            Component::TotalPlaytime(component) => ComponentView::TotalPlaytime(component@),
        }
    }
}

impl ComponentState {
    /// Whether this is what the component `component` shows of `timer` in a
    /// layout with `layout_settings`, where `shade` turns a color into the
    /// two ends of its gradient.
    pub open spec fn shows<F: Fn(Color) -> (Color, Color)>(
        self,
        component: ComponentView,
        timer: TimerView,
        layout_settings: GeneralSettings,
        shade: &F,
    ) -> bool {
        match (self, component) {
            (ComponentState::BlankSpace(state), ComponentView::BlankSpace(settings)) => state
                == (blank_space::State {
                background: settings.background,
                height: settings.height,
            }),
            (
                ComponentState::PreviousSegment(state),
                ComponentView::PreviousSegment(settings),
            ) => state.shows(settings, timer, layout_settings),
            (ComponentState::Splits(state), ComponentView::Splits(component)) => state.shows(
                component,
                timer,
                layout_settings,
            ),
            (ComponentState::Timer(state), ComponentView::Timer(settings)) => state.shows(
                settings,
                timer,
                layout_settings,
                shade,
            ),
            (ComponentState::Title(state), ComponentView::Title(settings)) => state.shows(
                settings,
                timer,
            ),
            (
                ComponentState::TotalPlaytime(state),
                ComponentView::TotalPlaytime(settings),
            ) => state.shows(settings, timer),
            _ => false,
        }
    }
}

impl Component {
    /// The component of the kind of `settings`, with these settings and not
    /// scrolled.
    pub fn from_settings(settings: ComponentSettings) -> (result: Component)
        ensures
            result@ == ComponentView::fresh(settings),
    {
        match settings {
            ComponentSettings::BlankSpace(settings) => Component::BlankSpace(
                blank_space::Component::with_settings(settings),
            ),
            ComponentSettings::PreviousSegment(settings) => Component::PreviousSegment(
                previous_segment::Component::with_settings(settings),
            ),
            ComponentSettings::Splits(settings) => Component::Splits(
                splits::Component::with_settings(settings),
            ),
            ComponentSettings::Timer(settings) => Component::Timer(
                timer::Component::with_settings(settings),
            ),
            ComponentSettings::Title(settings) => Component::Title(
                title::Component::with_settings(settings),
            ),
            ComponentSettings::TotalPlaytime(settings) => Component::TotalPlaytime(
                total_playtime::Component::with_settings(settings),
            ),
        }
    }

    /// The settings of the component.
    pub fn settings(&self) -> (result: ComponentSettings)
        ensures
            result == self@.settings(),
    {
        match self {
            Component::BlankSpace(component) => ComponentSettings::BlankSpace(
                *component.settings(),
            ),
            Component::PreviousSegment(component) => ComponentSettings::PreviousSegment(
                *component.settings(),
            ),
            Component::Splits(component) => ComponentSettings::Splits(*component.settings()),
            Component::Timer(component) => ComponentSettings::Timer(*component.settings()),
            Component::Title(component) => ComponentSettings::Title(*component.settings()),
            Component::TotalPlaytime(component) => ComponentSettings::TotalPlaytime(
                *component.settings(),
            ),
        }
    }

    /// The name of the component.
    pub fn name(&self) -> (result: &'static str)
        ensures
            result@ == match self {
                Component::BlankSpace(_) => "Blank Space"@,
                Component::PreviousSegment(_) => "Previous Segment"@,
                Component::Splits(_) => "Splits"@,
                Component::Timer(_) => "Timer"@,
                Component::Title(_) => "Title"@,
                Component::TotalPlaytime(_) => "Total Playtime"@,
            },
    {
        match self {
            Component::BlankSpace(component) => component.name(),
            Component::PreviousSegment(component) => component.name(),
            Component::Splits(component) => component.name(),
            Component::Timer(component) => component.name(),
            Component::Title(component) => component.name(),
            Component::TotalPlaytime(component) => component.name(),
        }
    }

    /// What the component shows of `timer`.
    pub fn state<F: Fn(Color) -> (Color, Color)>(
        &self,
        timer: &Timer,
        layout_settings: &GeneralSettings,
        shade: &F,
    ) -> (result: ComponentState)
        requires
            forall|color: Color| shade.requires((color,)),
        ensures
            result.shows(self@, timer@, *layout_settings, shade),
    {
        match self {
            Component::BlankSpace(component) => ComponentState::BlankSpace(component.state(timer)),
            Component::PreviousSegment(component) => ComponentState::PreviousSegment(
                component.state(timer, layout_settings),
            ),
            Component::Splits(component) => ComponentState::Splits(
                component.state(timer, layout_settings),
            ),
            Component::Timer(component) => ComponentState::Timer(
                component.state(timer, layout_settings, shade),
            ),
            Component::Title(component) => ComponentState::Title(component.state(timer)),
            Component::TotalPlaytime(component) => ComponentState::TotalPlaytime(
                component.state(timer),
            ),
        }
    }

    /// Scrolls the component up by one row, if it can scroll.
    pub fn scroll_up(&mut self)
        ensures
            final(self)@ == old(self)@.scrolled(-1),
    {
        match self {
            Component::Splits(component) => {
                component.scroll_up();
            },
            _ => {},
        }
    }

    /// Scrolls the component down by one row, if it can scroll.
    pub fn scroll_down(&mut self)
        ensures
            final(self)@ == old(self)@.scrolled(1),
    {
        match self {
            Component::Splits(component) => {
                component.scroll_down();
            },
            _ => {},
        }
    }

    /// Tells the component that it is shown afresh. No component keeps
    /// anything of an earlier showing, so it stays as it is.
    pub fn remount(&mut self)
        ensures
            final(self)@ == old(self)@,
    {
    }
}

} // verus!
