//! The layout itself.

use super::component::{Component, ComponentSettings, ComponentState, ComponentView};
use super::general_settings::GeneralSettings;
use crate::component::{previous_segment, splits, timer, title};
use crate::settings::color::{Color, Gradient};
use crate::timing::timer::Timer;
use vstd::prelude::*;

verus! {

/// The components of a user interface, from top to bottom, with the settings
/// that they share.
pub struct Layout {
    /// The components, from top to bottom.
    pub components: Vec<Component>,
    settings: GeneralSettings,
}

/// The settings of a layout and of its components.
pub struct LayoutSettings {
    /// The settings of the components, from top to bottom.
    pub components: Vec<ComponentSettings>,
    /// The settings that the components share.
    pub general: GeneralSettings,
}

/// What a layout shows.
pub struct LayoutState {
    /// What the components show, from top to bottom.
    pub components: Vec<ComponentState>,
    /// The background of the layout.
    pub background: Gradient,
    /// The color of the thin lines between components.
    pub thin_separators_color: Color,
    /// The color of the lines between components.
    pub separators_color: Color,
    /// The color of text.
    pub text_color: Color,
}

/// What a layout holds.
pub struct LayoutView {
    /// The components, from top to bottom.
    pub components: Seq<ComponentView>,
    /// The settings that the components share.
    pub general: GeneralSettings,
}

impl View for Layout {
    type V = LayoutView;

    closed spec fn view(&self) -> LayoutView {
        LayoutView { components: settings_of(self.components@), general: self.settings }
    }
}

/// What each of `components` holds, in the same order.
pub open spec fn settings_of(components: Seq<Component>) -> Seq<ComponentView> {
    Seq::new(components.len(), |i: int| components[i]@)
}

impl LayoutView {
    /// The settings of the components, from top to bottom.
    pub open spec fn component_settings(self) -> Seq<ComponentSettings> {
        Seq::new(self.components.len(), |i: int| self.components[i].settings())
    }

    /// The layout with every component scrolled by `rows` rows down.
    pub open spec fn scrolled(self, rows: int) -> LayoutView {
        LayoutView {
            components: Seq::new(
                self.components.len(),
                |i: int| self.components[i].scrolled(rows),
            ),
            ..self
        }
    }
}

/// The components of the kinds of `settings` with these settings, not
/// scrolled, in the same order.
pub open spec fn fresh_components(settings: Seq<ComponentSettings>) -> Seq<ComponentView> {
    Seq::new(settings.len(), |i: int| ComponentView::fresh(settings[i]))
}

impl Layout {
    /// The layout without components, with the default settings.
    pub fn new() -> (result: Layout)
        ensures
            result@.components == Seq::<ComponentView>::empty(),
            result@.general == GeneralSettings::spec_default(),
    {
        let layout = Layout { components: Vec::new(), settings: GeneralSettings::default() };
        assert(layout@.components =~= Seq::<ComponentView>::empty());
        layout
    }

    /// The layout that a new user interface starts with: a title, the
    /// splits, a timer and the previous segment, from top to bottom, each
    /// with its default settings, under the default settings of a layout.
    pub fn default_layout() -> (result: Layout)
        ensures
            result@.components == seq![
                ComponentView::Title(title::Settings::spec_default()),
                ComponentView::Splits(
                    splits::ComponentView::fresh(splits::Settings::spec_default()),
                ),
                ComponentView::Timer(timer::Settings::spec_default()),
                ComponentView::PreviousSegment(previous_segment::Settings::spec_default()),
            ],
            result@.general == GeneralSettings::spec_default(),
    {
        let mut components: Vec<Component> = Vec::new();
        components.push(Component::Title(title::Component::new()));
        components.push(Component::Splits(splits::Component::new()));
        components.push(Component::Timer(timer::Component::new()));
        components.push(Component::PreviousSegment(previous_segment::Component::new()));
        let layout = Layout { components, settings: GeneralSettings::default() };
        assert(layout@.components =~= seq![
            ComponentView::Title(title::Settings::spec_default()),
            ComponentView::Splits(splits::ComponentView::fresh(splits::Settings::spec_default())),
            ComponentView::Timer(timer::Settings::spec_default()),
            ComponentView::PreviousSegment(previous_segment::Settings::spec_default()),
        ]);
        layout
    }

    /// The layout that `layout_settings` describes: one component for each
    /// of its settings, in the same order, none of them scrolled.
    pub fn from_settings(layout_settings: LayoutSettings) -> (result: Layout)
        ensures
            result@.components == fresh_components(layout_settings.components@),
            result@.general == layout_settings.general,
    {
        let mut components: Vec<Component> = Vec::new();
        let mut at: usize = 0;
        while at < layout_settings.components.len()
            invariant
                at <= layout_settings.components@.len(),
                components@.len() == at,
                forall|i: int|
                    0 <= i < at ==> (#[trigger] components@[i])@ == ComponentView::fresh(
                        layout_settings.components@[i],
                    ),
            decreases layout_settings.components@.len() - at,
        {
            components.push(Component::from_settings(layout_settings.components[at]));
            at += 1;
        }
        let layout = Layout { components, settings: layout_settings.general };
        assert(layout@.components =~= fresh_components(layout_settings.components@));
        layout
    }

    /// The settings that the components share.
    pub fn general_settings(&self) -> (result: &GeneralSettings)
        ensures
            *result == self@.general,
    {
        &self.settings
    }

    /// The settings that the components share, for changing them in place.
    pub fn general_settings_mut(&mut self) -> (result: &mut GeneralSettings)
        ensures
            *result == old(self)@.general,
            final(self)@ == (LayoutView { general: *final(result), ..old(self)@ }),
    {
        &mut self.settings
    }

    /// Appends `component` below the components that the layout has.
    pub fn push(&mut self, component: Component)
        ensures
            final(self)@ == (LayoutView {
                components: old(self)@.components.push(component@),
                ..old(self)@
            }),
    {
        self.components.push(component);
        assert(self@.components =~= old(self)@.components.push(component@));
    }

    /// What the layout shows of `timer`: what each component shows, from
    /// top to bottom, and the colors that the components share. `shade`
    /// gives the two ends of the gradient of a color.
    pub fn state<F: Fn(Color) -> (Color, Color)>(&mut self, timer: &Timer, shade: &F) -> (result:
        LayoutState)
        requires
            forall|color: Color| shade.requires((color,)),
        ensures
            final(self)@ == old(self)@,
            result.components@.len() == old(self)@.components.len(),
            forall|i: int|
                0 <= i < result.components@.len() ==> (#[trigger] result.components@[i]).shows(
                    old(self)@.components[i],
                    timer@,
                    old(self)@.general,
                    shade,
                ),
            result.background == old(self)@.general.background,
            result.thin_separators_color == old(self)@.general.thin_separators_color,
            result.separators_color == old(self)@.general.separators_color,
            result.text_color == old(self)@.general.text_color,
    {
        let mut components: Vec<ComponentState> = Vec::new();
        let mut at: usize = 0;
        while at < self.components.len()
            invariant
                *self == *old(self),
                at <= self.components@.len(),
                components@.len() == at,
                forall|color: Color| shade.requires((color,)),
                forall|i: int|
                    0 <= i < at ==> (#[trigger] components@[i]).shows(
                        self.components@[i]@,
                        timer@,
                        self.settings,
                        shade,
                    ),
            decreases self.components@.len() - at,
        {
            let state = self.components[at].state(timer, &self.settings, shade);
            components.push(state);
            at += 1;
        }
        LayoutState {
            components,
            background: self.settings.background,
            thin_separators_color: self.settings.thin_separators_color,
            separators_color: self.settings.separators_color,
            text_color: self.settings.text_color,
        }
    }

    /// The settings of the layout and of its components.
    pub fn settings(&self) -> (result: LayoutSettings)
        ensures
            result.components@ == self@.component_settings(),
            result.general == self@.general,
    {
        let mut components: Vec<ComponentSettings> = Vec::new();
        let mut at: usize = 0;
        while at < self.components.len()
            invariant
                at <= self.components@.len(),
                components@.len() == at,
                forall|i: int| 0 <= i < at ==> components@[i] == self.components@[i]@.settings(),
            decreases self.components@.len() - at,
        {
            components.push(self.components[at].settings());
            at += 1;
        }
        assert(components@ =~= self@.component_settings());
        LayoutSettings { components, general: self.settings }
    }

    /// Scrolls the components that can scroll up by one row: the splits
    /// move their window, every other component stays as it is.
    pub fn scroll_up(&mut self)
        ensures
            final(self)@ == old(self)@.scrolled(-1),
    {
        let mut at: usize = 0;
        while at < self.components.len()
            invariant
                at <= self.components@.len(),
                self.components@.len() == old(self).components@.len(),
                self.settings == old(self).settings,
                forall|i: int|
                    0 <= i < self.components@.len() ==> (#[trigger] self.components@[i])@ == if i
                        < at {
                        old(self).components@[i]@.scrolled(-1)
                    } else {
                        old(self).components@[i]@
                    },
            decreases self.components@.len() - at,
        {
            self.components[at].scroll_up();
            at += 1;
        }
        assert(self@.components =~= old(self)@.scrolled(-1).components);
    }

    /// Scrolls the components that can scroll down by one row: the splits
    /// move their window, every other component stays as it is.
    pub fn scroll_down(&mut self)
        ensures
            final(self)@ == old(self)@.scrolled(1),
    {
        let mut at: usize = 0;
        while at < self.components.len()
            invariant
                at <= self.components@.len(),
                self.components@.len() == old(self).components@.len(),
                self.settings == old(self).settings,
                forall|i: int|
                    0 <= i < self.components@.len() ==> (#[trigger] self.components@[i])@ == if i
                        < at {
                        old(self).components@[i]@.scrolled(1)
                    } else {
                        old(self).components@[i]@
                    },
            decreases self.components@.len() - at,
        {
            self.components[at].scroll_down();
            at += 1;
        }
        assert(self@.components =~= old(self)@.scrolled(1).components);
    }

    /// Tells the components that the layout is shown afresh. No component
    /// keeps anything of an earlier showing, so the layout stays as it is.
    pub fn remount(&mut self)
        ensures
            final(self)@ == old(self)@,
    {
    }
}

} // verus!
