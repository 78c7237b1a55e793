//! The classification of a time against a comparison.

use super::color::Color;
use crate::layout::general_settings::GeneralSettings;
use vstd::prelude::*;

verus! {

/// How a time stands against a comparison. It says what a color means, not
/// which color it is: the layout decides that.
#[derive(Clone, Copy, Debug, PartialEq, Eq, Structural, Hash)]
pub enum SemanticColor {
    /// Nothing is known about the time.
    Default,
    /// Ahead of the comparison, and further ahead than at the split before.
    AheadGainingTime,
    /// Ahead of the comparison, but less so than at the split before.
    AheadLosingTime,
    /// Behind the comparison, but less so than at the split before.
    BehindGainingTime,
    /// Behind the comparison, and further behind than at the split before.
    BehindLosingTime,
    /// The segment was run faster than ever before.
    BestSegment,
    /// No attempt is in progress.
    NotRunning,
    /// The attempt is paused.
    Paused,
    /// The attempt beat the comparison.
    PersonalBest,
}

impl SemanticColor {
    /// This classification, or `other` where this one says nothing.
    pub open spec fn spec_or(self, other: SemanticColor) -> SemanticColor {
        if self == SemanticColor::Default {
            other
        } else {
            self
        }
    }

    /// The color that `layout_settings` gives this classification; the text
    /// color where it says nothing.
    pub open spec fn spec_visualize(self, layout_settings: GeneralSettings) -> Color {
        match self {
            SemanticColor::Default => layout_settings.text_color,
            SemanticColor::AheadGainingTime => layout_settings.ahead_gaining_time_color,
            SemanticColor::AheadLosingTime => layout_settings.ahead_losing_time_color,
            SemanticColor::BehindGainingTime => layout_settings.behind_gaining_time_color,
            SemanticColor::BehindLosingTime => layout_settings.behind_losing_time_color,
            SemanticColor::BestSegment => layout_settings.best_segment_color,
            SemanticColor::NotRunning => layout_settings.not_running_color,
            SemanticColor::Paused => layout_settings.paused_color,
            SemanticColor::PersonalBest => layout_settings.personal_best_color,
        }
    }

    /// This classification, or `other` where this one says nothing.
    #[verifier::when_used_as_spec(spec_or)]
    pub fn or(self, other: SemanticColor) -> (result: SemanticColor)
        ensures
            result == self.spec_or(other),
    {
        match self {
            SemanticColor::Default => other,
            _ => self,
        }
    }

    /// The color that `layout_settings` gives this classification.
    pub fn visualize(self, layout_settings: &GeneralSettings) -> (result: Color)
        ensures
            result == self.spec_visualize(*layout_settings),
    {
        match self {
            SemanticColor::Default => layout_settings.text_color,
            SemanticColor::AheadGainingTime => layout_settings.ahead_gaining_time_color,
            SemanticColor::AheadLosingTime => layout_settings.ahead_losing_time_color,
            SemanticColor::BehindGainingTime => layout_settings.behind_gaining_time_color,
            SemanticColor::BehindLosingTime => layout_settings.behind_losing_time_color,
            SemanticColor::BestSegment => layout_settings.best_segment_color,
            SemanticColor::NotRunning => layout_settings.not_running_color,
            SemanticColor::Paused => layout_settings.paused_color,
            SemanticColor::PersonalBest => layout_settings.personal_best_color,
        }
    }
}

} // verus!
