//! The settings that all components of a layout share.

use crate::settings::color::{Color, Gradient, ONE};
use vstd::prelude::*;

verus! {

/// The settings that all components of a layout share: the background of the
/// layout and the color of each classification of a time.
#[derive(Clone, Copy, Debug, PartialEq, Eq, Structural)]
pub struct GeneralSettings {
    /// The background of the layout.
    pub background: Gradient,
    /// The color of a segment that was run faster than ever before.
    pub best_segment_color: Color,
    /// The color of a time that is ahead and getting further ahead.
    pub ahead_gaining_time_color: Color,
    /// The color of a time that is ahead but falling back.
    pub ahead_losing_time_color: Color,
    /// The color of a time that is behind but catching up.
    pub behind_gaining_time_color: Color,
    /// The color of a time that is behind and falling further back.
    pub behind_losing_time_color: Color,
    /// The color of the time while no attempt is in progress.
    pub not_running_color: Color,
    /// The color of a time that beat the comparison.
    pub personal_best_color: Color,
    /// The color of the time while the attempt is paused.
    pub paused_color: Color,
    /// The color of the thin lines between components.
    pub thin_separators_color: Color,
    /// The color of the lines between components.
    pub separators_color: Color,
    /// The color of text.
    pub text_color: Color,
}

impl GeneralSettings {
    /// The settings of a dark layout, as a specification value.
    pub open spec fn spec_default() -> GeneralSettings {
        GeneralSettings {
            background: Gradient::Plain(
                Color { red: 0x3d75_c28f, green: 0x3d75_c28f, blue: 0x3d75_c28f, alpha: ONE },
            ),
            best_segment_color: Color { red: ONE, green: 0x3f55_5555, blue: 0, alpha: ONE },
            ahead_gaining_time_color: Color {
                red: 0,
                green: 0x3f4c_cccd,
                blue: 0x3e5a_740d,
                alpha: ONE,
            },
            ahead_losing_time_color: Color {
                red: 0x3ec2_8f5d,
                green: 0x3f51_eb86,
                blue: 0x3efe_a27a,
                alpha: ONE,
            },
            behind_gaining_time_color: Color {
                red: 0x3f51_eb86,
                green: 0x3ec2_8f5d,
                blue: 0x3ec2_8f5d,
                alpha: ONE,
            },
            behind_losing_time_color: Color { red: 0x3f4c_cccd, green: 0, blue: 0, alpha: ONE },
            not_running_color: Color {
                red: 0x3f2b_851f,
                green: 0x3f2b_851f,
                blue: 0x3f2b_851f,
                alpha: ONE,
            },
            personal_best_color: Color {
                red: 0x3da3_d710,
                green: 0x3f25_b7a2,
                blue: ONE,
                alpha: ONE,
            },
            paused_color: Color {
                red: 0x3ef5_c28f,
                green: 0x3ef5_c28f,
                blue: 0x3ef5_c28f,
                alpha: ONE,
            },
            thin_separators_color: Color { red: ONE, green: ONE, blue: ONE, alpha: 0x3db8_51ec },
            separators_color: Color { red: ONE, green: ONE, blue: ONE, alpha: 0x3eb3_3333 },
            text_color: Color { red: ONE, green: ONE, blue: ONE, alpha: ONE },
        }
    }
}

impl Default for GeneralSettings {
    /// The settings of a dark layout: white text on a nearly black
    /// background, green for ahead, red for behind, gold for a best segment
    /// and blue for a new personal best.
    fn default() -> (result: GeneralSettings)
        ensures
            result == GeneralSettings::spec_default(),
    {
        GeneralSettings {
            background: Gradient::Plain(Color::from_bits(0x3d75_c28f, 0x3d75_c28f, 0x3d75_c28f, ONE)),
            best_segment_color: Color::from_bits(ONE, 0x3f55_5555, 0, ONE),
            ahead_gaining_time_color: Color::from_bits(0, 0x3f4c_cccd, 0x3e5a_740d, ONE),
            ahead_losing_time_color: Color::from_bits(0x3ec2_8f5d, 0x3f51_eb86, 0x3efe_a27a, ONE),
            behind_gaining_time_color: Color::from_bits(0x3f51_eb86, 0x3ec2_8f5d, 0x3ec2_8f5d, ONE),
            behind_losing_time_color: Color::from_bits(0x3f4c_cccd, 0, 0, ONE),
            not_running_color: Color::from_bits(0x3f2b_851f, 0x3f2b_851f, 0x3f2b_851f, ONE),
            personal_best_color: Color::from_bits(0x3da3_d710, 0x3f25_b7a2, ONE, ONE),
            paused_color: Color::from_bits(0x3ef5_c28f, 0x3ef5_c28f, 0x3ef5_c28f, ONE),
            thin_separators_color: Color::from_bits(ONE, ONE, ONE, 0x3db8_51ec),
            separators_color: Color::from_bits(ONE, ONE, ONE, 0x3eb3_3333),
            text_color: Color::from_bits(ONE, ONE, ONE, ONE),
        }
    }
}

} // verus!
