use livesplit_core::component::{blank_space, previous_segment, splits, timer, title, total_playtime};
use livesplit_core::layout::{
    Component, ComponentSettings, ComponentState, GeneralSettings, Layout, LayoutSettings,
};
use livesplit_core::settings::value::Error;
use livesplit_core::settings::{Alignment, Color, Gradient, SemanticColor, Value};
use livesplit_core::time::formatter::{Accuracy, DigitsFormat};
use livesplit_core::{Run, Segment, Time, TimeSpan, Timer, TimingMethod};

fn seconds(value: i64) -> TimeSpan {
    TimeSpan::from_seconds(value)
}

fn timer_with(personal_best: &[Option<i64>]) -> Timer {
    let mut run = Run::new();
    for (index, split) in personal_best.iter().enumerate() {
        let mut segment = Segment::new(&format!("segment {}", index));
        if let Some(split) = split {
            segment.set_personal_best_split_time(Time::new().with_real_time(Some(seconds(*split))));
        }
        run.push_segment(segment);
    }
    Timer::new(run)
}

fn darker(color: Color) -> (Color, Color) {
    (Color::from_bits(color.red, color.green, color.blue, 1), Color::from_bits(color.red, color.green, color.blue, 2))
}

#[test]
fn a_running_attempt_ahead_without_trend_is_gaining() {
    let mut timer = timer_with(&[Some(10), Some(20)]);
    timer.start();
    timer.advance_clock(seconds(4));
    let component = timer::Component::new();
    assert_eq!(component.semantic_color(&timer), SemanticColor::AheadGainingTime);
    timer.advance_clock(seconds(10));
    assert_eq!(component.semantic_color(&timer), SemanticColor::BehindLosingTime);
}

#[test]
fn a_running_attempt_is_held_against_the_split_before() {
    let mut timer = timer_with(&[Some(10), Some(20)]);
    timer.start();
    timer.advance_clock(seconds(7));
    timer.split();
    let component = timer::Component::new();
    assert_eq!(component.semantic_color(&timer), SemanticColor::AheadGainingTime);
    timer.advance_clock(seconds(18));
    assert_eq!(component.semantic_color(&timer), SemanticColor::AheadLosingTime);
    timer.advance_clock(seconds(25));
    assert_eq!(component.semantic_color(&timer), SemanticColor::BehindLosingTime);
}

#[test]
fn a_comparison_without_times_counts_as_ahead() {
    let mut timer = timer_with(&[None, Some(20)]);
    timer.start();
    timer.advance_clock(seconds(500));
    let component = timer::Component::new();
    assert_eq!(component.semantic_color(&timer), SemanticColor::AheadGainingTime);
    timer.set_current_comparison("Nobody");
    timer.split();
    assert_eq!(component.semantic_color(&timer), SemanticColor::AheadGainingTime);
    timer.split();
    assert_eq!(component.semantic_color(&timer), SemanticColor::PersonalBest);
}

#[test]
fn a_tie_at_the_end_is_no_new_best() {
    let component = timer::Component::new();
    for (end, expected) in [
        (19, SemanticColor::PersonalBest),
        (20, SemanticColor::BehindLosingTime),
        (21, SemanticColor::BehindLosingTime),
    ] {
        let mut timer = timer_with(&[Some(10), Some(20)]);
        timer.start();
        timer.advance_clock(seconds(5));
        timer.split();
        timer.advance_clock(seconds(end));
        timer.split();
        assert_eq!(component.semantic_color(&timer), expected);
    }
}

#[test]
fn paused_idle_and_countdown_have_fixed_answers() {
    let component = timer::Component::new();
    let mut timer = timer_with(&[Some(10)]);
    assert_eq!(component.semantic_color(&timer), SemanticColor::NotRunning);
    timer.start();
    timer.advance_clock(seconds(3));
    timer.pause();
    assert_eq!(component.semantic_color(&timer), SemanticColor::Paused);
    let mut run = Run::new();
    run.push_segment(Segment::new("only"));
    run.set_offset(seconds(-5));
    let mut countdown = Timer::new(run);
    countdown.start();
    countdown.advance_clock(seconds(2));
    assert_eq!(component.time(&countdown), seconds(-3));
    assert_eq!(component.semantic_color(&countdown), SemanticColor::NotRunning);
    countdown.advance_clock(seconds(5));
    assert_eq!(component.semantic_color(&countdown), SemanticColor::AheadGainingTime);
}

#[test]
fn the_timer_component_shows_time_and_colors() {
    let layout = GeneralSettings::default();
    let mut timer = timer_with(&[Some(100)]);
    timer.start();
    timer.advance_clock(TimeSpan::from_milliseconds(83_456));
    let component = timer::Component::new();
    let state = component.state(&timer, &layout, &darker);
    assert_eq!(state.time, "1:23");
    assert_eq!(state.fraction, ".45");
    assert_eq!(state.semantic_color, SemanticColor::AheadGainingTime);
    assert_eq!((state.top_color, state.bottom_color), darker(layout.ahead_gaining_time_color));
    assert_eq!(state.height, 60);
    assert_eq!(state.background, Gradient::Transparent);
    assert_eq!(component.name(), "Timer");
}

#[test]
fn the_timer_component_follows_its_settings() {
    let layout = GeneralSettings::default();
    let fixed = Color::from_bits(1, 2, 3, 4);
    let settings = timer::Settings {
        background: Gradient::Plain(Color::white()),
        timing_method: Some(TimingMethod::GameTime),
        height: 80,
        color_override: Some(fixed),
        show_gradient: false,
        digits_format: DigitsFormat::DoubleDigitMinutes,
        accuracy: Accuracy::Tenths,
    };
    let component = timer::Component::with_settings(settings);
    assert_eq!(component.settings(), &settings);
    let mut timer = timer_with(&[Some(100)]);
    timer.start();
    timer.advance_clock(TimeSpan::from_milliseconds(7_890));
    let state = component.state(&timer, &layout, &darker);
    assert_eq!(state.time, "00:07");
    assert_eq!(state.fraction, ".8");
    assert_eq!((state.top_color, state.bottom_color), (fixed, fixed));
    assert_eq!(state.height, 80);
    assert_eq!(state.background, Gradient::Plain(Color::white()));
    timer.set_loading_times(seconds(2));
    let state = component.state(&timer, &layout, &darker);
    assert_eq!(state.time, "00:05");
    assert_eq!(component.time(&timer), TimeSpan::from_milliseconds(5_890));
}

#[test]
fn colors_come_from_the_layout() {
    let layout = GeneralSettings::default();
    assert_eq!(SemanticColor::Default.visualize(&layout), layout.text_color);
    assert_eq!(SemanticColor::Paused.visualize(&layout), layout.paused_color);
    assert_eq!(SemanticColor::PersonalBest.visualize(&layout), layout.personal_best_color);
    assert_eq!(SemanticColor::BestSegment.visualize(&layout), layout.best_segment_color);
    assert_eq!(SemanticColor::NotRunning.visualize(&layout), layout.not_running_color);
    assert_eq!(SemanticColor::AheadLosingTime.visualize(&layout), layout.ahead_losing_time_color);
    assert_eq!(SemanticColor::BehindGainingTime.visualize(&layout), layout.behind_gaining_time_color);
    assert_eq!(SemanticColor::BehindLosingTime.visualize(&layout), layout.behind_losing_time_color);
    assert_eq!(layout.text_color, Color::white());
    assert_eq!(layout.behind_losing_time_color, Color::from_bits(0.8f32.to_bits(), 0, 0, 1.0f32.to_bits()));
    assert_eq!(SemanticColor::Default.or(SemanticColor::Paused), SemanticColor::Paused);
    assert_eq!(SemanticColor::BestSegment.or(SemanticColor::Paused), SemanticColor::BestSegment);
}

#[test]
fn timer_settings_are_set_by_index() {
    let mut component = timer::Component::new();
    let values = vec![
        Value::Gradient(Gradient::Plain(Color::black())),
        Value::OptionalTimingMethod(Some(TimingMethod::GameTime)),
        Value::UInt(0x1_0000_0005),
        Value::OptionalColor(Some(Color::white())),
        Value::Bool(false),
        Value::DigitsFormat(DigitsFormat::DoubleDigitHours),
        Value::Accuracy(Accuracy::Seconds),
    ];
    for (index, value) in values.into_iter().enumerate() {
        assert!(timer::Component::accepts_value(index, &value));
        assert!(!timer::Component::accepts_value(index + 7, &value));
        component.set_value(index, value);
    }
    assert_eq!(
        component.settings(),
        &timer::Settings {
            background: Gradient::Plain(Color::black()),
            timing_method: Some(TimingMethod::GameTime),
            height: 5,
            color_override: Some(Color::white()),
            show_gradient: false,
            digits_format: DigitsFormat::DoubleDigitHours,
            accuracy: Accuracy::Seconds,
        }
    );
    assert!(!timer::Component::accepts_value(2, &Value::Int(3)));
    assert!(!timer::Component::accepts_value(3, &Value::Color(Color::white())));
    assert!(!timer::Component::accepts_value(0, &Value::Color(Color::white())));
    component.settings_mut().height = 61;
    assert_eq!(component.settings().height, 61);
    let description = component.settings_description();
    let names: Vec<&str> = description.fields.iter().map(|field| field.text.as_str()).collect();
    assert_eq!(
        names,
        vec!["Background", "Timing Method", "Height", "Text Color", "Show Gradient", "Digits Format", "Accuracy"]
    );
    assert!(matches!(description.fields[2].value, Value::UInt(61)));
    assert!(matches!(description.fields[4].value, Value::Bool(false)));
}

#[test]
fn blank_space_shows_its_settings() {
    let timer = timer_with(&[Some(1)]);
    let mut component = blank_space::Component::new();
    assert_eq!(component.name(), "Blank Space");
    assert_eq!(
        component.state(&timer),
        blank_space::State { background: Gradient::Transparent, height: 24 }
    );
    assert!(blank_space::Component::accepts_value(0, &Value::Gradient(Gradient::Transparent)));
    assert!(blank_space::Component::accepts_value(1, &Value::UInt(1)));
    assert!(!blank_space::Component::accepts_value(0, &Value::Color(Color::white())));
    assert!(!blank_space::Component::accepts_value(1, &Value::Bool(true)));
    assert!(!blank_space::Component::accepts_value(2, &Value::UInt(1)));
    component.set_value(0, Value::Gradient(Gradient::Vertical(Color::black(), Color::white())));
    component.set_value(1, Value::UInt(40));
    assert_eq!(
        component.state(&timer),
        blank_space::State { background: Gradient::Vertical(Color::black(), Color::white()), height: 40 }
    );
    component.set_value(1, Value::UInt(u64::MAX));
    assert_eq!(component.settings().height, u32::MAX);
    component.settings_mut().height = 3;
    let description = component.settings_description();
    assert_eq!(description.fields.len(), 2);
    assert_eq!(description.fields[0].text, "Background");
    assert_eq!(description.fields[1].text, "Height");
    assert!(matches!(description.fields[1].value, Value::UInt(3)));
    let copy = blank_space::Component::with_settings(*component.settings());
    assert_eq!(copy.settings(), component.settings());
}

#[test]
fn total_playtime_shows_the_sum() {
    let mut timer = timer_with(&[Some(1)]);
    timer.start();
    timer.advance_clock(seconds(90_061));
    let mut component = total_playtime::Component::new();
    assert_eq!(component.name(), "Total Playtime");
    let state = component.state(&timer);
    assert_eq!(state.text, "Total Playtime");
    assert_eq!(state.time, "1.01:01:01");
    assert_eq!(state.label_color, None);
    assert_eq!(state.value_color, None);
    assert_eq!(
        state.background,
        Gradient::Vertical(
            Color::from_bits(1.0f32.to_bits(), 1.0f32.to_bits(), 1.0f32.to_bits(), 0.06f32.to_bits()),
            Color::from_bits(1.0f32.to_bits(), 1.0f32.to_bits(), 1.0f32.to_bits(), 0.005f32.to_bits()),
        )
    );
    assert!(total_playtime::Component::accepts_value(1, &Value::Bool(false)));
    assert!(!total_playtime::Component::accepts_value(4, &Value::Bool(false)));
    component.set_value(1, Value::Bool(false));
    component.set_value(2, Value::OptionalColor(Some(Color::black())));
    component.set_value(3, Value::OptionalColor(Some(Color::white())));
    assert!(!total_playtime::Component::accepts_value(0, &Value::Color(Color::transparent())));
    component.set_value(0, Value::Gradient(Gradient::Plain(Color::transparent())));
    let state = component.state(&timer);
    assert_eq!(state.time, "25:01:01.00");
    assert_eq!(state.label_color, Some(Color::black()));
    assert_eq!(state.value_color, Some(Color::white()));
    assert_eq!(state.background, Gradient::Plain(Color::transparent()));
    timer.reset(true);
    assert_eq!(component.state(&timer).time, "25:01:01.00");
    let description = component.settings_description();
    let names: Vec<&str> = description.fields.iter().map(|field| field.text.as_str()).collect();
    assert_eq!(names, vec!["Background", "Show Days (>24h)", "Label Color", "Value Color"]);
    component.settings_mut().show_days = true;
    assert_eq!(component.state(&timer).time, "1.01:01:01");
}

#[test]
fn values_are_handed_out_by_kind() {
    assert_eq!(Value::Bool(true).into_bool(), Ok(true));
    assert_eq!(Value::UInt(3).into_bool(), Err(Error::WrongType));
    assert_eq!(Value::UInt(3).into_uint(), Ok(3));
    assert_eq!(Value::Int(3).into_uint(), Err(Error::WrongType));
    assert_eq!(Value::Int(-3).into_int(), Ok(-3));
    assert_eq!(Value::UInt(3).into_int(), Err(Error::WrongType));
    assert_eq!(Value::String("a".to_string()).into_string(), Ok("a".to_string()));
    assert_eq!(Value::OptionalString(None).into_string(), Err(Error::WrongType));
    assert_eq!(Value::OptionalString(Some("a".to_string())).into_optional_string(), Ok(Some("a".to_string())));
    assert_eq!(Value::String("a".to_string()).into_optional_string(), Err(Error::WrongType));
    assert_eq!(Value::Float(1.5f64.to_bits()).into_float().map(f64::from_bits), Ok(1.5));
    assert_eq!(Value::UInt(1).into_float(), Err(Error::WrongType));
    assert_eq!(Value::Accuracy(Accuracy::Tenths).into_accuracy(), Ok(Accuracy::Tenths));
    assert_eq!(Value::Bool(true).into_accuracy(), Err(Error::WrongType));
    assert_eq!(
        Value::DigitsFormat(DigitsFormat::SingleDigitHours).into_digits_format(),
        Ok(DigitsFormat::SingleDigitHours)
    );
    assert_eq!(Value::Bool(true).into_digits_format(), Err(Error::WrongType));
    assert_eq!(
        Value::OptionalTimingMethod(Some(TimingMethod::RealTime)).into_optional_timing_method(),
        Ok(Some(TimingMethod::RealTime))
    );
    assert_eq!(Value::Bool(true).into_optional_timing_method(), Err(Error::WrongType));
    assert_eq!(Value::Color(Color::white()).into_color(), Ok(Color::white()));
    assert_eq!(Value::OptionalColor(None).into_color(), Err(Error::WrongType));
    assert_eq!(Value::OptionalColor(None).into_optional_color(), Ok(None));
    assert_eq!(Value::Color(Color::white()).into_optional_color(), Err(Error::WrongType));
    assert_eq!(Value::Alignment(Alignment::Center).into_alignment(), Ok(Alignment::Center));
    assert_eq!(Value::Bool(true).into_alignment(), Err(Error::WrongType));
}

#[test]
fn only_a_gradient_is_handed_out_as_a_gradient() {
    assert_eq!(
        Value::Gradient(Gradient::Horizontal(Color::black(), Color::white())).into_gradient(),
        Ok(Gradient::Horizontal(Color::black(), Color::white()))
    );
    assert_eq!(Value::Gradient(Gradient::Transparent).into_gradient(), Ok(Gradient::Transparent));
    assert_eq!(Value::Color(Color::black()).into_gradient(), Err(Error::WrongType));
    assert_eq!(Value::OptionalColor(Some(Color::black())).into_gradient(), Err(Error::WrongType));
    assert_eq!(Value::Bool(true).into_gradient(), Err(Error::WrongType));
}

#[test]
fn a_layout_shows_its_components_in_order() {
    let mut layout = Layout::new();
    assert!(layout.components.is_empty());
    assert_eq!(layout.general_settings(), &GeneralSettings::default());
    layout.push(Component::BlankSpace(blank_space::Component::new()));
    layout.push(Component::Timer(timer::Component::new()));
    layout.push(Component::TotalPlaytime(total_playtime::Component::new()));
    layout.general_settings_mut().text_color = Color::black();
    let mut timer = timer_with(&[Some(10)]);
    timer.start();
    timer.advance_clock(seconds(5));
    let state = layout.state(&timer, &darker);
    assert_eq!(state.components.len(), 3);
    assert!(matches!(&state.components[0], ComponentState::BlankSpace(blank) if blank.height == 24));
    assert!(matches!(&state.components[1], ComponentState::Timer(clock) if clock.time == "5" && clock.fraction == ".00"));
    assert!(matches!(&state.components[2], ComponentState::TotalPlaytime(total) if total.time == "0:05"));
    assert_eq!(state.text_color, Color::black());
    assert_eq!(state.background, GeneralSettings::default().background);
    assert_eq!(state.separators_color, GeneralSettings::default().separators_color);
    assert_eq!(state.thin_separators_color, GeneralSettings::default().thin_separators_color);
    let names: Vec<&str> = layout.components.iter().map(|component| component.name()).collect();
    assert_eq!(names, vec!["Blank Space", "Timer", "Total Playtime"]);
    layout.scroll_up();
    layout.scroll_down();
    layout.remount();
    assert_eq!(layout.components.len(), 3);
}

#[test]
fn a_layout_is_rebuilt_from_its_settings() {
    let settings = LayoutSettings {
        components: vec![
            ComponentSettings::Timer(timer::Settings { height: 99, ..timer::Settings::default() }),
            ComponentSettings::BlankSpace(blank_space::Settings::default()),
            ComponentSettings::TotalPlaytime(total_playtime::Settings::default()),
        ],
        general: GeneralSettings { text_color: Color::black(), ..GeneralSettings::default() },
    };
    let expected = settings.components.clone();
    let layout = Layout::from_settings(settings);
    let again = layout.settings();
    assert_eq!(again.components, expected);
    assert_eq!(again.general.text_color, Color::black());
    assert_eq!(layout.components[0].settings(), expected[0]);
    let empty = Layout::new();
    assert_eq!(empty.components.len(), 0);
}

#[test]
fn values_are_made_from_what_they_hold() {
    assert!(matches!(Value::from(true), Value::Bool(true)));
    assert!(matches!(Value::from(7u64), Value::UInt(7)));
    assert!(matches!(Value::from(-7i64), Value::Int(-7)));
    assert_eq!(Value::from("a".to_string()).into_string(), Ok("a".to_string()));
    assert_eq!(Value::from(Some("a".to_string())).into_optional_string(), Ok(Some("a".to_string())));
    assert_eq!(Value::from(Accuracy::Tenths).into_accuracy(), Ok(Accuracy::Tenths));
    assert_eq!(
        Value::from(DigitsFormat::DoubleDigitSeconds).into_digits_format(),
        Ok(DigitsFormat::DoubleDigitSeconds)
    );
    assert_eq!(
        Value::from(Some(TimingMethod::GameTime)).into_optional_timing_method(),
        Ok(Some(TimingMethod::GameTime))
    );
    assert_eq!(Value::from(Color::black()).into_color(), Ok(Color::black()));
    assert_eq!(Value::from(Some(Color::black())).into_optional_color(), Ok(Some(Color::black())));
    assert_eq!(Value::from(Gradient::Transparent).into_gradient(), Ok(Gradient::Transparent));
    assert_eq!(Value::from(Alignment::Left).into_alignment(), Ok(Alignment::Left));
    let value: Value = 24u64.into();
    assert_eq!(value.into_uint(), Ok(24));
}

#[test]
fn the_default_layout_has_four_components() {
    let standard = Layout::default_layout();
    assert_eq!(standard.components.len(), 4);
    assert_eq!(
        standard.settings().components,
        vec![
            ComponentSettings::Title(title::Settings::default()),
            ComponentSettings::Splits(splits::Settings::default()),
            ComponentSettings::Timer(timer::Settings::default()),
            ComponentSettings::PreviousSegment(previous_segment::Settings::default()),
        ]
    );
    let names: Vec<&str> = standard.components.iter().map(|component| component.name()).collect();
    assert_eq!(names, vec!["Title", "Splits", "Timer", "Previous Segment"]);
    assert_eq!(standard.general_settings(), &GeneralSettings::default());
    assert_eq!(Layout::new().components.len(), 0);
}

#[test]
fn the_default_layout_shows_a_run() {
    let mut layout = Layout::default_layout();
    let mut timer = timer_with(&[Some(10), Some(20)]);
    timer.start();
    timer.advance_clock(seconds(8));
    timer.split();
    let state = layout.state(&timer, &darker);
    assert_eq!(state.components.len(), 4);
    assert!(matches!(&state.components[0], ComponentState::Title(title) if title.attempts == Some(0)));
    assert!(matches!(&state.components[1], ComponentState::Splits(rows) if rows.splits.len() == 2
        && rows.splits[0].delta == "-2.0" && rows.splits[1].is_current_split));
    assert!(matches!(&state.components[2], ComponentState::Timer(clock) if clock.time == "8"));
    assert!(matches!(&state.components[3], ComponentState::PreviousSegment(last) if last.time == "-2.0"));
}

#[test]
fn the_title_shows_category_and_counts() {
    let mut run = Run::new();
    run.set_category_name("Any%");
    run.set_attempt_count(12);
    run.push_segment(Segment::new("only"));
    let mut timer = Timer::new(run);
    for clock in [5, 9] {
        timer.start();
        timer.advance_clock(seconds(clock));
        timer.split();
        timer.reset(true);
    }
    timer.start();
    timer.reset(true);
    let mut component = title::Component::new();
    assert_eq!(component.name(), "Title");
    let state = component.state(&timer);
    assert_eq!(state.line1, "Any%");
    assert_eq!(state.attempts, Some(12));
    assert_eq!(state.finished_runs, None);
    assert!(state.is_centered);
    assert_eq!(state.text_color, None);
    component.set_value(2, Value::Bool(false));
    component.set_value(3, Value::Bool(true));
    component.set_value(4, Value::Bool(false));
    component.set_value(5, Value::Alignment(Alignment::Left));
    component.set_value(1, Value::OptionalColor(Some(Color::black())));
    component.set_value(0, Value::Gradient(Gradient::Transparent));
    let state = component.state(&timer);
    assert_eq!(state.line1, "");
    assert_eq!(state.attempts, None);
    assert_eq!(state.finished_runs, Some(2));
    assert!(!state.is_centered);
    assert_eq!(state.text_color, Some(Color::black()));
    assert_eq!(state.background, Gradient::Transparent);
    assert!(title::Component::accepts_value(5, &Value::Alignment(Alignment::Center)));
    assert!(!title::Component::accepts_value(6, &Value::Alignment(Alignment::Center)));
    assert!(!title::Component::accepts_value(0, &Value::Color(Color::black())));
    component.settings_mut().text_alignment = Alignment::Center;
    assert!(component.state(&timer).is_centered);
    let names: Vec<String> =
        component.settings_description().fields.into_iter().map(|field| field.text).collect();
    assert_eq!(
        names,
        vec![
            "Background",
            "Text Color",
            "Show Category Name",
            "Show Finished Runs Count",
            "Show Attempt Count",
            "Text Alignment"
        ]
    );
    let copy = title::Component::with_settings(*component.settings());
    assert_eq!(copy.settings(), component.settings());
}

#[test]
fn the_previous_segment_shows_what_the_last_segment_cost() {
    let layout = GeneralSettings::default();
    let mut timer = timer_with(&[Some(10), Some(20), Some(30)]);
    let mut component = previous_segment::Component::new();
    assert_eq!(component.name(), "Previous Segment");
    let state = component.state(&timer, &layout);
    assert_eq!(state.text, "Previous Segment");
    assert_eq!(state.time, "-");
    assert_eq!(state.semantic_color, SemanticColor::Default);
    assert_eq!(state.visual_color, layout.text_color);
    timer.start();
    assert_eq!(component.state(&timer, &layout).time, "-");
    timer.advance_clock(seconds(12));
    timer.split();
    let state = component.state(&timer, &layout);
    assert_eq!(state.time, "+2.0");
    assert_eq!(state.semantic_color, SemanticColor::BestSegment);
    timer.advance_clock(seconds(19));
    timer.split();
    let state = component.state(&timer, &layout);
    assert_eq!(state.time, "-3.0");
    timer.advance_clock(TimeSpan::from_milliseconds(30_250));
    timer.split();
    component.set_value(2, Value::Accuracy(Accuracy::Hundredths));
    component.set_value(1, Value::OptionalColor(Some(Color::white())));
    component.set_value(0, Value::Gradient(Gradient::Transparent));
    let state = component.state(&timer, &layout);
    assert_eq!(state.time, "+1.25");
    assert_eq!(state.label_color, Some(Color::white()));
    assert_eq!(state.background, Gradient::Transparent);
    assert!(!previous_segment::Component::accepts_value(3, &Value::Bool(true)));
    assert!(previous_segment::Component::accepts_value(2, &Value::Accuracy(Accuracy::Seconds)));
    assert_eq!(component.settings_description().fields.len(), 3);
    component.settings_mut().accuracy = Accuracy::Seconds;
    assert_eq!(component.state(&timer, &layout).time, "+1");
    let copy = previous_segment::Component::with_settings(*component.settings());
    assert_eq!(copy.settings(), component.settings());
}

#[test]
fn the_splits_show_a_window_of_rows() {
    let layout = GeneralSettings::default();
    let mut timer = timer_with(&[Some(10), None, Some(30), Some(40), Some(50)]);
    let mut component = splits::Component::new();
    assert_eq!(component.name(), "Splits");
    let state = component.state(&timer, &layout);
    assert_eq!(state.splits.len(), 5);
    assert!(state.show_thin_separators);
    let times: Vec<&str> = state.splits.iter().map(|row| row.time.as_str()).collect();
    assert_eq!(times, vec!["0:10", "-", "0:30", "0:40", "0:50"]);
    assert!(state.splits.iter().all(|row| row.delta.is_empty() && !row.is_current_split));
    assert_eq!(state.splits[2].name, "segment 2");
    component.set_value(1, Value::UInt(3));
    timer.start();
    timer.advance_clock(seconds(12));
    timer.split();
    timer.advance_clock(seconds(25));
    timer.split();
    let state = component.state(&timer, &layout);
    let names: Vec<&str> = state.splits.iter().map(|row| row.name.as_str()).collect();
    assert_eq!(names, vec!["segment 0", "segment 1", "segment 2"]);
    assert_eq!(state.splits[0].time, "0:12");
    assert_eq!(state.splits[0].delta, "+2.0");
    assert_eq!(state.splits[0].semantic_color, SemanticColor::BestSegment);
    assert_eq!(state.splits[0].visual_color, layout.best_segment_color);
    assert_eq!(state.splits[1].time, "0:25");
    assert_eq!(state.splits[1].delta, "-");
    assert!(state.splits[2].is_current_split);
    assert_eq!(state.splits[2].semantic_color, SemanticColor::Default);
    timer.advance_clock(seconds(29));
    timer.split();
    let state = component.state(&timer, &layout);
    let names: Vec<&str> = state.splits.iter().map(|row| row.name.as_str()).collect();
    assert_eq!(names, vec!["segment 1", "segment 2", "segment 3"]);
    assert_eq!(state.splits[1].delta, "-1.0");
    component.scroll_up();
    let names: Vec<String> =
        component.state(&timer, &layout).splits.into_iter().map(|row| row.name).collect();
    assert_eq!(names, vec!["segment 0", "segment 1", "segment 2"]);
    component.scroll_down();
    component.scroll_down();
    let names: Vec<String> =
        component.state(&timer, &layout).splits.into_iter().map(|row| row.name).collect();
    assert_eq!(names, vec!["segment 2", "segment 3", "segment 4"]);
    for _ in 0..5 {
        component.scroll_down();
    }
    assert_eq!(component.state(&timer, &layout).splits[2].name, "segment 4");
    component.set_value(2, Value::Bool(false));
    component.set_value(0, Value::Gradient(Gradient::Plain(Color::black())));
    let state = component.state(&timer, &layout);
    assert!(!state.show_thin_separators);
    assert_eq!(state.background, Gradient::Plain(Color::black()));
    assert!(!splits::Component::accepts_value(1, &Value::Int(3)));
    assert!(!splits::Component::accepts_value(3, &Value::UInt(3)));
    assert_eq!(component.settings_description().fields.len(), 3);
    component.settings_mut().visual_split_count = 0;
    assert_eq!(component.state(&timer, &layout).splits.len(), 5);
    let empty = Timer::new(Run::new());
    assert!(component.state(&empty, &layout).splits.is_empty());
    let copy = splits::Component::with_settings(*component.settings());
    assert_eq!(copy.settings(), component.settings());
}

#[test]
fn a_layout_scrolls_its_splits() {
    let mut layout = Layout::new();
    layout.push(Component::Splits(splits::Component::with_settings(splits::Settings {
        visual_split_count: 2,
        ..splits::Settings::default()
    })));
    layout.push(Component::Timer(timer::Component::new()));
    let timer = timer_with(&[Some(10), Some(20), Some(30)]);
    let first_name = |layout: &mut Layout| match &layout.state(&timer, &darker).components[0] {
        ComponentState::Splits(rows) => rows.splits[0].name.clone(),
        _ => String::new(),
    };
    assert_eq!(first_name(&mut layout), "segment 0");
    layout.scroll_down();
    assert_eq!(first_name(&mut layout), "segment 1");
    layout.scroll_up();
    layout.remount();
    assert_eq!(first_name(&mut layout), "segment 0");
    assert_eq!(layout.components.len(), 2);
}
