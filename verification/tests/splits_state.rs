use livesplit_core::component::splits::column::{ColumnState, SemanticColor};
use livesplit_core::component::splits::state::FIRST_BLANK_INDEX;
use livesplit_core::component::splits::window::{rows, window};
use livesplit_core::component::splits::{
    Component, ImageId, Segment, Settings, SplitState, State, Window,
};
use livesplit_core::platform::{to_local, Instant};
use livesplit_core::settings::{Color, Gradient, ListGradient};

fn settings(rows: usize, ahead: usize, always_show_last_split: bool) -> Settings {
    let mut settings = Settings::default();
    settings.visual_split_count = rows;
    settings.split_preview_count = ahead;
    settings.always_show_last_split = always_show_last_split;
    settings
}

fn segments(count: usize) -> Vec<Segment> {
    (0..count)
        .map(|index| Segment { icon: ImageId::empty(), name: format!("Segment {}", index) })
        .collect()
}

fn cell(segment: usize, column: usize) -> ColumnState {
    ColumnState {
        value: format!("{}/{}", segment, column),
        semantic_color: SemanticColor::Default,
        visual_color: Color::transparent(),
        updates_frequently: segment == column,
    }
}

fn indices(state: &State) -> Vec<usize> {
    state.splits.iter().map(|split| split.index).collect()
}

fn shown(settings: &Settings, run_len: usize, current: Option<usize>, scroll: isize) -> Vec<usize> {
    let window = window(settings, run_len, current, scroll);
    rows(&window, settings.always_show_last_split, run_len)
}

#[test]
fn the_window_starts_at_the_top() {
    let window = window(&settings(5, 1, true), 20, None, 0);
    assert_eq!(
        window,
        Window {
            visual_split_count: 5,
            scroll_offset: 0,
            skip_count: 0,
            take_count: 4,
            show_final_separator: true,
        }
    );
    assert_eq!(shown(&settings(5, 1, true), 20, None, 0), vec![0, 1, 2, 3, 19]);
    assert_eq!(shown(&settings(5, 1, false), 20, None, 0), vec![0, 1, 2, 3, 4]);
}

#[test]
fn the_window_follows_the_current_segment() {
    let settings = settings(5, 1, true);
    assert_eq!(shown(&settings, 20, Some(0), 0), vec![0, 1, 2, 3, 19]);
    assert_eq!(shown(&settings, 20, Some(2), 0), vec![0, 1, 2, 3, 19]);
    assert_eq!(shown(&settings, 20, Some(3), 0), vec![1, 2, 3, 4, 19]);
    assert_eq!(shown(&settings, 20, Some(10), 0), vec![8, 9, 10, 11, 19]);
    assert_eq!(window(&settings, 20, Some(10), 0).skip_count, 10 + 1 + 1 + 1 - 5);
    assert_eq!(shown(&settings, 20, Some(17), 0), vec![15, 16, 17, 18, 19]);
    assert_eq!(shown(&settings, 20, Some(19), 0), vec![15, 16, 17, 18, 19]);
}

#[test]
fn the_window_shows_the_segments_ahead() {
    assert_eq!(shown(&settings(5, 0, false), 20, Some(10), 0), vec![6, 7, 8, 9, 10]);
    assert_eq!(shown(&settings(5, 2, false), 20, Some(10), 0), vec![8, 9, 10, 11, 12]);
    assert_eq!(shown(&settings(5, 4, false), 20, Some(10), 0), vec![10, 11, 12, 13, 14]);
    assert_eq!(shown(&settings(5, 9, false), 20, Some(10), 0), vec![15, 16, 17, 18, 19]);
}

#[test]
fn the_final_separator_stands_where_segments_are_left_out() {
    let settings = settings(5, 1, true);
    assert!(window(&settings, 20, Some(10), 0).show_final_separator);
    assert!(window(&settings, 20, Some(16), 0).show_final_separator);
    assert!(!window(&settings, 20, Some(17), 0).show_final_separator);
    assert!(!window(&settings, 5, Some(1), 0).show_final_separator);
    let mut without = settings.clone();
    without.separator_last_split = false;
    assert!(!window(&without, 20, Some(10), 0).show_final_separator);
    let mut unlocked = settings.clone();
    unlocked.always_show_last_split = false;
    assert!(!window(&unlocked, 20, Some(10), 0).show_final_separator);
}

#[test]
fn scrolling_moves_the_window() {
    let settings = settings(5, 1, true);
    assert_eq!(shown(&settings, 20, Some(10), 1), vec![9, 10, 11, 12, 19]);
    assert_eq!(shown(&settings, 20, Some(10), -3), vec![5, 6, 7, 8, 19]);
    assert_eq!(window(&settings, 20, Some(10), -3).scroll_offset, -3);
}

#[test]
fn scrolling_is_held_within_the_segments() {
    let settings = settings(5, 1, true);
    let top = window(&settings, 20, Some(10), -100);
    assert_eq!(top.scroll_offset, -8);
    assert_eq!(top.skip_count, 0);
    let bottom = window(&settings, 20, Some(10), 100);
    assert_eq!(bottom.scroll_offset, 7);
    assert_eq!(bottom.skip_count, 15);
    assert_eq!(window(&settings, 20, Some(10), isize::MIN).scroll_offset, -8);
    assert_eq!(window(&settings, 20, Some(10), isize::MAX).scroll_offset, 7);
    assert_eq!(window(&settings, 20, None, isize::MIN).scroll_offset, 0);
}

#[test]
fn all_segments_are_shown_with_no_rows_set() {
    let settings = settings(0, 1, true);
    let window = window(&settings, 7, Some(3), 2);
    assert_eq!(
        window,
        Window {
            visual_split_count: 7,
            scroll_offset: 0,
            skip_count: 0,
            take_count: 6,
            show_final_separator: false,
        }
    );
    assert_eq!(shown(&settings, 7, Some(3), 2), vec![0, 1, 2, 3, 4, 5, 6]);
}

#[test]
fn a_short_run_is_shown_whole() {
    let settings = settings(16, 1, true);
    let window = window(&settings, 4, Some(2), 0);
    assert_eq!(window.visual_split_count, 16);
    assert_eq!(window.skip_count, 0);
    assert_eq!(window.take_count, 15);
    assert_eq!(window.scroll_offset, 0);
    assert!(!window.show_final_separator);
    assert_eq!(shown(&settings, 4, Some(2), 0), vec![0, 1, 2, 3]);
    // Scrolling a list that has room for all the segments does nothing.
    assert_eq!(shown(&settings, 4, Some(2), 3), vec![0, 1, 2, 3]);
    assert_eq!(shown(&settings, 4, Some(2), -3), vec![0, 1, 2, 3]);
}

#[test]
fn a_run_without_segments_has_no_rows() {
    assert_eq!(shown(&settings(0, 1, true), 0, None, 0), Vec::<usize>::new());
    assert_eq!(shown(&settings(3, 1, true), 0, None, 5), Vec::<usize>::new());
    assert_eq!(window(&settings(0, 1, true), 0, None, 0).take_count, 0);
}

#[test]
fn the_state_shows_the_window() {
    let mut component = Component::with_settings(settings(5, 1, true));
    let run = segments(20);
    let state = component.state(&run, Some(10), cell);
    assert_eq!(indices(&state), vec![8, 9, 10, 11, 19]);
    assert!(state.show_final_separator);
    for split in &state.splits {
        assert_eq!(split.name, format!("Segment {}", split.index));
        assert_eq!(split.icon, ImageId::empty());
        assert_eq!(split.is_current_split, split.index == 10);
        assert_eq!(split.columns, vec![cell(split.index, 0), cell(split.index, 1)]);
    }
}

#[test]
fn the_state_takes_over_the_settings() {
    let mut settings = settings(5, 1, true);
    settings.background = ListGradient::Same(Gradient::Plain(Color::rgba(1, 2, 3, 4)));
    settings.current_split_gradient = Gradient::Horizontal(Color::rgba(5, 6, 7, 8), Color::transparent());
    settings.show_thin_separators = false;
    settings.display_two_rows = true;
    let mut component = Component::with_settings(settings.clone());
    let state = component.state(&segments(3), None, cell);
    assert_eq!(state.background, settings.background);
    assert_eq!(state.current_split_gradient, settings.current_split_gradient);
    assert!(!state.show_thin_separators);
    assert!(state.display_two_rows);
    assert_eq!(state.column_labels, None);
    assert!(!state.has_icons);
}

#[test]
fn the_state_has_the_column_labels_where_they_are_shown() {
    let mut settings = settings(5, 1, true);
    settings.show_column_labels = true;
    let mut component = Component::with_settings(settings);
    let state = component.state(&segments(3), None, cell);
    assert_eq!(state.column_labels, Some(vec![String::from("Time"), String::from("+/−")]));
}

#[test]
fn the_state_knows_of_icons_that_are_not_shown() {
    let mut run = segments(20);
    let mut hash = [0u8; 32];
    hash[31] = 1;
    run[15].icon = ImageId { hash };
    let mut component = Component::with_settings(settings(5, 1, false));
    let state = component.state(&run, None, cell);
    assert_eq!(indices(&state), vec![0, 1, 2, 3, 4]);
    assert!(state.has_icons);
    assert!(!run[15].icon.is_empty());
    assert!(run[14].icon.is_empty());
}

#[test]
fn the_empty_image_is_the_digest_of_nothing() {
    assert_eq!(
        ImageId::empty().hash,
        [
            0xe3, 0xb0, 0xc4, 0x42, 0x98, 0xfc, 0x1c, 0x14, 0x9a, 0xfb, 0xf4, 0xc8, 0x99, 0x6f,
            0xb9, 0x24, 0x27, 0xae, 0x41, 0xe4, 0x64, 0x9b, 0x93, 0x4c, 0xa4, 0x95, 0x99, 0x1b,
            0x78, 0x52, 0xb8, 0x55,
        ]
    );
    assert!(ImageId::empty().is_empty());
    assert!(!ImageId { hash: [0; 32] }.is_empty());
}

#[test]
fn blank_rows_fill_the_list() {
    let mut component = Component::with_settings(settings(6, 1, true));
    let state = component.state(&segments(3), Some(1), cell);
    assert_eq!(
        indices(&state),
        vec![0, 1, 2, usize::MAX - 1, usize::MAX - 3, usize::MAX - 5]
    );
    assert_eq!(FIRST_BLANK_INDEX, usize::MAX ^ 1);
    assert_eq!(
        state.splits[3],
        SplitState {
            icon: ImageId::empty(),
            name: String::new(),
            columns: Vec::new(),
            is_current_split: false,
            index: usize::MAX - 1,
        }
    );
    assert!(state.splits[1].is_current_split);
}

#[test]
fn no_blank_rows_where_they_are_not_asked_for() {
    let mut settings = settings(6, 1, true);
    settings.fill_with_blank_space = false;
    let mut component = Component::with_settings(settings);
    let state = component.state(&segments(3), None, cell);
    assert_eq!(indices(&state), vec![0, 1, 2]);
    let mut component = Component::with_settings(Settings::default());
    let state = component.state(&segments(16), None, cell);
    assert_eq!(state.splits.len(), 16);
    let state = component.state(&segments(40), None, cell);
    assert_eq!(state.splits.len(), 16);
}

#[test]
fn update_state_replaces_what_the_state_held() {
    let mut component = Component::with_settings(settings(3, 0, false));
    let mut state = component.state(&segments(10), Some(5), cell);
    assert_eq!(indices(&state), vec![3, 4, 5]);
    component.update_state(&mut state, &segments(2), None, cell);
    assert_eq!(indices(&state), vec![0, 1, usize::MAX - 1]);
    assert_eq!(state.column_labels, None);
}

#[test]
fn scrolling_the_component_moves_its_window() {
    let mut component = Component::with_settings(settings(5, 1, true));
    let run = segments(20);
    assert_eq!(indices(&component.state(&run, Some(10), cell)), vec![8, 9, 10, 11, 19]);
    component.scroll_down();
    assert_eq!(indices(&component.state(&run, Some(10), cell)), vec![9, 10, 11, 12, 19]);
    component.scroll_up();
    component.scroll_up();
    assert_eq!(indices(&component.state(&run, Some(10), cell)), vec![7, 8, 9, 10, 19]);
}

#[test]
fn scrolling_past_the_end_is_not_remembered() {
    let mut component = Component::with_settings(settings(5, 1, true));
    let run = segments(20);
    component.state(&run, Some(10), cell);
    for _ in 0..50 {
        component.scroll_down();
    }
    assert_eq!(indices(&component.state(&run, Some(10), cell)), vec![15, 16, 17, 18, 19]);
    component.scroll_up();
    assert_eq!(indices(&component.state(&run, Some(10), cell)), vec![14, 15, 16, 17, 19]);
}

#[test]
fn a_new_current_segment_ends_the_scrolling() {
    let mut component = Component::with_settings(settings(5, 1, true));
    let run = segments(20);
    component.state(&run, Some(10), cell);
    component.scroll_up();
    component.scroll_up();
    assert_eq!(indices(&component.state(&run, Some(10), cell)), vec![6, 7, 8, 9, 19]);
    assert_eq!(indices(&component.state(&run, Some(11), cell)), vec![9, 10, 11, 12, 19]);
    component.scroll_down();
    assert_eq!(indices(&component.state(&run, None, cell)), vec![0, 1, 2, 3, 19]);
}

#[test]
fn instants_count_nanoseconds() {
    assert_eq!(Instant::now(0, 0).whole_nanoseconds(), 0);
    assert_eq!(Instant::now(3, 500_000_000).whole_nanoseconds(), 3_500_000_000);
    assert_eq!(Instant::now(-3, 500_000_000).whole_nanoseconds(), -2_500_000_000);
    assert_eq!(Instant::now(1, -1).whole_nanoseconds(), 999_999_999);
    assert_eq!(Instant::now(0, 1_999_999_999).whole_nanoseconds(), 1_999_999_999);
    assert_eq!(
        Instant::now(i64::MAX, i32::MAX).whole_nanoseconds(),
        i64::MAX as i128 * 1_000_000_000 + i32::MAX as i128
    );
    assert_eq!(
        Instant::now(i64::MIN, i32::MIN).whole_nanoseconds(),
        i64::MIN as i128 * 1_000_000_000 + i32::MIN as i128
    );
}

#[test]
fn the_time_between_two_instants() {
    let earlier = Instant::now(10, 250_000_000);
    let later = Instant::now(12, 100_000_000);
    assert_eq!(later.sub(earlier), 1_850_000_000);
    assert_eq!(earlier.sub(later), -1_850_000_000);
    assert_eq!(earlier.sub(earlier), 0);
    let first = Instant::now(i64::MIN, i32::MIN);
    let last = Instant::now(i64::MAX, i32::MAX);
    assert_eq!(
        last.sub(first),
        (i64::MAX as i128 - i64::MIN as i128) * 1_000_000_000 + i32::MAX as i128
            - i32::MIN as i128
    );
    assert!(earlier < later);
    assert_eq!(earlier, Instant::now(10, 250_000_000));
}

#[test]
fn the_local_time_is_the_time_given() {
    let date_time = time::OffsetDateTime::from_unix_timestamp(1_700_000_000).unwrap();
    assert_eq!(to_local(date_time), date_time);
    assert_eq!(to_local(date_time).unix_timestamp(), 1_700_000_000);
    let epoch = time::OffsetDateTime::UNIX_EPOCH;
    assert_eq!(to_local(epoch), epoch);
}
