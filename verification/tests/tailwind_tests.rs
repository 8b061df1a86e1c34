use html_tailwind_ui::tailwind::AlignContent;
use html_tailwind_ui::tailwind::AlignItems;
use html_tailwind_ui::tailwind::DisplayMode;
use html_tailwind_ui::tailwind::EdgeRect;
use html_tailwind_ui::tailwind::FlexDirection;
use html_tailwind_ui::tailwind::GridTrack;
use html_tailwind_ui::tailwind::JustifyContent;
use html_tailwind_ui::tailwind::PositionMode;
use html_tailwind_ui::tailwind::Rgba;
use html_tailwind_ui::tailwind::Style;
use html_tailwind_ui::tailwind::Val;
use html_tailwind_ui::tailwind::Visibility;

#[test]
fn test_0() {
    let input = vec![
        (
            "w-[20px]",
            Style {
                width: Val::Px(20),
                ..Default::default()
            },
        ),
        (
            "min-w-[120px]",
            Style {
                min_width: Val::Px(120),
                ..Default::default()
            },
        ),
        (
            "w-full max-w-[200px] min-w-[120px]",
            Style {
                width: Val::Percent(100),
                min_width: Val::Px(120),
                max_width: Val::Px(200),
                ..Default::default()
            },
        ),
        (
            "ml-[2px] my-[20px]",
            Style {
                margin: EdgeRect {
                    left: Val::Px(2),
                    bottom: Val::Px(20),
                    top: Val::Px(20),
                    ..EdgeRect::zero()
                },
                ..Default::default()
            },
        ),
        (
            "z-20",
            Style {
                z_index: 20,
                ..Default::default()
            },
        ),
        (
            "-z-20",
            Style {
                z_index: -20,
                ..Default::default()
            },
        ),
    ];

    for (test, res) in input {
        assert_eq!(Style::parse(test), res);
    }
}

#[test]
fn empty_class_string_yields_defaults() {
    let style = Style::parse("");
    assert_eq!(style, Style::default());
    assert_eq!(style.visibility, Visibility::Visible);
    assert_eq!(style.position, PositionMode::Relative);
    assert_eq!(style.display, DisplayMode::Block);
    assert_eq!(style.width, Val::Auto);
    assert_eq!(style.z_index, 0);
    assert_eq!(style.text_color, Rgba { r: 0, g: 0, b: 0, a: 255 });
    assert!(style.grid_template_columns.is_empty());
}

#[test]
fn resolve_is_deterministic_on_same_input() {
    let input = "flex flex-col w-[120px] bg-[#1a2b3cff] -z-20 grid-cols-[1fr_2fr_auto] bogus";
    let first = Style::parse(input);
    let second = Style::parse(input);
    assert_eq!(first, second);
}

#[test]
fn last_token_wins_z_index() {
    assert_eq!(Style::parse("z-10 z-20").z_index, 20);
    assert_eq!(Style::parse("z-20 z-10").z_index, 10);
}

#[test]
fn last_token_wins_display() {
    assert_eq!(Style::parse("flex grid").display, DisplayMode::Grid);
    assert_eq!(Style::parse("grid flex").display, DisplayMode::Flex);
}

#[test]
fn edge_additive_margin_shorthands() {
    let style = Style::parse("ml-[2px] my-[20px]");
    assert_eq!(style.margin.left, Val::Px(2));
    assert_eq!(style.margin.top, Val::Px(20));
    assert_eq!(style.margin.bottom, Val::Px(20));
    assert_eq!(style.margin.right, Val::Px(0));
}

#[test]
fn whole_border_width_sets_all_edges() {
    let style = Style::parse("border-4");
    assert_eq!(style.border, EdgeRect::all(Val::Px(4)));
    let style = Style::parse("border");
    assert_eq!(style.border, EdgeRect::all(Val::Px(1)));
}

#[test]
fn edge_additive_border_shorthands() {
    let style = Style::parse("border-t-4 border-x-2");
    assert_eq!(style.border.top, Val::Px(4));
    assert_eq!(style.border.left, Val::Px(2));
    assert_eq!(style.border.right, Val::Px(2));
    assert_eq!(style.border.bottom, Val::Px(0));
}

#[test]
fn unknown_tokens_never_abort() {
    let (style, warnings) = Style::parse_with_warnings("flex totally-bogus-class");
    assert_eq!(style.display, DisplayMode::Flex);
    assert_eq!(warnings.len(), 1);
    assert_eq!(warnings[0], "totally-bogus-class");
}

#[test]
fn recognized_tokens_produce_no_warnings() {
    let (_, warnings) = Style::parse_with_warnings("flex w-[10px] bg-[#336699] grid-cols-3");
    assert!(warnings.is_empty());
}

#[test]
fn numeric_round_trips() {
    assert_eq!(Style::parse("w-[20px]").width, Val::Px(20));
    assert_eq!(Style::parse("-z-20").z_index, -20);
    assert_eq!(Style::parse("z-20").z_index, 20);
}

#[test]
fn color_parsing_with_and_without_alpha() {
    let opaque = Style::parse("bg-[#336699]");
    assert_eq!(
        opaque.background_color,
        Rgba { r: 0x33, g: 0x66, b: 0x99, a: 255 }
    );
    let translucent = Style::parse("bg-[#33669980]");
    assert_eq!(
        translucent.background_color,
        Rgba { r: 0x33, g: 0x66, b: 0x99, a: 0x80 }
    );
}

#[test]
fn text_and_border_colors() {
    let style = Style::parse("text-[#ff000080] border-[#00ff00]");
    assert_eq!(style.text_color, Rgba { r: 255, g: 0, b: 0, a: 0x80 });
    assert_eq!(style.border_color, Rgba { r: 0, g: 255, b: 0, a: 255 });
}

#[test]
fn grid_track_list() {
    let style = Style::parse("grid-cols-[1fr_2fr_auto]");
    assert_eq!(
        style.grid_template_columns,
        vec![GridTrack::Fr(1), GridTrack::Fr(2), GridTrack::Auto]
    );
}

#[test]
fn grid_bare_count() {
    let style = Style::parse("grid-cols-3");
    assert_eq!(
        style.grid_template_columns,
        vec![GridTrack::Auto, GridTrack::Auto, GridTrack::Auto]
    );
}

#[test]
fn grid_pixel_tracks() {
    let style = Style::parse("grid-cols-[100px_auto_1fr]");
    assert_eq!(
        style.grid_template_columns,
        vec![GridTrack::Px(100), GridTrack::Auto, GridTrack::Fr(1)]
    );
}

#[test]
fn malformed_grid_list_is_unsupported() {
    let (style, warnings) = Style::parse_with_warnings("grid-cols-[1fr_oops]");
    assert!(style.grid_template_columns.is_empty());
    assert_eq!(warnings.len(), 1);
}

#[test]
fn anchored_matching_rejects_embedded_tokens() {
    let (style, warnings) = Style::parse_with_warnings("foopx-[3px] xw-[5px]");
    assert_eq!(style, Style::parse(""));
    assert_eq!(warnings.len(), 2);
}

#[test]
fn numeral_out_of_range_is_unsupported() {
    let (style, warnings) = Style::parse_with_warnings("z-99999999999 grid-cols-70000");
    assert_eq!(style.z_index, 0);
    assert!(style.grid_template_columns.is_empty());
    assert_eq!(warnings.len(), 2);
}

#[test]
fn largest_supported_numerals() {
    assert_eq!(Style::parse("z-2147483647").z_index, 2147483647);
    assert_eq!(Style::parse("-z-2147483647").z_index, -2147483647);
    assert_eq!(
        Style::parse("w-[18446744073709551615px]").width,
        Val::Px(u64::MAX)
    );
    assert_eq!(
        Style::parse("grid-cols-[65535px]").grid_template_columns,
        vec![GridTrack::Px(65535)]
    );
}

#[test]
fn place_tokens_set_both_fields() {
    let style = Style::parse("place-content-center");
    assert_eq!(style.align_content, AlignContent::Center);
    assert_eq!(style.justify_content, JustifyContent::Center);
    let style = Style::parse("place-items-baseline");
    assert_eq!(style.align_items, AlignItems::Baseline);
}

#[test]
fn literal_layout_tokens() {
    let style = Style::parse("invisible absolute hidden flex-col-reverse");
    assert_eq!(style.visibility, Visibility::Hidden);
    assert_eq!(style.position, PositionMode::Absolute);
    assert_eq!(style.display, DisplayMode::NoDisplay);
    assert_eq!(style.flex_direction, FlexDirection::ColumnReverse);
}

#[test]
fn size_full_sets_both_dimensions() {
    let style = Style::parse("size-full");
    assert_eq!(style.width, Val::Percent(100));
    assert_eq!(style.height, Val::Percent(100));
}

#[test]
fn whitespace_separation_is_flexible() {
    let a = Style::parse("  flex \t w-[10px] \n z-5  ");
    let b = Style::parse("flex w-[10px] z-5");
    assert_eq!(a, b);
}
