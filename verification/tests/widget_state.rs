//! Widget handle state: setters store, getters read back.

use neo_lvgl::layout::LayoutExt;
use neo_lvgl::scroll::ScrollExt;
use neo_lvgl::widgets::arc::{Arc, ArcMode};
use neo_lvgl::widgets::bar::{Bar, BarMode, BarOrientation};
use neo_lvgl::widgets::buttonmatrix::{ButtonMatrix, ButtonMatrixCtrl};
use neo_lvgl::widgets::calendar::{Calendar, CalendarDate};
use neo_lvgl::widgets::chart::{Chart, ChartAxis, ChartType};
use neo_lvgl::widgets::canvas::{Canvas, ColorFormat as CanvasFormat};
use neo_lvgl::widgets::checkbox::Checkbox;
use neo_lvgl::widgets::dropdown::{Dropdown, OptionPos};
use neo_lvgl::widgets::image::{Image, Rotation, Scale};
use neo_lvgl::widgets::label::{Label, LabelLongMode};
use neo_lvgl::widgets::led::Led;
use neo_lvgl::widgets::line::{Line, Point};
use neo_lvgl::widgets::list::List;
use neo_lvgl::widgets::roller::{Roller, RollerMode};
use neo_lvgl::widgets::slider::Slider;
use neo_lvgl::widgets::spinbox::Spinbox;
use neo_lvgl::widgets::switch::Switch;
use neo_lvgl::widgets::table::Table;
use neo_lvgl::widgets::tabview::{TabView, TabViewPos};
use neo_lvgl::widgets::textarea::{CursorPos, TextArea};
use neo_lvgl::widgets::tileview::TileView;
use neo_lvgl::widgets::window::Window;
use neo_lvgl::widgets::{Button, Flag, Obj, Screen, State, Widget, SIZE_CONTENT};
use neo_lvgl::color::{Color, Opacity};

fn screen() -> Screen {
    Screen::new_initial(320, 240)
}

#[test]
fn children_are_counted() {
    let mut s = screen();
    s.create_button().unwrap();
    s.create_button().unwrap();
    s.create_label().unwrap();
    assert_eq!(s.base.child_count, 3);
    let mut o = Obj::new_root();
    o.create_child().unwrap();
    o.create_child().unwrap();
    assert_eq!(o.child_count, 2);
    let mut btn = Button::new(&mut o).unwrap();
    assert_eq!(o.child_count, 3);
    btn.create_label().unwrap();
    assert_eq!(btn.base.child_count, 1);
}

#[test]
fn obj_position_and_size_read_back() {
    let mut o = Obj::new_root();
    o.set_pos(10, 20);
    assert_eq!(o.x(), 10);
    assert_eq!(o.y(), 20);
    o.set_x(-5);
    o.set_y(7);
    assert_eq!(o.x(), -5);
    assert_eq!(o.y(), 7);
    o.set_size(100, 50);
    assert_eq!(o.width(), 100);
    assert_eq!(o.height(), 50);
    o.set_content_width();
    assert_eq!(o.width(), SIZE_CONTENT);
}

#[test]
fn obj_state_and_flag_bits() {
    let mut o = Obj::new_root();
    assert!(!o.has_state(State::checked()));
    o.add_state(State::checked());
    o.add_state(State::pressed());
    assert!(o.has_state(State::checked()));
    assert!(o.has_state(State::pressed()));
    o.remove_state(State::checked());
    assert!(!o.has_state(State::checked()));
    assert!(o.has_state(State::pressed()));

    assert!(!o.is_hidden());
    o.set_hidden(true);
    assert!(o.is_hidden());
    assert!(o.has_flag(Flag::hidden()));
    o.set_hidden(false);
    assert!(!o.is_hidden());

    o.set_disabled(true);
    assert!(o.is_disabled());
    o.set_disabled(false);
    assert!(!o.is_disabled());
}

#[test]
fn obj_styles_count() {
    let mut o = Obj::new_root();
    let style = neo_lvgl::style::Style::new();
    o.add_style(&style, neo_lvgl::style::StyleSelector::main());
    o.add_style(&style, neo_lvgl::style::StyleSelector::knob());
    assert_eq!(o.style_count, 2);
    o.remove_all_styles();
    assert_eq!(o.style_count, 0);
}

#[test]
fn scroll_ext_positions() {
    let mut o = Obj::new_root();
    o.scroll_to(30, 40, false);
    assert_eq!(o.scroll_x(), 30);
    assert_eq!(o.scroll_y(), 40);
    o.scroll_by(5, -10, false);
    assert_eq!(o.scroll_x(), 35);
    assert_eq!(o.scroll_y(), 30);
    o.scroll_by(i32::MAX, 0, false);
    assert_eq!(o.scroll_x(), i32::MAX);
    let end = o.scroll_end();
    assert_eq!(end.y, 30);
}

#[test]
fn layout_ext_flex_and_grid() {
    let mut o = Obj::new_root();
    o.set_flex_flow(neo_lvgl::layout::FlexFlow::RowWrap);
    assert_eq!(o.flex_flow, Some(neo_lvgl::layout::FlexFlow::RowWrap));
    o.set_flex_grow(3);
    assert_eq!(o.flex_grow, 3);
    o.set_grid_cell(
        neo_lvgl::layout::GridAlign::Stretch,
        0,
        1,
        neo_lvgl::layout::GridAlign::Center,
        2,
        1,
    );
    let cell = o.grid_cell.unwrap();
    assert_eq!(cell.row_pos, 2);
    assert_eq!(neo_lvgl::layout::grid_fr(1), 0x1fff_ffff - 99);
}

#[test]
fn screen_creates_widgets() {
    let mut s = screen();
    assert_eq!(s.base.width, 320);
    assert_eq!(s.base.height, 240);
    let b: Button = s.create_button().unwrap();
    assert_eq!(b.base.x, 0);
    let l: Label = s.create_label().unwrap();
    assert_eq!(l.text().len(), 0);
    let mut s2 = screen();
    assert!(!s2.loaded);
    s2.load();
    assert!(s2.loaded);
}

#[test]
fn label_text_and_modes() {
    let mut s = screen();
    let mut l = Label::new(&mut s).unwrap();
    l.set_text(b"Hello!");
    assert_eq!(l.text().as_slice(), b"Hello!");
    l.set_long_mode(LabelLongMode::Scroll);
    assert_eq!(l.long_mode, LabelLongMode::Scroll);
    l.set_recolor(true);
    assert!(l.recolor);
    assert_eq!(LabelLongMode::default(), LabelLongMode::Wrap);
    assert_eq!(LabelLongMode::Clip.to_raw(), 4);
}

#[test]
fn bar_clamps_value_to_range() {
    let mut s = screen();
    let mut bar = Bar::new(&mut s).unwrap();
    assert_eq!(bar.min_value(), 0);
    assert_eq!(bar.max_value(), 100);
    bar.set_value(150, false);
    assert_eq!(bar.value(), 100);
    bar.set_value(-3, false);
    assert_eq!(bar.value(), 0);
    bar.set_value(42, false);
    assert_eq!(bar.value(), 42);
    bar.set_range(0, 30);
    assert_eq!(bar.value(), 30);
    bar.set_mode(BarMode::Symmetrical);
    assert!(!bar.is_symmetrical());
    bar.set_range(-10, 30);
    assert!(bar.is_symmetrical());
    bar.set_orientation(BarOrientation::Vertical);
    assert_eq!(bar.orientation(), BarOrientation::Vertical);
}

#[test]
fn slider_clamps_like_bar() {
    let mut s = screen();
    let mut sl = Slider::new(&mut s).unwrap();
    sl.set_value(250, false);
    assert_eq!(sl.value(), 100);
    sl.set_range(10, 20);
    assert_eq!(sl.value(), 20);
    assert_eq!(sl.left_value(), 10);
    assert!(!sl.is_dragged());
}

#[test]
fn arc_angles_and_value() {
    let mut s = screen();
    let mut arc = Arc::new(&mut s).unwrap();
    assert_eq!(arc.bg_start_angle(), 135);
    assert_eq!(arc.bg_end_angle(), 45);
    arc.set_angles(0, 90);
    assert_eq!(arc.start_angle(), 0);
    assert_eq!(arc.end_angle(), 90);
    arc.set_value(1000);
    assert_eq!(arc.value(), 100);
    arc.set_mode(ArcMode::Reverse);
    assert_eq!(arc.mode(), ArcMode::Reverse);
    assert_eq!(ArcMode::from_raw(1), ArcMode::Symmetrical);
}

#[test]
fn switch_and_checkbox_checked() {
    let mut s = screen();
    let mut sw = Switch::new(&mut s).unwrap();
    assert!(!sw.is_checked());
    sw.set_checked(true);
    assert!(sw.is_checked());
    sw.set_checked(false);
    assert!(!sw.is_checked());

    let mut cb = Checkbox::new(&mut s).unwrap();
    cb.set_text(b"Enable");
    assert_eq!(cb.text().as_slice(), b"Enable");
    cb.set_checked(true);
    assert!(cb.is_checked());
}

#[test]
fn dropdown_options_and_selection() {
    let mut s = screen();
    let mut dd = Dropdown::new(&mut s).unwrap();
    assert_eq!(dd.option_count(), 0);
    dd.set_options(b"Red\nGreen\nBlue");
    assert_eq!(dd.option_count(), 3);
    dd.set_selected(1);
    assert_eq!(dd.selected(), 1);
    dd.set_selected(99);
    assert_eq!(dd.selected(), 2);
    dd.clear_options();
    assert_eq!(dd.option_count(), 0);
    dd.set_selected(5);
    assert_eq!(dd.selected(), 0);
    dd.open_list();
    assert!(dd.is_open());
    dd.close_list();
    assert!(!dd.is_open());
}

#[test]
fn dropdown_add_option_appends() {
    let mut s = screen();
    let mut dd = Dropdown::new(&mut s).unwrap();
    dd.add_option(b"First", OptionPos::Last);
    assert_eq!(dd.options().as_slice(), b"First");
    assert_eq!(dd.option_count(), 1);
    dd.add_option(b"Second", OptionPos::Last);
    assert_eq!(dd.options().as_slice(), b"First\nSecond");
    assert_eq!(dd.option_count(), 2);
    dd.add_option(b"Third", OptionPos::Index(2));
    assert_eq!(dd.options().as_slice(), b"First\nSecond\nThird");
    assert_eq!(dd.option_count(), 3);
    assert_eq!(OptionPos::Last.to_raw(), 0xffff);
    assert_eq!(OptionPos::Index(1).to_raw(), 1);
}

#[test]
fn roller_options_and_selection() {
    let mut s = screen();
    let mut r = Roller::new(&mut s).unwrap();
    r.set_options(b"Mon\nTue\nWed\nThu", RollerMode::Infinite);
    assert_eq!(r.option_count(), 4);
    r.set_selected(9, false);
    assert_eq!(r.selected(), 3);
    assert_eq!(RollerMode::Infinite.to_raw(), 1);
}

#[test]
fn textarea_editing() {
    let mut s = screen();
    let mut ta = TextArea::new(&mut s).unwrap();
    ta.add_char(b'h');
    ta.add_char(b'i');
    assert_eq!(ta.text().as_slice(), b"hi");
    assert_eq!(ta.cursor_pos(), 2);
    ta.add_text(b" there");
    assert_eq!(ta.text().as_slice(), b"hi there");
    ta.delete_char();
    assert_eq!(ta.text().as_slice(), b"hi ther");
    ta.set_max_length(Some(4));
    ta.set_text(b"abcdefgh");
    assert_eq!(ta.text().as_slice(), b"abcd");
    ta.add_char(b'x');
    assert_eq!(ta.text().as_slice(), b"abcd");
    ta.set_cursor_pos(CursorPos::Index(2));
    assert_eq!(ta.cursor_pos(), 2);
    ta.set_cursor_pos(CursorPos::Last);
    assert_eq!(ta.cursor_pos(), 4);
    ta.cursor_left();
    assert_eq!(ta.cursor_pos(), 3);
    ta.cursor_right();
    assert_eq!(ta.cursor_pos(), 4);
    ta.set_placeholder(b"type...");
    assert_eq!(ta.placeholder().as_slice(), b"type...");
}

#[test]
fn textarea_inserts_at_cursor() {
    let mut s = screen();
    let mut ta = TextArea::new(&mut s).unwrap();
    ta.set_text(b"abcd");
    ta.set_cursor_pos(CursorPos::Index(2));
    ta.add_char(b'X');
    assert_eq!(ta.text().as_slice(), b"abXcd");
    assert_eq!(ta.cursor_pos(), 3);
    ta.add_text(b"YZ");
    assert_eq!(ta.text().as_slice(), b"abXYZcd");
    assert_eq!(ta.cursor_pos(), 5);
    ta.delete_char();
    assert_eq!(ta.text().as_slice(), b"abXYcd");
    assert_eq!(ta.cursor_pos(), 4);
    ta.set_max_length(Some(7));
    ta.set_cursor_pos(CursorPos::Index(1));
    ta.add_text(b"123");
    assert_eq!(ta.text().as_slice(), b"a1bXYcd");
    assert_eq!(ta.cursor_pos(), 2);
}

#[test]
fn spinbox_steps_and_rollover() {
    let mut s = screen();
    let mut sb = Spinbox::new(&mut s).unwrap();
    sb.set_range(0, 10);
    sb.set_step(4);
    sb.set_value(8);
    sb.increment();
    assert_eq!(sb.value(), 10);
    sb.set_rollover(true);
    sb.set_value(8);
    sb.increment();
    assert_eq!(sb.value(), 0);
    sb.decrement();
    assert_eq!(sb.value(), 10);
    sb.set_rollover(false);
    sb.set_value(2);
    sb.decrement();
    assert_eq!(sb.value(), 0);
}

#[test]
fn led_brightness_rules() {
    let mut s = screen();
    let mut led = Led::new(&mut s).unwrap();
    assert_eq!(led.brightness(), 255);
    led.off();
    assert_eq!(led.brightness(), 80);
    led.toggle();
    assert_eq!(led.brightness(), 255);
    led.toggle();
    assert_eq!(led.brightness(), 80);
    led.set_brightness(167);
    led.toggle();
    assert_eq!(led.brightness(), 255);
    led.set_color(Color::rgb(1, 2, 3));
    assert_eq!(led.color, Color::rgb(1, 2, 3));
}

#[test]
fn canvas_buffer_and_pixels() {
    assert_eq!(Canvas::buffer_size(10, 10, CanvasFormat::RGB565), 200);
    assert_eq!(Canvas::buffer_size(10, 10, CanvasFormat::I1), 28);
    assert_eq!(CanvasFormat::RGB565.bpp(), 16);
    assert_eq!(CanvasFormat::I1.bpp(), 1);

    let mut s = screen();
    let mut c = Canvas::new(&mut s).unwrap();
    c.set_buffer(4, 3, CanvasFormat::RGB565);
    assert_eq!(c.pixels.len(), 12);
    c.fill_bg(Color::white(), Opacity::cover());
    assert_eq!(c.pixels[5], Color::white());
    c.set_px(1, 2, Color::rgb(9, 9, 9), Opacity::cover());
    assert_eq!(c.pixels[2 * 4 + 1], Color::rgb(9, 9, 9));
    assert_eq!(c.pixels[0], Color::white());
    c.set_palette(0, Color::black());
    assert_eq!(c.palette.len(), 1);
}

#[test]
fn line_points() {
    let mut s = screen();
    let mut line = Line::new(&mut s).unwrap();
    line.set_points(&[Point::new(0, 0), Point::new(10, 10), Point::new(20, 5)]);
    assert_eq!(line.point_count(), 3);
    line.set_y_invert(true);
    assert!(line.y_invert());
}

#[test]
fn image_transform() {
    let mut s = screen();
    let mut img = Image::new(&mut s).unwrap();
    img.set_rotation(Rotation::degrees(45));
    assert_eq!(img.rotation().as_degrees(), 45);
    assert_eq!(Rotation::degrees(45).to_raw(), 450);
    assert_eq!(Rotation::from_raw(-327680).as_degrees(), -32768);
    assert_eq!(Rotation::from_raw(Rotation::degrees(i16::MIN).to_raw()), Rotation::degrees(i16::MIN));
    assert_eq!(Scale::percent(100).to_raw(), 256);
    assert_eq!(Scale::percent(50).to_raw(), 128);
    assert_eq!(Scale::from_raw(256).as_percent(), 100);
    img.set_scale(Scale::percent(200));
    assert_eq!(img.scale_x().as_percent(), 200);
    assert_eq!(img.scale_y().as_percent(), 200);
    img.set_offset(3, 4);
    assert_eq!(img.offset_x, 3);
    img.set_antialias(false);
    assert!(!img.antialias());
}

#[test]
fn table_grows_to_written_cell() {
    let mut s = screen();
    let mut t = Table::new(&mut s).unwrap();
    assert_eq!(t.row_count(), 0);
    t.set_cell_value(2, 4, b"x");
    assert_eq!(t.row_count(), 3);
    assert_eq!(t.column_count(), 5);
    t.set_row_count(10);
    assert_eq!(t.row_count(), 10);
    assert_eq!(t.selected_cell(), (0, 0));
}

#[test]
fn tabview_tabs() {
    let mut s = screen();
    let mut tv = TabView::new(&mut s, TabViewPos::Top, 40).unwrap();
    tv.add_tab(b"First").unwrap();
    tv.add_tab(b"Second").unwrap();
    assert_eq!(tv.tab_count(), 2);
    tv.set_active(1, false);
    assert_eq!(tv.active(), 1);
    assert_eq!(TabViewPos::Top.to_raw(), 4);
}

#[test]
fn tileview_tiles() {
    let mut s = screen();
    let mut tv = TileView::new(&mut s).unwrap();
    let tile = tv.add_tile(1, 2, 0x0f).unwrap();
    assert_eq!(tv.tile_count, 1);
    tv.set_tile(&tile, false);
    assert_eq!(tv.active_tile().unwrap().col, 1);
    tv.set_tile_by_index(0, 0, false);
    assert_eq!(tv.active_tile().unwrap().row, 0);
}

#[test]
fn window_header() {
    let mut s = screen();
    let mut w = Window::new(&mut s, 40).unwrap();
    w.add_title(b"Settings").unwrap();
    let btn = w.add_button(b"", 30).unwrap();
    assert_eq!(btn.width, 30);
    assert_eq!(w.title_count, 1);
    assert_eq!(w.button_count, 1);
}

#[test]
fn list_entries() {
    let mut s = screen();
    let mut list = List::new(&mut s).unwrap();
    list.add_text(b"Section").unwrap();
    let b = list.add_button(b"Item").unwrap();
    assert_eq!(List::button_text(&b).as_slice(), b"Item");
    let i = list.add_button_with_icon(b"icon", b"With icon").unwrap();
    assert!(i.has_icon);
    assert_eq!(list.item_count, 3);
}

#[test]
fn buttonmatrix_ctrl_bits() {
    let mut s = screen();
    let mut m = ButtonMatrix::new(&mut s).unwrap();
    m.set_button_count(4);
    m.set_button_ctrl(2, ButtonMatrixCtrl::checkable());
    m.set_button_ctrl(2, ButtonMatrixCtrl::checked());
    assert!(m.has_button_ctrl(2, ButtonMatrixCtrl::checkable()));
    assert!(m.has_button_ctrl(2, ButtonMatrixCtrl::checked()));
    m.clear_button_ctrl(2, ButtonMatrixCtrl::checked());
    assert!(!m.has_button_ctrl(2, ButtonMatrixCtrl::checked()));
    m.set_selected(3);
    assert_eq!(m.selected(), 3);
    m.set_one_checked(true);
    assert!(m.one_checked());
}

#[test]
fn chart_series_shift() {
    let mut s = screen();
    let mut ch = Chart::new(&mut s).unwrap();
    ch.set_type(ChartType::Bar);
    assert_eq!(ChartType::Bar.to_raw(), 2);
    ch.set_point_count(3);
    ch.set_range(ChartAxis::PrimaryY, 0, 10);
    assert_eq!(ch.primary_y, (0, 10));
    let mut series = ch.add_series(Color::rgb(1, 2, 3), ChartAxis::PrimaryY).unwrap();
    assert_eq!(ch.series_count, 1);
    ch.set_next(&mut series, 1);
    ch.set_next(&mut series, 2);
    ch.set_next(&mut series, 3);
    assert_eq!(series.point_count(), 3);
    ch.set_next(&mut series, 4);
    assert_eq!(series.point_count(), 3);
    assert_eq!(series.value_at(0), 2);
    assert_eq!(series.value_at(2), 4);
    ch.set_value(&mut series, 1, 9);
    assert_eq!(series.value_at(1), 9);
    ch.hide_series(&mut series, true);
    assert!(series.hidden);
    ch.remove_series(series);
    assert_eq!(ch.series_count, 0);
}

#[test]
fn calendar_dates() {
    let mut s = screen();
    let mut c = Calendar::new(&mut s).unwrap();
    let date = CalendarDate::new(2024, 2, 29);
    c.set_today(date);
    assert_eq!(c.today(), date);
    let shown_before = c.shown_date();
    c.set_shown_date(date);
    assert_eq!(c.shown_date(), shown_before);
    assert_eq!(c.pressed_date(), None);
    let (y, m, d) = date.to_raw();
    assert_eq!(CalendarDate::from_raw(y, m, d), date);
    c.add_header_arrow().unwrap();
    assert!(c.header_arrow);
}
