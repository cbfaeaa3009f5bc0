//! Conversions between typed values and their C ABI codes.

use neo_lvgl::anim::RepeatCount;
use neo_lvgl::color::{Color, Opacity};
use neo_lvgl::display::{Area, ColorFormat, RenderMode};
use neo_lvgl::event::EventCode;
use neo_lvgl::indev::{GestureDir, IndevState, IndevType, Key, ScrollDir};
use neo_lvgl::layout::{Direction, FlexAlign, FlexFlow, GridAlign};
use neo_lvgl::scroll::{ScrollSnap, ScrollbarMode};
use neo_lvgl::style::{GradDir, TextAlign};
use neo_lvgl::widgets::{Align, ScreenLoadAnim};

#[test]
fn test_color_make() {
    let _color = Color::rgb(255, 0, 0);
}

#[test]
fn color_rgb_stores_channels() {
    let c = Color::rgb(12, 34, 56);
    assert_eq!(c.red, 12);
    assert_eq!(c.green, 34);
    assert_eq!(c.blue, 56);
}

#[test]
fn color_hex_splits_bytes() {
    let c = Color::hex(0x123456);
    assert_eq!(c.red, 0x12);
    assert_eq!(c.green, 0x34);
    assert_eq!(c.blue, 0x56);
}

#[test]
fn color_hex3_duplicates_nibbles() {
    let c = Color::hex3(0xf3a);
    assert_eq!(c.red, 0xff);
    assert_eq!(c.green, 0x33);
    assert_eq!(c.blue, 0xaa);
}

#[test]
fn color_black_white_default() {
    assert_eq!(Color::black(), Color::rgb(0, 0, 0));
    assert_eq!(Color::white(), Color::rgb(255, 255, 255));
    assert_eq!(Color::default(), Color::black());
}

#[test]
fn opacity_percent_table() {
    assert_eq!(Opacity::percent(10).raw(), 25);
    assert_eq!(Opacity::percent(20).raw(), 51);
    assert_eq!(Opacity::percent(50).raw(), 127);
    assert_eq!(Opacity::percent(90).raw(), 229);
    assert_eq!(Opacity::percent(100).raw(), 255);
    assert_eq!(Opacity::transparent().raw(), 0);
    assert_eq!(Opacity::opaque().raw(), 255);
    assert_eq!(Opacity::cover().raw(), 255);
    assert_eq!(Opacity::default().raw(), 255);
    assert_eq!(Opacity::new(42).raw(), 42);
}

#[test]
fn event_codes_roundtrip() {
    let codes = [
        EventCode::Pressed,
        EventCode::Pressing,
        EventCode::PressLost,
        EventCode::Released,
        EventCode::ShortClicked,
        EventCode::Clicked,
        EventCode::LongPressed,
        EventCode::LongPressedRepeat,
        EventCode::Focused,
        EventCode::Defocused,
        EventCode::ValueChanged,
        EventCode::Ready,
        EventCode::Cancel,
        EventCode::Delete,
        EventCode::ChildCreated,
        EventCode::ChildDeleted,
        EventCode::ChildChanged,
        EventCode::ScreenLoadStart,
        EventCode::ScreenLoaded,
        EventCode::ScreenUnloadStart,
        EventCode::ScreenUnloaded,
        EventCode::SizeChanged,
        EventCode::StyleChanged,
        EventCode::All,
    ];
    for code in codes {
        assert_eq!(EventCode::from_raw(code.to_raw()), Some(code));
    }
    assert_eq!(EventCode::All.to_raw(), 0);
    assert_eq!(EventCode::Pressed.to_raw(), 1);
    assert_eq!(EventCode::Clicked.to_raw(), 10);
    assert_eq!(EventCode::ValueChanged.to_raw(), 35);
    assert_eq!(EventCode::from_raw(9999), None);
}

#[test]
fn key_codes_roundtrip() {
    let keys = [
        Key::Up,
        Key::Down,
        Key::Left,
        Key::Right,
        Key::Enter,
        Key::Backspace,
        Key::Esc,
        Key::Next,
        Key::Prev,
        Key::Home,
        Key::End,
        Key::Del,
    ];
    for key in keys {
        assert_eq!(Key::from_raw(key.to_raw()), key);
    }
    assert_eq!(Key::Up.to_raw(), 17);
    assert_eq!(Key::Enter.to_raw(), 10);
    assert_eq!(Key::from_raw(65), Key::Custom(65));
    assert_eq!(Key::Custom(65).to_raw(), 65);
}

#[test]
fn indev_type_roundtrip() {
    for t in [IndevType::Pointer, IndevType::Keypad, IndevType::Button, IndevType::Encoder] {
        assert_eq!(IndevType::from_raw(t.to_raw()), Some(t));
    }
    assert_eq!(IndevType::from_raw(0), None);
    assert_eq!(IndevState::Released.to_raw(), 0);
    assert_eq!(IndevState::Pressed.to_raw(), 1);
}

#[test]
fn direction_bits() {
    assert_eq!(Direction::left().union(Direction::right()).bits(), Direction::hor().bits());
    assert_eq!(Direction::top().union(Direction::bottom()).bits(), Direction::ver().bits());
    assert_eq!(Direction::hor().union(Direction::ver()).bits(), Direction::all().bits());
    assert!(Direction::all().contains(Direction::left()));
    assert!(!Direction::hor().contains(Direction::top()));
    assert_eq!(Direction::from_raw(0xff).bits(), 0x0f);
    assert_eq!(Direction::all().to_raw(), 15);
}

#[test]
fn scroll_and_gesture_dirs() {
    assert_eq!(ScrollDir::from_raw(1), ScrollDir::Left);
    assert_eq!(ScrollDir::from_raw(8), ScrollDir::Bottom);
    assert_eq!(ScrollDir::from_raw(3), ScrollDir::NoDir);
    assert_eq!(GestureDir::from_raw(4), GestureDir::Top);
    assert_eq!(GestureDir::from_raw(0), GestureDir::NoDir);
}

#[test]
fn scrollbar_and_snap_codes() {
    assert_eq!(ScrollbarMode::Off.to_raw(), 0);
    assert_eq!(ScrollbarMode::Auto.to_raw(), 3);
    assert_eq!(ScrollbarMode::from_raw(2), ScrollbarMode::Active);
    assert_eq!(ScrollbarMode::from_raw(77), ScrollbarMode::Auto);
    assert_eq!(ScrollSnap::NoSnap.to_raw(), 0);
    assert_eq!(ScrollSnap::from_raw(1), ScrollSnap::Start);
    assert_eq!(ScrollSnap::from_raw(77), ScrollSnap::Center);
}

#[test]
fn flex_and_grid_codes() {
    assert_eq!(FlexFlow::Row.to_raw(), 0x0);
    assert_eq!(FlexFlow::Column.to_raw(), 0x1);
    assert_eq!(FlexFlow::RowWrap.to_raw(), 0x4);
    assert_eq!(FlexFlow::ColumnWrapReverse.to_raw(), 0xd);
    assert_eq!(FlexAlign::Start.to_raw(), 0);
    assert_eq!(FlexAlign::SpaceBetween.to_raw(), 5);
    assert_eq!(GridAlign::Stretch.to_raw(), 3);
    assert_eq!(GridAlign::SpaceBetween.to_raw(), 6);
}

#[test]
fn align_codes() {
    assert_eq!(Align::Default.to_raw(), 0);
    assert_eq!(Align::TopLeft.to_raw(), 1);
    assert_eq!(Align::Center.to_raw(), 9);
    assert_eq!(Align::OutRightBottom.to_raw(), 21);
}

#[test]
fn screen_load_anim_codes() {
    assert_eq!(ScreenLoadAnim::NoAnim.to_raw(), 0);
    assert_eq!(ScreenLoadAnim::OverLeft.to_raw(), 1);
    assert_eq!(ScreenLoadAnim::FadeIn.to_raw(), 9);
    assert_eq!(ScreenLoadAnim::OutBottom.to_raw(), 14);
}

#[test]
fn render_mode_and_color_format_codes() {
    assert_eq!(RenderMode::Partial.to_raw(), 0);
    assert_eq!(RenderMode::Full.to_raw(), 2);
    assert_eq!(RenderMode::default(), RenderMode::Partial);
    let formats = [
        ColorFormat::L8,
        ColorFormat::A1,
        ColorFormat::A2,
        ColorFormat::A4,
        ColorFormat::A8,
        ColorFormat::I1,
        ColorFormat::I2,
        ColorFormat::I4,
        ColorFormat::I8,
        ColorFormat::Rgb565,
        ColorFormat::Rgb565Swapped,
        ColorFormat::Rgb888,
        ColorFormat::Argb8888,
        ColorFormat::Xrgb8888,
    ];
    for f in formats {
        assert_eq!(ColorFormat::from_raw(f.to_raw()), f);
    }
    assert_eq!(ColorFormat::from_raw(0xee), ColorFormat::Argb8888);
    assert_eq!(ColorFormat::Rgb565.bytes_per_pixel(), 2);
    assert_eq!(ColorFormat::Rgb888.bytes_per_pixel(), 3);
    assert_eq!(ColorFormat::Argb8888.bytes_per_pixel(), 4);
    assert_eq!(ColorFormat::A1.bytes_per_pixel(), 1);
}

#[test]
fn area_from_raw_truncates() {
    let a = Area::from_raw(40000, -40000, 70000, 0);
    assert_eq!(a.x1, 40000i32 as i16);
    assert_eq!(a.y1, -40000i32 as i16);
    assert_eq!(a.x2, 70000i32 as i16);
    assert_eq!(a.y2, 0);
}

#[test]
fn area_geometry() {
    let a = Area::from_raw(10, 20, 19, 24);
    assert_eq!(a.width(), 10);
    assert_eq!(a.height(), 5);
    assert_eq!(a.pixel_count(), 50);
}

#[test]
fn repeat_count_codes() {
    assert_eq!(RepeatCount::Finite(3).to_raw(), 3);
    assert_eq!(RepeatCount::Infinite.to_raw(), 0xffff_ffff);
    assert_eq!(RepeatCount::from_raw(0xffff_ffff), RepeatCount::Infinite);
    assert_eq!(RepeatCount::from_raw(7), RepeatCount::Finite(7));
}

#[test]
fn style_enum_codes() {
    assert_eq!(GradDir::NoGradient.to_raw(), 0);
    assert_eq!(GradDir::Vertical.to_raw(), 1);
    assert_eq!(GradDir::Horizontal.to_raw(), 2);
    assert_eq!(TextAlign::Auto.to_raw(), 0);
    assert_eq!(TextAlign::Right.to_raw(), 3);
}

#[test]
fn version_is_stable() {
    assert_eq!(neo_lvgl::version_info(), "9.x");
}
