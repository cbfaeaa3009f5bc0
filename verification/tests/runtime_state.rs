//! Displays, input, subjects, groups, timers, animations and the other
//! runtime pieces.

use neo_lvgl::anim::{Anim, AnimPath, AnimTimeline, RepeatCount};
use neo_lvgl::display::{
    render_buffer_len, Area, ColorFormat, Display, DisplayDriver, ManagedDisplay, RenderMode,
};
use neo_lvgl::drivers::embedded_graphics::{
    rgb565_components, rgb565_pixels, rgb565_to_gray8, rgb565_to_rgb666, rgb565_to_rgb888,
    EmbeddedGraphicsDisplay,
};
use neo_lvgl::event::{Event, EventCode};
use neo_lvgl::font::{Font, FontError, TtfFont};
use neo_lvgl::fragment::FragmentManager;
use neo_lvgl::group::{Group, RefocusPolicy};
use neo_lvgl::indev::{EncoderData, Indev, IndevState, IndevType, Key, KeypadData, PointerData};
use neo_lvgl::observer::{
    ColorSubject, IntSubject, ObserverBindExt, PointerSubject, StringSubject, Subject,
};
use neo_lvgl::color::Color;
use neo_lvgl::style::Style;
use neo_lvgl::sync::{lvgl_lock, lvgl_try_lock_isr, Locked};
use neo_lvgl::timer::Timer;
use neo_lvgl::widgets::keyboard::{Keyboard, KeyboardMode};
use neo_lvgl::widgets::line::Point;
use neo_lvgl::widgets::menu::Menu;
use neo_lvgl::widgets::msgbox::MsgBox;
use neo_lvgl::widgets::scale::{Scale, ScaleMode};
use neo_lvgl::widgets::span::{SpanGroup, SpanMode, SpanOverflow};
use neo_lvgl::widgets::spinner::Spinner;
use neo_lvgl::widgets::textarea::TextArea;
use neo_lvgl::widgets::{Obj, Screen, Widget};
use neo_lvgl::xml::{XmlError, XmlRegistry};

#[test]
fn display_creation_and_format() {
    assert!(Display::new(0, 240).is_none());
    assert!(Display::new(320, -1).is_none());
    let mut d = Display::new(320, 240).unwrap();
    assert_eq!(d.width(), 320);
    assert_eq!(d.height(), 240);
    assert_eq!(d.color_format(), ColorFormat::Argb8888);
    d.set_color_format(ColorFormat::Rgb565);
    assert_eq!(d.color_format(), ColorFormat::Rgb565);
    d.set_default();
    assert!(d.is_default);
    let s = d.active_screen();
    assert_eq!(s.base.width, 320);
}

#[test]
fn render_buffer_lengths() {
    assert_eq!(render_buffer_len(16, 8, ColorFormat::Rgb565), Some(256));
    assert_eq!(render_buffer_len(320, 240, ColorFormat::Argb8888), Some(320 * 240 * 4));
    assert_eq!(render_buffer_len(0, 240, ColorFormat::Rgb565), None);
    assert_eq!(render_buffer_len(320, -1, ColorFormat::Rgb565), None);
}

struct CountingDriver {
    width: i32,
    height: i32,
    flushes: u32,
    ready_calls: u32,
}

impl DisplayDriver for CountingDriver {
    fn size(&self) -> (i32, i32) {
        (self.width, self.height)
    }

    fn flush(&mut self, _area: &Area, _pixels: &[u8]) {
        self.flushes += 1;
    }

    fn flush_ready(&mut self) {
        self.ready_calls += 1;
    }
}

#[test]
fn managed_display_buffers_and_flush() {
    let driver = CountingDriver { width: 16, height: 8, flushes: 0, ready_calls: 0 };
    let mut md =
        ManagedDisplay::with_buffers(driver, ColorFormat::Rgb565, RenderMode::Partial, false)
            .unwrap();
    assert_eq!(md.buf_len, 16 * 8 * 2);
    assert_eq!(md.width(), 16);
    assert_eq!(md.height(), 8);
    let area = Area::from_raw(0, 0, 3, 1);
    let pixels = [0u8; 16];
    md.dispatch_flush(&area, &pixels);
    assert_eq!(md.driver().flushes, 1);
    assert_eq!(md.driver().ready_calls, 1);

    let bad = CountingDriver { width: 0, height: 8, flushes: 0, ready_calls: 0 };
    assert!(
        ManagedDisplay::with_buffers(bad, ColorFormat::Rgb565, RenderMode::Partial, true).is_none()
    );
}

#[test]
fn rgb565_expansion_exact() {
    assert_eq!(rgb565_components(0xf800), (31, 0, 0));
    assert_eq!(rgb565_components(0x07e0), (0, 63, 0));
    assert_eq!(rgb565_components(0x001f), (0, 0, 31));
    assert_eq!(rgb565_to_rgb888(0xffff), (255, 255, 255));
    assert_eq!(rgb565_to_rgb888(0x0000), (0, 0, 0));
    assert_eq!(rgb565_to_rgb888(0xf800), (255, 0, 0));
    assert_eq!(rgb565_to_rgb666(0xffff), (63, 63, 63));
    assert_eq!(rgb565_to_gray8(0xffff), 255);
    assert_eq!(rgb565_to_gray8(0x0000), 0);
    assert_eq!(rgb565_to_gray8(0xf800), 76);
}

#[test]
fn rgb565_pixel_rectangles() {
    let area = Area::from_raw(2, 3, 3, 4);
    let bytes = [0x00u8, 0xf8, 0xe0, 0x07, 0x1f, 0x00, 0xff, 0xff];
    let pixels = rgb565_pixels(&area, &bytes);
    assert_eq!(pixels.len(), 4);
    assert_eq!(pixels[0], (2, 3, 0xf800));
    assert_eq!(pixels[1], (3, 3, 0x07e0));
    assert_eq!(pixels[2], (2, 4, 0x001f));
    assert_eq!(pixels[3], (3, 4, 0xffff));
}

#[test]
fn embedded_graphics_wrapper_access() {
    let mut w = EmbeddedGraphicsDisplay::new(7u32);
    assert_eq!(*w.inner(), 7);
    *w.inner_mut() = 9;
    assert_eq!(w.into_inner(), 9);
}

#[test]
fn event_data() {
    let mut e = Event::new(EventCode::Clicked);
    assert_eq!(e.code(), Some(EventCode::Clicked));
    assert_eq!(e.code_raw(), 10);
    assert!(!e.bubbling_stopped);
    e.stop_bubbling();
    assert!(e.bubbling_stopped);
    e.stop_processing();
    assert!(e.processing_stopped);
}

#[test]
fn group_focus_navigation() {
    let mut g = Group::new().unwrap();
    let o = Obj::new_root();
    assert_eq!(g.obj_count(), 0);
    assert_eq!(g.focused(), None);
    g.add(&o);
    assert_eq!(g.focused(), Some(0));
    g.add(&o);
    g.add(&o);
    assert_eq!(g.obj_count(), 3);
    g.focus_next();
    assert_eq!(g.focused(), Some(1));
    g.focus_next();
    g.focus_next();
    assert_eq!(g.focused(), Some(0));
    g.focus_prev();
    assert_eq!(g.focused(), Some(2));
    g.set_wrap(false);
    g.focus_next();
    assert_eq!(g.focused(), Some(2));
    g.set_focus_frozen(true);
    g.focus_prev();
    assert_eq!(g.focused(), Some(2));
    g.set_focus_frozen(false);
    g.set_refocus_policy(RefocusPolicy::Prev);
    g.remove_all();
    assert_eq!(g.obj_count(), 0);
    assert_eq!(g.focused(), None);
    assert_eq!(RefocusPolicy::Prev.to_raw(), 1);
}

#[test]
fn timer_configuration() {
    let mut t = Timer::new(100).unwrap();
    assert!(!t.is_paused());
    t.pause();
    assert!(t.is_paused());
    t.resume();
    assert!(!t.is_paused());
    t.ready();
    assert!(t.fire_ready);
    t.reset();
    assert!(!t.fire_ready);
    t.set_period(250);
    assert_eq!(t.period_ms, 250);
    t.set_repeat(RepeatCount::Finite(3));
    assert_eq!(t.repeat_raw, 3);
    t.set_repeat(RepeatCount::Infinite);
    assert_eq!(t.repeat_raw, -1);
    t.delete();
}

#[test]
fn repeat_counts_normalize_through_the_abi() {
    let mut a = Anim::new();
    a.set_repeat(RepeatCount::Finite(0xffff_ffff));
    assert_eq!(a.repeat, RepeatCount::Infinite);
    a.set_repeat(RepeatCount::Finite(7));
    assert_eq!(a.repeat, RepeatCount::Finite(7));

    let mut tl = AnimTimeline::new().unwrap();
    tl.set_repeat(RepeatCount::Finite(0xffff_ffff));
    assert_eq!(tl.repeat_count(), RepeatCount::Infinite);
    tl.set_repeat(RepeatCount::Finite(2));
    assert_eq!(tl.repeat_count(), RepeatCount::Finite(2));
}

#[test]
fn anim_builder_chain() {
    let mut a = Anim::new();
    assert_eq!(a.duration, 500);
    a.set_values(0, 100).set_duration(250).set_delay(10).set_path(AnimPath::EaseInOut).set_repeat(
        RepeatCount::Infinite,
    );
    assert_eq!(a.start_value, 0);
    assert_eq!(a.end_value, 100);
    assert_eq!(a.duration, 250);
    assert_eq!(a.delay, 10);
    assert_eq!(a.path, AnimPath::EaseInOut);
    assert_eq!(a.repeat, RepeatCount::Infinite);
    let mut handle = a.start().unwrap();
    assert!(!handle.is_paused());
    handle.pause();
    assert!(handle.is_paused());
    handle.resume();
    assert!(!handle.is_paused());

    let b = Anim::new().with_callbacks().on_exec(|_v| ()).on_completed(|| ());
    assert!(b.has_exec);
    assert!(!b.has_start);
    assert!(b.has_completed);
    let h = b.start().unwrap();
    assert_eq!(h.anim.duration, 500);
}

#[test]
fn anim_timeline_playtime() {
    let mut tl = AnimTimeline::new().unwrap();
    let mut a = Anim::new();
    a.set_duration(300);
    tl.add(100, &a);
    assert_eq!(tl.playtime(), 400);
    let mut b = Anim::new();
    b.set_duration(100).set_delay(20).set_reverse_duration(30);
    tl.add(0, &b);
    assert_eq!(tl.playtime(), 400);
    assert_eq!(tl.start(), 400);
    tl.set_reverse(true);
    assert!(tl.reverse());
    tl.set_progress(32768);
    assert_eq!(tl.progress(), 32768);
    tl.set_delay(5);
    assert_eq!(tl.delay(), 5);
    tl.set_repeat(RepeatCount::Finite(2));
    assert_eq!(tl.repeat_count(), RepeatCount::Finite(2));
    tl.set_repeat_delay(7);
    assert_eq!(tl.repeat_delay(), 7);
}

#[test]
fn int_subject_clamps_and_remembers() {
    let mut s = IntSubject::new(25);
    assert_eq!(s.get(), 25);
    assert_eq!(s.previous(), 25);
    s.set(30);
    assert_eq!(s.get(), 30);
    assert_eq!(s.previous(), 25);
    s.set_min(0);
    s.set_max(100);
    s.set(150);
    assert_eq!(s.get(), 100);
    s.set(-5);
    assert_eq!(s.get(), 0);
    assert_eq!(s.previous(), 100);
    s.notify();
    assert_eq!(s.get(), 0);
}

#[test]
fn string_subject_truncates_to_capacity() {
    let mut s = StringSubject::new(8, b"morning");
    assert_eq!(s.get().as_slice(), b"morning");
    s.set(b"afternoon");
    assert_eq!(s.get().as_slice(), b"afterno");
    assert_eq!(s.previous().as_slice(), b"morning");
}

#[test]
fn pointer_and_color_subjects() {
    let mut p = PointerSubject::new(0x1000);
    p.set(0x2000);
    assert_eq!(p.get(), 0x2000);
    assert_eq!(p.previous(), 0x1000);

    let mut c = ColorSubject::new(Color::black());
    c.set(Color::white());
    assert_eq!(c.get(), Color::white());
    assert_eq!(c.previous(), Color::black());
}

#[test]
fn observer_binding_counts() {
    let mut o = Obj::new_root();
    let mut s = IntSubject::new(0);
    let obs = o.bind_checked(&mut s).unwrap();
    assert!(obs.active);
    assert_eq!(s.observer_count, 1);
    obs.remove();
}

#[test]
fn indev_reports_last_data() {
    let mut dev = Indev::new_pointer().unwrap();
    assert_eq!(dev.indev_type(), Some(IndevType::Pointer));
    dev.push_pointer(PointerData { point: Point::new(12, 34), state: IndevState::Pressed });
    assert_eq!(dev.point(), Point::new(12, 34));

    let mut kb = Indev::new_keypad().unwrap();
    kb.push_keypad(KeypadData { key: Key::Enter, state: IndevState::Pressed });
    assert_eq!(kb.key(), Key::Enter);

    let mut enc = Indev::new_encoder().unwrap();
    enc.push_encoder(EncoderData { diff: 3, state: IndevState::Released });
    enc.push_encoder(EncoderData { diff: -1, state: IndevState::Released });
    assert_eq!(enc.encoder_pos, 2);
    enc.enable(false);
    assert!(!enc.enabled);
    enc.set_long_press_time(500);
    assert_eq!(enc.long_press_time, 500);
}

#[test]
fn fragment_manager_stack() {
    let mut fm = FragmentManager::new().unwrap();
    assert_eq!(fm.stack_size(), 0);
    assert!(!fm.pop());
    fm.push(1);
    fm.push(2);
    assert_eq!(fm.stack_size(), 2);
    fm.replace(3);
    assert_eq!(fm.stack_size(), 2);
    assert!(fm.pop());
    assert_eq!(fm.stack_size(), 1);
    assert!(fm.pop());
    assert!(!fm.pop());
    fm.replace(9);
    assert_eq!(fm.stack_size(), 1);
    fm.add(7);
    assert_eq!(fm.attached, 1);
    fm.create_obj();
    assert!(fm.objs_created);
    fm.delete_obj();
    assert!(!fm.objs_created);
}

#[test]
fn style_property_bag() {
    let mut st = Style::new();
    assert!(!st.initialized);
    st.set_pad_all(8);
    assert_eq!(st.pad_top, Some(8));
    assert_eq!(st.pad_bottom, Some(8));
    assert_eq!(st.pad_left, Some(8));
    assert_eq!(st.pad_right, Some(8));
    assert!(st.initialized);
    st.set_pad_hor(2);
    assert_eq!(st.pad_left, Some(2));
    assert_eq!(st.pad_top, Some(8));
    st.set_pad_ver(3);
    assert_eq!(st.pad_top, Some(3));
    st.set_bg_color(Color::white());
    assert_eq!(st.bg_color, Some(Color::white()));
    st.set_radius(4);
    st.set_border_width(1);
    st.reset();
    assert!(!st.initialized);
    assert_eq!(st.pad_top, None);
    assert_eq!(st.bg_color, None);
}

#[test]
fn sync_wrappers() {
    let locked = Locked::new(Obj::new_root());
    let width = locked.with(|o: &Obj| o.width);
    assert_eq!(width, 0);
    let (locked, old_x) = locked.with_mut(|mut o: Obj| {
        let x = o.x;
        o.set_x(50);
        (o, x)
    });
    assert_eq!(old_x, 0);
    let mut locked = locked;
    {
        let mut guard = locked.lock();
        guard.get_mut().set_y(7);
        assert_eq!(guard.get().y, 7);
    }
    let _g = lvgl_lock();
    assert!(lvgl_try_lock_isr().is_some());
}

#[test]
fn fonts_and_errors() {
    assert_eq!(Font::default().line_height(), 16);
    let data = [0u8; 4];
    let mut f = TtfFont::from_data(&data, 24).unwrap();
    assert_eq!(f.line_height(), 24);
    assert_eq!(f.as_font().line_height(), 24);
    f.set_size(30);
    assert_eq!(f.line_height(), 30);
    assert!(matches!(TtfFont::from_data(&[], 24), Err(FontError::LoadFailed)));
    assert!(matches!(TtfFont::from_data(&data, 0), Err(FontError::LoadFailed)));
}

#[test]
fn xml_component_registry() {
    let mut reg = XmlRegistry::new();
    assert_eq!(reg.component_count(), 0);
    assert_eq!(reg.register_component_from_data(b"card", b""), Err(XmlError::InvalidData));
    reg.register_component_from_data(b"card", b"<component/>").unwrap();
    reg.register_component_from_data(b"row", b"<component/>").unwrap();
    assert_eq!(reg.component_count(), 2);
    reg.register_component_from_data(b"card", b"<component two/>").unwrap();
    assert_eq!(reg.component_count(), 2);
    let mut parent = Obj::new_root();
    assert!(reg.create_simple(&mut parent, b"card").is_some());
    assert!(reg.create_simple(&mut parent, b"missing").is_none());
    assert_eq!(reg.unregister_component(b"missing"), Err(XmlError::NotFound));
    reg.unregister_component(b"card").unwrap();
    assert!(reg.create_simple(&mut parent, b"card").is_none());
    assert_eq!(reg.component_count(), 1);
}

#[test]
fn msgbox_and_menu_and_others() {
    let mut screen = Screen::new_initial(320, 240);

    let mut mb = MsgBox::new(&mut screen, b"Notice", b"Saved.", true).unwrap();
    assert_eq!(mb.text().as_slice(), b"Saved.");
    assert_eq!(mb.title().as_slice(), b"Notice");
    mb.add_button(b"OK").unwrap();
    assert_eq!(mb.button_count, 1);
    mb.close();

    let mut menu = Menu::new(&mut screen).unwrap();
    let mut page = menu.create_page(b"Main").unwrap();
    assert_eq!(menu.page_count, 1);
    menu.add_section(&mut page).unwrap();
    menu.set_page(&page);
    menu.set_page(&page);
    assert_eq!(menu.history_len, 2);
    menu.clear_history();
    assert_eq!(menu.history_len, 0);

    let mut kb = Keyboard::new(&mut screen).unwrap();
    let ta = TextArea::new(&mut screen).unwrap();
    kb.set_textarea(&ta);
    assert!(kb.has_textarea);
    kb.set_mode(KeyboardMode::Number);
    assert_eq!(kb.mode(), KeyboardMode::Number);
    assert_eq!(KeyboardMode::from_raw(3), KeyboardMode::Number);

    let mut sc = Scale::new(&mut screen).unwrap();
    sc.set_mode(ScaleMode::Round);
    sc.set_range(0, 60);
    let mut section = sc.add_section().unwrap();
    sc.set_section_range(&mut section, 40, 60);
    assert_eq!(section.min, 40);
    assert_eq!(sc.section_count, 1);
    assert_eq!(ScaleMode::Round.to_raw(), 8);

    let mut sg = SpanGroup::new(&mut screen).unwrap();
    let mut span = sg.add_span().unwrap();
    span.set_text(b"bold");
    assert_eq!(span.text().as_slice(), b"bold");
    assert_eq!(sg.span_count(), 1);
    sg.set_overflow(SpanOverflow::Ellipsis);
    sg.set_mode(SpanMode::Break);
    sg.set_max_lines(Some(3));
    assert_eq!(sg.max_lines, 3);
    sg.delete_span(span);
    assert_eq!(sg.span_count(), 0);

    let mut sp = Spinner::new(&mut screen).unwrap();
    assert_eq!(sp.duration, 1000);
    sp.set_anim_params(600, 90);
    assert_eq!(sp.arc_length, 90);
}
