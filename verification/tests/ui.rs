use std::time::Duration;

use nilo::parser::style::OverflowMode;
use nilo::renderer_abstract::abstract_renderer::{DomRenderer, PdfRenderer, RendererType, TinySkiaRenderer};
use nilo::stencil::stencil::{get_stencil_depth, Stencil, GROUP_DEPTH_BITS};
use nilo::ui::event::{EventQueue, KeyModifiers, UIEvent};
use nilo::ui::foreach::{foreach_items, trim_quotes};
use nilo::ui::text_measurement::is_fullwidth_char;
use nilo::ui::viewport::{inject_scrollbar, SCROLLBAR_DEPTH_BITS};
use nilo::wgpu_renderer::perf_monitor::PerfMonitor;

fn pressed(id: &str) -> UIEvent {
    UIEvent::ButtonPressed { id: id.to_string() }
}

fn pressed_id(e: &UIEvent) -> &str {
    match e {
        UIEvent::ButtonPressed { id } => id,
        _ => panic!("unexpected event {:?}", e),
    }
}

#[test]
fn event_queue_is_first_in_first_out() {
    let mut q = EventQueue::new();
    assert!(q.pop().is_none());
    q.push(pressed("a"));
    q.push(pressed("b"));
    q.push(UIEvent::KeyPressed {
        field_id: "f".to_string(),
        key: "Enter".to_string(),
        modifiers: KeyModifiers { ctrl: true, ..KeyModifiers::default() },
    });
    let first = q.pop().unwrap();
    assert_eq!(pressed_id(&first), "a");
    let rest = q.drain();
    assert_eq!(rest.len(), 2);
    assert_eq!(pressed_id(&rest[0]), "b");
    assert!(matches!(&rest[1], UIEvent::KeyPressed { modifiers, .. } if modifiers.ctrl && !modifiers.shift));
    assert!(q.pop().is_none());
    assert!(q.drain().is_empty());
}

#[test]
fn foreach_items_of_json_arrays() {
    assert_eq!(foreach_items("[1, \"a\", true]"), vec!["1", "a", "true"]);
    assert_eq!(foreach_items("[2.5, false, null]"), vec!["2.5", "false", "null"]);
    assert_eq!(foreach_items("[[1,2], {\"k\":1}]"), vec!["[1,2]", "{\"k\":1}"]);
    assert_eq!(foreach_items("[]"), Vec::<String>::new());
}

#[test]
fn foreach_items_of_other_values() {
    assert_eq!(foreach_items("abc"), vec!["abc"]);
    assert_eq!(foreach_items("[oops"), vec!["[oops"]);
    assert_eq!(foreach_items("[oops]"), vec!["[oops]"]);
    assert_eq!(foreach_items(""), vec![""]);
}

#[test]
fn trim_quotes_at_both_ends() {
    assert_eq!(trim_quotes("\"\"abc\""), "abc");
    assert_eq!(trim_quotes("a\"b"), "a\"b");
    assert_eq!(trim_quotes("\"\"\""), "");
    assert_eq!(trim_quotes("plain"), "plain");
}

#[test]
fn fullwidth_characters() {
    assert!(is_fullwidth_char('あ'));
    assert!(is_fullwidth_char('カ'));
    assert!(is_fullwidth_char('漢'));
    assert!(is_fullwidth_char('한'));
    assert!(is_fullwidth_char('Ａ'));
    assert!(is_fullwidth_char('、'));
    assert!(!is_fullwidth_char('a'));
    assert!(!is_fullwidth_char(' '));
    assert!(!is_fullwidth_char('é'));
}

#[test]
fn scrollbar_is_appended_in_front() {
    let visible = vec![Stencil::Group(vec![])];
    let out = inject_scrollbar(visible, 10, 20, 30, 40);
    assert_eq!(out.len(), 2);
    match &out[1] {
        Stencil::ScrollBar { content_length, viewport_height, scroll_offset_y, viewport_width, depth } => {
            assert_eq!((*content_length, *viewport_height, *scroll_offset_y, *viewport_width), (10, 20, 40, 30));
            assert_eq!(*depth, SCROLLBAR_DEPTH_BITS);
            assert_eq!(f32::from_bits(*depth), 0.2);
        }
        other => panic!("unexpected stencil {:?}", other),
    }
}

#[test]
fn stencil_depths() {
    let rect = Stencil::Rect { position: [0, 0], width: 1, height: 1, color: [0; 4], scroll: false, depth: 7 };
    assert_eq!(get_stencil_depth(&rect), 7);
    assert_eq!(get_stencil_depth(&Stencil::Group(vec![])), GROUP_DEPTH_BITS);
    assert_eq!(f32::from_bits(GROUP_DEPTH_BITS), 0.5);
    let container = Stencil::ScrollContainer {
        id: "c".to_string(),
        position: [0, 0],
        width: 1,
        height: 1,
        overflow_mode: OverflowMode::Scroll,
        children: vec![],
        depth: 3,
    };
    assert_eq!(get_stencil_depth(&container), 3);
}

#[test]
fn renderers_start_at_default_size_and_resize() {
    let mut dom = DomRenderer::new();
    assert_eq!(dom.renderer_type(), RendererType::Dom);
    assert_eq!(dom.size(), (800, 600));
    dom.resize((1024, 768));
    assert_eq!(dom.size(), (1024, 768));
    let mut skia = TinySkiaRenderer::new();
    assert_eq!(skia.renderer_type(), RendererType::TinySkia);
    assert_eq!(skia.size(), (800, 600));
    skia.resize((1, 2));
    assert_eq!(skia.size(), (1, 2));
    let mut pdf = PdfRenderer::new();
    assert_eq!(pdf.renderer_type(), RendererType::Pdf);
    assert_eq!(pdf.size(), (800, 600));
    pdf.resize((0, 0));
    assert_eq!(pdf.size(), (0, 0));
}

#[test]
fn perf_monitor_keeps_most_recent_samples() {
    let mut m = PerfMonitor::new(3);
    assert_eq!(m.max_samples(), 3);
    for ms in [10u64, 20, 30, 40] {
        m.record_frame(Duration::from_millis(ms));
    }
    let samples: Vec<Duration> = m.frame_times().iter().cloned().collect();
    assert_eq!(samples, vec![Duration::from_millis(20), Duration::from_millis(30), Duration::from_millis(40)]);
    assert_eq!(m.total_frames(), 4);
    assert!(m.text_render_times().is_empty());
    m.record_text_render(Duration::from_millis(5));
    assert_eq!(m.total_text_renders(), 1);
    assert_eq!(m.text_render_times().len(), 1);
}

#[test]
fn perf_monitor_end_without_start_does_nothing() {
    let mut m = PerfMonitor::new(2);
    m.end_frame();
    m.end_text_render();
    assert_eq!(m.total_frames(), 0);
    assert_eq!(m.total_text_renders(), 0);
    assert!(m.frame_times().is_empty());
}

#[test]
fn perf_monitor_timed_frames() {
    let mut m = PerfMonitor::new(2);
    m.start_frame();
    m.end_frame();
    m.start_frame();
    m.end_frame();
    m.start_frame();
    m.end_frame();
    assert_eq!(m.total_frames(), 3);
    assert_eq!(m.frame_times().len(), 2);
    m.end_frame();
    assert_eq!(m.total_frames(), 3);
    m.start_text_render();
    m.end_text_render();
    assert_eq!(m.total_text_renders(), 1);
}

#[test]
fn perf_monitor_reset() {
    let mut m = PerfMonitor::new(4);
    m.record_frame(Duration::from_millis(1));
    m.record_text_render(Duration::from_millis(1));
    m.reset();
    assert_eq!(m.total_frames(), 0);
    assert_eq!(m.total_text_renders(), 0);
    assert!(m.frame_times().is_empty());
    assert!(m.text_render_times().is_empty());
    assert_eq!(m.max_samples(), 4);
}

#[test]
fn perf_monitor_with_no_samples_keeps_none() {
    let mut m = PerfMonitor::new(0);
    m.record_frame(Duration::from_millis(1));
    assert!(m.frame_times().is_empty());
    assert_eq!(m.total_frames(), 1);
}
