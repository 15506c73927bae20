use charming_leptos::digits::element_id_string;
use charming_leptos::digits::u32_decimal_string;
use charming_leptos::host::auto_chart_resize;
use charming_leptos::host::title_update_text;
use charming_leptos::host::week_chart_spec;
use charming_leptos::host::AxisKind;
use charming_leptos::host::ChartHandle;
use charming_leptos::host::ChartHost;
use charming_leptos::host::HandleSlot;
use charming_leptos::host::HostAction;
use charming_leptos::host::HostEvent;
use charming_leptos::host::RenderError;
use charming_leptos::host::RenderTarget;
use charming_leptos::host::ResizeError;
use charming_leptos::options::Value;

fn assert_auto_resize(action: &HostAction) {
    match action {
        HostAction::Resize(o) => {
            match &o.width {
                Some(Value::String(s)) => assert_eq!(s, "auto"),
                other => panic!("width was {:?}", other),
            }
            assert!(matches!(o.height, Some(Value::Number(800))));
            assert!(o.animation.is_none());
            assert!(o.silent.is_none());
        }
        other => panic!("expected a resize, got {:?}", other),
    }
}

#[test]
fn decimal_strings() {
    assert_eq!(element_id_string(1), "1");
    assert_eq!(element_id_string(0), "0");
    assert_eq!(element_id_string(42), "42");
    assert_eq!(element_id_string(-42), "-42");
    assert_eq!(element_id_string(2147483647), "2147483647");
    assert_eq!(element_id_string(-2147483648), "-2147483648");
    assert_eq!(u32_decimal_string(1000), "1000");
}

#[test]
fn week_spec_contents() {
    let s = week_chart_spec();
    assert_eq!(s.x_axis, AxisKind::Category);
    assert_eq!(
        s.x_categories,
        vec!["Mon", "Tue", "Wed", "Thu", "Fri", "Sat", "Sun"]
    );
    assert_eq!(s.y_axis, AxisKind::Numeric);
    assert_eq!(s.series_data, vec![150, 230, 224, 218, 135, 147, 260]);
    assert_eq!(s.canvas_width, 600);
    assert_eq!(s.canvas_height, 600);
}

#[test]
fn title_text() {
    assert_eq!(title_update_text(), "Hello Charming Leptos");
}

#[test]
fn mount_renders_once_with_id_and_week_spec() {
    let mut host = ChartHost::new(RenderTarget::ClientActive, 1);
    match host.step(HostEvent::Mount) {
        HostAction::StartRender(id, spec) => {
            assert_eq!(id, "1");
            assert_eq!(
                spec.x_categories,
                vec!["Mon", "Tue", "Wed", "Thu", "Fri", "Sat", "Sun"]
            );
            assert_eq!(spec.series_data, vec![150, 230, 224, 218, 135, 147, 260]);
        }
        other => panic!("expected a render request, got {:?}", other),
    }
    // A second mount event within the same lifetime starts no second render.
    assert!(matches!(host.step(HostEvent::Mount), HostAction::Nothing));
}

#[test]
fn server_stub_never_renders() {
    let mut host = ChartHost::new(RenderTarget::ServerStub, 1);
    assert!(matches!(host.step(HostEvent::Mount), HostAction::Nothing));
    assert!(matches!(host.step(HostEvent::WindowResize), HostAction::Nothing));
}

#[test]
fn resize_event_before_render_is_a_noop() {
    let mut host = ChartHost::new(RenderTarget::ClientActive, 1);
    assert!(matches!(host.step(HostEvent::WindowResize), HostAction::Nothing));
    host.step(HostEvent::Mount);
    // The render is still pending: the slot is empty, so still no resize.
    assert!(matches!(host.step(HostEvent::WindowResize), HostAction::Nothing));
}

#[test]
fn failed_render_leaves_slot_empty_and_resizes_nothing() {
    let mut host = ChartHost::new(RenderTarget::ClientActive, 1);
    host.step(HostEvent::Mount);
    let after_failure = host.step(HostEvent::RenderFailed(RenderError::BadTarget));
    assert!(matches!(after_failure, HostAction::Nothing));
    assert!(matches!(host.step(HostEvent::WindowResize), HostAction::Nothing));
}

#[test]
fn successful_render_publishes_and_resizes() {
    let mut host = ChartHost::new(RenderTarget::ClientActive, 1);
    host.step(HostEvent::Mount);
    let initial = host.step(HostEvent::RenderSucceeded(ChartHandle { container: 1 }));
    assert_auto_resize(&initial);
    // One synthetic window resize gives exactly one resize command.
    let on_resize = host.step(HostEvent::WindowResize);
    assert_auto_resize(&on_resize);
}

#[test]
fn handle_is_published_once() {
    let mut host = ChartHost::new(RenderTarget::ClientActive, 7);
    host.step(HostEvent::Mount);
    host.step(HostEvent::RenderSucceeded(ChartHandle { container: 7 }));
    let second = host.step(HostEvent::RenderSucceeded(ChartHandle { container: 9 }));
    assert!(matches!(second, HostAction::Nothing));
}

#[test]
fn resize_failure_is_discarded() {
    let mut host = ChartHost::new(RenderTarget::ClientActive, 1);
    host.step(HostEvent::Mount);
    host.step(HostEvent::RenderSucceeded(ChartHandle { container: 1 }));
    let r = host.step(HostEvent::ResizeFailed(ResizeError::RendererInternal));
    assert!(matches!(r, HostAction::Nothing));
    // The chart stays live: the next resize event still resizes.
    assert_auto_resize(&host.step(HostEvent::WindowResize));
}

#[test]
fn coordinator_decides_from_snapshot() {
    assert!(auto_chart_resize(&None).is_none());
    let decision = auto_chart_resize(&Some(ChartHandle { container: 3 }));
    let o = decision.expect("a populated slot yields a resize");
    match &o.width {
        Some(Value::String(s)) => assert_eq!(s, "auto"),
        other => panic!("width was {:?}", other),
    }
    assert!(matches!(o.height, Some(Value::Number(800))));
}

#[test]
fn slot_takes_first_handle_only() {
    let mut slot = HandleSlot::empty();
    assert!(slot.snapshot().is_none());
    slot.publish(ChartHandle { container: 1 });
    assert_eq!(slot.snapshot(), Some(ChartHandle { container: 1 }));
    slot.publish(ChartHandle { container: 2 });
    assert_eq!(slot.snapshot(), Some(ChartHandle { container: 1 }));
}
