use flion::compositor::{
    applied_mutations, FlutterCompositor, FrameLayer, PresentStep, SurfaceTransformation,
    SwapChainDescription, GL_BGRA8_EXT,
};
use flion::platform_views::PlatformViews;

fn run(compositor: &mut FlutterCompositor, steps: &[PresentStep]) {
    for step in steps {
        compositor.complete(*step);
    }
}

fn views(ids: &[u64]) -> PlatformViews<&'static str> {
    let mut views = PlatformViews::new();
    for id in ids {
        views.register(*id, "view");
    }
    views
}

#[test]
fn first_frame() {
    let mut compositor = FlutterCompositor::new();
    compositor.create_backing_store(100, 8, 8);
    let layers = vec![FrameLayer::BackingStore(100), FrameLayer::PlatformView(7)];
    let steps = compositor.present_layers(&layers, &views(&[7]));
    assert_eq!(
        steps,
        vec![
            PresentStep::PresentSwapchain(100),
            PresentStep::UpdatePlatformView { id: 7, layer: 1 },
            PresentStep::Flush,
            PresentStep::ClearVisuals,
            PresentStep::InsertFlutterVisual(100),
            PresentStep::InsertPlatformVisual(7),
            PresentStep::Commit,
        ]
    );
}

#[test]
fn same_frame_again() {
    let mut compositor = FlutterCompositor::new();
    compositor.create_backing_store(100, 8, 8);
    let layers = vec![FrameLayer::BackingStore(100), FrameLayer::PlatformView(7)];
    let steps = compositor.present_layers(&layers, &views(&[7]));
    run(&mut compositor, &steps);
    assert_eq!(
        compositor.present_layers(&layers, &views(&[7])),
        vec![
            PresentStep::PresentSwapchain(100),
            PresentStep::UpdatePlatformView { id: 7, layer: 1 },
            PresentStep::Commit,
        ]
    );
}

#[test]
fn reordered_layers() {
    let mut compositor = FlutterCompositor::new();
    let layers = vec![FrameLayer::BackingStore(1), FrameLayer::BackingStore(2)];
    let steps = compositor.present_layers(&layers, &views(&[]));
    run(&mut compositor, &steps);
    let reordered = vec![FrameLayer::BackingStore(2), FrameLayer::BackingStore(1)];
    assert_eq!(
        compositor.present_layers(&reordered, &views(&[])),
        vec![
            PresentStep::PresentSwapchain(2),
            PresentStep::PresentSwapchain(1),
            PresentStep::ClearVisuals,
            PresentStep::InsertFlutterVisual(2),
            PresentStep::InsertFlutterVisual(1),
            PresentStep::Commit,
        ]
    );
}

#[test]
fn exchanged_views_are_not_noticed() {
    let mut compositor = FlutterCompositor::new();
    let steps = compositor.present_layers(&vec![FrameLayer::PlatformView(1)], &views(&[1, 2]));
    run(&mut compositor, &steps);
    assert_eq!(
        compositor.present_layers(&vec![FrameLayer::PlatformView(2)], &views(&[1, 2])),
        vec![
            PresentStep::UpdatePlatformView { id: 2, layer: 0 },
            PresentStep::Commit,
        ]
    );
}

#[test]
fn missing_view() {
    let mut compositor = FlutterCompositor::new();
    let layers = vec![FrameLayer::PlatformView(9), FrameLayer::BackingStore(1)];
    let steps = compositor.present_layers(&layers, &views(&[]));
    assert_eq!(
        steps,
        vec![
            PresentStep::ReportMissingView(9),
            PresentStep::PresentSwapchain(1),
            PresentStep::ClearVisuals,
            PresentStep::ReportMissingView(9),
            PresentStep::InsertFlutterVisual(1),
            PresentStep::Commit,
        ]
    );
    run(&mut compositor, &steps);
    let again = compositor.present_layers(&layers, &views(&[]));
    assert!(again.contains(&PresentStep::ClearVisuals));
}

#[test]
fn view_that_cannot_be() {
    let mut compositor = FlutterCompositor::new();
    compositor.create_backing_store(1, 8, 8);
    let layers = vec![
        FrameLayer::BackingStore(1),
        FrameLayer::PlatformView(-4),
        FrameLayer::BackingStore(2),
    ];
    let steps = compositor.present_layers(&layers, &views(&[]));
    assert_eq!(
        steps,
        vec![PresentStep::PresentSwapchain(1), PresentStep::Fail(-4)]
    );
    run(&mut compositor, &steps);
    let next = compositor.present_layers(&vec![FrameLayer::BackingStore(1)], &views(&[]));
    assert!(!next.contains(&PresentStep::Flush));
}

#[test]
fn layer_of_unknown_type() {
    let mut compositor = FlutterCompositor::new();
    let steps = compositor.present_layers(&vec![FrameLayer::BackingStore(1)], &views(&[]));
    run(&mut compositor, &steps);
    let unknown = vec![FrameLayer::Other(5)];
    assert!(compositor.accepts(&unknown));
    assert_eq!(
        compositor.present_layers(&unknown, &views(&[])),
        vec![PresentStep::ReportInvalidLayer(5), PresentStep::Commit]
    );
    assert!(!compositor.accepts(&vec![FrameLayer::Other(5), FrameLayer::Other(5)]));
    assert!(compositor.accepts(&vec![FrameLayer::Other(5), FrameLayer::PlatformView(-1)]));
}

#[test]
fn collected_store_is_forgotten() {
    let mut compositor = FlutterCompositor::new();
    compositor.create_backing_store(1, 8, 8);
    compositor.collect_backing_store(1);
    let steps = compositor.present_layers(&vec![FrameLayer::BackingStore(1)], &views(&[]));
    assert!(!steps.contains(&PresentStep::Flush));
}

#[test]
fn swap_chain_of_a_store() {
    let description = FlutterCompositor::new().create_backing_store(1, 640, 480);
    assert_eq!(
        description,
        SwapChainDescription {
            width: 640,
            height: 480,
            sample_count: 1,
            sample_quality: 0,
            buffer_count: 2,
            gl_format: GL_BGRA8_EXT,
        }
    );
    assert_eq!(GL_BGRA8_EXT, 37793);
}

#[test]
fn surfaces_are_turned_upside_down() {
    let flip = FlutterCompositor::get_surface_transformation(600);
    let expected = SurfaceTransformation {
        scale_x: 1,
        skew_x: 0,
        trans_x: 0,
        skew_y: 0,
        scale_y: -1,
        trans_y: 600,
        pers_2: 1,
    };
    assert_eq!(flip, expected);
    assert_eq!(FlutterCompositor::transformation_or_identity(Some(flip)), flip);
    let identity = FlutterCompositor::transformation_or_identity(None);
    assert_eq!((identity.scale_y, identity.trans_y, identity.pers_2), (1, 0, 1));
}

#[test]
fn mutations_of_a_view() {
    assert!(applied_mutations(&vec![]).is_empty());
    assert!(applied_mutations(&vec![true]).is_empty());
    assert_eq!(applied_mutations(&vec![true, false, true, true, false]), vec![2, 3]);
    assert_eq!(applied_mutations(&vec![false, true]), vec![1]);
}
