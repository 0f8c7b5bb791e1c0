use flion::egl::{
    binding, config_attributes, context_attributes, surface_attributes, ContextKind, Current,
};
use flion::engine::{
    next_request_step, FlutterEngine, RequestError, RequestStep, RouteError,
};
use flion::error_utils::ResultExt;
use flion::flion_engine::{
    default_bundle, on_parent_event, BundleFile, DefaultBundle, FlionEngineBuilder, MessageHandler,
    ParentAction, ParentEvent, AOT_LIBRARY_PATH_VARIABLE, ASSETS_PATH_VARIABLE,
    MOUSE_CURSOR_CHANNEL, PLATFORM_VIEWS_CHANNEL, TEXT_INPUT_CHANNEL,
};
use flion::mouse_cursor::{get_cursor, CursorCommand, CursorShape, MouseCursorHandler};
use flion::renderer::{vertex_data, Vertex};
use flion::settings::{settings, SETTINGS_CHANNEL};
use flion::standard_method_channel::{
    called_method, plugin_response, MessageReply, StandardMethodReply,
};

#[test]
fn messages_find_their_handlers() {
    let mut engine = FlutterEngine::new(vec![
        ("a".to_owned(), 1),
        ("b".to_owned(), 2),
        ("a".to_owned(), 3),
    ]);
    assert_eq!(engine.platform_message_handler(Some("a"), true), Ok(&3));
    assert_eq!(engine.platform_message_handler(Some("b"), true), Ok(&2));
    assert_eq!(
        engine.platform_message_handler(None, true),
        Err(RouteError::InvalidChannel)
    );
    assert_eq!(
        engine.platform_message_handler(Some("c"), false),
        Err(RouteError::NoHandler)
    );
    assert_eq!(
        engine.platform_message_handler(Some("b"), false),
        Err(RouteError::NullMessage)
    );
    engine.set_platform_message_handler("c".to_owned(), 4);
    engine.set_platform_message_handler("b".to_owned(), 5);
    assert_eq!(engine.platform_message_handler(Some("c"), true), Ok(&4));
    assert_eq!(engine.platform_message_handler(Some("b"), true), Ok(&5));
}

#[test]
fn requests() {
    let mut step = RequestStep::CreateResponseHandle;
    step = next_request_step(step, None);
    assert_eq!(step, RequestStep::SendMessage);
    assert_eq!(
        next_request_step(step, Some(2)),
        RequestStep::Failed(RequestError::SendMessage(2))
    );
    step = next_request_step(step, None);
    assert_eq!(step, RequestStep::ReleaseResponseHandle);
    assert_eq!(
        next_request_step(step, Some(1)),
        RequestStep::Failed(RequestError::ReleaseResponseHandle(1))
    );
    assert_eq!(next_request_step(step, None), RequestStep::Done);
    assert_eq!(next_request_step(RequestStep::Done, Some(1)), RequestStep::Done);
    let failed = next_request_step(RequestStep::CreateResponseHandle, Some(3));
    assert_eq!(failed, RequestStep::Failed(RequestError::CreateResponseHandle(3)));
    assert_eq!(next_request_step(failed, None), failed);
}

#[test]
fn engine_from_a_builder() {
    let builder: FlionEngineBuilder<&str, u8, char> = FlionEngineBuilder::new("data");
    let parts = builder
        .with_platform_message_handler("x", 1)
        .with_platform_message_handler("y", 2)
        .with_platform_view_factory("map", 'm')
        .with_platform_view_factory("map", 'n')
        .with_bundle_path("other")
        .build(None, None);
    assert_eq!(parts.bundle_path, "other");
    let handlers = parts.handlers;
    assert_eq!(handlers.len(), 3);
    assert_eq!(handlers[0].0, PLATFORM_VIEWS_CHANNEL);
    match &handlers[0].1 {
        MessageHandler::PlatformViews(views) => assert_eq!(views.factory("map"), Some(&'n')),
        MessageHandler::Application(_) => panic!("not the handler for views"),
    }
    assert_eq!(handlers[1].0, "x");
    assert!(matches!(handlers[1].1, MessageHandler::Application(1)));
    assert_eq!(handlers[2].0, "y");
    assert!(matches!(handlers[2].1, MessageHandler::Application(2)));
}

#[test]
fn names_of_channels() {
    assert_eq!(PLATFORM_VIEWS_CHANNEL, "flion/platform_views");
    assert_eq!(TEXT_INPUT_CHANNEL, "flutter/textinput");
    assert_eq!(MOUSE_CURSOR_CHANNEL, "flutter/mousecursor");
    assert_eq!(SETTINGS_CHANNEL, "flutter/settings");
}

#[test]
fn files_of_the_bundle() {
    let builder = || FlionEngineBuilder::<&str, u8, char>::new("data");

    let parts = builder().build(None, None);
    assert_eq!(parts.bundle_path, "data");
    assert_eq!(parts.assets, BundleFile::InBundle("flutter_assets"));
    assert_eq!(parts.aot_library, BundleFile::InBundle("app.so"));

    let parts = builder().build(Some("assets"), None);
    assert_eq!(parts.assets, BundleFile::At("assets"));
    assert_eq!(parts.aot_library, BundleFile::InBundle("app.so"));

    let parts = builder().build(None, Some("library"));
    assert_eq!(parts.assets, BundleFile::InBundle("flutter_assets"));
    assert_eq!(parts.aot_library, BundleFile::At("library"));

    assert_eq!(ASSETS_PATH_VARIABLE, "FLION_ASSETS_PATH");
    assert_eq!(AOT_LIBRARY_PATH_VARIABLE, "FLION_AOT_LIBRARY_PATH");
}

#[test]
fn bundle_that_is_not_given() {
    assert_eq!(default_bundle(Some("bin")), DefaultBundle::Inside("bin", "data"));
    assert_eq!(default_bundle::<&str>(None), DefaultBundle::Here("data"));
}

#[test]
fn events_of_the_outer_window() {
    assert_eq!(on_parent_event(true, ParentEvent::CloseRequested), ParentAction::Exit);
    assert_eq!(on_parent_event(false, ParentEvent::CloseRequested), ParentAction::Nothing);
    assert_eq!(on_parent_event(true, ParentEvent::Focused(true)), ParentAction::FocusWindow);
    assert_eq!(on_parent_event(true, ParentEvent::Focused(false)), ParentAction::Nothing);
    assert_eq!(on_parent_event(true, ParentEvent::Other), ParentAction::Nothing);
    assert_eq!(
        on_parent_event(true, ParentEvent::Resized { width: 10, height: 0xFFFF_FFFF }),
        ParentAction::MoveWindow { x: 0, y: 0, width: 10, height: -1 }
    );
}

#[test]
fn shapes_by_name() {
    assert_eq!(get_cursor("none"), None);
    assert_eq!(get_cursor("basic"), Some(CursorShape::Arrow));
    assert_eq!(get_cursor("click"), Some(CursorShape::Hand));
    assert_eq!(get_cursor("text"), Some(CursorShape::IBeam));
    assert_eq!(get_cursor("grab"), Some(CursorShape::Arrow));
    let handler = MouseCursorHandler::new("window");
    assert_eq!(*handler.window(), "window");
    assert_eq!(
        handler.handle("activateSystemCursor", Some("click")),
        CursorCommand::Activate(Some(CursorShape::Hand))
    );
    assert_eq!(
        handler.handle("activateSystemCursor", Some("none")),
        CursorCommand::Activate(None)
    );
    assert_eq!(handler.handle("other", None), CursorCommand::NotImplemented);
}

#[test]
fn user_settings() {
    assert_eq!(settings(0).platform_brightness, "dark");
    assert_eq!(settings(1).platform_brightness, "light");
    assert_eq!(settings(7).platform_brightness, "light");
    assert!(!settings(1).always_use_24_hour_format);
}

#[test]
fn replies() {
    assert!(matches!(StandardMethodReply::success(&vec![9, 8]), MessageReply::Data(bytes) if bytes == vec![0, 9, 8]));
    assert!(matches!(StandardMethodReply::success(&vec![]), MessageReply::Data(bytes) if bytes == vec![0]));
    assert!(matches!(StandardMethodReply::not_implemented(), MessageReply::NotImplemented));
    assert!(matches!(plugin_response(None), MessageReply::NotImplemented));
    assert!(matches!(plugin_response(Some(vec![])), MessageReply::Data(bytes) if bytes.is_empty()));
}

#[test]
fn errors_are_handed_on() {
    let ok: Result<u8, String> = Ok(1);
    assert_eq!(ok.trace_err(), Ok(1));
    let err: Result<u8, String> = Err("e".to_owned());
    assert_eq!(err.trace_err(), Err("e".to_owned()));
}

#[test]
fn attributes() {
    assert_eq!(context_attributes(), vec![0x3098, 2, 0x3038]);
    assert_eq!(
        config_attributes(),
        vec![
            khronos_egl::RED_SIZE,
            8,
            khronos_egl::GREEN_SIZE,
            8,
            khronos_egl::BLUE_SIZE,
            8,
            khronos_egl::ALPHA_SIZE,
            8,
            khronos_egl::DEPTH_SIZE,
            8,
            khronos_egl::STENCIL_SIZE,
            8,
            khronos_egl::NONE,
        ]
    );
    assert_eq!(
        surface_attributes((3, -4)),
        vec![0x3080, 0x305E, 0x3081, 0x305F, 0x3490, 3, 0x3491, -4, 0x3038]
    );
}

#[test]
fn contexts() {
    assert_eq!(binding(Current::Surface), (true, Some(ContextKind::Drawing)));
    assert_eq!(binding(Current::Context), (false, Some(ContextKind::Drawing)));
    assert_eq!(binding(Current::ResourceContext), (false, Some(ContextKind::Resource)));
    assert_eq!(binding(Current::Nothing), (false, None));
}

#[test]
fn corners() {
    let corners = vertex_data();
    assert_eq!(corners.len(), 6);
    assert_eq!(corners[0], Vertex { x: -1, y: 1, z: 0, u: 0, v: 0 });
    assert_eq!(corners[4], Vertex { x: 1, y: -1, z: 0, u: 1, v: 1 });
}

#[test]
fn method_of_a_call() {
    assert!(matches!(called_method(Some("create".to_owned())), Ok(name) if name == "create"));
    assert!(matches!(called_method(None), Err(MessageReply::NotImplemented)));
}
