use flion::platform_views::{
    key_of_view, PlatformViews, PlatformViewsMessageHandler, ViewArguments, ViewCommand,
};
use flion::registry::Registry;
use flion::views::ViewManager;

fn handler() -> PlatformViewsMessageHandler<u8> {
    let mut factories = Registry::new();
    factories.insert("map".to_owned(), 1);
    PlatformViewsMessageHandler::new(factories)
}

fn arguments(id: Option<i32>, type_: Option<&str>) -> ViewArguments {
    ViewArguments {
        id,
        type_: type_.map(str::to_owned),
    }
}

#[test]
fn views_by_identifier() {
    let mut views = PlatformViews::new();
    views.register(1, "a");
    views.register(2, "b");
    views.register(1, "c");
    assert!(views.contains(1));
    assert!(!views.contains(3));
    assert_eq!(views.get_mut(1), Some(&mut "c"));
    *views.get_mut(2).unwrap() = "d";
    assert_eq!(views.get_mut(3), None);
    assert_eq!(views.remove(2), Some("d"));
    assert_eq!(views.remove(2), None);
    assert!(!views.contains(2));
}

#[test]
fn keys_of_views() {
    assert_eq!(key_of_view(5), 5);
    assert_eq!(key_of_view(-1), u64::MAX);
    assert_eq!(key_of_view(i32::MIN), 0xFFFF_FFFF_8000_0000);
    assert_eq!(key_of_view(i32::MAX), 0x7FFF_FFFF);
}

#[test]
fn creating_and_destroying() {
    let handler = handler();
    let create = arguments(Some(-2), Some("map"));
    assert!(handler.accepts("create", &create));
    assert_eq!(
        handler.handle("create", &create),
        ViewCommand::Create { id: -2, key: u64::MAX - 1 }
    );
    assert_eq!(handler.factory("map"), Some(&1));
    assert_eq!(handler.factory("web"), None);
    assert_eq!(
        handler.handle("destroy", &arguments(Some(4), None)),
        ViewCommand::Destroy { key: 4 }
    );
}

#[test]
fn requests_without_arguments() {
    let handler = handler();
    assert!(!handler.accepts("create", &arguments(None, Some("map"))));
    assert!(!handler.accepts("create", &arguments(Some(1), None)));
    assert!(!handler.accepts("create", &arguments(Some(1), Some("web"))));
    assert!(!handler.accepts("destroy", &arguments(None, None)));
    assert!(handler.accepts("resize", &arguments(None, None)));
    assert_eq!(
        handler.handle("resize", &arguments(None, None)),
        ViewCommand::NotImplemented
    );
    assert_eq!(
        handler.handle("resize", &arguments(Some(1), None)),
        ViewCommand::NotImplemented
    );
}

#[test]
fn registry_keeps_the_last_value() {
    let mut registry = Registry::new();
    assert!(!registry.contains("é"));
    registry.insert("é".to_owned(), 1);
    registry.insert("e".to_owned(), 2);
    registry.insert("é".to_owned(), 3);
    assert_eq!(registry.get("é"), Some(&3));
    assert_eq!(registry.get("e"), Some(&2));
    assert_eq!(registry.get(""), None);
    assert!(registry.contains("e"));
}

#[test]
fn surfaces_of_views() {
    let mut manager = ViewManager::new();
    manager.insert(-3, 'v');
    let surface = manager.get(-3).unwrap();
    assert_eq!(surface.size(), (0, 0));
    assert!(!surface.is_resizing());
    assert_eq!(*surface.root_visual(), 'v');
    assert!(manager.get(0).is_none());
    assert!(manager.get_mut(0).is_none());
    manager.get_mut(-3).unwrap().begin_resize(3, 4);
    assert_eq!(manager.get(-3).unwrap().size(), (3, 4));
    assert!(manager.get(-3).unwrap().is_resizing());
    manager.get_mut(-3).unwrap().end_resize();
    assert!(!manager.get(-3).unwrap().is_resizing());
    assert_eq!(manager.get(-3).unwrap().size(), (3, 4));
    manager.insert(-3, 'w');
    assert_eq!(manager.get(-3).unwrap().size(), (0, 0));
}
