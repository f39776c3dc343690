use vse2d::ContextBuilder;

#[test]
fn builder_defaults() {
    let b = ContextBuilder::new("demo");
    let c = b.window_config;
    assert_eq!(c.title, "demo");
    assert_eq!((c.width, c.height), (900, 600));
    assert!(!c.resizable);
    assert!(!c.fullscreen);
    assert!(c.vsync);
}

#[test]
fn builder_setters_chain() {
    let b = ContextBuilder::new("demo").resizable(true).fullscreen(true).vsync(false).size(
        320,
        200,
    );
    let c = b.window_config;
    assert_eq!(c.title, "demo");
    assert_eq!((c.width, c.height), (320, 200));
    assert!(c.resizable);
    assert!(c.fullscreen);
    assert!(!c.vsync);
}

#[test]
fn builder_setters_touch_only_their_field() {
    let b = ContextBuilder::new("demo").size(100, 50).resizable(true);
    let c = b.window_config;
    assert_eq!((c.width, c.height), (100, 50));
    assert!(c.resizable);
    assert!(!c.fullscreen);
    assert!(c.vsync);
}
