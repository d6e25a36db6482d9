use myoncore::EngineConfig;

#[test]
fn new_config_is_empty() {
    let c = EngineConfig::new();
    assert_eq!(c.window_title(), "");
    assert_eq!(c.window_width(), 0);
    assert_eq!(c.window_height(), 0);
    assert!(!c.is_resizable());
    assert!(c.decorated());
}

#[test]
fn builder_sets_each_field() {
    let c = EngineConfig::new()
        .title(String::from("MyonSandbox"))
        .width(800)
        .height(600)
        .resizable(true);
    assert_eq!(c.window_title(), "MyonSandbox");
    assert_eq!(c.window_width(), 800);
    assert_eq!(c.window_height(), 600);
    assert!(c.is_resizable());
    assert!(c.decorated());
}

#[test]
fn without_titlebar_removes_decorations() {
    let c = EngineConfig::new().without_titlebar(true);
    assert!(!c.decorated());
    let c = c.without_titlebar(false);
    assert!(c.decorated());
}

#[test]
fn later_builder_call_wins() {
    let c = EngineConfig::new().width(10).width(20).title(String::from("a")).title(String::from("b"));
    assert_eq!(c.window_width(), 20);
    assert_eq!(c.window_title(), "b");
}
