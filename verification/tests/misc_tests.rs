use glbind::format::ScalarRepr;
use glbind::tlprog::{TLNone, TLOption, TLSome};
use glbind::{Configuration, WindowMode};

#[test]
fn type_level_options_reify() {
    let none: Option<i32> = TLNone.reify();
    assert_eq!(none, None);
    assert_eq!(TLSome(42).reify(), Some(42));
}

#[test]
fn scalar_reprs_know_their_size_and_class() {
    assert_eq!(ScalarRepr::F32.scalar_size(), 4);
    assert_eq!(ScalarRepr::I32.scalar_size(), 4);
    assert_eq!(ScalarRepr::U16.scalar_size(), 2);
    assert_eq!(ScalarRepr::I8.scalar_size(), 1);
    assert!(!ScalarRepr::F32.is_integer());
    assert!(ScalarRepr::U32.is_integer());
}

#[test]
fn window_configuration_is_plain_data() {
    let config = Configuration {
        mode: WindowMode::Windowed {
            width: 1280,
            height: 720,
            resizeable: true,
            min_limits: (Some(640), Some(360)),
            max_limits: (None, None),
        },
        title: "demo",
    };
    assert_eq!(config.title, "demo");
    match config.mode {
        WindowMode::Windowed { width, height, resizeable, min_limits, max_limits } => {
            assert_eq!((width, height), (1280, 720));
            assert!(resizeable);
            assert_eq!(min_limits, (Some(640), Some(360)));
            assert_eq!(max_limits, (None, None));
        },
        _ => panic!("expected a windowed mode"),
    }
    assert!(matches!(
        Configuration { mode: WindowMode::Maximised, title: "x" }.mode,
        WindowMode::Maximised
    ));
    assert!(matches!(
        Configuration { mode: WindowMode::Fullscreen, title: "x" }.mode,
        WindowMode::Fullscreen
    ));
}
