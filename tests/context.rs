use remindr::app_state::AppState;
use remindr::context::{Entities, ScreenContext, WeakEntity};

struct TestApp {
    _value: i32,
}

#[test]
fn test_screen_context_creation() {
    let entities = Entities::<TestApp>::new();
    let weak = WeakEntity::<TestApp>::new_invalid();
    let screen_ctx = ScreenContext::<TestApp>::new(weak);
    assert!(screen_ctx.app_state().upgrade(&entities).is_none());
}

#[test]
fn test_screen_context_clone() {
    let entities = Entities::<TestApp>::new();
    let weak = WeakEntity::<TestApp>::new_invalid();
    let screen_ctx = ScreenContext::<TestApp>::new(weak.clone());
    let cloned = screen_ctx.clone();

    assert!(cloned.app_state().upgrade(&entities).is_none());
}

#[test]
fn context_updates_live_state() {
    let mut entities = Entities::new();
    let handle = entities.insert(AppState::<u32>::new());
    let ctx = ScreenContext::new(handle);
    {
        let app = ctx.update(&mut entities).expect("the state is owned");
        app.navigator.push(7, "home");
    }
    let app = ctx.app_state().upgrade(&entities).unwrap();
    assert_eq!(app.navigator.len(), 1);
    assert_eq!(app.navigator.history(), &["home"]);
}

#[test]
fn released_state_is_gone() {
    let mut entities = Entities::new();
    let first = entities.insert(TestApp { _value: 1 });
    let second = entities.insert(TestApp { _value: 2 });
    entities.release(&first);
    assert!(first.upgrade(&entities).is_none());
    assert_eq!(second.upgrade(&entities).map(|a| a._value), Some(2));
    let ctx = ScreenContext::new(first);
    assert!(ctx.update(&mut entities).is_none());
}

#[test]
fn app_state_starts_without_screens() {
    let app = AppState::<u8>::new();
    assert!(app.navigator.is_empty());
    let app = AppState::<u8>::default();
    assert_eq!(app.navigator.len(), 0);
}
