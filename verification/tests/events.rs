use touch_ui::component::{Duration, EventCtx, TimerToken};

#[test]
fn a_fresh_context_holds_no_request() {
    let mut ctx = EventCtx::new();
    assert!(!ctx.is_paint_requested());
    assert_eq!(ctx.pop_timer(), None);
}

#[test]
fn paint_request_is_kept_until_cleared() {
    let mut ctx = EventCtx::new();
    ctx.request_paint();
    ctx.request_paint();
    assert!(ctx.is_paint_requested());
    ctx.clear();
    assert!(!ctx.is_paint_requested());
}

#[test]
fn timers_get_tokens_in_sequence() {
    let mut ctx = EventCtx::new();
    let a = ctx.request_timer(Duration::from_millis(10));
    let b = ctx.request_timer(Duration::from_millis(20));
    assert_eq!(a, TimerToken::from_raw(1));
    assert_eq!(b, TimerToken::from_raw(2));
    assert_eq!(ctx.pop_timer(), Some((b, Duration::from_millis(20))));
    assert_eq!(ctx.pop_timer(), Some((a, Duration::from_millis(10))));
    assert_eq!(ctx.pop_timer(), None);
}

#[test]
fn clear_drops_timers_but_not_the_token_count() {
    let mut ctx = EventCtx::new();
    ctx.request_timer(Duration::from_millis(10));
    ctx.clear();
    assert_eq!(ctx.pop_timer(), None);
    assert_eq!(ctx.request_timer(Duration::from_millis(10)).into_raw(), 2);
}

#[test]
fn durations_and_tokens_keep_their_numbers() {
    assert_eq!(Duration::from_millis(1500).to_millis(), 1500);
    assert_eq!(TimerToken::from_raw(7).into_raw(), 7);
}
