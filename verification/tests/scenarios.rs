use app_shell::{
    Action, App, AppError, ElementState, Event, Lifecycle, PendingInitToken, PhysicalKey, Size,
    State, Surface, WindowEvent, WindowHandle,
};

fn escape_pressed() -> WindowEvent {
    WindowEvent::KeyboardInput { physical_key: PhysicalKey::Escape, state: ElementState::Pressed }
}

fn feed(app: &mut App, events: Vec<Event>) -> Vec<Action> {
    let mut actions = Vec::new();
    for event in events {
        if let Some(action) = app.dispatch(event).expect("no failure in this run") {
            actions.push(action);
        }
    }
    actions
}

#[test]
fn escape_after_blocking_resume_exits_once() {
    let window = WindowHandle::new(1);
    let mut app = App::new(None);
    let actions = feed(
        &mut app,
        vec![
            Event::Resumed,
            Event::WindowCreated(Some(window)),
            Event::Window(escape_pressed()),
        ],
    );
    assert_eq!(actions, vec![Action::OpenWindow(Surface::Window), Action::Exit]);
    assert_eq!(app.lifecycle(), Lifecycle::ShuttingDown);
    assert!(app.state().is_none());
}

#[test]
fn escape_after_blocking_resume_touches_no_render_state() {
    let window = WindowHandle::new(1);
    let mut app = App::new(None);
    assert_eq!(app.resumed(), Some(Action::OpenWindow(Surface::Window)));
    assert_eq!(app.window_created(Some(window)), Ok(None));
    assert_eq!(app.lifecycle(), Lifecycle::Ready);
    let state = app.state().expect("ready controller holds a render state");
    assert_eq!(state.window(), window);
    assert_eq!(state.size(), None);
    assert_eq!(app.window_event(escape_pressed()), Some(Action::Exit));
    assert_eq!(app.window_event(escape_pressed()), None);
    assert_eq!(app.window_event(WindowEvent::CloseRequested), None);
    assert_eq!(app.lifecycle(), Lifecycle::ShuttingDown);
}

#[test]
fn deferred_init_then_redraw_requests_one_redraw() {
    let window = WindowHandle::new(9);
    let mut app = App::new(Some(PendingInitToken::new(4)));

    assert_eq!(app.resumed(), Some(Action::OpenWindow(Surface::Canvas)));
    let spawn = app.window_created(Some(window)).expect("the surface exists");
    let (proxy, spawned_for) = match spawn {
        Some(Action::SpawnInit { proxy, window }) => (proxy, window),
        other => panic!("expected the construction to be handed out, got {:?}", other),
    };
    assert_eq!(proxy.id, 4);
    assert_eq!(spawned_for, window);
    assert_eq!(app.lifecycle(), Lifecycle::AwaitingAsyncInit);
    assert!(app.state().is_none());

    let state = State::new(spawned_for).expect("construction succeeds");
    assert_eq!(
        app.user_event(state, Size::new(1024, 768)),
        Some(Action::RequestRedraw(window))
    );
    assert_eq!(app.lifecycle(), Lifecycle::Ready);
    assert_eq!(app.state().and_then(|state| state.size()), Some(Size::new(1024, 768)));

    let answers: Vec<Option<Action>> = vec![app.window_event(WindowEvent::RedrawRequested)];
    assert_eq!(answers, vec![Some(Action::RequestRedraw(window))]);
    assert_eq!(app.lifecycle(), Lifecycle::Ready);
    assert_eq!(app.state().map(|state| state.window()), Some(window));
}

#[test]
fn resize_before_resume_is_dropped() {
    let mut app = App::new(None);
    assert_eq!(app.window_event(WindowEvent::Resized(Size::new(800, 600))), None);
    assert_eq!(app.lifecycle(), Lifecycle::Uninitialized);
    assert!(app.state().is_none());
    assert_eq!(app.resumed(), Some(Action::OpenWindow(Surface::Window)));
}

#[test]
fn resize_before_resume_is_dropped_with_a_token_too() {
    let mut app = App::new(Some(PendingInitToken::new(0)));
    assert_eq!(app.dispatch(Event::Window(WindowEvent::Resized(Size::new(800, 600)))), Ok(None));
    assert_eq!(app.lifecycle(), Lifecycle::Uninitialized);
    assert_eq!(app.resumed(), Some(Action::OpenWindow(Surface::Canvas)));
}

#[test]
fn ignored_events_leave_a_ready_controller_alone() {
    let window = WindowHandle::new(2);
    let mut app = App::new(None);
    feed(&mut app, vec![Event::Resumed, Event::WindowCreated(Some(window))]);
    app.window_event(WindowEvent::Resized(Size::new(640, 480)));

    let ignored = vec![
        WindowEvent::KeyboardInput {
            physical_key: PhysicalKey::Escape,
            state: ElementState::Released,
        },
        WindowEvent::KeyboardInput {
            physical_key: PhysicalKey::Other,
            state: ElementState::Pressed,
        },
        WindowEvent::KeyboardInput {
            physical_key: PhysicalKey::Other,
            state: ElementState::Released,
        },
        WindowEvent::Other,
    ];
    for _ in 0..3 {
        for event in &ignored {
            assert_eq!(app.window_event(*event), None);
            assert_eq!(app.lifecycle(), Lifecycle::Ready);
            let state = app.state().expect("still ready");
            assert_eq!(state.window(), window);
            assert_eq!(state.size(), Some(Size::new(640, 480)));
        }
    }
}

#[test]
fn every_window_event_is_dropped_while_waiting() {
    let mut app = App::new(Some(PendingInitToken::new(1)));
    app.resumed();
    app.window_created(Some(WindowHandle::new(5))).expect("the surface exists");
    let events = vec![
        WindowEvent::CloseRequested,
        WindowEvent::Resized(Size::new(10, 20)),
        WindowEvent::RedrawRequested,
        escape_pressed(),
        WindowEvent::Other,
    ];
    for event in events {
        assert_eq!(app.window_event(event), None);
        assert_eq!(app.lifecycle(), Lifecycle::AwaitingAsyncInit);
    }
}

#[test]
fn second_resume_is_ignored_when_ready() {
    let window = WindowHandle::new(3);
    let mut app = App::new(None);
    feed(&mut app, vec![Event::Resumed, Event::WindowCreated(Some(window))]);
    assert_eq!(app.resumed(), None);
    assert_eq!(app.window_created(Some(WindowHandle::new(77))), Ok(None));
    assert_eq!(app.window_created(None), Ok(None));
    assert_eq!(app.lifecycle(), Lifecycle::Ready);
    assert_eq!(app.state().map(|state| state.window()), Some(window));
}

#[test]
fn second_resume_is_ignored_while_waiting() {
    let mut app = App::new(Some(PendingInitToken::new(1)));
    let actions = feed(
        &mut app,
        vec![
            Event::Resumed,
            Event::WindowCreated(Some(WindowHandle::new(5))),
            Event::Resumed,
            Event::WindowCreated(Some(WindowHandle::new(6))),
            Event::Resumed,
        ],
    );
    assert_eq!(
        actions,
        vec![
            Action::OpenWindow(Surface::Canvas),
            Action::SpawnInit { proxy: PendingInitToken::new(1), window: WindowHandle::new(5) },
        ]
    );
    assert_eq!(app.lifecycle(), Lifecycle::AwaitingAsyncInit);
}

#[test]
fn token_is_handed_out_once_over_a_whole_run() {
    let window = WindowHandle::new(8);
    let mut app = App::new(Some(PendingInitToken::new(21)));
    let actions = feed(
        &mut app,
        vec![
            Event::Resumed,
            Event::WindowCreated(Some(window)),
            Event::Resumed,
            Event::WindowCreated(Some(window)),
            Event::User { state: State::new(window).unwrap(), window_size: Size::new(1, 1) },
            Event::Resumed,
            Event::WindowCreated(Some(window)),
            Event::User { state: State::new(window).unwrap(), window_size: Size::new(2, 2) },
            Event::Window(WindowEvent::CloseRequested),
            Event::Resumed,
            Event::WindowCreated(Some(window)),
        ],
    );
    let spawns = actions.iter().filter(|action| matches!(action, Action::SpawnInit { .. })).count();
    let exits = actions.iter().filter(|action| matches!(action, Action::Exit)).count();
    assert_eq!(spawns, 1);
    assert_eq!(exits, 1);
    assert_eq!(
        actions,
        vec![
            Action::OpenWindow(Surface::Canvas),
            Action::SpawnInit { proxy: PendingInitToken::new(21), window },
            Action::RequestRedraw(window),
            Action::Exit,
        ]
    );
    assert_eq!(app.lifecycle(), Lifecycle::ShuttingDown);
}

#[test]
fn controller_without_token_never_spawns() {
    let window = WindowHandle::new(8);
    let mut app = App::new(None);
    let actions = feed(
        &mut app,
        vec![
            Event::Resumed,
            Event::WindowCreated(Some(window)),
            Event::User { state: State::new(window).unwrap(), window_size: Size::new(1, 1) },
            Event::Window(WindowEvent::RedrawRequested),
        ],
    );
    assert_eq!(
        actions,
        vec![Action::OpenWindow(Surface::Window), Action::RequestRedraw(window)]
    );
    assert_eq!(app.state().and_then(|state| state.size()), None);
}

#[test]
fn second_delivery_is_ignored() {
    let first = WindowHandle::new(1);
    let second = WindowHandle::new(2);
    let mut app = App::new(Some(PendingInitToken::new(0)));
    app.resumed();
    app.window_created(Some(first)).unwrap();
    assert_eq!(
        app.user_event(State::new(first).unwrap(), Size::new(300, 200)),
        Some(Action::RequestRedraw(first))
    );
    assert_eq!(app.user_event(State::new(second).unwrap(), Size::new(5, 5)), None);
    let state = app.state().expect("ready");
    assert_eq!(state.window(), first);
    assert_eq!(state.size(), Some(Size::new(300, 200)));
}

#[test]
fn delivery_before_resume_is_ignored() {
    let mut app = App::new(Some(PendingInitToken::new(0)));
    assert_eq!(app.user_event(State::new(WindowHandle::new(1)).unwrap(), Size::new(5, 5)), None);
    assert_eq!(app.lifecycle(), Lifecycle::Uninitialized);
    assert_eq!(app.resumed(), Some(Action::OpenWindow(Surface::Canvas)));
}

#[test]
fn missing_surface_is_a_lookup_error() {
    let mut app = App::new(Some(PendingInitToken::new(0)));
    assert_eq!(app.resumed(), Some(Action::OpenWindow(Surface::Canvas)));
    assert_eq!(app.window_created(None), Err(AppError::SurfaceLookup));
    assert_eq!(app.lifecycle(), Lifecycle::Uninitialized);
    // Nothing was consumed: a later attempt still has the token to hand out.
    assert_eq!(app.resumed(), Some(Action::OpenWindow(Surface::Canvas)));
    assert_eq!(
        app.window_created(Some(WindowHandle::new(1))),
        Ok(Some(Action::SpawnInit {
            proxy: PendingInitToken::new(0),
            window: WindowHandle::new(1)
        }))
    );
}

#[test]
fn missing_surface_is_a_lookup_error_without_token() {
    let mut app = App::new(None);
    assert_eq!(app.dispatch(Event::WindowCreated(None)), Err(AppError::SurfaceLookup));
    assert_eq!(app.lifecycle(), Lifecycle::Uninitialized);
    assert_eq!(app.window_created(Some(WindowHandle::new(1))), Ok(None));
    assert_eq!(app.lifecycle(), Lifecycle::Ready);
}

#[test]
fn close_request_exits() {
    let mut app = App::new(None);
    feed(&mut app, vec![Event::Resumed, Event::WindowCreated(Some(WindowHandle::new(1)))]);
    assert_eq!(app.window_event(WindowEvent::CloseRequested), Some(Action::Exit));
    assert_eq!(app.lifecycle(), Lifecycle::ShuttingDown);
}

#[test]
fn nothing_happens_after_shutdown() {
    let window = WindowHandle::new(1);
    let mut app = App::new(None);
    feed(
        &mut app,
        vec![
            Event::Resumed,
            Event::WindowCreated(Some(window)),
            Event::Window(WindowEvent::CloseRequested),
        ],
    );
    let later = vec![
        Event::Resumed,
        Event::WindowCreated(Some(window)),
        Event::WindowCreated(None),
        Event::User { state: State::new(window).unwrap(), window_size: Size::new(1, 1) },
        Event::Window(WindowEvent::RedrawRequested),
        Event::Window(WindowEvent::Resized(Size::new(3, 4))),
        Event::Window(WindowEvent::CloseRequested),
        Event::Window(escape_pressed()),
    ];
    for event in later {
        assert_eq!(app.dispatch(event), Ok(None));
        assert_eq!(app.lifecycle(), Lifecycle::ShuttingDown);
        assert!(app.state().is_none());
    }
}

#[test]
fn resize_reaches_the_render_state() {
    let window = WindowHandle::new(1);
    let mut app = App::new(None);
    feed(&mut app, vec![Event::Resumed, Event::WindowCreated(Some(window))]);
    assert_eq!(app.window_event(WindowEvent::Resized(Size::new(800, 600))), None);
    assert_eq!(app.state().and_then(|state| state.size()), Some(Size::new(800, 600)));
    assert_eq!(app.window_event(WindowEvent::Resized(Size::new(0, 0))), None);
    assert_eq!(app.state().and_then(|state| state.size()), Some(Size::new(0, 0)));
    assert_eq!(
        app.window_event(WindowEvent::Resized(Size::new(u32::MAX, u32::MAX))),
        None
    );
    assert_eq!(
        app.state().and_then(|state| state.size()),
        Some(Size::new(u32::MAX, u32::MAX))
    );
    assert_eq!(app.lifecycle(), Lifecycle::Ready);
}

#[test]
fn each_redraw_request_is_answered_with_one_redraw() {
    let window = WindowHandle::new(12);
    let mut app = App::new(None);
    feed(&mut app, vec![Event::Resumed, Event::WindowCreated(Some(window))]);
    for _ in 0..4 {
        assert_eq!(
            app.window_event(WindowEvent::RedrawRequested),
            Some(Action::RequestRedraw(window))
        );
    }
    assert_eq!(app.state().and_then(|state| state.size()), None);
}

#[test]
fn dispatch_agrees_with_the_single_handlers() {
    let window = WindowHandle::new(6);
    let mut by_dispatch = App::new(Some(PendingInitToken::new(2)));
    let mut by_handler = App::new(Some(PendingInitToken::new(2)));

    assert_eq!(by_dispatch.dispatch(Event::Resumed), Ok(by_handler.resumed()));
    assert_eq!(
        by_dispatch.dispatch(Event::WindowCreated(Some(window))),
        by_handler.window_created(Some(window))
    );
    assert_eq!(
        by_dispatch.dispatch(Event::User {
            state: State::new(window).unwrap(),
            window_size: Size::new(7, 9)
        }),
        Ok(by_handler.user_event(State::new(window).unwrap(), Size::new(7, 9)))
    );
    assert_eq!(
        by_dispatch.dispatch(Event::Window(WindowEvent::RedrawRequested)),
        Ok(by_handler.window_event(WindowEvent::RedrawRequested))
    );
    assert_eq!(by_dispatch.lifecycle(), by_handler.lifecycle());
    assert_eq!(by_dispatch.state(), by_handler.state());
    assert_eq!(by_dispatch.lifecycle(), Lifecycle::Ready);
}
