use zbl_py::{CapturableSource, Capture, EngineAnswers, Error, SourceSelector, State};

fn answers(
    window: Option<isize>,
    display: Result<isize, String>,
    build: Result<(), String>,
) -> EngineAnswers {
    EngineAnswers { window, display, build }
}

fn no_display() -> Result<isize, String> {
    Err(String::from("display not found"))
}

#[test]
fn no_selector_fails_whatever_the_engine_answers() {
    let all_good = answers(Some(1), Ok(2), Ok(()));
    assert_eq!(
        Capture::new(None, None, None, false, true, true, all_good),
        Err(Error::NeitherNameNorHandleIsSet)
    );
    let all_bad = answers(None, no_display(), Err(String::from("rejected")));
    assert_eq!(
        Capture::new(None, None, None, true, false, false, all_bad),
        Err(Error::NeitherNameNorHandleIsSet)
    );
}

#[test]
fn no_selector_gives_no_choice() {
    assert_eq!(
        SourceSelector::from_options(None, None, None),
        Err(Error::NeitherNameNorHandleIsSet)
    );
}

#[test]
fn unmatched_name_fails_with_that_name() {
    let engine = answers(None, Ok(2), Ok(()));
    assert_eq!(
        Capture::new(Some("No Such Window"), None, None, false, true, true, engine),
        Err(Error::WindowNotFoundError(String::from("No Such Window")))
    );
}

#[test]
fn unmatched_name_fails_even_if_other_selectors_would_work() {
    let engine = answers(None, Ok(2), Ok(()));
    assert_eq!(
        Capture::new(Some("Ghost"), Some(4242), Some(0), false, true, true, engine),
        Err(Error::WindowNotFoundError(String::from("Ghost")))
    );
}

#[test]
fn unmatched_name_is_reported_before_a_build_failure() {
    let engine = answers(None, no_display(), Err(String::from("rejected")));
    assert_eq!(
        Capture::from_window_name("Ghost", None, false, true, true, engine.build),
        Err(Error::WindowNotFoundError(String::from("Ghost")))
    );
}

#[test]
fn name_wins_over_an_invalid_display_id() {
    let engine = answers(Some(0x1A2B), no_display(), Ok(()));
    let session = Capture::new(Some("Editor"), None, Some(99), false, true, true, engine)
        .expect("the name path succeeds");
    assert_eq!(session.source(), CapturableSource::Window { handle: 0x1A2B });
    assert_eq!(session.handle(), 0x1A2B);
    assert_eq!(session.state(), State::Created);
}

#[test]
fn name_wins_over_a_window_handle() {
    let engine = answers(Some(10), Ok(20), Ok(()));
    let session = Capture::new(Some("Editor"), Some(30), Some(0), false, true, true, engine)
        .expect("the name path succeeds");
    assert_eq!(session.source(), CapturableSource::Window { handle: 10 });
}

#[test]
fn handle_wins_over_a_display_id() {
    let engine = answers(None, no_display(), Ok(()));
    let session = Capture::new(None, Some(30), Some(99), false, true, true, engine)
        .expect("the handle path asks for no lookup");
    assert_eq!(session.source(), CapturableSource::Window { handle: 30 });
}

#[test]
fn handle_is_wrapped_without_a_lookup() {
    let engine = answers(None, no_display(), Ok(()));
    let session = Capture::new(None, Some(-1), None, false, true, true, engine)
        .expect("a raw handle is not validated");
    assert_eq!(session.handle(), -1);
    assert_eq!(
        SourceSelector::from_options(None, Some(i32::MIN), None),
        Ok(SourceSelector::WindowByHandle(-2147483648))
    );
}

#[test]
fn display_is_looked_up_by_id() {
    let engine = answers(Some(1), Ok(65537), Ok(()));
    let session =
        Capture::new(None, None, Some(1), false, true, true, engine).expect("display 1 exists");
    assert_eq!(session.source(), CapturableSource::Display { id: 1, handle: 65537 });
    assert_eq!(session.handle(), 65537);
}

#[test]
fn missing_display_is_a_platform_error() {
    let engine = answers(Some(1), no_display(), Ok(()));
    assert_eq!(
        Capture::new(None, None, Some(7), false, true, true, engine),
        Err(Error::WindowsError(String::from("display not found")))
    );
}

#[test]
fn missing_display_is_reported_before_a_build_failure() {
    assert_eq!(
        Capture::from_display_id(
            7,
            no_display(),
            false,
            true,
            true,
            Err(String::from("rejected"))
        ),
        Err(Error::WindowsError(String::from("display not found")))
    );
}

#[test]
fn negative_display_id_names_no_small_display() {
    assert_eq!(
        SourceSelector::from_options(None, None, Some(-1)),
        Ok(SourceSelector::Display(usize::MAX))
    );
    assert_eq!(
        SourceSelector::from_options(None, None, Some(i32::MAX)),
        Ok(SourceSelector::Display(2147483647))
    );
    assert_eq!(SourceSelector::from_options(None, None, Some(0)), Ok(SourceSelector::Display(0)));
}

#[test]
fn selector_follows_the_priority() {
    assert_eq!(
        SourceSelector::from_options(Some("a"), Some(1), Some(2)),
        Ok(SourceSelector::WindowByName(String::from("a")))
    );
    assert_eq!(
        SourceSelector::from_options(Some(""), None, None),
        Ok(SourceSelector::WindowByName(String::new()))
    );
    assert_eq!(
        SourceSelector::from_options(None, Some(1), Some(2)),
        Ok(SourceSelector::WindowByHandle(1))
    );
    assert_eq!(
        SourceSelector::from_options(None, None, Some(2)),
        Ok(SourceSelector::Display(2))
    );
}

#[test]
fn selector_resolves_by_its_own_answer_only() {
    let by_name = SourceSelector::WindowByName(String::from("a"));
    assert_eq!(by_name.resolve(Some(5), no_display()), Ok(CapturableSource::Window { handle: 5 }));
    let by_name = SourceSelector::WindowByName(String::from("a"));
    assert_eq!(by_name.resolve(None, Ok(9)), Err(Error::WindowNotFoundError(String::from("a"))));
    let by_handle = SourceSelector::WindowByHandle(6);
    assert_eq!(by_handle.resolve(None, no_display()), Ok(CapturableSource::Window { handle: 6 }));
    let by_display = SourceSelector::Display(3);
    assert_eq!(
        by_display.resolve(None, Ok(9)),
        Ok(CapturableSource::Display { id: 3, handle: 9 })
    );
    let by_display = SourceSelector::Display(3);
    assert_eq!(
        by_display.resolve(Some(5), Err(String::from("no such monitor"))),
        Err(Error::WindowsError(String::from("no such monitor")))
    );
}

#[test]
fn rejected_build_is_a_platform_error() {
    let engine = answers(Some(5), Ok(9), Err(String::from("unsupported source")));
    assert_eq!(
        Capture::new(Some("Editor"), None, None, false, true, true, engine),
        Err(Error::WindowsError(String::from("unsupported source")))
    );
    assert_eq!(
        Capture::from_capturable(
            CapturableSource::Window { handle: 5 },
            false,
            true,
            true,
            Err(String::from("insufficient permissions"))
        ),
        Err(Error::WindowsError(String::from("insufficient permissions")))
    );
}

#[test]
fn built_session_keeps_source_and_options() {
    let session = Capture::from_capturable(
        CapturableSource::Display { id: 2, handle: 77 },
        true,
        false,
        false,
        Ok(()),
    )
    .expect("the engine granted the stream");
    assert_eq!(session.source(), CapturableSource::Display { id: 2, handle: 77 });
    assert!(session.options().cursor_capture);
    assert!(!session.options().border_required);
    assert!(!session.options().cpu_access);
    assert!(!session.has_cpu_access());
    assert_eq!(session.state(), State::Created);
    assert_eq!(session.epoch(), 0);
    assert!(!session.is_started());
}

#[test]
fn all_constructors_agree() {
    let by_new = Capture::new(
        Some("Editor"),
        None,
        None,
        false,
        true,
        true,
        answers(Some(5), no_display(), Ok(())),
    );
    let by_name = Capture::from_window_name("Editor", Some(5), false, true, true, Ok(()));
    let by_source = Capture::from_capturable(
        CapturableSource::Window { handle: 5 },
        false,
        true,
        true,
        Ok(()),
    );
    assert_eq!(by_new, by_name);
    assert_eq!(by_name, by_source);

    let by_new =
        Capture::new(None, None, Some(3), true, true, false, answers(None, Ok(8), Ok(())));
    let by_id = Capture::from_display_id(3, Ok(8), true, true, false, Ok(()));
    assert_eq!(by_new, by_id);
}

#[test]
fn open_resolves_the_selector_it_is_given() {
    let by_name = Capture::open(
        SourceSelector::WindowByName(String::from("Editor")),
        false,
        true,
        true,
        answers(Some(5), no_display(), Ok(())),
    )
    .expect("found and built");
    assert_eq!(by_name.source(), CapturableSource::Window { handle: 5 });

    assert_eq!(
        Capture::open(
            SourceSelector::WindowByName(String::from("Editor")),
            false,
            true,
            true,
            answers(None, Ok(9), Ok(())),
        ),
        Err(Error::WindowNotFoundError(String::from("Editor")))
    );

    let by_handle = Capture::open(
        SourceSelector::WindowByHandle(-7),
        false,
        true,
        true,
        answers(None, no_display(), Ok(())),
    )
    .expect("built");
    assert_eq!(by_handle.source(), CapturableSource::Window { handle: -7 });

    let by_display = Capture::open(
        SourceSelector::Display(2),
        false,
        true,
        false,
        answers(Some(5), Ok(9), Ok(())),
    )
    .expect("found and built");
    assert_eq!(by_display.source(), CapturableSource::Display { id: 2, handle: 9 });

    assert_eq!(
        Capture::open(
            SourceSelector::Display(2),
            false,
            true,
            false,
            answers(Some(5), Ok(9), Err(String::from("rejected"))),
        ),
        Err(Error::WindowsError(String::from("rejected")))
    );
}

#[test]
fn source_kinds_and_handles() {
    let window = CapturableSource::Window { handle: 12 };
    let display = CapturableSource::Display { id: 0, handle: 34 };
    assert!(window.is_window());
    assert!(!display.is_window());
    assert_eq!(window.get_raw_handle(), 12);
    assert_eq!(display.get_raw_handle(), 34);
}

#[test]
fn process_id_is_for_windows_only() {
    let window = Capture::from_capturable(
        CapturableSource::Window { handle: 12 },
        false,
        true,
        true,
        Ok(()),
    )
    .expect("built");
    let display = Capture::from_capturable(
        CapturableSource::Display { id: 0, handle: 34 },
        false,
        true,
        true,
        Ok(()),
    )
    .expect("built");
    assert_eq!(window.process_id(4321), Some(4321));
    assert_eq!(display.process_id(4321), None);
}
