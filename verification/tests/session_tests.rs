use fullpage_capture::codec::{decode, encode};
use fullpage_capture::compose::combine_screenshots;
use fullpage_capture::density::DensityScale;
use fullpage_capture::dom::{hide_elements, show_elements};
use fullpage_capture::error::{CaptureError, CaptureFailure};
use fullpage_capture::metrics::{get_page_metrics, CropDirective, PageMetrics};
use fullpage_capture::raster::Raster;
use fullpage_capture::session::{capture_full_page, Action, CaptureSession, Event, Phase};
use fullpage_capture::wait::{wait_for_elements_hidden, PollEvent, PollTiming, WaitAction};

/// A page of `total` logical rows, one pixel wide at density one times
/// `density`; row `y` of the page holds the colour `y` in its red channel.
struct Remote {
    total: u32,
    viewport: u32,
    band: u32,
    density: u32,
    offset: u32,
    clamps: bool,
    scrolls: Vec<u32>,
    snapshots: u32,
    hides: u32,
    shows: u32,
}

impl Remote {
    fn new(total: u32, viewport: u32, band: u32, density: u32) -> Remote {
        Remote {
            total,
            viewport,
            band,
            density,
            offset: 0,
            clamps: true,
            scrolls: vec![],
            snapshots: 0,
            hides: 0,
            shows: 0,
        }
    }

    fn snapshot(&mut self) -> Vec<u8> {
        self.snapshots += 1;
        let mut pixels = Vec::new();
        for row in 0..self.viewport * self.density {
            let page_row = self.offset + row / self.density;
            pixels.extend_from_slice(&[page_row as u8, 0, 0, 255]);
        }
        for _ in 0..self.band * self.density {
            pixels.extend_from_slice(&[0, 255, 0, 255]);
        }
        let height = (self.viewport + self.band) * self.density;
        encode(&Raster::new(1, height, pixels).unwrap()).unwrap()
    }

    fn scroll(&mut self, amount: u32) -> u32 {
        self.scrolls.push(amount);
        let wanted = self.offset + amount;
        let most = self.total.saturating_sub(self.viewport);
        self.offset = if self.clamps && wanted > most { most } else { wanted };
        self.offset
    }
}

fn run(remote: &mut Remote) -> (CaptureSession, Action) {
    let density = DensityScale::new(remote.density, 1).unwrap();
    let mut session = CaptureSession::new(density);
    let mut event = Event::Start;
    for _ in 0..1000 {
        let (next, action) = capture_full_page(session, event);
        session = next;
        event = match action {
            Action::Measure => Event::Measured(Some((
                Some(remote.total as i64),
                Some(remote.viewport as i64),
            ))),
            Action::Capture => Event::Snapshot(Some(remote.snapshot())),
            Action::Scroll { amount } => Event::Scrolled(Some(remote.scroll(amount))),
            Action::Hide => {
                remote.hides += 1;
                Event::Hidden(true)
            }
            Action::Show => {
                remote.shows += 1;
                Event::Restored(true)
            }
            Action::Finished | Action::Failed(_) | Action::Rejected => return (session, action),
        };
    }
    panic!("the session did not end");
}

fn red_rows(file: &[u8]) -> Vec<u8> {
    let raster = decode(file).unwrap();
    raster.pixels().chunks(4).map(|pixel| pixel[0]).collect()
}

#[test]
fn a_page_of_one_viewport_is_one_step() {
    for total in 1..=8u32 {
        let metrics = get_page_metrics(Some(total as i64), Some(8)).unwrap();
        assert_eq!(metrics.step_count(), 1);
        let mut remote = Remote::new(total, 8, 2, 2);
        let (session, action) = run(&mut remote);
        assert_eq!(action, Action::Finished);
        assert_eq!(remote.snapshots, 1);
        assert_eq!(session.fragments().len(), 1);
        assert_eq!(remote.scrolls, vec![total]);
        assert_eq!(remote.hides, 1);
        assert_eq!(remote.shows, 1);
    }
}

#[test]
fn a_first_scroll_that_moves_nothing_ends_the_loop_after_hiding() {
    let mut remote = Remote::new(40, 8, 2, 1);
    let session = measured(40, 8, DensityScale::identity());
    let (session, action) = capture_full_page(session, Event::Snapshot(Some(remote.snapshot())));
    assert_eq!(action, Action::Scroll { amount: 8 });
    let (session, action) = capture_full_page(session, Event::Scrolled(Some(0)));
    assert_eq!(action, Action::Hide);
    let (session, action) = capture_full_page(session, Event::Hidden(true));
    assert_eq!(action, Action::Show);
    let (session, action) = capture_full_page(session, Event::Restored(true));
    assert_eq!(action, Action::Finished);
    assert_eq!(session.fragments().len(), 1);
}

#[test]
fn a_page_of_whole_viewports_has_no_overlap() {
    for count in 1..=20u32 {
        for viewport in [1u32, 7, 800, 4_000_000] {
            let metrics =
                get_page_metrics(Some((count * viewport) as i64), Some(viewport as i64)).unwrap();
            assert_eq!(metrics.step_count(), count);
            assert_eq!(metrics.final_overlap(), 0);
            assert_eq!(
                metrics.crop_directive(count),
                CropDirective { overlap: Some(0), keep: viewport }
            );
        }
    }
}

#[test]
fn scenario_of_two_and_a_half_viewports() {
    let metrics = get_page_metrics(Some(2000), Some(800)).unwrap();
    assert_eq!(metrics.step_count(), 3);
    assert_eq!(metrics.final_overlap(), 800 * 3 - 2000);
    assert_eq!(metrics.scroll_amount(0), 800);
    assert_eq!(metrics.scroll_amount(800), 800);
    assert_eq!(metrics.scroll_amount(1600), 400);
    assert_eq!(metrics.crop_directive(1), CropDirective { overlap: None, keep: 800 });
    assert_eq!(metrics.crop_directive(2), CropDirective { overlap: None, keep: 800 });
    assert_eq!(metrics.crop_directive(3), CropDirective { overlap: Some(400), keep: 400 });
    let twice = DensityScale::new(2, 1).unwrap();
    assert_eq!(twice.to_physical(400), 800);
}

#[test]
fn scenario_scroll_amounts_on_a_surface_that_scrolls_as_asked() {
    let mut remote = Remote::new(2000, 800, 60, 2);
    remote.clamps = false;
    let (session, action) = run(&mut remote);
    assert_eq!(action, Action::Finished);
    assert_eq!(session.step_count(), Some(3));
    assert_eq!(remote.scrolls, vec![800, 800, 400]);
    assert_eq!(remote.snapshots, 3);
    assert_eq!(remote.hides, 1);
    assert_eq!(remote.shows, 1);
    let fragments = session.into_fragments();
    assert_eq!(fragments.len(), 3);
    assert_eq!(decode(&fragments[0]).unwrap().height(), 1600);
    assert_eq!(decode(&fragments[1]).unwrap().height(), 1600);
    // 800 physical rows leave the top of the last snapshot, then the band leaves its bottom
    assert_eq!(decode(&fragments[2]).unwrap().height(), 800);
    let expected: Vec<u8> = (800..1600u32).map(|row| (1600 + row / 2) as u8).collect();
    assert_eq!(red_rows(&fragments[2]), expected);
}

#[test]
fn scenario_on_a_surface_that_stops_at_the_end_of_the_page() {
    let mut remote = Remote::new(2000, 800, 60, 2);
    let (session, action) = run(&mut remote);
    assert_eq!(action, Action::Finished);
    assert_eq!(remote.scrolls, vec![800, 800, 800]);
    assert_eq!(session.offset(), 1200);
    let composite = decode(&combine_screenshots(session.into_fragments()).unwrap()).unwrap();
    assert_eq!(composite.height(), 4000);
    let rows: Vec<u8> = composite.pixels().chunks(4).map(|pixel| pixel[0]).collect();
    for (row, red) in rows.iter().enumerate() {
        assert_eq!(*red, (row / 2) as u8);
    }
}

#[test]
fn the_fragments_cover_the_page_once() {
    let mut remote = Remote::new(20, 8, 3, 2);
    let (session, action) = run(&mut remote);
    assert_eq!(action, Action::Finished);
    assert_eq!(session.phase(), Phase::Done);
    assert_eq!(session.failure(), None);
    assert!(session.hide_confirmed());
    assert_eq!(remote.scrolls, vec![8, 8, 8]);
    assert_eq!(remote.hides, 1);
    assert_eq!(remote.shows, 1);
    let fragments = session.into_fragments();
    assert_eq!(fragments.len(), 3);
    // the last fragment loses the 4 logical rows, 8 physical ones, that the second showed
    assert_eq!(decode(&fragments[2]).unwrap().height(), 8);
    let composite = combine_screenshots(fragments).unwrap();
    let mut expected = Vec::new();
    for row in 0..20u8 {
        expected.push(row);
        expected.push(row);
    }
    assert_eq!(red_rows(&composite), expected);
}

#[test]
fn scenario_a_scroll_that_moves_nothing_ends_the_loop() {
    let density = DensityScale::identity();
    let mut remote = Remote::new(40, 8, 2, 1);
    let session = CaptureSession::new(density);
    let (session, _) = capture_full_page(session, Event::Start);
    let (session, action) =
        capture_full_page(session, Event::Measured(Some((Some(40), Some(8)))));
    assert_eq!(action, Action::Capture);
    assert_eq!(session.step_count(), Some(5));
    let (session, action) = capture_full_page(session, Event::Snapshot(Some(remote.snapshot())));
    assert_eq!(action, Action::Scroll { amount: 8 });
    let (session, action) = capture_full_page(session, Event::Scrolled(Some(8)));
    assert_eq!(action, Action::Hide);
    let (session, action) = capture_full_page(session, Event::Hidden(true));
    assert_eq!(action, Action::Capture);
    let (session, action) = capture_full_page(session, Event::Snapshot(Some(remote.snapshot())));
    assert_eq!(action, Action::Scroll { amount: 8 });
    assert_eq!(session.phase(), Phase::Scrolling { index: 2, from: 8 });
    // the position is the same after the scroll: the page is exhausted
    let (session, action) = capture_full_page(session, Event::Scrolled(Some(8)));
    assert_eq!(action, Action::Show);
    assert_eq!(session.phase(), Phase::Restoring);
    let (session, action) = capture_full_page(session, Event::Restored(true));
    assert_eq!(action, Action::Finished);
    assert_eq!(session.failure(), None);
    assert_eq!(session.fragments().len(), 2);
    assert!(session.fragments().len() < 5);
}

#[test]
fn a_page_without_height_fails_after_restoring() {
    for answer in [
        Some((Some(0), Some(800))),
        Some((Some(-5), Some(800))),
        Some((None, Some(800))),
        Some((Some(2000), Some(0))),
        Some((Some(2000), None)),
        Some((Some(5_000_000_000), Some(800))),
        None,
    ] {
        let session = CaptureSession::new(DensityScale::identity());
        let (session, _) = capture_full_page(session, Event::Start);
        let (session, action) = capture_full_page(session, Event::Measured(answer));
        assert_eq!(action, Action::Show);
        assert_eq!(session.failure(), Some(CaptureError::Measurement));
        let (session, action) = capture_full_page(session, Event::Restored(false));
        assert_eq!(action, Action::Failed(CaptureError::Measurement));
        assert_eq!(session.phase(), Phase::Failed(CaptureError::Measurement));
        assert!(session.fragments().is_empty());
    }
}

fn measured(total: i64, viewport: i64, density: DensityScale) -> CaptureSession {
    let session = CaptureSession::new(density);
    let (session, _) = capture_full_page(session, Event::Start);
    let (session, action) =
        capture_full_page(session, Event::Measured(Some((Some(total), Some(viewport)))));
    assert_eq!(action, Action::Capture);
    session
}

#[test]
fn a_failed_snapshot_ends_the_session_after_restoring() {
    let session = measured(40, 8, DensityScale::identity());
    let (session, action) = capture_full_page(session, Event::Snapshot(None));
    assert_eq!(action, Action::Show);
    let (session, action) = capture_full_page(session, Event::Restored(true));
    assert_eq!(action, Action::Failed(CaptureError::Capture));
    assert_eq!(session.phase(), Phase::Failed(CaptureError::Capture));
}

#[test]
fn a_snapshot_that_does_not_decode_ends_the_session() {
    let session = measured(40, 8, DensityScale::identity());
    let (session, action) = capture_full_page(session, Event::Snapshot(Some(b"junk".to_vec())));
    assert_eq!(action, Action::Show);
    assert_eq!(session.failure(), Some(CaptureError::Decode));
    let failure = session.failure_with_reason().unwrap();
    assert_eq!(failure, decode(b"junk").unwrap_err());
    let (session, action) = capture_full_page(session, Event::Restored(true));
    assert_eq!(action, Action::Failed(CaptureError::Decode));
    let ended = session.into_composite().unwrap().unwrap_err();
    assert!(ended.message().starts_with("Failed to load image: "));
}

#[test]
fn a_snapshot_too_low_for_the_crop_ends_the_session() {
    let mut remote = Remote::new(40, 8, 0, 1);
    let session = measured(40, 8, DensityScale::identity());
    let (session, action) = capture_full_page(session, Event::Snapshot(Some(remote.snapshot())));
    assert_eq!(action, Action::Show);
    assert_eq!(session.failure(), Some(CaptureError::CropBounds));
    let (_, action) = capture_full_page(session, Event::Restored(true));
    assert_eq!(action, Action::Failed(CaptureError::CropBounds));
}

#[test]
fn a_scroll_that_never_settles_ends_the_session() {
    let mut remote = Remote::new(40, 8, 2, 1);
    let session = measured(40, 8, DensityScale::identity());
    let (session, _) = capture_full_page(session, Event::Snapshot(Some(remote.snapshot())));
    let (session, action) = capture_full_page(session, Event::Scrolled(None));
    assert_eq!(action, Action::Show);
    let (session, action) = capture_full_page(session, Event::Restored(true));
    assert_eq!(action, Action::Failed(CaptureError::ScrollTimeout));
    assert_eq!(session.fragments().len(), 1);
}

#[test]
fn a_hide_that_is_not_confirmed_does_not_stop_the_capture() {
    let mut remote = Remote::new(40, 8, 2, 1);
    let session = measured(40, 8, DensityScale::identity());
    let (session, _) = capture_full_page(session, Event::Snapshot(Some(remote.snapshot())));
    let (session, action) = capture_full_page(session, Event::Scrolled(Some(8)));
    assert_eq!(action, Action::Hide);
    assert_eq!(session.phase(), Phase::Hiding { from: 0 });
    let (session, action) = capture_full_page(session, Event::Hidden(false));
    assert_eq!(action, Action::Capture);
    assert_eq!(session.phase(), Phase::CaptureStep { index: 2 });
    assert!(!session.hide_confirmed());
    assert_eq!(session.failure(), None);
    assert_eq!(session.offset(), 8);
}

#[test]
fn an_event_out_of_turn_changes_nothing() {
    let session = CaptureSession::new(DensityScale::identity());
    let (session, action) = capture_full_page(session, Event::Snapshot(None));
    assert_eq!(action, Action::Rejected);
    assert_eq!(session.phase(), Phase::Init);
    let (session, action) = capture_full_page(session, Event::Restored(true));
    assert_eq!(action, Action::Rejected);
    let session = {
        let (session, _) = capture_full_page(session, Event::Start);
        session
    };
    let (session, action) = capture_full_page(session, Event::Start);
    assert_eq!(action, Action::Rejected);
    assert_eq!(session.phase(), Phase::Measuring);
    assert_eq!(session.step_count(), None);
}

#[test]
fn page_metrics_are_read_as_measured() {
    let metrics = PageMetrics::new(2000, 800).unwrap();
    assert_eq!(metrics.total_scrollable_height(), 2000);
    assert_eq!(metrics.viewport_height(), 800);
    assert_eq!(PageMetrics::new(0, 800).err(), Some(CaptureError::Measurement));
    assert_eq!(PageMetrics::new(1, 0).err(), Some(CaptureError::Measurement));
    assert_eq!(PageMetrics::new(4_294_967_296, 1).err(), Some(CaptureError::Measurement));
    let widest = PageMetrics::new(4_294_967_295, 1).unwrap();
    assert_eq!(widest.step_count(), 4_294_967_295);
    assert_eq!(widest.final_overlap(), 0);
    let odd = PageMetrics::new(4_294_967_295, 4_294_967_294).unwrap();
    assert_eq!(odd.step_count(), 2);
    assert_eq!(odd.final_overlap(), 4_294_967_293);
    assert_eq!(odd.scroll_amount(4_294_967_295), 0);
    assert_eq!(odd.scroll_amount(4_294_967_294), 1);
}

#[test]
fn step_count_rounds_up() {
    let cases = [(1i64, 800i64, 1u32, 799u32), (800, 800, 1, 0), (801, 800, 2, 799), (2000, 800, 3, 400)];
    for (total, viewport, steps, overlap) in cases {
        let metrics = get_page_metrics(Some(total), Some(viewport)).unwrap();
        assert_eq!(metrics.step_count(), steps);
        assert_eq!(metrics.final_overlap(), overlap);
    }
}

#[test]
fn a_session_hands_over_its_composite() {
    let mut remote = Remote::new(20, 8, 3, 2);
    let (session, _) = run(&mut remote);
    let composite = session.into_composite().unwrap().unwrap();
    let expected: Vec<u8> = (0..40u8).map(|row| row / 2).collect();
    assert_eq!(red_rows(&composite), expected);

    let unfinished = measured(40, 8, DensityScale::identity());
    assert!(unfinished.into_composite().is_none());

    let session = measured(40, 8, DensityScale::identity());
    let (session, _) = capture_full_page(session, Event::Snapshot(None));
    assert!(session.into_composite().is_none());
    let session = measured(40, 8, DensityScale::identity());
    let (session, _) = capture_full_page(session, Event::Snapshot(None));
    let (session, _) = capture_full_page(session, Event::Restored(true));
    assert_eq!(session.failure_with_reason(), Some(CaptureFailure::plain(CaptureError::Capture)));
    assert_eq!(session.into_composite(), Some(Err(CaptureFailure::plain(CaptureError::Capture))));
}

#[test]
fn a_page_of_whole_viewports_takes_every_step() {
    for count in 1..=5u32 {
        let mut remote = Remote::new(count * 8, 8, 2, 1);
        remote.clamps = false;
        let (session, action) = run(&mut remote);
        assert_eq!(action, Action::Finished);
        assert_eq!(session.step_count(), Some(count));
        assert_eq!(remote.snapshots, count);
        assert_eq!(session.fragments().len(), count as usize);
        assert_eq!(remote.hides, 1);
        assert_eq!(remote.shows, 1);
        let composite = decode(&session.into_composite().unwrap().unwrap()).unwrap();
        assert_eq!(composite.height(), count * 8);
    }
}

#[test]
fn scenario_no_selectors_send_no_script() {
    let selectors = "";
    let timing = PollTiming::visibility();
    let mut remote = Remote::new(20, 8, 3, 2);
    let mut session = CaptureSession::new(DensityScale::new(2, 1).unwrap());
    let mut event = Event::Start;
    let mut scripts = 0;
    let mut probes = 0;
    let mut asked = (0, 0);
    let action = loop {
        let (next, action) = capture_full_page(session, event);
        session = next;
        event = match action {
            Action::Measure => Event::Measured(Some((Some(20), Some(8)))),
            Action::Capture => Event::Snapshot(Some(remote.snapshot())),
            Action::Scroll { amount } => Event::Scrolled(Some(remote.scroll(amount))),
            Action::Hide | Action::Show => {
                let script = if action == Action::Hide {
                    asked.0 += 1;
                    hide_elements(selectors)
                } else {
                    asked.1 += 1;
                    show_elements(selectors)
                };
                if script.is_some() {
                    scripts += 1;
                }
                let first = wait_for_elements_hidden(selectors, PollEvent::Tick { elapsed_ms: 0 }, &timing);
                if first != WaitAction::Done {
                    probes += 1;
                }
                if action == Action::Hide {
                    Event::Hidden(first == WaitAction::Done)
                } else {
                    Event::Restored(first == WaitAction::Done)
                }
            }
            other => break other,
        };
    };
    assert_eq!(action, Action::Finished);
    assert_eq!(asked, (1, 1));
    assert_eq!(scripts, 0);
    assert_eq!(probes, 0);
    assert!(session.hide_confirmed());
    assert_eq!(session.fragments().len(), 3);
}
