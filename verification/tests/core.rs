use ocr_annotator::controller::App;
use ocr_annotator::controller::DecodedImage;
use ocr_annotator::ocr::CONFIDENCE_THRESHOLD_HUNDREDTHS;
use ocr_annotator::ocr::Language;
use ocr_annotator::ocr::OcrOutcome;
use ocr_annotator::ocr::SubmissionState;
use ocr_annotator::ocr::TIMEOUT_SECS;
use ocr_annotator::pixels::annotate;

const MARKER: [u8; 4] = [255, 0, 0, 255];

fn buf(width: usize, height: usize, fill: u8) -> Vec<u8> {
    let mut v = Vec::new();
    for _ in 0..width * height * 4 {
        v.push(fill);
    }
    v
}

fn pixel(v: &[u8], width: usize, x: usize, y: usize) -> [u8; 4] {
    let i = 4 * (y * width + x);
    [v[i], v[i + 1], v[i + 2], v[i + 3]]
}

#[test]
fn annotate_covers_small_image_entirely() {
    let mut v = buf(2, 2, 7);
    annotate(&mut v, 2, 2);
    for y in 0..2 {
        for x in 0..2 {
            assert_eq!(pixel(&v, 2, x, y), MARKER);
        }
    }
}

#[test]
fn annotate_ten_by_ten_becomes_all_marker() {
    let mut v = buf(10, 10, 31);
    annotate(&mut v, 10, 10);
    for y in 0..10 {
        for x in 0..10 {
            assert_eq!(pixel(&v, 10, x, y), MARKER);
        }
    }
}

#[test]
fn annotate_marks_exactly_the_top_left_square() {
    let mut v = buf(60, 60, 9);
    let original = v.clone();
    annotate(&mut v, 60, 60);
    for y in 0..60 {
        for x in 0..60 {
            if x < 50 && y < 50 {
                assert_eq!(pixel(&v, 60, x, y), MARKER);
            } else {
                assert_eq!(pixel(&v, 60, x, y), pixel(&original, 60, x, y));
            }
        }
    }
}

#[test]
fn annotate_clips_to_short_images() {
    let mut v = buf(60, 3, 5);
    let original = v.clone();
    annotate(&mut v, 60, 3);
    for y in 0..3 {
        for x in 0..60 {
            if x < 50 {
                assert_eq!(pixel(&v, 60, x, y), MARKER);
            } else {
                assert_eq!(pixel(&v, 60, x, y), pixel(&original, 60, x, y));
            }
        }
    }
}

#[test]
fn annotate_clips_to_narrow_images() {
    let mut v = buf(3, 60, 5);
    let original = v.clone();
    annotate(&mut v, 3, 60);
    for y in 0..60 {
        for x in 0..3 {
            if y < 50 {
                assert_eq!(pixel(&v, 3, x, y), MARKER);
            } else {
                assert_eq!(pixel(&v, 3, x, y), pixel(&original, 3, x, y));
            }
        }
    }
}

#[test]
fn annotate_twice_equals_annotate_once() {
    let mut once = buf(60, 60, 100);
    annotate(&mut once, 60, 60);
    let mut twice = once.clone();
    annotate(&mut twice, 60, 60);
    assert_eq!(once, twice);
}

#[test]
fn annotate_accepts_empty_image() {
    let mut v: Vec<u8> = Vec::new();
    annotate(&mut v, 0, 0);
    assert!(v.is_empty());
}

fn decoded(width: usize, height: usize, fill: u8) -> DecodedImage {
    DecodedImage { pixels: buf(width, height, fill), width, height }
}

#[test]
fn open_success_replaces_path_and_texture_together() {
    let mut app = App::new();
    let out = app.handle_open(Some(String::from("a.png")), Some(decoded(2, 2, 7)));
    let out = out.expect("successful open returns a buffer to upload");
    assert_eq!(out.width, 2);
    assert_eq!(out.height, 2);
    assert_eq!(pixel(&out.pixels, 2, 1, 1), MARKER);
    assert_eq!(app.selected_path().as_deref(), Some("a.png"));
    let first = app.texture_ref().expect("texture installed");

    let out2 = app.handle_open(Some(String::from("b.png")), Some(decoded(10, 10, 1)));
    assert!(out2.is_some());
    assert_eq!(app.selected_path().as_deref(), Some("b.png"));
    let second = app.texture_ref().expect("texture installed");
    assert_ne!(first, second);
}

#[test]
fn open_of_undecodable_file_changes_nothing() {
    let mut app = App::new();
    app.handle_open(Some(String::from("a.png")), Some(decoded(2, 2, 7)));
    let path_before = app.selected_path().clone();
    let texture_before = app.texture_ref();

    let out = app.handle_open(Some(String::from("broken.png")), None);
    assert!(out.is_none());
    assert_eq!(app.selected_path(), &path_before);
    assert_eq!(app.texture_ref(), texture_before);
}

#[test]
fn open_of_undecodable_file_on_fresh_state_changes_nothing() {
    let mut app = App::new();
    let out = app.handle_open(Some(String::from("empty.png")), None);
    assert!(out.is_none());
    assert_eq!(app.selected_path(), &None);
    assert_eq!(app.texture_ref(), None);
}

#[test]
fn open_cancelled_changes_nothing() {
    let mut app = App::new();
    let out = app.handle_open(None, None);
    assert!(out.is_none());
    assert_eq!(app.selected_path(), &None);
    assert_eq!(app.texture_ref(), None);
}

#[test]
fn run_ocr_without_path_is_a_no_op() {
    let mut app = App::new();
    let request = app.handle_run_ocr();
    assert!(request.is_none());
    assert_eq!(app.ocr_phase_now(), SubmissionState::Idle);
    assert_eq!(app.poll_ocr(), None);
}

#[test]
fn run_ocr_builds_the_fixed_request() {
    let mut app = App::new();
    app.handle_open(Some(String::from("a.png")), Some(decoded(2, 2, 7)));
    let request = app.handle_run_ocr().expect("a path is selected");
    assert_eq!(request.path, "a.png");
    assert_eq!(request.languages, vec![Language::English]);
    assert_eq!(request.confidence_threshold_hundredths, CONFIDENCE_THRESHOLD_HUNDREDTHS);
    assert_eq!(request.confidence_threshold_hundredths, 80);
    assert_eq!(request.timeout_secs, TIMEOUT_SECS);
    assert_eq!(request.timeout_secs, 30);
    assert_eq!(app.ocr_phase_now(), SubmissionState::Requested);
}

#[test]
fn successful_recognition_fills_the_slot_exactly() {
    let mut app = App::new();
    app.handle_open(Some(String::from("a.png")), Some(decoded(2, 2, 7)));
    app.handle_run_ocr();
    app.ocr_finished(Ok((String::from("A"), String::from("B"), Some(4250))));
    assert_eq!(app.ocr_phase_now(), SubmissionState::Completed);
    let held = app.poll_ocr().expect("the mailbox holds the outcome");
    assert_eq!(
        held,
        OcrOutcome::Success(String::from("A"), String::from("B"), Some(4250))
    );
}

#[test]
fn timed_out_recognition_fills_the_slot_with_a_failure() {
    let mut app = App::new();
    app.handle_open(Some(String::from("a.png")), Some(decoded(2, 2, 7)));
    app.handle_run_ocr();
    app.ocr_finished(Err(String::from("recognition timed out after 30s")));
    assert_eq!(app.ocr_phase_now(), SubmissionState::Failed);
    match app.poll_ocr() {
        Some(OcrOutcome::Failure(description)) => {
            assert_eq!(description, "recognition timed out after 30s");
        }
        other => panic!("expected a failure outcome, got {:?}", other),
    }
}

#[test]
fn engine_unavailable_leaves_no_pending_result() {
    let mut app = App::new();
    app.handle_open(Some(String::from("a.png")), Some(decoded(2, 2, 7)));
    app.handle_run_ocr();
    app.ocr_engine_unavailable();
    assert_eq!(app.ocr_phase_now(), SubmissionState::Failed);
    assert_eq!(app.poll_ocr(), None);
}

#[test]
fn mailbox_keeps_the_last_written_outcome() {
    let mut app = App::new();
    app.handle_open(Some(String::from("a.png")), Some(decoded(2, 2, 7)));
    app.handle_run_ocr();
    app.ocr_finished(Ok((String::from("first"), String::new(), None)));
    app.ocr_finished(Err(String::from("second")));
    assert_eq!(app.poll_ocr(), Some(OcrOutcome::Failure(String::from("second"))));
}

#[test]
fn poll_empties_the_mailbox() {
    let mut app = App::new();
    app.handle_open(Some(String::from("a.png")), Some(decoded(2, 2, 7)));
    app.handle_run_ocr();
    app.ocr_finished(Ok((String::new(), String::new(), None)));
    assert!(app.poll_ocr().is_some());
    assert_eq!(app.poll_ocr(), None);
}

#[test]
fn render_info_is_present_exactly_with_a_texture() {
    let mut app = App::new();
    assert!(app.render_info().is_none());
    app.handle_open(Some(String::from("a.png")), Some(decoded(2, 2, 7)));
    let (texture, label) = app.render_info().expect("a texture is installed");
    assert_eq!(Some(texture), app.texture_ref());
    assert_eq!(label, "a.png");
}
