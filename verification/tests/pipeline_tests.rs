use svg_frame::error::Failure;
use svg_frame::loader::{accept, Document, Fetched};
use svg_frame::measure::Measure;
use svg_frame::pipeline::{Action, Pipeline};
use svg_frame::presenter::{
    antialiasing, background, failure_of, plan_frame, Antialiasing, FrameResult, Rgba,
};
use svg_frame::render_state::{InitAction, Phase};
use svg_frame::requests::Ticket;
use svg_frame::transform::{Ratio, Size};
use vello_svg::usvg::{Options, Tree};

const SURFACE: Size = Size { width: 400, height: 400 };

const LANDSCAPE: &str = "<svg xmlns=\"http://www.w3.org/2000/svg\" width=\"200\" height=\"100\">\
    <rect width=\"200\" height=\"100\" fill=\"red\"/></svg>";

const PORTRAIT: &str = "<svg xmlns=\"http://www.w3.org/2000/svg\" width=\"100\" height=\"200\">\
    <circle cx=\"50\" cy=\"100\" r=\"40\" fill=\"blue\"/></svg>";

fn parse(text: &str) -> Result<Document, Failure> {
    Document::from_parsed(Tree::from_str(text, &Options::default()))
}

fn settle(pipeline: &mut Pipeline<u32>, ticket: Ticket, fetched: Fetched) -> Action {
    let loaded = accept(fetched).and_then(|text| parse(&text));
    pipeline.settle_loaded(ticket, loaded)
}

fn ok(body: &str) -> Fetched {
    Fetched::Response { status: 200, body: body.to_string() }
}

fn ready() -> Pipeline<u32> {
    let mut pipeline = Pipeline::new(SURFACE);
    assert_eq!(pipeline.ensure_initialized(), InitAction::Create(SURFACE));
    assert_eq!(pipeline.commit(7, SURFACE), None);
    pipeline
}

fn whole(n: u64) -> Ratio {
    Ratio { num: n, den: 1 }
}

#[test]
fn fresh_pipeline_has_nothing() {
    let pipeline: Pipeline<u32> = Pipeline::new(SURFACE);
    assert_eq!(pipeline.phase(), Phase::Uninitialized);
    assert_eq!(pipeline.surface(), None);
    assert_eq!(pipeline.shown(), None);
    assert_eq!(pipeline.frame_handles(), None);
}

#[test]
fn concurrent_requests_create_one_state() {
    let mut pipeline: Pipeline<u32> = Pipeline::new(SURFACE);
    let answers: Vec<InitAction> = (0..4).map(|_| pipeline.ensure_initialized()).collect();
    assert_eq!(
        answers,
        vec![InitAction::Create(SURFACE), InitAction::Wait, InitAction::Wait, InitAction::Wait]
    );
    assert_eq!(pipeline.commit(1, SURFACE), None);
    assert_eq!(pipeline.commit(2, SURFACE), Some(2));
    assert_eq!(pipeline.ensure_initialized(), InitAction::Proceed);
    assert_eq!(pipeline.phase(), Phase::Ready);
    assert_eq!(pipeline.surface(), Some(SURFACE));
}

#[test]
fn failed_creation_is_a_device_init_error() {
    let mut pipeline: Pipeline<u32> = Pipeline::new(SURFACE);
    assert_eq!(pipeline.abandon(), None);
    pipeline.ensure_initialized();
    assert_eq!(pipeline.abandon(), Some(Failure::DeviceInitError));
    assert_eq!(pipeline.phase(), Phase::Uninitialized);
    assert_eq!(pipeline.ensure_initialized(), InitAction::Create(SURFACE));
}

#[test]
fn loaded_document_is_drawn_fitted_and_centered() {
    let mut pipeline = ready();
    let ticket = pipeline.trigger().unwrap();
    assert_eq!(ticket, Ticket { seq: 1 });
    match settle(&mut pipeline, ticket, ok(LANDSCAPE)) {
        Action::Draw(plan, _) => {
            assert!(plan.transform.scale.same_value(&whole(2)));
            assert!(plan.transform.dx.same_value(&whole(0)));
            assert!(plan.transform.dy.same_value(&whole(100)));
            assert_eq!(plan.target, SURFACE);
            assert_eq!(plan.background, Rgba { r: 255, g: 255, b: 255, a: 255 });
            assert_eq!(plan.antialiasing, Antialiasing::Area);
        }
        _ => panic!("the latest request was not drawn"),
    }
    assert_eq!(pipeline.phase(), Phase::Rendering);
    assert_eq!(pipeline.frame_handles(), Some(&7));
    assert_eq!(pipeline.shown(), None);
    assert_eq!(pipeline.frame_done(FrameResult::Presented), None);
    assert_eq!(pipeline.phase(), Phase::Ready);
    assert_eq!(pipeline.shown(), Some(ticket));
    assert_eq!(pipeline.frame_handles(), None);
}

#[test]
fn portrait_document_is_moved_sideways() {
    let mut pipeline = ready();
    let ticket = pipeline.trigger().unwrap();
    match settle(&mut pipeline, ticket, ok(PORTRAIT)) {
        Action::Draw(plan, _) => {
            assert!(plan.transform.scale.same_value(&whole(2)));
            assert!(plan.transform.dx.same_value(&whole(100)));
            assert!(plan.transform.dy.same_value(&whole(0)));
        }
        _ => panic!("the latest request was not drawn"),
    }
}

#[test]
fn transform_follows_the_committed_surface() {
    let mut pipeline: Pipeline<u32> = Pipeline::new(SURFACE);
    pipeline.ensure_initialized();
    let made = Size { width: 800, height: 800 };
    pipeline.commit(1, made);
    let ticket = pipeline.trigger().unwrap();
    match settle(&mut pipeline, ticket, ok(LANDSCAPE)) {
        Action::Draw(plan, _) => {
            assert!(plan.transform.scale.same_value(&whole(4)));
            assert!(plan.transform.dy.same_value(&whole(200)));
            assert_eq!(plan.target, made);
        }
        _ => panic!("the latest request was not drawn"),
    }
}

#[test]
fn slow_older_request_never_overwrites_newer_one() {
    let mut pipeline = ready();
    let a = pipeline.trigger().unwrap();
    let b = pipeline.trigger().unwrap();
    assert!(matches!(settle(&mut pipeline, b, ok(PORTRAIT)), Action::Draw(..)));
    assert_eq!(pipeline.frame_done(FrameResult::Presented), None);
    assert_eq!(pipeline.shown(), Some(b));
    assert!(matches!(settle(&mut pipeline, a, ok(LANDSCAPE)), Action::Discard));
    assert_eq!(pipeline.phase(), Phase::Ready);
    assert_eq!(pipeline.shown(), Some(b));
    assert_eq!(pipeline.frame_done(FrameResult::Presented), None);
    assert_eq!(pipeline.shown(), Some(b));
}

#[test]
fn older_request_is_discarded_even_when_it_resolves_first() {
    let mut pipeline = ready();
    let a = pipeline.trigger().unwrap();
    let b = pipeline.trigger().unwrap();
    assert!(matches!(settle(&mut pipeline, a, ok(LANDSCAPE)), Action::Discard));
    assert_eq!(pipeline.shown(), None);
    assert!(matches!(settle(&mut pipeline, b, ok(PORTRAIT)), Action::Draw(..)));
    pipeline.frame_done(FrameResult::Presented);
    assert_eq!(pipeline.shown(), Some(b));
}

#[test]
fn request_that_resolved_before_the_next_trigger_is_shown_until_replaced() {
    let mut pipeline = ready();
    let a = pipeline.trigger().unwrap();
    assert!(matches!(settle(&mut pipeline, a, ok(LANDSCAPE)), Action::Draw(..)));
    pipeline.frame_done(FrameResult::Presented);
    assert_eq!(pipeline.shown(), Some(a));
    let b = pipeline.trigger().unwrap();
    assert_eq!(pipeline.shown(), Some(a));
    assert!(matches!(settle(&mut pipeline, b, ok(PORTRAIT)), Action::Draw(..)));
    pipeline.frame_done(FrameResult::Presented);
    assert_eq!(pipeline.shown(), Some(b));
}

#[test]
fn parse_failure_is_reported_and_draws_nothing() {
    let mut pipeline = ready();
    let a = pipeline.trigger().unwrap();
    assert!(matches!(settle(&mut pipeline, a, ok(LANDSCAPE)), Action::Draw(..)));
    pipeline.frame_done(FrameResult::Presented);
    let b = pipeline.trigger().unwrap();
    match settle(&mut pipeline, b, ok("<html>not a drawing</html>")) {
        Action::Report(Failure::ParseError(reason)) => assert!(!reason.is_empty()),
        _ => panic!("a malformed document was not reported"),
    }
    assert_eq!(pipeline.phase(), Phase::Ready);
    assert_eq!(pipeline.frame_handles(), None);
    assert_eq!(pipeline.shown(), Some(a));
}

#[test]
fn fetch_failure_is_reported_and_draws_nothing() {
    let mut pipeline = ready();
    let a = pipeline.trigger().unwrap();
    assert!(matches!(
        settle(&mut pipeline, a, Fetched::NoResponse),
        Action::Report(Failure::NetworkError)
    ));
    let not_found = Fetched::Response { status: 404, body: LANDSCAPE.to_string() };
    assert!(matches!(settle(&mut pipeline, a, not_found), Action::Report(Failure::NetworkError)));
    assert_eq!(pipeline.phase(), Phase::Ready);
    assert_eq!(pipeline.frame_handles(), None);
    assert_eq!(pipeline.shown(), None);
}

#[test]
fn failure_of_an_overtaken_request_is_still_reported() {
    let mut pipeline = ready();
    let a = pipeline.trigger().unwrap();
    let _b = pipeline.trigger().unwrap();
    assert!(matches!(
        settle(&mut pipeline, a, Fetched::NoResponse),
        Action::Report(Failure::NetworkError)
    ));
    assert!(matches!(settle(&mut pipeline, a, ok("junk")), Action::Report(Failure::ParseError(_))));
}

#[test]
fn nothing_is_drawn_before_the_state_exists() {
    let mut pipeline: Pipeline<u32> = Pipeline::new(SURFACE);
    let a = pipeline.trigger().unwrap();
    assert!(matches!(settle(&mut pipeline, a, ok(LANDSCAPE)), Action::NotReady(_)));
    pipeline.ensure_initialized();
    assert!(matches!(settle(&mut pipeline, a, ok(LANDSCAPE)), Action::NotReady(_)));
    assert_eq!(pipeline.phase(), Phase::Initializing);
    pipeline.commit(1, SURFACE);
    assert!(matches!(settle(&mut pipeline, a, ok(LANDSCAPE)), Action::Draw(..)));
}

#[test]
fn second_frame_waits_for_the_open_one() {
    let mut pipeline = ready();
    let a = pipeline.trigger().unwrap();
    assert!(matches!(settle(&mut pipeline, a, ok(LANDSCAPE)), Action::Draw(..)));
    assert!(matches!(settle(&mut pipeline, a, ok(LANDSCAPE)), Action::NotReady(_)));
    assert_eq!(pipeline.phase(), Phase::Rendering);
}

#[test]
fn forged_ticket_is_discarded() {
    let mut pipeline = ready();
    assert!(matches!(settle(&mut pipeline, Ticket { seq: 0 }, ok(LANDSCAPE)), Action::Discard));
    pipeline.trigger();
    assert!(matches!(settle(&mut pipeline, Ticket { seq: 2 }, ok(LANDSCAPE)), Action::Discard));
}

#[test]
fn failed_frame_leaves_the_screen_as_it_was() {
    let mut pipeline = ready();
    let a = pipeline.trigger().unwrap();
    assert!(matches!(settle(&mut pipeline, a, ok(LANDSCAPE)), Action::Draw(..)));
    pipeline.frame_done(FrameResult::Presented);
    let b = pipeline.trigger().unwrap();
    assert!(matches!(settle(&mut pipeline, b, ok(PORTRAIT)), Action::Draw(..)));
    assert_eq!(
        pipeline.frame_done(FrameResult::SurfaceUnavailable),
        Some(Failure::SurfaceAcquireError)
    );
    assert_eq!(pipeline.shown(), Some(a));
    assert_eq!(pipeline.phase(), Phase::Ready);
    assert!(matches!(settle(&mut pipeline, b, ok(PORTRAIT)), Action::Draw(..)));
    assert_eq!(pipeline.frame_done(FrameResult::Rejected), Some(Failure::RenderError));
    assert_eq!(pipeline.shown(), Some(a));
    assert_eq!(pipeline.frame_done(FrameResult::Rejected), None);
}

#[test]
fn settle_loaded_takes_what_loading_gave() {
    let mut pipeline = ready();
    let a = pipeline.trigger().unwrap();
    let failed = Err(Failure::ParseError("no".to_string()));
    match pipeline.settle_loaded(a, failed) {
        Action::Report(failure) => assert_eq!(failure, Failure::ParseError("no".to_string())),
        _ => panic!("a failure was not reported"),
    }
    let document = parse(LANDSCAPE);
    assert!(matches!(pipeline.settle_loaded(a, document), Action::Draw(..)));
}

#[test]
fn frame_plan_holds_the_fixed_pass_parameters() {
    let document = parse(PORTRAIT).unwrap();
    let plan = plan_frame(&document, Size { width: 400, height: 400 });
    assert_eq!(plan.background, background());
    assert_eq!(plan.antialiasing, antialiasing());
    assert_eq!(background(), Rgba { r: 255, g: 255, b: 255, a: 255 });
    assert_eq!(antialiasing(), Antialiasing::Area);
    assert!(plan.transform.dx.same_value(&whole(100)));
    assert_eq!(plan.target, Size { width: 400, height: 400 });
}

#[test]
fn frame_results_map_to_their_failures() {
    assert_eq!(failure_of(FrameResult::Presented), None);
    assert_eq!(failure_of(FrameResult::SurfaceUnavailable), Some(Failure::SurfaceAcquireError));
    assert_eq!(failure_of(FrameResult::Rejected), Some(Failure::RenderError));
}

#[test]
fn screen_never_goes_back_to_an_older_request() {
    let mut pipeline = ready();
    let mut newest_shown = 0;
    let documents = [LANDSCAPE, PORTRAIT, "junk", LANDSCAPE, PORTRAIT];
    let mut tickets = Vec::new();
    for _ in 0..documents.len() {
        tickets.push(pipeline.trigger().unwrap());
    }
    for round in [4usize, 0, 3, 2, 1, 4] {
        if let Action::Draw(..) = settle(&mut pipeline, tickets[round], ok(documents[round])) {
            pipeline.frame_done(FrameResult::Presented);
        }
        if let Some(shown) = pipeline.shown() {
            assert!(shown.seq >= newest_shown);
            newest_shown = shown.seq;
        }
    }
    assert_eq!(pipeline.shown(), Some(tickets[4]));
}

#[test]
fn drawn_document_comes_back_with_its_plan() {
    let mut pipeline = ready();
    let ticket = pipeline.trigger().unwrap();
    match settle(&mut pipeline, ticket, ok(PORTRAIT)) {
        Action::Draw(plan, document) => {
            let expected =
                Measure { size: Size { width: 100 << 24, height: 200 << 24 }, places: 24 };
            assert_eq!(document.measure(), expected);
            assert_eq!(document.tree().size().height(), 200.0);
            assert_eq!(plan, plan_frame(&document, SURFACE));
        }
        _ => panic!("the latest request was not drawn"),
    }
}

#[test]
fn document_that_cannot_be_drawn_yet_can_be_handed_in_again() {
    let mut pipeline: Pipeline<u32> = Pipeline::new(SURFACE);
    let ticket = pipeline.trigger().unwrap();
    let document = match settle(&mut pipeline, ticket, ok(LANDSCAPE)) {
        Action::NotReady(document) => document,
        _ => panic!("a frame was planned without a rendering state"),
    };
    assert_eq!(document.tree().size().width(), 200.0);
    pipeline.ensure_initialized();
    pipeline.commit(1, SURFACE);
    match pipeline.settle_loaded(ticket, Ok(document)) {
        Action::Draw(plan, _) => assert!(plan.transform.dy.same_value(&whole(100))),
        _ => panic!("the document was not drawn once the state was ready"),
    }
}

#[test]
fn fractional_document_is_placed_by_its_own_size() {
    let mut pipeline = ready();
    let ticket = pipeline.trigger().unwrap();
    let text = "<svg xmlns=\"http://www.w3.org/2000/svg\" width=\"100.4\" height=\"50\"/>";
    match settle(&mut pipeline, ticket, ok(text)) {
        Action::Draw(plan, _) => {
            let scale = plan.transform.scale.num as f64 / plan.transform.scale.den as f64;
            let width = 100.4f32 as f64;
            assert_eq!(scale, 400.0 / width);
            assert!(scale < 4.0);
            let dy = plan.transform.dy.num as f64 / plan.transform.dy.den as f64;
            assert_eq!(dy, (400.0 - 50.0 * 400.0 / width) / 2.0);
            assert!(plan.transform.dx.same_value(&whole(0)));
        }
        _ => panic!("the latest request was not drawn"),
    }
}

#[test]
fn tiny_document_is_magnified_to_the_surface() {
    let mut pipeline = ready();
    let ticket = pipeline.trigger().unwrap();
    let text = "<svg xmlns=\"http://www.w3.org/2000/svg\" width=\"0.3\" height=\"0.3\"/>";
    match settle(&mut pipeline, ticket, ok(text)) {
        Action::Draw(plan, _) => {
            let scale = plan.transform.scale.num as f64 / plan.transform.scale.den as f64;
            assert_eq!(scale, 400.0 / (0.3f32 as f64));
            assert!(1333.0 < scale && scale < 1334.0);
        }
        _ => panic!("the latest request was not drawn"),
    }
}
