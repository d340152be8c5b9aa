use uni_ocr_node::{
    decode_buffer, Action, Event, Failure, FailureKind, ImageInput, Recognition, Stage,
};

fn png_bytes() -> Vec<u8> {
    let img = image::DynamicImage::new_rgb8(4, 3);
    let mut buf: Vec<u8> = Vec::new();
    img.write_to(&mut std::io::Cursor::new(&mut buf), image::ImageFormat::Png)
        .expect("encode");
    buf
}

fn failure_of(a: Action) -> Failure {
    match a {
        Action::Report(Err(f)) => f,
        _ => panic!("expected a failure"),
    }
}

#[test]
fn decode_accepts_a_png() {
    let img = decode_buffer(&png_bytes()).expect("decodes");
    assert_eq!(img.width(), 4);
    assert_eq!(img.height(), 3);
}

#[test]
fn decode_rejects_random_bytes() {
    let bytes: Vec<u8> = vec![0x13, 0x37, 0xde, 0xad, 0xbe, 0xef, 0x00, 0x42, 0x99];
    let d = decode_buffer(&bytes).err().expect("fails");
    assert!(!d.is_empty());
    assert!(decode_buffer(&[]).is_err());
}

#[test]
fn random_bytes_fail_with_decode_error() {
    let bytes: Vec<u8> = vec![1, 2, 3, 4, 5, 6, 7, 8];
    let input = ImageInput::ImageBytes(bytes.clone());
    let mut run = Recognition::new(&input);
    let d = decode_buffer(&bytes).err().expect("fails");
    let ev = Event::ImageFailed(d.clone());
    assert!(run.expects(&ev));
    let f = failure_of(run.step(ev));
    assert_eq!(f.kind, FailureKind::ImageDecodeError);
    assert_eq!(f.diagnostic, d);
    assert_eq!(run.stage, Stage::Finished);
    assert!(f.reason().starts_with("Failed to decode image buffer: "));
}

#[test]
fn missing_path_fails_with_open_error() {
    let path = "/nonexistent/dir/picture.png".to_string();
    let d = format!("{:?}", image::open(&path).err().expect("fails"));
    let mut run = Recognition::new(&ImageInput::FilePath(path));
    assert!(run.from_path);
    let f = failure_of(run.step(Event::ImageFailed(d.clone())));
    assert_eq!(f.kind, FailureKind::ImageOpenError);
    assert_eq!(f.reason(), format!("Failed to open image file: {}", d));
}

#[test]
fn successful_run_reports_text() {
    let mut run = Recognition::new(&ImageInput::ImageBytes(png_bytes()));
    assert_eq!(run.stage, Stage::LoadingImage);
    assert!(matches!(run.step(Event::ImageLoaded), Action::CreateEngine));
    assert_eq!(run.stage, Stage::CreatingEngine);
    assert!(matches!(run.step(Event::EngineCreated), Action::RunRecognition));
    assert_eq!(run.stage, Stage::Recognizing);
    match run.step(Event::Recognized("Hello world".to_string(), "0.93".to_string())) {
        Action::Report(Ok(r)) => {
            assert_eq!(r.text, "Hello world");
            assert_eq!(r.confidence, "0.93");
        }
        _ => panic!("expected success"),
    }
    assert_eq!(run.stage, Stage::Finished);
}

#[test]
fn engine_and_recognition_failures() {
    let mut run = Recognition::new(&ImageInput::FilePath("a.png".to_string()));
    run.step(Event::ImageLoaded);
    let f = failure_of(run.step(Event::EngineFailed("no backend".to_string())));
    assert_eq!(f.kind, FailureKind::EngineInitError);
    assert_eq!(f.reason(), "Failed to create OCR engine: no backend");

    let mut run = Recognition::new(&ImageInput::FilePath("a.png".to_string()));
    run.step(Event::ImageLoaded);
    run.step(Event::EngineCreated);
    let f = failure_of(run.step(Event::RecognitionFailed("timed out".to_string())));
    assert_eq!(f.kind, FailureKind::RecognitionError);
    assert_eq!(f.reason(), "Recognition failed: timed out");
}

#[test]
fn expects_only_the_awaited_step() {
    let mut run = Recognition::new(&ImageInput::ImageBytes(vec![]));
    assert!(run.expects(&Event::ImageLoaded));
    assert!(!run.expects(&Event::EngineCreated));
    assert!(!run.expects(&Event::Recognized(String::new(), String::new())));
    run.step(Event::ImageLoaded);
    assert!(!run.expects(&Event::ImageLoaded));
    assert!(run.expects(&Event::EngineFailed(String::new())));
}

#[test]
fn repeated_runs_classify_alike() {
    let bytes: Vec<u8> = vec![9, 9, 9, 9];
    let mut kinds = Vec::new();
    for _ in 0..2 {
        let mut run = Recognition::new(&ImageInput::ImageBytes(bytes.clone()));
        let ev = match decode_buffer(&bytes) {
            Ok(_) => Event::ImageLoaded,
            Err(d) => Event::ImageFailed(d),
        };
        kinds.push(failure_of(run.step(ev)).kind);
    }
    assert_eq!(kinds[0], kinds[1]);
}
