use quicksilver::error::{
    AtlasError, CreationFailure, GamepadError, ImageLoadError, QuicksilverError,
    SaveError, SoundError, CONTEXT_LOST_ERROR, OPENGL_VERSION_ERROR, PIXEL_FORMAT_ERROR,
    ROBUST_ERROR, SAVE_LOCATION_ERROR, UNRECOGNIZED_SOUND_ERROR, WINDOW_NOT_SUPPORTED_ERROR,
};
use std::io;

fn io_err(msg: &str) -> io::Error {
    io::Error::new(io::ErrorKind::Other, msg.to_owned())
}

#[test]
fn context_error_describes_itself_and_has_no_cause() {
    let e = QuicksilverError::ContextError("no display".to_owned());
    assert_eq!(e.description(), "no display");
    assert!(e.cause().is_none());
}

#[test]
fn io_error_is_the_cause_and_description() {
    let e = QuicksilverError::from(io_err("disk gone"));
    assert!(matches!(e, QuicksilverError::IOError(_)));
    assert_eq!(e.description(), "disk gone");
    let cause = e.cause().expect("an I/O error has a cause");
    assert_eq!(cause.description(), e.description());
}

#[test]
fn decoding_error_takes_the_same_path_either_way() {
    let direct = QuicksilverError::from(image::ImageError::DimensionError);
    let two_step = QuicksilverError::from(ImageLoadError::from(image::ImageError::DimensionError));
    assert!(matches!(
        direct,
        QuicksilverError::ImageError(ImageLoadError::DecodingError(image::ImageError::DimensionError))
    ));
    assert!(matches!(
        two_step,
        QuicksilverError::ImageError(ImageLoadError::DecodingError(image::ImageError::DimensionError))
    ));
    assert_eq!(direct.description(), two_step.description());
    assert!(!direct.description().is_empty());
    assert_eq!(direct.cause().unwrap().description(), direct.description());
}

#[test]
fn font_error_description() {
    let e = QuicksilverError::from(rusttype::Error::IllFormed);
    assert_eq!(e.description(), "Font data is ill-formed");
    assert_eq!(e.cause().unwrap().description(), "Font data is ill-formed");
}

#[test]
fn atlas_error_delegates_to_its_image_error() {
    let e = QuicksilverError::from(AtlasError::ImageError(ImageLoadError::from(io_err("missing atlas"))));
    assert!(matches!(e, QuicksilverError::AtlasError(_)));
    assert_eq!(e.description(), "missing atlas");
    assert_eq!(e.cause().unwrap().description(), "missing atlas");
}

#[test]
fn sound_errors() {
    let e = QuicksilverError::from(SoundError::UnrecognizedFormat);
    assert_eq!(e.description(), UNRECOGNIZED_SOUND_ERROR);
    assert_eq!(e.description(), "Unrecognized format");
    let e = QuicksilverError::from(SoundError::from(io_err("no sound file")));
    assert_eq!(e.description(), "no sound file");
}

#[test]
fn save_errors() {
    let e = QuicksilverError::from(SaveError::SerdeError("bad field".to_owned()));
    assert_eq!(e.description(), "bad field");
    let e = QuicksilverError::from(SaveError::SaveLocationNotFound);
    assert_eq!(e.description(), SAVE_LOCATION_ERROR);
    assert!(e.cause().is_some());
}

#[test]
fn gamepad_error() {
    let e = QuicksilverError::from(GamepadError { message: "no backend".to_owned() });
    assert_eq!(e.description(), "no backend");
    assert_eq!(e.cause().unwrap().description(), "no backend");
}

#[test]
fn creation_failures_become_context_errors() {
    let cases = vec![
        (CreationFailure::OsError("os".to_owned()), "os".to_owned()),
        (CreationFailure::NotSupported("ns".to_owned()), "ns".to_owned()),
        (CreationFailure::NoBackendAvailable("nb".to_owned()), "nb".to_owned()),
        (CreationFailure::RobustnessNotSupported, ROBUST_ERROR.to_owned()),
        (CreationFailure::OpenGlVersionNotSupported, "OpenGL version not supported".to_owned()),
        (CreationFailure::NoAvailablePixelFormat, "No available pixel format".to_owned()),
        (CreationFailure::PlatformSpecific("ps".to_owned()), "ps".to_owned()),
        (CreationFailure::WindowOsError("win".to_owned()), "win".to_owned()),
        (CreationFailure::WindowNotSupported, "Window creation failed: not supported".to_owned()),
        (CreationFailure::ErrorPair("two".to_owned()), "two".to_owned()),
    ];
    for (f, expected) in cases {
        match QuicksilverError::from_creation_failure(f) {
            QuicksilverError::ContextError(s) => assert_eq!(s, expected),
            _ => panic!("expected a context error"),
        }
    }
}

#[test]
fn glutin_creation_errors_convert() {
    let e = QuicksilverError::from(glutin::CreationError::OpenGlVersionNotSupported);
    assert_eq!(e.description(), OPENGL_VERSION_ERROR);
    let e = QuicksilverError::from(glutin::CreationError::NoAvailablePixelFormat);
    assert_eq!(e.description(), PIXEL_FORMAT_ERROR);
    let e = QuicksilverError::from(glutin::CreationError::OsError("no gl".to_owned()));
    assert_eq!(e.description(), "no gl");
    let e = QuicksilverError::from(glutin::CreationError::Window(
        glutin::WindowCreationError::NotSupported,
    ));
    assert_eq!(e.description(), WINDOW_NOT_SUPPORTED_ERROR);
    assert!(e.cause().is_none());
}

#[test]
fn glutin_context_errors_convert() {
    let e = QuicksilverError::from(glutin::ContextError::ContextLost);
    assert_eq!(e.description(), CONTEXT_LOST_ERROR);
    assert_eq!(e.description(), "Context lost");
    let e = QuicksilverError::from(glutin::ContextError::OsError("gone".to_owned()));
    assert_eq!(e.description(), "gone");
    let e = QuicksilverError::from(glutin::ContextError::IoError(io_err("pipe")));
    assert!(matches!(e, QuicksilverError::IOError(_)));
    assert_eq!(e.description(), "pipe");
}

#[test]
fn context_error_conversion_through_named_function() {
    let e = QuicksilverError::from_context_error(glutin::ContextError::ContextLost);
    assert_eq!(e.description(), "Context lost");
    assert!(e.cause().is_none());
    let e = QuicksilverError::from_context_error(glutin::ContextError::IoError(io_err("io")));
    assert!(matches!(e, QuicksilverError::IOError(_)));
    assert_eq!(e.cause().unwrap().description(), "io");
}

#[test]
fn creation_error_texts_are_kept() {
    let e = QuicksilverError::from_creation_error(glutin::CreationError::NotSupported("no es"));
    assert_eq!(e.description(), "no es");
    let e = QuicksilverError::from_creation_error(glutin::CreationError::PlatformSpecific(
        "plat".to_owned(),
    ));
    assert_eq!(e.description(), "plat");
    let e = QuicksilverError::from_creation_error(glutin::CreationError::RobustnessNotSupported);
    assert_eq!(e.description(), ROBUST_ERROR);
    let e = QuicksilverError::from_creation_error(glutin::CreationError::Window(
        glutin::WindowCreationError::OsError("no window".to_owned()),
    ));
    assert_eq!(e.description(), "no window");
}

#[test]
fn decoder_errors_become_sound_errors() {
    let e = QuicksilverError::from(rodio::decoder::DecoderError::UnrecognizedFormat);
    assert!(matches!(e, QuicksilverError::SoundError(SoundError::UnrecognizedFormat)));
    assert_eq!(e.description(), "Unrecognized format");
    let e = QuicksilverError::from(rodio::decoder::DecoderError::IoError("broken pipe".to_owned()));
    assert!(matches!(e, QuicksilverError::SoundError(SoundError::StreamError(_))));
    assert_eq!(e.description(), "broken pipe");
    assert_eq!(e.cause().unwrap().description(), "broken pipe");
    let s = SoundError::from(rodio::decoder::DecoderError::UnrecognizedFormat);
    assert!(matches!(s, SoundError::UnrecognizedFormat));
    let e = QuicksilverError::from_decoder_error(rodio::decoder::DecoderError::IoError("eof".to_owned()));
    assert_eq!(e.description(), "eof");
}
