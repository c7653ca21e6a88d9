use vstd::prelude::*;
use vstd::std_specs::convert::FromSpec;

verus! {

#[verifier::external_type_specification]
#[verifier::external_body]
pub struct ExIoError(std::io::Error);

#[verifier::external_type_specification]
#[verifier::external_body]
pub struct ExDecodeError(image::ImageError);

#[verifier::external_type_specification]
#[verifier::external_body]
pub struct ExFontError(rusttype::Error);

#[verifier::external_type_specification]
#[verifier::external_body]
pub struct ExCreationError(glutin::CreationError);

#[verifier::external_type_specification]
pub struct ExContextError(glutin::ContextError);

#[verifier::external_type_specification]
pub struct ExDecoderError(rodio::decoder::DecoderError);

/// Relies on `Display` for `std::io::Error`: the text that describes it.
#[verifier::external_body]
fn io_description(err: &std::io::Error) -> (r: String) {
    err.to_string()
}

/// Relies on `Display` for `image::ImageError`: the text that describes it.
#[verifier::external_body]
fn decode_description(err: &image::ImageError) -> (r: String) {
    err.to_string()
}

/// Relies on `Display` for `rusttype::Error`, which writes the error's
/// `description`: a fixed, nonempty text for each of its variants.
#[verifier::external_body]
fn font_description(err: &rusttype::Error) -> (r: String)
    ensures
        r@.len() > 0,
{
    err.to_string()
}

/// The plain form of a window or context creation error: it depends on the
/// error alone.
pub uninterp spec fn creation_failure_of(err: glutin::CreationError) -> CreationFailure;

/// Relies on the variants of `glutin::CreationError` and of the window error
/// it may hold, each turned into the matching variant of `CreationFailure`.
/// `NoBackendAvailable` and `CreationErrorPair` keep their `Display` text.
#[verifier::external_body]
fn creation_failure(err: glutin::CreationError) -> (r: CreationFailure)
    ensures
        r == creation_failure_of(err),
{
    match err {
        glutin::CreationError::OsError(s) => CreationFailure::OsError(s),
        glutin::CreationError::NotSupported(s) => CreationFailure::NotSupported(s.to_owned()),
        glutin::CreationError::NoBackendAvailable(e) => CreationFailure::NoBackendAvailable(e.to_string()),
        glutin::CreationError::RobustnessNotSupported => CreationFailure::RobustnessNotSupported,
        glutin::CreationError::OpenGlVersionNotSupported => CreationFailure::OpenGlVersionNotSupported,
        glutin::CreationError::NoAvailablePixelFormat => CreationFailure::NoAvailablePixelFormat,
        glutin::CreationError::PlatformSpecific(s) => CreationFailure::PlatformSpecific(s),
        glutin::CreationError::Window(glutin::WindowCreationError::OsError(s)) => CreationFailure::WindowOsError(s),
        glutin::CreationError::Window(glutin::WindowCreationError::NotSupported) => CreationFailure::WindowNotSupported,
        e @ glutin::CreationError::CreationErrorPair(..) => CreationFailure::ErrorPair(e.to_string()),
    }
}

/// Why creating a window or its OpenGL context failed, as plain values.
#[derive(Debug)]
pub enum CreationFailure {
    OsError(String),
    NotSupported(String),
    NoBackendAvailable(String),
    RobustnessNotSupported,
    OpenGlVersionNotSupported,
    NoAvailablePixelFormat,
    PlatformSpecific(String),
    WindowOsError(String),
    WindowNotSupported,
    /// Two errors at once, with the text that describes both.
    ErrorPair(String),
}

/// An error from loading an image.
#[derive(Debug)]
pub enum ImageLoadError {
    /// The image data could not be decoded.
    DecodingError(image::ImageError),
    /// The image file could not be read.
    IOError(std::io::Error),
}

/// An error from building an image atlas.
#[derive(Debug)]
pub enum AtlasError {
    /// One of the atlas images failed to load.
    ImageError(ImageLoadError),
    /// The atlas file could not be read.
    IOError(std::io::Error),
}

/// An error from loading a sound.
#[derive(Debug)]
pub enum SoundError {
    /// The sound data is in a format that no decoder recognizes.
    UnrecognizedFormat,
    /// The decoder could not read the sound stream; the text says why.
    StreamError(String),
    /// The sound file could not be read.
    IOError(std::io::Error),
}

/// An error from saving or loading persistent data.
#[derive(Debug)]
pub enum SaveError {
    /// The data could not be serialized or deserialized; the text says why.
    SerdeError(String),
    /// The save file could not be read or written.
    IOError(std::io::Error),
    /// No directory to save data in was found.
    SaveLocationNotFound,
}

/// An error from setting up the gamepad backend, with its description.
#[derive(Debug)]
pub struct GamepadError {
    pub message: String,
}

/// An error generated by some subsystem: the one error type that every
/// fallible operation reports.
#[derive(Debug)]
pub enum QuicksilverError {
    /// An error from an image atlas
    AtlasError(AtlasError),
    /// Creating or manipulating the OpenGL context failed
    ContextError(String),
    /// An error from loading an image
    ImageError(ImageLoadError),
    /// An error from loading a file
    IOError(std::io::Error),
    /// An error when creating the gamepad context
    GilrsError(GamepadError),
    /// An error from loading a sound
    SoundError(SoundError),
    /// A serialize or deserialize error
    SaveError(SaveError),
    /// There was an error loading a font file
    FontError(rusttype::Error),
}

/// A reference to the error that a `QuicksilverError` wraps.
#[derive(Debug)]
pub enum ErrorCause<'a> {
    Atlas(&'a AtlasError),
    Image(&'a ImageLoadError),
    Io(&'a std::io::Error),
    Gamepad(&'a GamepadError),
    Sound(&'a SoundError),
    Save(&'a SaveError),
    Font(&'a rusttype::Error),
}

/// The message for a context that cannot provide the requested robustness.
pub const ROBUST_ERROR: &'static str = "Internal Quicksilver error: robustness not supported
Please file a bug report at https://github.com/ryanisaacg/quicksilver that includes:
- A minimum reproducing code snippet
- The error message above
";

pub const OPENGL_VERSION_ERROR: &'static str = "OpenGL version not supported";

pub const PIXEL_FORMAT_ERROR: &'static str = "No available pixel format";

pub const WINDOW_NOT_SUPPORTED_ERROR: &'static str = "Window creation failed: not supported";

pub const CONTEXT_LOST_ERROR: &'static str = "Context lost";

pub const UNRECOGNIZED_SOUND_ERROR: &'static str = "Unrecognized format";

pub const SAVE_LOCATION_ERROR: &'static str = "No location to save data was found";

impl CreationFailure {
    /// The text of the context error that this failure becomes.
    pub open spec fn message(&self) -> Seq<char> {
        match self {
            CreationFailure::OsError(s) => s@,
            CreationFailure::NotSupported(s) => s@,
            CreationFailure::NoBackendAvailable(s) => s@,
            CreationFailure::RobustnessNotSupported => ROBUST_ERROR@,
            CreationFailure::OpenGlVersionNotSupported => OPENGL_VERSION_ERROR@,
            CreationFailure::NoAvailablePixelFormat => PIXEL_FORMAT_ERROR@,
            CreationFailure::PlatformSpecific(s) => s@,
            CreationFailure::WindowOsError(s) => s@,
            CreationFailure::WindowNotSupported => WINDOW_NOT_SUPPORTED_ERROR@,
            CreationFailure::ErrorPair(s) => s@,
        }
    }

    /// Whether every text that this failure carries is nonempty.
    pub open spec fn texts_nonempty(&self) -> bool {
        match self {
            CreationFailure::OsError(s) => s@.len() > 0,
            CreationFailure::NotSupported(s) => s@.len() > 0,
            CreationFailure::NoBackendAvailable(s) => s@.len() > 0,
            CreationFailure::PlatformSpecific(s) => s@.len() > 0,
            CreationFailure::WindowOsError(s) => s@.len() > 0,
            CreationFailure::ErrorPair(s) => s@.len() > 0,
            _ => true,
        }
    }

    /// The text of the context error that this failure becomes.
    pub fn into_message(self) -> (r: String)
        ensures
            r@ == self.message(),
    {
        match self {
            CreationFailure::OsError(s) => s,
            CreationFailure::NotSupported(s) => s,
            CreationFailure::NoBackendAvailable(s) => s,
            CreationFailure::RobustnessNotSupported => ROBUST_ERROR.to_owned(),
            CreationFailure::OpenGlVersionNotSupported => OPENGL_VERSION_ERROR.to_owned(),
            CreationFailure::NoAvailablePixelFormat => PIXEL_FORMAT_ERROR.to_owned(),
            CreationFailure::PlatformSpecific(s) => s,
            CreationFailure::WindowOsError(s) => s,
            CreationFailure::WindowNotSupported => WINDOW_NOT_SUPPORTED_ERROR.to_owned(),
            CreationFailure::ErrorPair(s) => s,
        }
    }
}

impl ImageLoadError {
    /// Describe the failure; the text of a decoding error comes from the
    /// image decoder, that of a read error from the I/O error.
    pub fn description(&self) -> (r: String) {
        match self {
            ImageLoadError::DecodingError(e) => decode_description(e),
            ImageLoadError::IOError(e) => io_description(e),
        }
    }
}

impl AtlasError {
    /// Describe the failure by the description of the error it holds.
    pub fn description(&self) -> (r: String) {
        match self {
            AtlasError::ImageError(e) => e.description(),
            AtlasError::IOError(e) => io_description(e),
        }
    }
}

impl SoundError {
    pub fn description(&self) -> (r: String)
        ensures
            self is UnrecognizedFormat ==> r@ == UNRECOGNIZED_SOUND_ERROR@,
            self matches SoundError::StreamError(s) ==> r@ == s@,
    {
        match self {
            SoundError::UnrecognizedFormat => UNRECOGNIZED_SOUND_ERROR.to_owned(),
            SoundError::StreamError(s) => s.clone(),
            SoundError::IOError(e) => io_description(e),
        }
    }
}

impl SaveError {
    pub fn description(&self) -> (r: String)
        ensures
            self matches SaveError::SerdeError(s) ==> r@ == s@,
            self is SaveLocationNotFound ==> r@ == SAVE_LOCATION_ERROR@,
    {
        match self {
            SaveError::SerdeError(s) => s.clone(),
            SaveError::IOError(e) => io_description(e),
            SaveError::SaveLocationNotFound => SAVE_LOCATION_ERROR.to_owned(),
        }
    }
}

impl GamepadError {
    pub fn description(&self) -> (r: String)
        ensures
            r@ == self.message@,
    {
        self.message.clone()
    }
}

impl<'a> ErrorCause<'a> {
    /// The description of the error referred to.
    pub fn description(&self) -> (r: String)
        ensures
            self matches ErrorCause::Gamepad(g) ==> r@ == g.message@,
            self matches ErrorCause::Sound(s) ==> (*s is UnrecognizedFormat
                ==> r@ == UNRECOGNIZED_SOUND_ERROR@),
            self matches ErrorCause::Sound(s) ==> (*s matches SoundError::StreamError(t) ==> r@
                == t@),
            self matches ErrorCause::Save(s) ==> (*s matches SaveError::SerdeError(t) ==> r@
                == t@),
            self matches ErrorCause::Save(s) ==> (*s is SaveLocationNotFound ==> r@
                == SAVE_LOCATION_ERROR@),
            self is Font ==> r@.len() > 0,
    {
        match self {
            ErrorCause::Atlas(e) => e.description(),
            ErrorCause::Image(e) => e.description(),
            ErrorCause::Io(e) => io_description(e),
            ErrorCause::Gamepad(e) => e.description(),
            ErrorCause::Sound(e) => e.description(),
            ErrorCause::Save(e) => e.description(),
            ErrorCause::Font(e) => font_description(e),
        }
    }
}

impl From<image::ImageError> for ImageLoadError {
    fn from(err: image::ImageError) -> ImageLoadError {
        ImageLoadError::DecodingError(err)
    }
}

impl vstd::std_specs::convert::FromSpecImpl<image::ImageError> for ImageLoadError {
    open spec fn obeys_from_spec() -> bool {
        true
    }

    open spec fn from_spec(err: image::ImageError) -> ImageLoadError {
        ImageLoadError::DecodingError(err)
    }
}

impl From<std::io::Error> for ImageLoadError {
    fn from(err: std::io::Error) -> ImageLoadError {
        ImageLoadError::IOError(err)
    }
}

impl vstd::std_specs::convert::FromSpecImpl<std::io::Error> for ImageLoadError {
    open spec fn obeys_from_spec() -> bool {
        true
    }

    open spec fn from_spec(err: std::io::Error) -> ImageLoadError {
        ImageLoadError::IOError(err)
    }
}

impl From<std::io::Error> for SoundError {
    fn from(err: std::io::Error) -> SoundError {
        SoundError::IOError(err)
    }
}

impl vstd::std_specs::convert::FromSpecImpl<std::io::Error> for SoundError {
    open spec fn obeys_from_spec() -> bool {
        true
    }

    open spec fn from_spec(err: std::io::Error) -> SoundError {
        SoundError::IOError(err)
    }
}

impl From<ImageLoadError> for QuicksilverError {
    fn from(err: ImageLoadError) -> QuicksilverError {
        QuicksilverError::ImageError(err)
    }
}

impl vstd::std_specs::convert::FromSpecImpl<ImageLoadError> for QuicksilverError {
    open spec fn obeys_from_spec() -> bool {
        true
    }

    open spec fn from_spec(err: ImageLoadError) -> QuicksilverError {
        QuicksilverError::ImageError(err)
    }
}

impl From<AtlasError> for QuicksilverError {
    fn from(err: AtlasError) -> QuicksilverError {
        QuicksilverError::AtlasError(err)
    }
}

impl vstd::std_specs::convert::FromSpecImpl<AtlasError> for QuicksilverError {
    open spec fn obeys_from_spec() -> bool {
        true
    }

    open spec fn from_spec(err: AtlasError) -> QuicksilverError {
        QuicksilverError::AtlasError(err)
    }
}

impl From<std::io::Error> for QuicksilverError {
    fn from(err: std::io::Error) -> QuicksilverError {
        QuicksilverError::IOError(err)
    }
}

impl vstd::std_specs::convert::FromSpecImpl<std::io::Error> for QuicksilverError {
    open spec fn obeys_from_spec() -> bool {
        true
    }

    open spec fn from_spec(err: std::io::Error) -> QuicksilverError {
        QuicksilverError::IOError(err)
    }
}

impl From<GamepadError> for QuicksilverError {
    fn from(err: GamepadError) -> QuicksilverError {
        QuicksilverError::GilrsError(err)
    }
}

impl vstd::std_specs::convert::FromSpecImpl<GamepadError> for QuicksilverError {
    open spec fn obeys_from_spec() -> bool {
        true
    }

    open spec fn from_spec(err: GamepadError) -> QuicksilverError {
        QuicksilverError::GilrsError(err)
    }
}

impl From<SoundError> for QuicksilverError {
    fn from(err: SoundError) -> QuicksilverError {
        QuicksilverError::SoundError(err)
    }
}

impl vstd::std_specs::convert::FromSpecImpl<SoundError> for QuicksilverError {
    open spec fn obeys_from_spec() -> bool {
        true
    }

    open spec fn from_spec(err: SoundError) -> QuicksilverError {
        QuicksilverError::SoundError(err)
    }
}

impl From<SaveError> for QuicksilverError {
    fn from(err: SaveError) -> QuicksilverError {
        QuicksilverError::SaveError(err)
    }
}

impl vstd::std_specs::convert::FromSpecImpl<SaveError> for QuicksilverError {
    open spec fn obeys_from_spec() -> bool {
        true
    }

    open spec fn from_spec(err: SaveError) -> QuicksilverError {
        QuicksilverError::SaveError(err)
    }
}

impl From<rusttype::Error> for QuicksilverError {
    fn from(err: rusttype::Error) -> QuicksilverError {
        QuicksilverError::FontError(err)
    }
}

impl vstd::std_specs::convert::FromSpecImpl<rusttype::Error> for QuicksilverError {
    open spec fn obeys_from_spec() -> bool {
        true
    }

    open spec fn from_spec(err: rusttype::Error) -> QuicksilverError {
        QuicksilverError::FontError(err)
    }
}

/// A decoding error takes the same path as any other image error.
impl From<image::ImageError> for QuicksilverError {
    fn from(err: image::ImageError) -> QuicksilverError {
        let image_error = ImageLoadError::from(err);
        QuicksilverError::from(image_error)
    }
}

impl vstd::std_specs::convert::FromSpecImpl<image::ImageError> for QuicksilverError {
    open spec fn obeys_from_spec() -> bool {
        true
    }

    open spec fn from_spec(err: image::ImageError) -> QuicksilverError {
        QuicksilverError::ImageError(ImageLoadError::DecodingError(err))
    }
}

impl From<glutin::CreationError> for QuicksilverError {
    fn from(err: glutin::CreationError) -> QuicksilverError {
        QuicksilverError::from_creation_error(err)
    }
}

/// The text of a creation error is built at run time, which no spec value
/// can name, so what the conversion yields is stated on
/// `QuicksilverError::from_creation_error` instead.
impl vstd::std_specs::convert::FromSpecImpl<glutin::CreationError> for QuicksilverError {
    open spec fn obeys_from_spec() -> bool {
        false
    }

    open spec fn from_spec(err: glutin::CreationError) -> QuicksilverError {
        arbitrary()
    }
}

impl From<glutin::ContextError> for QuicksilverError {
    fn from(err: glutin::ContextError) -> QuicksilverError {
        QuicksilverError::from_context_error(err)
    }
}

/// The text of a lost context is built at run time, which no spec value can
/// name, so what the conversion yields is stated on
/// `QuicksilverError::from_context_error` instead.
impl vstd::std_specs::convert::FromSpecImpl<glutin::ContextError> for QuicksilverError {
    open spec fn obeys_from_spec() -> bool {
        false
    }

    open spec fn from_spec(err: glutin::ContextError) -> QuicksilverError {
        arbitrary()
    }
}

impl From<rodio::decoder::DecoderError> for SoundError {
    fn from(err: rodio::decoder::DecoderError) -> SoundError {
        match err {
            rodio::decoder::DecoderError::UnrecognizedFormat => SoundError::UnrecognizedFormat,
            rodio::decoder::DecoderError::IoError(s) => SoundError::StreamError(s),
        }
    }
}

impl vstd::std_specs::convert::FromSpecImpl<rodio::decoder::DecoderError> for SoundError {
    open spec fn obeys_from_spec() -> bool {
        true
    }

    open spec fn from_spec(err: rodio::decoder::DecoderError) -> SoundError {
        match err {
            rodio::decoder::DecoderError::UnrecognizedFormat => SoundError::UnrecognizedFormat,
            rodio::decoder::DecoderError::IoError(s) => SoundError::StreamError(s),
        }
    }
}

/// A decoder error goes through `SoundError` first, as every sound error
/// does.
impl From<rodio::decoder::DecoderError> for QuicksilverError {
    fn from(err: rodio::decoder::DecoderError) -> QuicksilverError {
        let sound_error = SoundError::from(err);
        QuicksilverError::from(sound_error)
    }
}

impl vstd::std_specs::convert::FromSpecImpl<rodio::decoder::DecoderError> for QuicksilverError {
    open spec fn obeys_from_spec() -> bool {
        true
    }

    open spec fn from_spec(err: rodio::decoder::DecoderError) -> QuicksilverError {
        QuicksilverError::SoundError(
            <SoundError as FromSpec<rodio::decoder::DecoderError>>::from_spec(err),
        )
    }
}

impl QuicksilverError {
    /// Every variant but the plain context error wraps another error.
    pub open spec fn has_cause(&self) -> bool {
        !(self is ContextError)
    }

    /// The context error that a failed window or context creation becomes.
    pub fn from_creation_failure(f: CreationFailure) -> (r: QuicksilverError)
        ensures
            r matches QuicksilverError::ContextError(s) && s@ == f.message(),
    {
        QuicksilverError::ContextError(f.into_message())
    }

    /// Convert an error from creating a window or its OpenGL context.
    pub fn from_creation_error(err: glutin::CreationError) -> (r: QuicksilverError)
        ensures
            r matches QuicksilverError::ContextError(s) && s@ == creation_failure_of(err).message(),
    {
        QuicksilverError::from_creation_failure(creation_failure(err))
    }

    /// Convert an error from an operation on an OpenGL context: an I/O
    /// failure stays an I/O error, the rest become context errors.
    pub fn from_context_error(err: glutin::ContextError) -> (r: QuicksilverError)
        ensures
            err matches glutin::ContextError::OsError(s) ==> r == QuicksilverError::ContextError(s),
            err matches glutin::ContextError::IoError(e) ==> r == QuicksilverError::IOError(e),
            err is ContextLost ==> (r matches QuicksilverError::ContextError(s) && s@
                == CONTEXT_LOST_ERROR@),
    {
        match err {
            glutin::ContextError::OsError(s) => QuicksilverError::ContextError(s),
            glutin::ContextError::IoError(e) => QuicksilverError::IOError(e),
            glutin::ContextError::ContextLost => QuicksilverError::ContextError(
                CONTEXT_LOST_ERROR.to_owned(),
            ),
        }
    }

    /// Convert an error from decoding a sound: it goes through `SoundError`
    /// first, as every sound error does.
    pub fn from_decoder_error(err: rodio::decoder::DecoderError) -> (r: QuicksilverError)
        ensures
            r == <QuicksilverError as FromSpec<rodio::decoder::DecoderError>>::from_spec(err),
            err matches rodio::decoder::DecoderError::IoError(t) ==> r
                == QuicksilverError::SoundError(SoundError::StreamError(t)),
            err is UnrecognizedFormat ==> r matches QuicksilverError::SoundError(
                SoundError::UnrecognizedFormat,
            ),
    {
        QuicksilverError::from(err)
    }

    /// The error that this one wraps, or `None` for a context error, which
    /// carries only its text.
    pub fn cause(&self) -> (r: Option<ErrorCause<'_>>)
        ensures
            r is None <==> !self.has_cause(),
            self matches QuicksilverError::AtlasError(e) ==> r == Some(ErrorCause::Atlas(&e)),
            self matches QuicksilverError::ImageError(e) ==> r == Some(ErrorCause::Image(&e)),
            self matches QuicksilverError::IOError(e) ==> r == Some(ErrorCause::Io(&e)),
            self matches QuicksilverError::GilrsError(e) ==> r == Some(ErrorCause::Gamepad(&e)),
            self matches QuicksilverError::SoundError(e) ==> r == Some(ErrorCause::Sound(&e)),
            self matches QuicksilverError::SaveError(e) ==> r == Some(ErrorCause::Save(&e)),
            self matches QuicksilverError::FontError(e) ==> r == Some(ErrorCause::Font(&e)),
    {
        match self {
            QuicksilverError::AtlasError(e) => Some(ErrorCause::Atlas(e)),
            QuicksilverError::ContextError(_) => None,
            QuicksilverError::ImageError(e) => Some(ErrorCause::Image(e)),
            QuicksilverError::IOError(e) => Some(ErrorCause::Io(e)),
            QuicksilverError::GilrsError(e) => Some(ErrorCause::Gamepad(e)),
            QuicksilverError::SoundError(e) => Some(ErrorCause::Sound(e)),
            QuicksilverError::SaveError(e) => Some(ErrorCause::Save(e)),
            QuicksilverError::FontError(e) => Some(ErrorCause::Font(e)),
        }
    }

    /// A human-readable description: the text of a context error, otherwise
    /// the description of the wrapped error.
    pub fn description(&self) -> (r: String)
        ensures
            self matches QuicksilverError::ContextError(s) ==> r@ == s@,
            self matches QuicksilverError::GilrsError(g) ==> r@ == g.message@,
            self matches QuicksilverError::SaveError(s) ==> (s matches SaveError::SerdeError(t)
                ==> r@ == t@),
            self matches QuicksilverError::SaveError(s) ==> (s is SaveLocationNotFound ==> r@
                == SAVE_LOCATION_ERROR@),
            self matches QuicksilverError::SoundError(s) ==> (s is UnrecognizedFormat ==> r@
                == UNRECOGNIZED_SOUND_ERROR@),
            self matches QuicksilverError::SoundError(s) ==> (s matches SoundError::StreamError(t)
                ==> r@ == t@),
            self is FontError ==> r@.len() > 0,
    {
        match self {
            QuicksilverError::ContextError(s) => s.clone(),
            _ => match self.cause() {
                Some(c) => c.description(),
                None => String::new(),
            },
        }
    }
}

/// Every subsystem error converts into a unified error that keeps it as its
/// cause; an image decoding error arrives at the same value whether it goes
/// through the image error first or not, and so does a sound decoding error
/// through the sound error.
pub proof fn lemma_conversions_keep_cause(
    img: image::ImageError,
    io: std::io::Error,
    atlas: AtlasError,
    load: ImageLoadError,
    pad: GamepadError,
    sound: SoundError,
    save: SaveError,
    font: rusttype::Error,
    snd: rodio::decoder::DecoderError,
)
    ensures
        <QuicksilverError as FromSpec<rodio::decoder::DecoderError>>::from_spec(snd) == <QuicksilverError as FromSpec<SoundError>>::from_spec(<SoundError as FromSpec<rodio::decoder::DecoderError>>::from_spec(snd)),
        <QuicksilverError as FromSpec<rodio::decoder::DecoderError>>::from_spec(snd).has_cause(),
        <QuicksilverError as FromSpec<image::ImageError>>::from_spec(img) == <QuicksilverError as FromSpec<ImageLoadError>>::from_spec(<ImageLoadError as FromSpec<image::ImageError>>::from_spec(img)),
        <QuicksilverError as FromSpec<image::ImageError>>::from_spec(img).has_cause(),
        <QuicksilverError as FromSpec<std::io::Error>>::from_spec(io).has_cause(),
        <QuicksilverError as FromSpec<AtlasError>>::from_spec(atlas).has_cause(),
        <QuicksilverError as FromSpec<ImageLoadError>>::from_spec(load).has_cause(),
        <QuicksilverError as FromSpec<GamepadError>>::from_spec(pad).has_cause(),
        <QuicksilverError as FromSpec<SoundError>>::from_spec(sound).has_cause(),
        <QuicksilverError as FromSpec<SaveError>>::from_spec(save).has_cause(),
        <QuicksilverError as FromSpec<rusttype::Error>>::from_spec(font).has_cause(),
{
}

/// A failed window or context creation becomes a context error, which has no
/// cause, and whose text is nonempty whenever the texts that the failure
/// carries are.
pub proof fn lemma_creation_message_nonempty(f: CreationFailure)
    requires
        f.texts_nonempty(),
    ensures
        f.message().len() > 0,
{
    reveal_strlit(
        "Internal Quicksilver error: robustness not supported
Please file a bug report at https://github.com/ryanisaacg/quicksilver that includes:
- A minimum reproducing code snippet
- The error message above
",
    );
    reveal_strlit("OpenGL version not supported");
    reveal_strlit("No available pixel format");
    reveal_strlit("Window creation failed: not supported");
}

} // verus!
