//! The platform-neutral window vocabulary: lifecycle events, the validated
//! creation configuration, and the error type shared by every host primitive.

pub mod adopted;
pub mod adopted_laws;
pub mod counting;
pub mod unsupported;
pub mod win32;
pub mod win32_laws;

use vstd::prelude::*;

verus! {

broadcast use vstd::string::group_string_axioms;

/// One native-window event observed by a host window.
///
/// Width and height are client-pixel dimensions. A resize may contain a zero
/// dimension: it is an observable platform transition, not permission to
/// create a zero-sized rendering surface. `Minimized` is separate because
/// Win32 identifies it explicitly through `WM_SIZE`.
#[derive(Clone, Copy, Debug, PartialEq, Eq, Structural)]
#[non_exhaustive]
pub enum WindowEvent {
    /// A platform supplied a native drawable. The window/display handle is
    /// valid until the matching [`Self::SurfaceDestroyed`] event.
    SurfaceCreated,
    /// The platform revoked its native drawable. Consumers must stop acquiring
    /// frames and release any presentation target before returning from the
    /// platform callback that reports this event.
    SurfaceDestroyed,
    /// The client area changed to this size without a restore transition.
    Resized {
        /// Client-area width in client pixels; zero is valid.
        width: u32,
        /// Client-area height in client pixels; zero is valid.
        height: u32,
    },
    /// The native window entered its minimized state.
    Minimized,
    /// The platform suspended foreground rendering without destroying the
    /// drawable.
    Suspended,
    /// The platform resumed foreground rendering after [`Self::Suspended`].
    Resumed,
    /// The platform requested that a frame be produced for the current
    /// drawable, without implying a resize.
    RedrawRequested,
    /// The native window was restored with this client-area size.
    Restored {
        /// Client-area width in client pixels; zero is valid.
        width: u32,
        /// Client-area height in client pixels; zero is valid.
        height: u32,
    },
    /// The platform asked for shutdown without destroying the native window.
    CloseRequested,
}

/// Failure while creating or operating the minimal native window.
#[derive(Clone, Debug, PartialEq, Eq)]
#[non_exhaustive]
pub enum WindowError {
    /// A fixed client extent must have non-zero width and height.
    ZeroClientExtent,
    /// Win32 titles are NUL-terminated and therefore cannot contain an embedded NUL.
    TitleContainsNul,
    /// The requested host primitive has no implementation on this target.
    UnsupportedPlatform,
    /// A platform API call failed.
    Platform(String),
}

/// The human-readable text of a [`WindowError`].
pub open spec fn window_error_text(error: WindowError) -> Seq<char> {
    match error {
        WindowError::ZeroClientExtent => "window client extent must be non-zero"@,
        WindowError::TitleContainsNul => "window title must not contain an embedded NUL"@,
        WindowError::UnsupportedPlatform =>
            "the requested minimal Fluxel window operation is not supported on this platform"@,
        WindowError::Platform(message) => "native window operation failed: "@ + message@,
    }
}

impl WindowError {
    /// The text shown to a user for this error.
    pub fn message(&self) -> (text: String)
        ensures
            text@ == window_error_text(*self),
    {
        match self {
            WindowError::ZeroClientExtent => String::from_str("window client extent must be non-zero"),
            WindowError::TitleContainsNul => String::from_str(
                "window title must not contain an embedded NUL",
            ),
            WindowError::UnsupportedPlatform => String::from_str(
                "the requested minimal Fluxel window operation is not supported on this platform",
            ),
            WindowError::Platform(message) => {
                let mut text = String::from_str("native window operation failed: ");
                text.append(message.as_str());
                text
            },
        }
    }
}

/// The abstract content of a [`WindowConfig`].
pub struct WindowConfigView {
    pub title: Seq<char>,
    pub client_width: u32,
    pub client_height: u32,
}

/// Whether a title can be handed to a platform that terminates strings with NUL.
pub open spec fn title_is_nul_free(title: Seq<char>) -> bool {
    !title.contains('\0')
}

/// Initial configuration for one native window.
#[derive(Debug, PartialEq, Eq)]
pub struct WindowConfig {
    title: String,
    client_width: u32,
    client_height: u32,
}

impl View for WindowConfig {
    type V = WindowConfigView;

    closed spec fn view(&self) -> WindowConfigView {
        WindowConfigView {
            title: self.title@,
            client_width: self.client_width,
            client_height: self.client_height,
        }
    }
}

impl Clone for WindowConfig {
    fn clone(&self) -> (copy: Self)
        ensures
            copy@ == self@,
    {
        proof {
            use_type_invariant(self);
        }
        WindowConfig {
            title: self.title.clone(),
            client_width: self.client_width,
            client_height: self.client_height,
        }
    }
}

/// Whether `s` contains an embedded NUL character.
fn contains_nul(s: &str) -> (found: bool)
    ensures
        found == s@.contains('\0'),
{
    let mut found = false;
    for c in it: s.chars()
        invariant
            it.seq() == s@,
            found == s@.take(it.index()).contains('\0'),
    {
        let ghost prefix = s@.take(it.index());
        assert(s@.take(it.index() + 1) == prefix.push(c));
        if c == '\0' {
            found = true;
            assert(prefix.push(c)[prefix.len() as int] == '\0');
        } else {
            assert forall|j: int| 0 <= j < prefix.len() + 1 && prefix.push(c)[j] == '\0' implies prefix[j]
                == '\0' by {}
        }
    }
    assert(s@.take(s@.len() as int) == s@);
    found
}

impl WindowConfig {
    #[verifier::type_invariant]
    spec fn valid(self) -> bool {
        &&& self.client_width != 0
        &&& self.client_height != 0
        &&& title_is_nul_free(self.title@)
    }

    /// Creates a configuration with a non-empty client extent.
    ///
    /// A title with an embedded NUL is refused first; otherwise a zero width or
    /// a zero height is refused.
    pub fn new(title: &str, client_width: u32, client_height: u32) -> (result: Result<
        Self,
        WindowError,
    >)
        ensures
            !title_is_nul_free(title@) ==> result == Err::<Self, WindowError>(
                WindowError::TitleContainsNul,
            ),
            title_is_nul_free(title@) && (client_width == 0 || client_height == 0) ==> result
                == Err::<Self, WindowError>(WindowError::ZeroClientExtent),
            result is Ok <==> title_is_nul_free(title@) && client_width != 0 && client_height
                != 0,
            result matches Ok(config) ==> config@ == (WindowConfigView {
                title: title@,
                client_width,
                client_height,
            }),
    {
        if contains_nul(title) {
            return Err(WindowError::TitleContainsNul);
        }
        if client_width == 0 {
            return Err(WindowError::ZeroClientExtent);
        }
        if client_height == 0 {
            return Err(WindowError::ZeroClientExtent);
        }
        Ok(WindowConfig { title: String::from_str(title), client_width, client_height })
    }

    /// Window title passed to the platform's creation API.
    pub fn title(&self) -> (title: &str)
        ensures
            title@ == self@.title,
            title_is_nul_free(title@),
    {
        proof {
            use_type_invariant(self);
        }
        self.title.as_str()
    }

    /// Initial client-area width requested during creation; never zero.
    pub fn client_width(&self) -> (width: u32)
        ensures
            width == self@.client_width,
            width != 0,
    {
        proof {
            use_type_invariant(self);
        }
        self.client_width
    }

    /// Initial client-area height requested during creation; never zero.
    pub fn client_height(&self) -> (height: u32)
        ensures
            height == self@.client_height,
            height != 0,
    {
        proof {
            use_type_invariant(self);
        }
        self.client_height
    }
}

/// The UTF-16 code units of one Unicode scalar value.
pub open spec fn utf16_of_char(c: char) -> Seq<u16> {
    let v = c as u32;
    if v < 0x10000 {
        seq![v as u16]
    } else {
        let offset = (v - 0x10000) as u32;
        seq![(0xD800 + offset / 0x400) as u16, (0xDC00 + offset % 0x400) as u16]
    }
}

/// The UTF-16 encoding of a character sequence.
pub open spec fn utf16_units(s: Seq<char>) -> Seq<u16>
    decreases s.len(),
{
    if s.len() == 0 {
        seq![]
    } else {
        utf16_units(s.drop_last()) + utf16_of_char(s.last())
    }
}

/// Encodes `value` as UTF-16 followed by one terminating NUL unit, the string
/// form that Win32 wide-character APIs accept.
pub fn wide_nul(value: &str) -> (units: Vec<u16>)
    ensures
        units@ == utf16_units(value@).push(0u16),
{
    let mut units: Vec<u16> = Vec::new();
    for c in it: value.chars()
        invariant
            it.seq() == value@,
            units@ == utf16_units(value@.take(it.index())),
    {
        let ghost prefix = value@.take(it.index());
        assert(value@.take(it.index() + 1).drop_last() == prefix);
        let v = c as u32;
        if v < 0x10000 {
            units.push(v as u16);
        } else {
            let offset = v - 0x10000;
            units.push((0xD800 + offset / 0x400) as u16);
            units.push((0xDC00 + offset % 0x400) as u16);
        }
    }
    assert(value@.take(value@.len() as int) == value@);
    units.push(0u16);
    units
}

} // verus!
