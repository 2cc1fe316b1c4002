//! The types of the `raw-window-handle` crate through which this crate hands
//! out, or refuses to hand out, native window and display handles.

use raw_window_handle::{DisplayHandle, HandleError, WindowHandle};
use vstd::prelude::*;

verus! {

/// `raw_window_handle::HandleError`. Its two variants carry no data, so the
/// declaration lets contracts name the variant that a refusal reports.
#[verifier::external_type_specification]
pub struct ExHandleError(HandleError);

/// `raw_window_handle::WindowHandle`, a borrowed native window handle; opaque here.
#[verifier::external_type_specification]
#[verifier::external_body]
pub struct ExWindowHandle<'a>(WindowHandle<'a>);

/// `raw_window_handle::DisplayHandle`, a borrowed native display handle; opaque here.
#[verifier::external_type_specification]
#[verifier::external_body]
pub struct ExDisplayHandle<'a>(DisplayHandle<'a>);

} // verus!
