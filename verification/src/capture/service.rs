use vstd::prelude::*;

use crate::capture::loader::LoadError;
use crate::text::concat_strs;

verus! {

/// Why a capture through the screenshot portal failed.
#[derive(Debug, PartialEq, Eq)]
pub enum CaptureError {
    PortalUnavailable(String),
    PortalCancelled,
    ImageLoadFailed(String),
}

/// Captures screenshots through the desktop portal.
pub struct CaptureService;

/// The message a failed load of a captured screenshot reports.
pub open spec fn load_error_text(e: LoadError) -> Seq<char> {
    match e {
        LoadError::FileNotFound(p) => "file not found: "@ + p@,
        LoadError::UnsupportedFormat(p) => "unsupported format: "@ + p@,
        LoadError::DecodeFailed(m) => m@,
        LoadError::InvalidUri(m) => m@,
    }
}

/// Turns a failed load of the captured file into a capture error.
pub fn load_error_message(error: LoadError) -> (r: CaptureError)
    ensures
        r matches CaptureError::ImageLoadFailed(m) && m@ == load_error_text(error),
{
    let message = match error {
        LoadError::FileNotFound(path) => concat_strs("file not found: ", path.as_str()),
        LoadError::UnsupportedFormat(path) => concat_strs("unsupported format: ", path.as_str()),
        LoadError::DecodeFailed(message) => message,
        LoadError::InvalidUri(message) => message,
    };
    CaptureError::ImageLoadFailed(message)
}

/// The outcome of a capture whose portal reply named `uri`: an empty URI
/// means nothing was captured, and no load is attempted (`load` is not
/// called); otherwise the image `load` reads from the URI, or the load
/// failure as [`CaptureError::ImageLoadFailed`].
pub fn process_portal_uri<T, F: FnOnce(&str) -> Result<T, LoadError>>(uri: &str, load: F) -> (r: Result<Option<T>, CaptureError>)
    requires
        uri@.len() > 0 ==> call_requires(load, (uri,)),
    ensures
        uri@.len() == 0 ==> r matches Ok(None),
        uri@.len() > 0 ==> (exists|res: Result<T, LoadError>| {
            &&& call_ensures(load, (uri,), res)
            &&& match res {
                Ok(image) => r == Ok::<Option<T>, CaptureError>(Some(image)),
                Err(e) => r matches Err(CaptureError::ImageLoadFailed(m)) && m@ == load_error_text(e),
            }
        }),
{
    if uri.is_empty() {
        return Ok(None);
    }
    match load(uri) {
        Ok(image) => Ok(Some(image)),
        Err(e) => Err(load_error_message(e)),
    }
}

} // verus!
