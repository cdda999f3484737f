//! Identifiers of the receiver applications that the library knows by name.

use vstd::prelude::*;

verus! {

/// The id of the Backdrop (idle screen) application.
pub const BACKDROP_ID: &'static str = "E8C28D3C";

/// The id of the default media receiver.
pub const DEFAULT_MEDIA_ID: &'static str = "CC1AD845";

/// The id of the YouTube receiver.
pub const YOUTUBE_ID: &'static str = "233637DE";

/// The id of the companion application that displays a web page.
pub const WEBVIEW_ID: &'static str = "209991B4";

/// The message namespace on which the web page application listens.
pub const WEBVIEW_NAMESPACE: &'static str = "urn:x-cast:uk.co.ecksdee";

} // verus!
