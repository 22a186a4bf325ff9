use vstd::prelude::*;

verus! {

/// What an engine's web view reports.
#[derive(Debug)]
pub enum Event {
    TitleChanged(String),
    PageLoaded,
    ScriptMessage(String),
}

/// How an engine's web view is set up: a script run before each page, and
/// the function its events go to.
pub struct WebViewConfig<'a, HandleEvent> {
    preload_script: &'a str,
    handle_event_fn: HandleEvent,
}

/// A web view of an engine.
pub trait WebView {
}

} // verus!
