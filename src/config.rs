use vstd::prelude::*;

verus! {

/// Where the two services are reached.
#[derive(Debug)]
pub struct AppConfig {
    pub urls: UrlsConfig,
}

/// Base URLs of the translation service and of the flashcard service.
#[derive(Debug)]
pub struct UrlsConfig {
    pub libre_translate: String,
    pub anki: String,
}

} // verus!
