//! The Brave Search API's JSON answers, field by field.
use vstd::prelude::*;

verus! {

#[derive(Debug)]
pub struct BraveWebResponse {
    pub query: Option<BraveQuery>,
    pub web: Option<BraveWebResults>,
}

#[derive(Debug)]
pub struct BraveQuery {
    pub original: Option<String>,
}

#[derive(Debug)]
pub struct BraveWebResults {
    pub results: Option<Vec<BraveWebResult>>,
    pub total: Option<u64>,
}

#[derive(Debug)]
pub struct BraveWebResult {
    pub title: Option<String>,
    pub url: Option<String>,
    pub description: Option<String>,
    pub display_url: Option<String>,
}

#[derive(Debug)]
pub struct BraveNewsResponse {
    pub query: Option<BraveQuery>,
    pub news: Option<BraveNewsResults>,
}

#[derive(Debug)]
pub struct BraveNewsResults {
    pub results: Option<Vec<BraveNewsResult>>,
}

#[derive(Debug)]
pub struct BraveNewsResult {
    pub title: Option<String>,
    pub url: Option<String>,
    pub description: Option<String>,
    pub source: Option<String>,
    pub age: Option<String>,
}

#[derive(Debug)]
pub struct BraveImagesResponse {
    pub query: Option<BraveQuery>,
    pub image_results: Option<Vec<BraveImageResult>>,
}

#[derive(Debug)]
pub struct BraveImageResult {
    pub title: Option<String>,
    pub url: Option<String>,
    pub thumbnail: Option<BraveThumbnail>,
    pub source: Option<String>,
}

#[derive(Debug)]
pub struct BraveThumbnail {
    pub src: Option<String>,
}

#[derive(Debug)]
pub struct BraveVideosResponse {
    pub query: Option<BraveQuery>,
    pub videos: Option<BraveVideosResults>,
}

#[derive(Debug)]
pub struct BraveVideosResults {
    pub results: Option<Vec<BraveVideoResult>>,
}

#[derive(Debug)]
pub struct BraveVideoResult {
    pub title: Option<String>,
    pub url: Option<String>,
    pub thumbnail: Option<BraveThumbnail>,
    pub duration: Option<String>,
    pub age: Option<String>,
}

} // verus!
