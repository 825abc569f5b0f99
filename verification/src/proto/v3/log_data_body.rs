//! The content of a log body.
use super::{JsonLog, TextLog, YamlLog};
use vstd::prelude::*;

verus! {

/// The content of a log, by its format.
#[derive(Debug, PartialEq)]
pub enum Content {
    Text(TextLog),
    Json(JsonLog),
    Yaml(YamlLog),
}

/// The view of a [Content]: its format and its text.
pub enum ContentView {
    Text(Seq<char>),
    Json(Seq<char>),
    Yaml(Seq<char>),
}

impl View for Content {
    type V = ContentView;

    open spec fn view(&self) -> ContentView {
        match self {
            Content::Text(t) => ContentView::Text(t.text@),
            Content::Json(j) => ContentView::Json(j.json@),
            Content::Yaml(y) => ContentView::Yaml(y.yaml@),
        }
    }
}

} // verus!
