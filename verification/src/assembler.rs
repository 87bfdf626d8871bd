//! The steps by which a dataset is put together from texts that somebody
//! else fetches: from the text behind a known URL, or by way of the catalog,
//! which names the URL of the latest dataset.
//!
//! The assembler fetches nothing itself. It says what to fetch next, is handed
//! the text, and says what follows from it.

use crate::catalog::{latest_url_from, latest_url_in, CatalogError, CatalogErrorView};
use crate::json::{parsed_text, read_view, Json, JsonView, SyntaxError};
use crate::wire::{document, read_document, FromJson, ParseError, ParseErrorView};
use vstd::prelude::*;

verus! {

/// What the text that is being fetched holds.
#[derive(Clone, Copy, Debug, PartialEq, Eq, Structural)]
pub enum Stage {
    /// The catalog, in which the latest dataset is to be looked up.
    Catalog,
    /// The dataset.
    Dataset,
}

/// Why no dataset came of the texts.
#[derive(Clone, Debug, PartialEq, Eq)]
pub enum AssemblyError {
    /// The catalog could not be read, or lists no dataset.
    Catalog(CatalogError),
    /// The dataset could not be read.
    Dataset(ParseError),
}

/// What an [`AssemblyError`] stands for in contracts.
pub enum AssemblyErrorView {
    Catalog(CatalogErrorView),
    Dataset(ParseErrorView),
}

impl View for AssemblyError {
    type V = AssemblyErrorView;

    open spec fn view(&self) -> AssemblyErrorView {
        match self {
            AssemblyError::Catalog(e) => AssemblyErrorView::Catalog(e@),
            AssemblyError::Dataset(e) => AssemblyErrorView::Dataset(e@),
        }
    }
}

/// What is to happen next.
#[derive(Debug, PartialEq, Eq)]
pub enum Next<T> {
    /// The text behind the URL is to be fetched and handed in at the stage.
    Fetch(String, Stage),
    /// The dataset is there.
    Done(T),
    /// No dataset will come.
    Failed(AssemblyError),
}

/// What a [`Next`] stands for in contracts.
pub enum NextView<V> {
    Fetch(Seq<char>, Stage),
    Done(V),
    Failed(AssemblyErrorView),
}

/// What is to happen next, with dataset, URL and error taken by their views.
pub open spec fn next_view<T: DeepView>(next: Next<T>) -> NextView<T::V> {
    match next {
        Next::Fetch(url, stage) => NextView::Fetch(url@, stage),
        Next::Done(data) => NextView::Done(data.deep_view()),
        Next::Failed(e) => NextView::Failed(e@),
    }
}

/// What follows from a text that was fetched at a stage, given the document
/// that the text holds. A catalog leads to the fetch of its latest dataset, a
/// dataset to the end; a text that cannot be read, and a catalog that lists
/// nothing, lead to failure.
pub open spec fn advanced<T: FromJson>(
    stage: Stage,
    parsed: Result<JsonView, SyntaxError>,
) -> NextView<T::V> {
    match stage {
        Stage::Catalog => match latest_url_in(parsed) {
            Ok(url) => NextView::Fetch(url, Stage::Dataset),
            Err(e) => NextView::Failed(AssemblyErrorView::Catalog(e)),
        },
        Stage::Dataset => match document::<T>(parsed) {
            Ok(data) => NextView::Done(data),
            Err(e) => NextView::Failed(AssemblyErrorView::Dataset(e)),
        },
    }
}

/// Begins with the dataset behind a known URL.
pub fn start_with_url<T: FromJson>(url: &str) -> (next: Next<T>)
    ensures
        next_view(next) == NextView::<T::V>::Fetch(url@, Stage::Dataset),
{
    Next::Fetch(url.to_owned(), Stage::Dataset)
}

/// Begins with the catalog behind a URL, to go on with its latest dataset.
pub fn start_with_catalog<T: FromJson>(catalog_url: &str) -> (next: Next<T>)
    ensures
        next_view(next) == NextView::<T::V>::Fetch(catalog_url@, Stage::Catalog),
{
    Next::Fetch(catalog_url.to_owned(), Stage::Catalog)
}

/// Says what follows from a text that was fetched at a stage and has been
/// read as JSON.
pub fn advance_from<T: FromJson>(stage: Stage, parsed: Result<Json, SyntaxError>) -> (next: Next<T>)
    ensures
        next_view(next) == advanced::<T>(stage, read_view(parsed)),
{
    match stage {
        Stage::Catalog => match latest_url_from(parsed) {
            Ok(url) => Next::Fetch(url, Stage::Dataset),
            Err(e) => Next::Failed(AssemblyError::Catalog(e)),
        },
        Stage::Dataset => match read_document::<T>(parsed) {
            Ok(data) => Next::Done(data),
            Err(e) => Next::Failed(AssemblyError::Dataset(e)),
        },
    }
}

/// Says what follows from a text that was fetched at a stage.
pub fn advance<T: FromJson>(stage: Stage, text: &str) -> (next: Next<T>)
    ensures
        next_view(next) == advanced::<T>(stage, parsed_text(text@)),
{
    advance_from(stage, Json::parse(text))
}

/// Nothing is fetched after a dataset, and nothing but a dataset after a
/// catalog: an assembly ends after two texts at most.
pub proof fn lemma_two_texts_at_most<T: FromJson>(
    stage: Stage,
    parsed: Result<JsonView, SyntaxError>,
)
    ensures
        stage == Stage::Dataset ==> !(advanced::<T>(stage, parsed) is Fetch),
        advanced::<T>(stage, parsed) is Fetch ==> advanced::<T>(stage, parsed)->Fetch_1
            == Stage::Dataset,
{
}

} // verus!
