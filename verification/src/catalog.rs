//! The catalog in which the datasets of the voting days are published, and
//! the choice of the latest of them.

use crate::json::{lemma_object_view, parsed_text, read_view, Json, JsonView, SyntaxError};
use crate::text::{
    lemma_bytes_le_total, lemma_bytes_le_transitive, text_le, text_precedes_or_equals,
};
use crate::wire::{
    document, fail, read_document, required, required_member, Fault, FieldError, FieldErrorView,
    FromJson, ParseError, ParseErrorView,
};
use vstd::prelude::*;
use vstd::utf8::encode_utf8;

verus! {

/// One published dataset: what it covers, and where it can be had.
#[derive(Clone, Debug, PartialEq, Eq)]
pub struct Resource {
    /// A label for the voting day, such as `2024-09-22`. Labels are compared as
    /// strings, so they must sort as the days do.
    pub coverage: String,
    pub url: String,
}

/// What a [`Resource`] stands for in contracts.
pub struct ResourceView {
    pub coverage: Seq<char>,
    pub url: Seq<char>,
}

impl View for Resource {
    type V = ResourceView;

    open spec fn view(&self) -> ResourceView {
        ResourceView {
            coverage: self.coverage@,
            url: self.url@,
        }
    }
}

impl DeepView for Resource {
    type V = ResourceView;

    open spec fn deep_view(&self) -> ResourceView {
        self@
    }
}

impl FromJson for Resource {
    open spec fn decoded(json: JsonView) -> Result<ResourceView, FieldErrorView> {
        match json {
            JsonView::Object(m) => {
                let coverage = required::<String>(m, "coverage"@);
                let url = required::<String>(m, "url"@);
                if coverage is Err {
                    Err(coverage->Err_0)
                } else if url is Err {
                    Err(url->Err_0)
                } else {
                    Ok(
                        ResourceView {
                            coverage: coverage->Ok_0,
                            url: url->Ok_0,
                        },
                    )
                }
            },
            _ => Err(fail(Fault::Mismatch)),
        }
    }

    fn from_json(json: &Json) -> (read: Result<Resource, FieldError>) {
        match json {
            Json::Object(m) => {
                proof {
                    lemma_object_view(*m);
                }
                let coverage = required_member::<String>(m, "coverage")?;
                let url = required_member::<String>(m, "url")?;
                Ok(Resource { coverage, url })
            },
            _ => Err(FieldError::new(Fault::Mismatch)),
        }
    }
}

/// The entry of the catalog with its datasets.
#[derive(Clone, Debug, PartialEq, Eq)]
pub struct Package {
    pub resources: Vec<Resource>,
}

/// What a [`Package`] stands for in contracts.
pub struct PackageView {
    pub resources: Seq<ResourceView>,
}

impl View for Package {
    type V = PackageView;

    open spec fn view(&self) -> PackageView {
        PackageView {
            resources: self.resources.deep_view(),
        }
    }
}

impl DeepView for Package {
    type V = PackageView;

    open spec fn deep_view(&self) -> PackageView {
        self@
    }
}

impl FromJson for Package {
    open spec fn decoded(json: JsonView) -> Result<PackageView, FieldErrorView> {
        match json {
            JsonView::Object(m) => {
                let resources = required::<Vec<Resource>>(m, "resources"@);
                if resources is Err {
                    Err(resources->Err_0)
                } else {
                    Ok(
                        PackageView {
                            resources: resources->Ok_0,
                        },
                    )
                }
            },
            _ => Err(fail(Fault::Mismatch)),
        }
    }

    fn from_json(json: &Json) -> (read: Result<Package, FieldError>) {
        match json {
            Json::Object(m) => {
                proof {
                    lemma_object_view(*m);
                }
                let resources = required_member::<Vec<Resource>>(m, "resources")?;
                Ok(Package { resources })
            },
            _ => Err(FieldError::new(Fault::Mismatch)),
        }
    }
}

/// The answer of the catalog to the question for one entry.
#[derive(Clone, Debug, PartialEq, Eq)]
pub struct Catalog {
    pub result: Package,
}

/// What a [`Catalog`] stands for in contracts.
pub struct CatalogView {
    pub result: PackageView,
}

impl View for Catalog {
    type V = CatalogView;

    open spec fn view(&self) -> CatalogView {
        CatalogView {
            result: self.result@,
        }
    }
}

impl DeepView for Catalog {
    type V = CatalogView;

    open spec fn deep_view(&self) -> CatalogView {
        self@
    }
}

impl FromJson for Catalog {
    open spec fn decoded(json: JsonView) -> Result<CatalogView, FieldErrorView> {
        match json {
            JsonView::Object(m) => {
                let result = required::<Package>(m, "result"@);
                if result is Err {
                    Err(result->Err_0)
                } else {
                    Ok(
                        CatalogView {
                            result: result->Ok_0,
                        },
                    )
                }
            },
            _ => Err(fail(Fault::Mismatch)),
        }
    }

    fn from_json(json: &Json) -> (read: Result<Catalog, FieldError>) {
        match json {
            Json::Object(m) => {
                proof {
                    lemma_object_view(*m);
                }
                let result = required_member::<Package>(m, "result")?;
                Ok(Catalog { result })
            },
            _ => Err(FieldError::new(Fault::Mismatch)),
        }
    }
}

/// Why no latest dataset could be named.
#[derive(Clone, Debug, PartialEq, Eq)]
pub enum CatalogError {
    /// The catalog could not be read.
    Parse(ParseError),
    /// The catalog lists no dataset.
    NoResourceFound,
}

/// What a [`CatalogError`] stands for in contracts.
pub enum CatalogErrorView {
    Parse(ParseErrorView),
    NoResourceFound,
}

impl View for CatalogError {
    type V = CatalogErrorView;

    open spec fn view(&self) -> CatalogErrorView {
        match self {
            CatalogError::Parse(e) => CatalogErrorView::Parse(e@),
            CatalogError::NoResourceFound => CatalogErrorView::NoResourceFound,
        }
    }
}

/// The resource at `i` is the latest: no label comes after its label, and it
/// is the last of the resources with that label.
pub open spec fn is_latest(resources: Seq<ResourceView>, i: int) -> bool {
    &&& 0 <= i < resources.len()
    &&& forall|j: int|
        0 <= j < resources.len() ==> text_le(
            (#[trigger] resources[j]).coverage,
            resources[i].coverage,
        )
    &&& forall|j: int|
        i < j < resources.len() ==> !text_le(
            resources[i].coverage,
            (#[trigger] resources[j]).coverage,
        )
}

/// The place of the latest resource in a list that is not empty.
pub open spec fn latest(resources: Seq<ResourceView>) -> int {
    choose|i: int| is_latest(resources, i)
}

/// The URL of the latest resource, or `NoResourceFound` for an empty list.
pub open spec fn latest_url_of(resources: Seq<ResourceView>) -> Result<
    Seq<char>,
    CatalogErrorView,
> {
    if resources.len() == 0 {
        Err(CatalogErrorView::NoResourceFound)
    } else {
        Ok(resources[latest(resources)].url)
    }
}

/// The URL of the latest resource that a catalog text lists, given the
/// document that the text holds.
pub open spec fn latest_url_in(parsed: Result<JsonView, SyntaxError>) -> Result<
    Seq<char>,
    CatalogErrorView,
> {
    match document::<Catalog>(parsed) {
        Err(e) => Err(CatalogErrorView::Parse(e)),
        Ok(catalog) => latest_url_of(catalog.result.resources),
    }
}

/// What the search for a URL came to, with URL and error taken by their views.
pub open spec fn url_view(found: Result<String, CatalogError>) -> Result<
    Seq<char>,
    CatalogErrorView,
> {
    match found {
        Ok(url) => Ok(url@),
        Err(e) => Err(e@),
    }
}

/// A list has at most one latest resource.
pub proof fn lemma_latest_unique(resources: Seq<ResourceView>, i: int, j: int)
    requires
        is_latest(resources, i),
        is_latest(resources, j),
    ensures
        i == j,
{
    if i < j {
        assert(text_le(resources[i].coverage, resources[j].coverage));
    } else if j < i {
        assert(text_le(resources[j].coverage, resources[i].coverage));
    }
}

/// A list that is not empty has a latest resource.
pub proof fn lemma_latest_exists(resources: Seq<ResourceView>)
    requires
        resources.len() > 0,
    ensures
        is_latest(resources, latest(resources)),
    decreases resources.len(),
{
    let n = resources.len() - 1;
    let last = encode_utf8(resources[n].coverage);
    lemma_bytes_le_total(last, last);
    if n == 0 {
        assert(is_latest(resources, 0));
    } else {
        let front = resources.drop_last();
        lemma_latest_exists(front);
        let p = latest(front);
        let top = encode_utf8(resources[p].coverage);
        assert(front[p] == resources[p]);
        if text_le(resources[p].coverage, resources[n].coverage) {
            assert forall|j: int| 0 <= j < resources.len() implies text_le(
                (#[trigger] resources[j]).coverage,
                resources[n].coverage,
            ) by {
                if j < n {
                    assert(front[j] == resources[j]);
                    lemma_bytes_le_transitive(encode_utf8(resources[j].coverage), top, last);
                }
            }
            assert(is_latest(resources, n));
        } else {
            lemma_bytes_le_total(top, last);
            assert forall|j: int| 0 <= j < resources.len() implies text_le(
                (#[trigger] resources[j]).coverage,
                resources[p].coverage,
            ) by {
                if j < n {
                    assert(front[j] == resources[j]);
                }
            }
            assert forall|j: int| p < j < resources.len() implies !text_le(
                resources[p].coverage,
                (#[trigger] resources[j]).coverage,
            ) by {
                if j < n {
                    assert(front[j] == resources[j]);
                }
            }
            assert(is_latest(resources, p));
        }
    }
}

/// Finds the latest resource: the one whose label comes last in the order of
/// strings, and of several with that label the last in the list.
pub fn latest_resource(resources: &Vec<Resource>) -> (found: Option<usize>)
    ensures
        match found {
            Some(i) => is_latest(resources.deep_view(), i as int) && i == latest(
                resources.deep_view(),
            ),
            None => resources.len() == 0,
        },
{
    if resources.len() == 0 {
        return None;
    }
    let ghost all = resources.deep_view();
    let mut best: usize = 0;
    let mut i: usize = 1;
    proof {
        lemma_bytes_le_total(encode_utf8(all[0].coverage), encode_utf8(all[0].coverage));
    }
    while i < resources.len()
        invariant
            1 <= i <= resources.len(),
            best < i,
            all == resources.deep_view(),
            forall|j: int|
                0 <= j < i ==> text_le((#[trigger] all[j]).coverage, all[best as int].coverage),
            forall|j: int|
                best < j < i ==> !text_le(all[best as int].coverage, (#[trigger] all[j]).coverage),
        decreases resources.len() - i,
    {
        assert(all[i as int] == resources[i as int]@);
        assert(all[best as int] == resources[best as int]@);
        if text_precedes_or_equals(
            resources[best].coverage.as_str(),
            resources[i].coverage.as_str(),
        ) {
            proof {
                let top = encode_utf8(all[i as int].coverage);
                let old_top = encode_utf8(all[best as int].coverage);
                assert forall|j: int| 0 <= j < i + 1 implies text_le(
                    (#[trigger] all[j]).coverage,
                    all[i as int].coverage,
                ) by {
                    if j < i {
                        lemma_bytes_le_transitive(encode_utf8(all[j].coverage), old_top, top);
                    } else {
                        lemma_bytes_le_total(top, top);
                    }
                }
            }
            best = i;
        } else {
            proof {
                lemma_bytes_le_total(
                    encode_utf8(all[best as int].coverage),
                    encode_utf8(all[i as int].coverage),
                );
            }
        }
        i += 1;
    }
    proof {
        assert(is_latest(all, best as int));
        lemma_latest_unique(all, best as int, latest(all));
    }
    Some(best)
}

/// Names the URL of the latest resource of a list.
pub fn latest_url(resources: &Vec<Resource>) -> (found: Result<String, CatalogError>)
    ensures
        url_view(found) == latest_url_of(resources.deep_view()),
        found is Ok <==> resources.len() > 0,
        found matches Ok(url) ==> exists|i: int|
            is_latest(resources.deep_view(), i) && url@ == resources.deep_view()[i].url,
{
    match latest_resource(resources) {
        Some(i) => {
            assert(resources.deep_view()[i as int] == resources[i as int]@);
            Ok(resources[i].url.clone())
        },
        None => Err(CatalogError::NoResourceFound),
    }
}

/// Names the URL of the latest dataset out of a catalog text that has been
/// read as JSON, or hands on why the text is not JSON.
pub fn latest_url_from(parsed: Result<Json, SyntaxError>) -> (found: Result<String, CatalogError>)
    ensures
        url_view(found) == latest_url_in(read_view(parsed)),
{
    match read_document::<Catalog>(parsed) {
        Err(e) => Err(CatalogError::Parse(e)),
        Ok(catalog) => latest_url(&catalog.result.resources),
    }
}

/// Names the URL of the latest dataset that a catalog text lists.
pub fn latest_url_in_text(text: &str) -> (found: Result<String, CatalogError>)
    ensures
        url_view(found) == latest_url_in(parsed_text(text@)),
{
    latest_url_from(Json::parse(text))
}

} // verus!
