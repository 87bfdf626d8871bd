//! The areas below a canton, and the one kind of them that a result is
//! broken down into.

use crate::json::{lemma_object_view, members_view, put_member, Json, JsonView};
use crate::outcome::Outcome;
use crate::wire::{
    decoded_view, fail, optional, optional_encoded, optional_member, required, required_member,
    under, Fault, FieldError, FieldErrorView, FromJson, Step, StepView, ToJson,
};
use vstd::prelude::*;

verus! {

/// A district with its outcome.
#[derive(Clone, Debug, PartialEq, Eq)]
pub struct District {
    pub geo_levelnumber: String,
    pub geo_levelname: String,
    pub outcome: Outcome,
}

/// What a [`District`] stands for in contracts.
pub struct DistrictView {
    pub geo_levelnumber: Seq<char>,
    pub geo_levelname: Seq<char>,
    pub outcome: Outcome,
}

/// A commune with its outcome and the number of the area it belongs to. A
/// constituency has the same shape.
#[derive(Clone, Debug, PartialEq, Eq)]
pub struct Commune {
    pub geo_levelnumber: String,
    pub geo_levelname: String,
    pub geo_level_parentnumber: String,
    pub outcome: Outcome,
}

/// What a [`Commune`] stands for in contracts.
pub struct CommuneView {
    pub geo_levelnumber: Seq<char>,
    pub geo_levelname: Seq<char>,
    pub geo_level_parentnumber: Seq<char>,
    pub outcome: Outcome,
}

/// The breakdown of a result below the canton: by one kind of area, or not at
/// all.
#[derive(Clone, Debug, PartialEq, Eq)]
pub enum Subdivisions {
    Districts(Vec<District>),
    Communes(Vec<Commune>),
    Constituencies(Vec<Commune>),
    /// The result is not broken down.
    Absent,
}

/// What a [`Subdivisions`] value stands for in contracts.
pub enum SubdivisionsView {
    Districts(Seq<DistrictView>),
    Communes(Seq<CommuneView>),
    Constituencies(Seq<CommuneView>),
    Absent,
}

impl View for District {
    type V = DistrictView;

    open spec fn view(&self) -> DistrictView {
        DistrictView {
            geo_levelnumber: self.geo_levelnumber@,
            geo_levelname: self.geo_levelname@,
            outcome: self.outcome,
        }
    }
}

impl DeepView for District {
    type V = DistrictView;

    open spec fn deep_view(&self) -> DistrictView {
        self@
    }
}

impl View for Commune {
    type V = CommuneView;

    open spec fn view(&self) -> CommuneView {
        CommuneView {
            geo_levelnumber: self.geo_levelnumber@,
            geo_levelname: self.geo_levelname@,
            geo_level_parentnumber: self.geo_level_parentnumber@,
            outcome: self.outcome,
        }
    }
}

impl DeepView for Commune {
    type V = CommuneView;

    open spec fn deep_view(&self) -> CommuneView {
        self@
    }
}

impl View for Subdivisions {
    type V = SubdivisionsView;

    open spec fn view(&self) -> SubdivisionsView {
        match self {
            Subdivisions::Districts(areas) => SubdivisionsView::Districts(areas.deep_view()),
            Subdivisions::Communes(areas) => SubdivisionsView::Communes(areas.deep_view()),
            Subdivisions::Constituencies(areas) => SubdivisionsView::Constituencies(
                areas.deep_view(),
            ),
            Subdivisions::Absent => SubdivisionsView::Absent,
        }
    }
}

impl DeepView for Subdivisions {
    type V = SubdivisionsView;

    open spec fn deep_view(&self) -> SubdivisionsView {
        self@
    }
}

impl FromJson for District {
    open spec fn decoded(json: JsonView) -> Result<DistrictView, FieldErrorView> {
        match json {
            JsonView::Object(m) => {
                let geo_levelnumber = required::<String>(m, "geoLevelnummer"@);
                let geo_levelname = required::<String>(m, "geoLevelname"@);
                let outcome = required::<Outcome>(m, "resultat"@);
                if geo_levelnumber is Err {
                    Err(geo_levelnumber->Err_0)
                } else if geo_levelname is Err {
                    Err(geo_levelname->Err_0)
                } else if outcome is Err {
                    Err(outcome->Err_0)
                } else {
                    Ok(
                        DistrictView {
                            geo_levelnumber: geo_levelnumber->Ok_0,
                            geo_levelname: geo_levelname->Ok_0,
                            outcome: outcome->Ok_0,
                        },
                    )
                }
            },
            _ => Err(fail(Fault::Mismatch)),
        }
    }

    fn from_json(json: &Json) -> (read: Result<District, FieldError>) {
        match json {
            Json::Object(m) => {
                proof {
                    lemma_object_view(*m);
                }
                let geo_levelnumber = required_member::<String>(m, "geoLevelnummer")?;
                let geo_levelname = required_member::<String>(m, "geoLevelname")?;
                let outcome = required_member::<Outcome>(m, "resultat")?;
                Ok(District { geo_levelnumber, geo_levelname, outcome })
            },
            _ => Err(FieldError::new(Fault::Mismatch)),
        }
    }
}

impl ToJson for District {
    open spec fn encoded(value: DistrictView) -> JsonView {
        JsonView::Object(
            map![
                "geoLevelnummer"@ => String::encoded(value.geo_levelnumber),
                "geoLevelname"@ => String::encoded(value.geo_levelname),
                "resultat"@ => Outcome::encoded(value.outcome),
            ],
        )
    }

    fn to_json(&self) -> (json: Json) {
        let mut m: Vec<(String, Json)> = Vec::new();
        assert(members_view(m@) =~= Map::empty());
        put_member(&mut m, "geoLevelnummer", self.geo_levelnumber.to_json());
        put_member(&mut m, "geoLevelname", self.geo_levelname.to_json());
        put_member(&mut m, "resultat", self.outcome.to_json());
        proof {
            lemma_object_view(m);
        }
        Json::Object(m)
    }

    proof fn lemma_round_trip(value: DistrictView) {
        // The names are told apart by their lengths.
        reveal_strlit("geoLevelnummer");
        reveal_strlit("geoLevelname");
        reveal_strlit("resultat");
        assert("geoLevelnummer"@.len() == 14);
        assert("geoLevelname"@.len() == 12);
        assert("resultat"@.len() == 8);
        Outcome::lemma_round_trip(value.outcome);
    }
}

impl FromJson for Commune {
    open spec fn decoded(json: JsonView) -> Result<CommuneView, FieldErrorView> {
        match json {
            JsonView::Object(m) => {
                let geo_levelnumber = required::<String>(m, "geoLevelnummer"@);
                let geo_levelname = required::<String>(m, "geoLevelname"@);
                let geo_level_parentnumber = required::<String>(m, "geoLevelParentnummer"@);
                let outcome = required::<Outcome>(m, "resultat"@);
                if geo_levelnumber is Err {
                    Err(geo_levelnumber->Err_0)
                } else if geo_levelname is Err {
                    Err(geo_levelname->Err_0)
                } else if geo_level_parentnumber is Err {
                    Err(geo_level_parentnumber->Err_0)
                } else if outcome is Err {
                    Err(outcome->Err_0)
                } else {
                    Ok(
                        CommuneView {
                            geo_levelnumber: geo_levelnumber->Ok_0,
                            geo_levelname: geo_levelname->Ok_0,
                            geo_level_parentnumber: geo_level_parentnumber->Ok_0,
                            outcome: outcome->Ok_0,
                        },
                    )
                }
            },
            _ => Err(fail(Fault::Mismatch)),
        }
    }

    fn from_json(json: &Json) -> (read: Result<Commune, FieldError>) {
        match json {
            Json::Object(m) => {
                proof {
                    lemma_object_view(*m);
                }
                let geo_levelnumber = required_member::<String>(m, "geoLevelnummer")?;
                let geo_levelname = required_member::<String>(m, "geoLevelname")?;
                let geo_level_parentnumber = required_member::<String>(
                    m,
                    "geoLevelParentnummer",
                )?;
                let outcome = required_member::<Outcome>(m, "resultat")?;
                Ok(Commune { geo_levelnumber, geo_levelname, geo_level_parentnumber, outcome })
            },
            _ => Err(FieldError::new(Fault::Mismatch)),
        }
    }
}

impl ToJson for Commune {
    open spec fn encoded(value: CommuneView) -> JsonView {
        JsonView::Object(
            map![
                "geoLevelnummer"@ => String::encoded(value.geo_levelnumber),
                "geoLevelname"@ => String::encoded(value.geo_levelname),
                "geoLevelParentnummer"@ => String::encoded(value.geo_level_parentnumber),
                "resultat"@ => Outcome::encoded(value.outcome),
            ],
        )
    }

    fn to_json(&self) -> (json: Json) {
        let mut m: Vec<(String, Json)> = Vec::new();
        assert(members_view(m@) =~= Map::empty());
        put_member(&mut m, "geoLevelnummer", self.geo_levelnumber.to_json());
        put_member(&mut m, "geoLevelname", self.geo_levelname.to_json());
        put_member(&mut m, "geoLevelParentnummer", self.geo_level_parentnumber.to_json());
        put_member(&mut m, "resultat", self.outcome.to_json());
        proof {
            lemma_object_view(m);
        }
        Json::Object(m)
    }

    proof fn lemma_round_trip(value: CommuneView) {
        // The names are told apart by their lengths.
        reveal_strlit("geoLevelnummer");
        reveal_strlit("geoLevelname");
        reveal_strlit("geoLevelParentnummer");
        reveal_strlit("resultat");
        assert("geoLevelnummer"@.len() == 14);
        assert("geoLevelname"@.len() == 12);
        assert("geoLevelParentnummer"@.len() == 20);
        assert("resultat"@.len() == 8);
        Outcome::lemma_round_trip(value.outcome);
    }
}

/// The districts of a breakdown, if it is one by districts.
pub open spec fn districts_of(areas: SubdivisionsView) -> Option<Seq<DistrictView>> {
    match areas {
        SubdivisionsView::Districts(list) => Some(list),
        _ => None,
    }
}

/// The communes of a breakdown, if it is one by communes.
pub open spec fn communes_of(areas: SubdivisionsView) -> Option<Seq<CommuneView>> {
    match areas {
        SubdivisionsView::Communes(list) => Some(list),
        _ => None,
    }
}

/// The constituencies of a breakdown, if it is one by constituencies.
pub open spec fn constituencies_of(areas: SubdivisionsView) -> Option<Seq<CommuneView>> {
    match areas {
        SubdivisionsView::Constituencies(list) => Some(list),
        _ => None,
    }
}

/// The breakdown that three lists make, of which at most one may be there.
/// Where two are there, the later of them in the order districts, communes,
/// constituencies is in conflict.
pub open spec fn one_of(
    districts: Option<Seq<DistrictView>>,
    communes: Option<Seq<CommuneView>>,
    constituencies: Option<Seq<CommuneView>>,
) -> Result<SubdivisionsView, FieldErrorView> {
    match (districts, communes, constituencies) {
        (None, None, None) => Ok(SubdivisionsView::Absent),
        (Some(list), None, None) => Ok(SubdivisionsView::Districts(list)),
        (None, Some(list), None) => Ok(SubdivisionsView::Communes(list)),
        (None, None, Some(list)) => Ok(SubdivisionsView::Constituencies(list)),
        (Some(_), Some(_), _) => Err(under(StepView::Key("gemeinden"@), fail(Fault::Conflict))),
        (_, _, Some(_)) => Err(under(StepView::Key("zaehlkreise"@), fail(Fault::Conflict))),
    }
}

/// The breakdown that the members of an object hold under the names
/// `bezirke`, `gemeinden` and `zaehlkreise`.
pub open spec fn subdivisions_decoded(members: Map<Seq<char>, JsonView>) -> Result<
    SubdivisionsView,
    FieldErrorView,
> {
    let districts = optional::<Vec<District>>(members, "bezirke"@);
    let communes = optional::<Vec<Commune>>(members, "gemeinden"@);
    let constituencies = optional::<Vec<Commune>>(members, "zaehlkreise"@);
    if districts is Err {
        Err(districts->Err_0)
    } else if communes is Err {
        Err(communes->Err_0)
    } else if constituencies is Err {
        Err(constituencies->Err_0)
    } else {
        one_of(districts->Ok_0, communes->Ok_0, constituencies->Ok_0)
    }
}

/// Reads the breakdown out of the members of an object.
pub fn read_subdivisions(members: &Vec<(String, Json)>) -> (read: Result<Subdivisions, FieldError>)
    ensures
        decoded_view(read) == subdivisions_decoded(members_view(members@)),
{
    let districts = optional_member::<Vec<District>>(members, "bezirke")?;
    let communes = optional_member::<Vec<Commune>>(members, "gemeinden")?;
    let constituencies = optional_member::<Vec<Commune>>(members, "zaehlkreise")?;
    match (districts, communes, constituencies) {
        (None, None, None) => Ok(Subdivisions::Absent),
        (Some(list), None, None) => Ok(Subdivisions::Districts(list)),
        (None, Some(list), None) => Ok(Subdivisions::Communes(list)),
        (None, None, Some(list)) => Ok(Subdivisions::Constituencies(list)),
        (Some(_), Some(_), _) => Err(
            FieldError::new(Fault::Conflict).under(Step::Key("gemeinden")),
        ),
        (_, _, Some(_)) => Err(FieldError::new(Fault::Conflict).under(Step::Key("zaehlkreise"))),
    }
}

/// Adds the three members that hold a breakdown: the list that is there
/// under its name, and `null` under the other two.
pub fn put_subdivisions(members: &mut Vec<(String, Json)>, areas: &Subdivisions)
    ensures
        members_view(final(members)@) == members_view(old(members)@).insert(
            "bezirke"@,
            optional_encoded::<Vec<District>>(districts_of(areas@)),
        ).insert("gemeinden"@, optional_encoded::<Vec<Commune>>(communes_of(areas@))).insert(
            "zaehlkreise"@,
            optional_encoded::<Vec<Commune>>(constituencies_of(areas@)),
        ),
{
    let (districts, communes, constituencies) = match areas {
        Subdivisions::Districts(list) => (list.to_json(), Json::Null, Json::Null),
        Subdivisions::Communes(list) => (Json::Null, list.to_json(), Json::Null),
        Subdivisions::Constituencies(list) => (Json::Null, Json::Null, list.to_json()),
        Subdivisions::Absent => (Json::Null, Json::Null, Json::Null),
    };
    put_member(members, "bezirke", districts);
    put_member(members, "gemeinden", communes);
    put_member(members, "zaehlkreise", constituencies);
}

/// The three lists of a breakdown make the breakdown again.
pub proof fn lemma_one_of(areas: SubdivisionsView)
    ensures
        one_of(districts_of(areas), communes_of(areas), constituencies_of(areas)) == Ok::<
            SubdivisionsView,
            FieldErrorView,
        >(areas),
{
}

} // verus!
