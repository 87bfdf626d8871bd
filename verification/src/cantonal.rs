//! The cantonal dataset of a voting day: for every canton the issues put
//! to its own voters.

use crate::geo::{
    communes_of, constituencies_of, districts_of, lemma_one_of, put_subdivisions,
    read_subdivisions, subdivisions_decoded, Commune, District, Subdivisions, SubdivisionsView,
};
use crate::json::{
    lemma_object_view, members_view, parsed_text, put_member, rendered_json, Json, JsonView,
};
use crate::outcome::Outcome;
use crate::title::{find_title, title_in, IssueTitle, IssueTitleView, Lang};
use crate::wire::{
    document, fail, lemma_optional_round_trip, optional, optional_encoded, optional_member,
    optional_to_json, parse, parsed_view, required, required_member, Fault, FieldError,
    FieldErrorView, FromJson, ParseError, ToJson,
};
use vstd::prelude::*;

verus! {

/// Where the catalog of the cantonal datasets is published.
pub const CATALOG_URL: &'static str =
    "https://ckan.opendata.swiss/api/3/action/package_show?id=echtzeitdaten-am-abstimmungstag-zu-kantonalen-abstimmungsvorlagen";

/// A question put to the vote of one canton, with its result and breakdown.
#[derive(Clone, Debug, PartialEq, Eq)]
pub struct Issue {
    pub issue_id: u32,
    pub display_order: u32,
    pub issue_title: Vec<IssueTitle>,
    pub issue_completed: bool,
    pub issue_accepted: bool,
    pub issue_type_id: u32,
    /// The issue that this one belongs to, if any.
    pub main_issue_id: Option<u32>,
    pub outcome: Outcome,
    pub subdivisions: Subdivisions,
}

/// What an [`Issue`] stands for in contracts.
pub struct IssueView {
    pub issue_id: u32,
    pub display_order: u32,
    pub issue_title: Seq<IssueTitleView>,
    pub issue_completed: bool,
    pub issue_accepted: bool,
    pub issue_type_id: u32,
    pub main_issue_id: Option<u32>,
    pub outcome: Outcome,
    pub subdivisions: SubdivisionsView,
}

impl View for Issue {
    type V = IssueView;

    open spec fn view(&self) -> IssueView {
        IssueView {
            issue_id: self.issue_id,
            display_order: self.display_order,
            issue_title: self.issue_title.deep_view(),
            issue_completed: self.issue_completed,
            issue_accepted: self.issue_accepted,
            issue_type_id: self.issue_type_id,
            main_issue_id: self.main_issue_id.deep_view(),
            outcome: self.outcome@,
            subdivisions: self.subdivisions@,
        }
    }
}

impl DeepView for Issue {
    type V = IssueView;

    open spec fn deep_view(&self) -> IssueView {
        self@
    }
}

impl FromJson for Issue {
    open spec fn decoded(json: JsonView) -> Result<IssueView, FieldErrorView> {
        match json {
            JsonView::Object(m) => {
                let issue_id = required::<u32>(m, "vorlagenId"@);
                let display_order = required::<u32>(m, "reihenfolgeAnzeige"@);
                let issue_title = required::<Vec<IssueTitle>>(m, "vorlagenTitel"@);
                let issue_completed = required::<bool>(m, "vorlageBeendet"@);
                let issue_accepted = required::<bool>(m, "vorlageAngenommen"@);
                let issue_type_id = required::<u32>(m, "vorlagenArtId"@);
                let main_issue_id = optional::<u32>(m, "hauptvorlagenId"@);
                let outcome = required::<Outcome>(m, "resultat"@);
                let subdivisions = subdivisions_decoded(m);
                if issue_id is Err {
                    Err(issue_id->Err_0)
                } else if display_order is Err {
                    Err(display_order->Err_0)
                } else if issue_title is Err {
                    Err(issue_title->Err_0)
                } else if issue_completed is Err {
                    Err(issue_completed->Err_0)
                } else if issue_accepted is Err {
                    Err(issue_accepted->Err_0)
                } else if issue_type_id is Err {
                    Err(issue_type_id->Err_0)
                } else if main_issue_id is Err {
                    Err(main_issue_id->Err_0)
                } else if outcome is Err {
                    Err(outcome->Err_0)
                } else if subdivisions is Err {
                    Err(subdivisions->Err_0)
                } else {
                    Ok(
                        IssueView {
                            issue_id: issue_id->Ok_0,
                            display_order: display_order->Ok_0,
                            issue_title: issue_title->Ok_0,
                            issue_completed: issue_completed->Ok_0,
                            issue_accepted: issue_accepted->Ok_0,
                            issue_type_id: issue_type_id->Ok_0,
                            main_issue_id: main_issue_id->Ok_0,
                            outcome: outcome->Ok_0,
                            subdivisions: subdivisions->Ok_0,
                        },
                    )
                }
            },
            _ => Err(fail(Fault::Mismatch)),
        }
    }

    fn from_json(json: &Json) -> (read: Result<Issue, FieldError>) {
        match json {
            Json::Object(m) => {
                proof {
                    lemma_object_view(*m);
                }
                let issue_id = required_member::<u32>(m, "vorlagenId")?;
                let display_order = required_member::<u32>(m, "reihenfolgeAnzeige")?;
                let issue_title = required_member::<Vec<IssueTitle>>(m, "vorlagenTitel")?;
                let issue_completed = required_member::<bool>(m, "vorlageBeendet")?;
                let issue_accepted = required_member::<bool>(m, "vorlageAngenommen")?;
                let issue_type_id = required_member::<u32>(m, "vorlagenArtId")?;
                let main_issue_id = optional_member::<u32>(m, "hauptvorlagenId")?;
                let outcome = required_member::<Outcome>(m, "resultat")?;
                let subdivisions = read_subdivisions(m)?;
                Ok(
                    Issue {
                        issue_id,
                        display_order,
                        issue_title,
                        issue_completed,
                        issue_accepted,
                        issue_type_id,
                        main_issue_id,
                        outcome,
                        subdivisions,
                    },
                )
            },
            _ => Err(FieldError::new(Fault::Mismatch)),
        }
    }
}

impl ToJson for Issue {
    open spec fn encoded(value: IssueView) -> JsonView {
        JsonView::Object(
            map![
                "vorlagenId"@ => u32::encoded(value.issue_id),
                "reihenfolgeAnzeige"@ => u32::encoded(value.display_order),
                "vorlagenTitel"@ => Vec::<IssueTitle>::encoded(value.issue_title),
                "vorlageBeendet"@ => bool::encoded(value.issue_completed),
                "vorlageAngenommen"@ => bool::encoded(value.issue_accepted),
                "vorlagenArtId"@ => u32::encoded(value.issue_type_id),
                "hauptvorlagenId"@ => optional_encoded::<u32>(value.main_issue_id),
                "resultat"@ => Outcome::encoded(value.outcome),
                "bezirke"@ => optional_encoded::<Vec<District>>(districts_of(value.subdivisions)),
                "gemeinden"@ => optional_encoded::<Vec<Commune>>(communes_of(value.subdivisions)),
                "zaehlkreise"@ => optional_encoded::<Vec<Commune>>(
                    constituencies_of(value.subdivisions),
                ),
            ],
        )
    }

    fn to_json(&self) -> (json: Json) {
        let mut m: Vec<(String, Json)> = Vec::new();
        assert(members_view(m@) =~= Map::empty());
        put_member(&mut m, "vorlagenId", self.issue_id.to_json());
        put_member(&mut m, "reihenfolgeAnzeige", self.display_order.to_json());
        put_member(&mut m, "vorlagenTitel", self.issue_title.to_json());
        put_member(&mut m, "vorlageBeendet", self.issue_completed.to_json());
        put_member(&mut m, "vorlageAngenommen", self.issue_accepted.to_json());
        put_member(&mut m, "vorlagenArtId", self.issue_type_id.to_json());
        put_member(&mut m, "hauptvorlagenId", optional_to_json::<u32>(&self.main_issue_id));
        put_member(&mut m, "resultat", self.outcome.to_json());
        put_subdivisions(&mut m, &self.subdivisions);
        proof {
            lemma_object_view(m);
        }
        Json::Object(m)
    }

    proof fn lemma_round_trip(value: IssueView) {
        // The names are told apart by their lengths, and those of one length by a
        // letter.
        reveal_strlit("vorlagenId");
        reveal_strlit("reihenfolgeAnzeige");
        reveal_strlit("vorlagenTitel");
        reveal_strlit("vorlageBeendet");
        reveal_strlit("vorlageAngenommen");
        reveal_strlit("vorlagenArtId");
        reveal_strlit("hauptvorlagenId");
        reveal_strlit("resultat");
        reveal_strlit("bezirke");
        reveal_strlit("gemeinden");
        reveal_strlit("zaehlkreise");
        assert("vorlagenId"@.len() == 10);
        assert("reihenfolgeAnzeige"@.len() == 18);
        assert("vorlagenTitel"@.len() == 13);
        assert("vorlageBeendet"@.len() == 14);
        assert("vorlageAngenommen"@.len() == 17);
        assert("vorlagenArtId"@.len() == 13);
        assert("hauptvorlagenId"@.len() == 15);
        assert("resultat"@.len() == 8);
        assert("bezirke"@.len() == 7);
        assert("gemeinden"@.len() == 9);
        assert("zaehlkreise"@.len() == 11);
        assert("vorlagenTitel"@[8] != "vorlagenArtId"@[8]);
        Vec::<IssueTitle>::lemma_round_trip(value.issue_title);
        lemma_optional_round_trip::<u32>(value.main_issue_id);
        Outcome::lemma_round_trip(value.outcome);
        lemma_optional_round_trip::<Vec<District>>(districts_of(value.subdivisions));
        lemma_optional_round_trip::<Vec<Commune>>(communes_of(value.subdivisions));
        lemma_optional_round_trip::<Vec<Commune>>(constituencies_of(value.subdivisions));
        lemma_one_of(value.subdivisions);
    }
}

impl Issue {
    /// The title in the given language: the text of the first title in that
    /// language that is not blank, if there is one.
    pub fn get_title(&self, lang: Lang) -> (title: Option<&str>)
        ensures
            match title {
                Some(text) => title_in(self@.issue_title, lang) == Some(text@),
                None => title_in(self@.issue_title, lang) is None,
            },
    {
        find_title(&self.issue_title, lang)
    }
}

/// A canton with the issues put to its voters.
#[derive(Clone, Debug, PartialEq, Eq)]
pub struct Canton {
    pub geo_levelnumber: u8,
    pub geo_levelname: String,
    pub no_infos_yet: bool,
    pub issues: Vec<Issue>,
}

/// What a [`Canton`] stands for in contracts.
pub struct CantonView {
    pub geo_levelnumber: u8,
    pub geo_levelname: Seq<char>,
    pub no_infos_yet: bool,
    pub issues: Seq<IssueView>,
}

impl View for Canton {
    type V = CantonView;

    open spec fn view(&self) -> CantonView {
        CantonView {
            geo_levelnumber: self.geo_levelnumber,
            geo_levelname: self.geo_levelname@,
            no_infos_yet: self.no_infos_yet,
            issues: self.issues.deep_view(),
        }
    }
}

impl DeepView for Canton {
    type V = CantonView;

    open spec fn deep_view(&self) -> CantonView {
        self@
    }
}

impl FromJson for Canton {
    open spec fn decoded(json: JsonView) -> Result<CantonView, FieldErrorView> {
        match json {
            JsonView::Object(m) => {
                let geo_levelnumber = required::<u8>(m, "geoLevelnummer"@);
                let geo_levelname = required::<String>(m, "geoLevelname"@);
                let no_infos_yet = required::<bool>(m, "nochKeineInformation"@);
                let issues = required::<Vec<Issue>>(m, "vorlagen"@);
                if geo_levelnumber is Err {
                    Err(geo_levelnumber->Err_0)
                } else if geo_levelname is Err {
                    Err(geo_levelname->Err_0)
                } else if no_infos_yet is Err {
                    Err(no_infos_yet->Err_0)
                } else if issues is Err {
                    Err(issues->Err_0)
                } else {
                    Ok(
                        CantonView {
                            geo_levelnumber: geo_levelnumber->Ok_0,
                            geo_levelname: geo_levelname->Ok_0,
                            no_infos_yet: no_infos_yet->Ok_0,
                            issues: issues->Ok_0,
                        },
                    )
                }
            },
            _ => Err(fail(Fault::Mismatch)),
        }
    }

    fn from_json(json: &Json) -> (read: Result<Canton, FieldError>) {
        match json {
            Json::Object(m) => {
                proof {
                    lemma_object_view(*m);
                }
                let geo_levelnumber = required_member::<u8>(m, "geoLevelnummer")?;
                let geo_levelname = required_member::<String>(m, "geoLevelname")?;
                let no_infos_yet = required_member::<bool>(m, "nochKeineInformation")?;
                let issues = required_member::<Vec<Issue>>(m, "vorlagen")?;
                Ok(Canton { geo_levelnumber, geo_levelname, no_infos_yet, issues })
            },
            _ => Err(FieldError::new(Fault::Mismatch)),
        }
    }
}

impl ToJson for Canton {
    open spec fn encoded(value: CantonView) -> JsonView {
        JsonView::Object(
            map![
                "geoLevelnummer"@ => u8::encoded(value.geo_levelnumber),
                "geoLevelname"@ => String::encoded(value.geo_levelname),
                "nochKeineInformation"@ => bool::encoded(value.no_infos_yet),
                "vorlagen"@ => Vec::<Issue>::encoded(value.issues),
            ],
        )
    }

    fn to_json(&self) -> (json: Json) {
        let mut m: Vec<(String, Json)> = Vec::new();
        assert(members_view(m@) =~= Map::empty());
        put_member(&mut m, "geoLevelnummer", self.geo_levelnumber.to_json());
        put_member(&mut m, "geoLevelname", self.geo_levelname.to_json());
        put_member(&mut m, "nochKeineInformation", self.no_infos_yet.to_json());
        put_member(&mut m, "vorlagen", self.issues.to_json());
        proof {
            lemma_object_view(m);
        }
        Json::Object(m)
    }

    proof fn lemma_round_trip(value: CantonView) {
        // The names are told apart by their lengths.
        reveal_strlit("geoLevelnummer");
        reveal_strlit("geoLevelname");
        reveal_strlit("nochKeineInformation");
        reveal_strlit("vorlagen");
        assert("geoLevelnummer"@.len() == 14);
        assert("geoLevelname"@.len() == 12);
        assert("nochKeineInformation"@.len() == 20);
        assert("vorlagen"@.len() == 8);
        Vec::<Issue>::lemma_round_trip(value.issues);
    }
}

/// The cantonal dataset of one voting day.
#[derive(Clone, Debug, PartialEq, Eq)]
pub struct Data {
    /// The voting day.
    pub abstimmtag: String,
    /// When the dataset was published.
    pub timestamp: String,
    /// The cantons.
    pub kantone: Vec<Canton>,
}

/// What a [`Data`] stands for in contracts.
pub struct DataView {
    pub abstimmtag: Seq<char>,
    pub timestamp: Seq<char>,
    pub kantone: Seq<CantonView>,
}

impl View for Data {
    type V = DataView;

    open spec fn view(&self) -> DataView {
        DataView {
            abstimmtag: self.abstimmtag@,
            timestamp: self.timestamp@,
            kantone: self.kantone.deep_view(),
        }
    }
}

impl DeepView for Data {
    type V = DataView;

    open spec fn deep_view(&self) -> DataView {
        self@
    }
}

impl FromJson for Data {
    open spec fn decoded(json: JsonView) -> Result<DataView, FieldErrorView> {
        match json {
            JsonView::Object(m) => {
                let abstimmtag = required::<String>(m, "abstimmtag"@);
                let timestamp = required::<String>(m, "timestamp"@);
                let kantone = required::<Vec<Canton>>(m, "kantone"@);
                if abstimmtag is Err {
                    Err(abstimmtag->Err_0)
                } else if timestamp is Err {
                    Err(timestamp->Err_0)
                } else if kantone is Err {
                    Err(kantone->Err_0)
                } else {
                    Ok(
                        DataView {
                            abstimmtag: abstimmtag->Ok_0,
                            timestamp: timestamp->Ok_0,
                            kantone: kantone->Ok_0,
                        },
                    )
                }
            },
            _ => Err(fail(Fault::Mismatch)),
        }
    }

    fn from_json(json: &Json) -> (read: Result<Data, FieldError>) {
        match json {
            Json::Object(m) => {
                proof {
                    lemma_object_view(*m);
                }
                let abstimmtag = required_member::<String>(m, "abstimmtag")?;
                let timestamp = required_member::<String>(m, "timestamp")?;
                let kantone = required_member::<Vec<Canton>>(m, "kantone")?;
                Ok(Data { abstimmtag, timestamp, kantone })
            },
            _ => Err(FieldError::new(Fault::Mismatch)),
        }
    }
}

impl ToJson for Data {
    open spec fn encoded(value: DataView) -> JsonView {
        JsonView::Object(
            map![
                "abstimmtag"@ => String::encoded(value.abstimmtag),
                "timestamp"@ => String::encoded(value.timestamp),
                "kantone"@ => Vec::<Canton>::encoded(value.kantone),
            ],
        )
    }

    fn to_json(&self) -> (json: Json) {
        let mut m: Vec<(String, Json)> = Vec::new();
        assert(members_view(m@) =~= Map::empty());
        put_member(&mut m, "abstimmtag", self.abstimmtag.to_json());
        put_member(&mut m, "timestamp", self.timestamp.to_json());
        put_member(&mut m, "kantone", self.kantone.to_json());
        proof {
            lemma_object_view(m);
        }
        Json::Object(m)
    }

    proof fn lemma_round_trip(value: DataView) {
        // The names are told apart by their lengths.
        reveal_strlit("abstimmtag");
        reveal_strlit("timestamp");
        reveal_strlit("kantone");
        assert("abstimmtag"@.len() == 10);
        assert("timestamp"@.len() == 9);
        assert("kantone"@.len() == 7);
        Vec::<Canton>::lemma_round_trip(value.kantone);
    }
}

impl Data {
    /// Reads a cantonal dataset from its JSON text.
    pub fn parse(text: &str) -> (read: Result<Data, ParseError>)
        ensures
            parsed_view(read) == document::<Data>(parsed_text(text@)),
    {
        parse::<Data>(text)
    }

    /// Writes the dataset as JSON text.
    pub fn to_text(&self) -> (text: String)
        ensures
            text@ == rendered_json(Data::encoded(self@)),
    {
        self.to_json().render()
    }
}

/// A dataset that is written as a document and read back is the same
/// dataset.
pub proof fn lemma_data_round_trip(data: DataView)
    ensures
        Data::decoded(Data::encoded(data)) == Ok::<DataView, FieldErrorView>(data),
{
    Data::lemma_round_trip(data);
}

} // verus!
