use voteinfo::cantonal;
use voteinfo::geo::{put_subdivisions, read_subdivisions, Commune, District, Subdivisions};
use voteinfo::json::Json;
use voteinfo::national;
use voteinfo::outcome::Outcome;
use voteinfo::title::{IssueTitle, Lang};
use voteinfo::json::{find_member, put_member};
use voteinfo::wire::{optional_to_json, FromJson, ToJson};

fn outcome(seed: u32) -> Outcome {
    Outcome {
        count_completed: seed % 2 == 0,
        yes_votes: seed,
        no_votes: seed.wrapping_mul(3),
        cast_ballot_papers: seed.wrapping_mul(5),
        eligible_voters: u32::MAX - seed,
    }
}

fn titles() -> Vec<IssueTitle> {
    vec![
        IssueTitle { lang: Lang::DE, text: "Änderung vom 17. März \"BVG\"".to_string() },
        IssueTitle { lang: Lang::FR, text: "Modification du 17 mars".to_string() },
        IssueTitle { lang: Lang::IT, text: "".to_string() },
        IssueTitle { lang: Lang::RM, text: "\t".to_string() },
        IssueTitle { lang: Lang::EN, text: "Amendment \\ of 17 March".to_string() },
    ]
}

fn district(n: u32) -> District {
    District {
        geo_levelnumber: n.to_string(),
        geo_levelname: format!("Bezirk {}", n),
        outcome: outcome(n),
    }
}

fn commune(n: u32) -> Commune {
    Commune {
        geo_levelnumber: n.to_string(),
        geo_levelname: format!("Gemeinde {}", n),
        geo_level_parentnumber: (n / 100).to_string(),
        outcome: outcome(n),
    }
}

fn all_subdivisions() -> Vec<Subdivisions> {
    vec![
        Subdivisions::Absent,
        Subdivisions::Districts(Vec::new()),
        Subdivisions::Districts(vec![district(101), district(102)]),
        Subdivisions::Communes(vec![commune(5001)]),
        Subdivisions::Constituencies(vec![commune(10261), commune(20261), commune(30261)]),
    ]
}

fn national_data() -> national::Data {
    let cantons: Vec<national::Canton> = all_subdivisions()
        .into_iter()
        .enumerate()
        .map(|(i, subdivisions)| national::Canton {
            geo_levelnumber: (i + 1).to_string(),
            geo_levelname: format!("Kanton {}", i + 1),
            outcome: outcome(i as u32),
            subdivisions,
        })
        .collect();
    let issue = |id: u32, text: Option<&str>, cantons: Vec<national::Canton>| national::Issue {
        issue_id: id,
        display_order: id % 7,
        issue_title: titles(),
        issue_completed: true,
        provisional: id % 2 == 0,
        issue_accepted: false,
        issue_type_id: 2,
        main_issue_id: id / 2,
        reserve_info_text: text.map(|t| t.to_string()),
        double_majority: id % 3 == 0,
        outcome_cantons: national::OutcomeCantons {
            yes_full_cantons: 12,
            no_full_cantons: 8,
            full_canton_count: 20,
            yes_half_cantons: 255,
            no_half_cantons: 0,
            half_canton_count: 6,
        },
        outcome: outcome(id),
        cantons,
    };
    national::Data {
        abstimmtag: "20240303".to_string(),
        timestamp: "2024-03-03T16:45:00".to_string(),
        country: national::Country {
            geo_levelnumber: 0,
            geo_levelname: "Schweiz".to_string(),
            no_infos_yet: false,
            issues: vec![
                issue(6650, None, cantons),
                issue(6660, Some("Nachzählung"), Vec::new()),
            ],
        },
    }
}

fn cantonal_data() -> cantonal::Data {
    let issues: Vec<cantonal::Issue> = all_subdivisions()
        .into_iter()
        .enumerate()
        .map(|(i, subdivisions)| cantonal::Issue {
            issue_id: 1000 + i as u32,
            display_order: i as u32,
            issue_title: if i % 2 == 0 { titles() } else { Vec::new() },
            issue_completed: i % 2 == 1,
            issue_accepted: i % 3 == 1,
            issue_type_id: 4,
            main_issue_id: if i == 0 { None } else { Some(1000) },
            outcome: outcome(77 * i as u32),
            subdivisions,
        })
        .collect();
    cantonal::Data {
        abstimmtag: "20240303".to_string(),
        timestamp: "2024-03-03T17:10:00".to_string(),
        kantone: vec![
            cantonal::Canton {
                geo_levelnumber: 1,
                geo_levelname: "Zürich".to_string(),
                no_infos_yet: false,
                issues,
            },
            cantonal::Canton {
                geo_levelnumber: 26,
                geo_levelname: "Jura".to_string(),
                no_infos_yet: true,
                issues: Vec::new(),
            },
        ],
    }
}

#[test]
fn national_data_survives_the_wire() {
    let data = national_data();
    let text = data.to_text();
    assert_eq!(national::Data::parse(&text), Ok(data));
}

#[test]
fn cantonal_data_survives_the_wire() {
    let data = cantonal_data();
    let text = data.to_text();
    assert_eq!(cantonal::Data::parse(&text), Ok(data));
}

#[test]
fn national_data_survives_as_a_document() {
    let data = national_data();
    assert_eq!(national::Data::from_json(&data.to_json()), Ok(data));
}

#[test]
fn cantonal_data_survives_as_a_document() {
    let data = cantonal_data();
    assert_eq!(cantonal::Data::from_json(&data.to_json()), Ok(data));
}

#[test]
fn written_text_is_stable() {
    let data = national_data();
    let text = data.to_text();
    let again = national::Data::parse(&text).unwrap().to_text();
    assert_eq!(text, again);
}

#[test]
fn outcome_is_written_under_the_published_names() {
    let o = Outcome {
        count_completed: true,
        yes_votes: 1,
        no_votes: 2,
        cast_ballot_papers: 3,
        eligible_voters: 4,
    };
    assert_eq!(
        o.to_json(),
        Json::Object(vec![
            ("gebietAusgezaehlt".to_string(), Json::Bool(true)),
            ("jaStimmenAbsolut".to_string(), Json::Number(Some(1))),
            ("neinStimmenAbsolut".to_string(), Json::Number(Some(2))),
            ("eingelegteStimmzettel".to_string(), Json::Number(Some(3))),
            ("anzahlStimmberechtigte".to_string(), Json::Number(Some(4))),
        ])
    );
    assert_eq!(
        o.to_json().render(),
        r#"{"anzahlStimmberechtigte":4,"eingelegteStimmzettel":3,"gebietAusgezaehlt":true,"jaStimmenAbsolut":1,"neinStimmenAbsolut":2}"#
    );
}

#[test]
fn title_is_written_with_its_language_code() {
    let title = IssueTitle { lang: Lang::RM, text: "Project".to_string() };
    assert_eq!(
        title.to_json(),
        Json::Object(vec![
            ("langKey".to_string(), Json::Text("rm".to_string())),
            ("text".to_string(), Json::Text("Project".to_string())),
        ])
    );
    assert_eq!(IssueTitle::from_json(&title.to_json()), Ok(title));
}

#[test]
fn national_issue_is_written_member_by_member() {
    let data = national_data();
    let issue = &data.country.issues[1];
    let names: Vec<String> = match issue.to_json() {
        Json::Object(members) => members.into_iter().map(|(name, _)| name).collect(),
        other => panic!("not an object: {:?}", other),
    };
    assert_eq!(
        names,
        vec![
            "vorlagenId",
            "reihenfolgeAnzeige",
            "vorlagenTitel",
            "vorlageBeendet",
            "provisorisch",
            "vorlageAngenommen",
            "vorlagenArtId",
            "hauptvorlagenId",
            "reserveInfoText",
            "doppeltesMehr",
            "staende",
            "resultat",
            "kantone",
        ]
    );
}

#[test]
fn breakdown_is_written_as_three_members() {
    let mut members = vec![("x".to_string(), Json::Null)];
    put_subdivisions(&mut members, &Subdivisions::Communes(vec![commune(1)]));
    assert_eq!(members.len(), 4);
    assert_eq!(members[1], ("bezirke".to_string(), Json::Null));
    assert_eq!(members[2].0, "gemeinden");
    assert_eq!(members[2].1, Json::Array(vec![commune(1).to_json()]));
    assert_eq!(members[3], ("zaehlkreise".to_string(), Json::Null));
    for subdivisions in all_subdivisions() {
        let mut members = Vec::new();
        put_subdivisions(&mut members, &subdivisions);
        assert_eq!(read_subdivisions(&members), Ok(subdivisions));
    }
}

#[test]
fn plain_values_are_written() {
    assert_eq!(true.to_json(), Json::Bool(true));
    assert_eq!(7u8.to_json(), Json::Number(Some(7)));
    assert_eq!(u32::MAX.to_json(), Json::Number(Some(4294967295)));
    assert_eq!("ä".to_string().to_json(), Json::Text("ä".to_string()));
    assert_eq!(
        vec![1u32, 2].to_json(),
        Json::Array(vec![Json::Number(Some(1)), Json::Number(Some(2))])
    );
    assert_eq!(optional_to_json::<u32>(&None), Json::Null);
    assert_eq!(optional_to_json::<u32>(&Some(3)), Json::Number(Some(3)));
    let mut members = Vec::new();
    put_member(&mut members, "a", Json::Null);
    put_member(&mut members, "b", Json::Bool(false));
    assert_eq!(
        members,
        vec![("a".to_string(), Json::Null), ("b".to_string(), Json::Bool(false))]
    );
    put_member(&mut members, "a", Json::Bool(true));
    assert_eq!(find_member(&members, "a"), Some(&Json::Bool(true)));
    assert_eq!(find_member(&members, "b"), Some(&Json::Bool(false)));
}
