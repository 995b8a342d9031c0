use dtg_credentials::json::{locate, names_within, Slot};
use dtg_credentials::text::{copy_texts, holds_text};
use dtg_credentials::{
    CredentialSubject, CredentialSubjectBasic, DTGCommon, DTGCredential, DTGCredentialError,
    DTGCredentialType, FormatVersion, Json, Timestamp,
};

fn text(value: &str) -> Json {
    Json::Text(value.to_string())
}

fn member(name: &str, value: Json) -> (String, Json) {
    (name.to_string(), value)
}

fn texts(values: &[&str]) -> Vec<String> {
    values.iter().map(|value| value.to_string()).collect()
}

#[test]
fn json_text_is_read_into_a_tree() {
    let tree = Json::parse(r#"{"b": [1, true, null, "x"], "a": {"c": "d"}}"#).unwrap();
    let expected = Json::Record(vec![
        member(
            "b",
            Json::List(vec![
                Json::Number(serde_json::Number::from(1)),
                Json::Bool(true),
                Json::Null,
                text("x"),
            ]),
        ),
        member("a", Json::Record(vec![member("c", text("d"))])),
    ]);
    assert_eq!(tree, expected);
}

#[test]
fn json_text_that_is_no_json_is_refused() {
    let refused = Json::parse("{\"a\": ");
    assert!(matches!(refused, Err(DTGCredentialError::MalformedDocument(_))));
}

#[test]
fn a_name_read_twice_keeps_its_last_value() {
    let tree = Json::parse(r#"{"a": 1, "b": 2, "a": 3}"#).unwrap();
    let expected = Json::Record(vec![
        member("a", Json::Number(serde_json::Number::from(3))),
        member("b", Json::Number(serde_json::Number::from(2))),
    ]);
    assert_eq!(tree, expected);
}

#[test]
fn a_tree_is_written_in_the_order_of_its_members() {
    let tree = Json::Record(vec![
        member("z", text("last letter first")),
        member("a", Json::List(vec![Json::Null, Json::Bool(false)])),
    ]);
    assert_eq!(tree.to_text().unwrap(), r#"{"z":"last letter first","a":[null,false]}"#);
    assert_eq!(
        tree.to_text_pretty().unwrap(),
        "{\n  \"z\": \"last letter first\",\n  \"a\": [\n    null,\n    false\n  ]\n}"
    );
}

#[test]
fn a_tree_with_a_name_twice_is_not_written() {
    let tree = Json::List(vec![Json::Record(vec![
        member("a", Json::Null),
        member("b", Json::Null),
        member("a", Json::Null),
    ])]);
    assert!(!tree.is_unambiguous());
    assert!(matches!(tree.to_text(), Err(DTGCredentialError::MalformedDocument(_))));
    assert!(matches!(tree.to_text_pretty(), Err(DTGCredentialError::MalformedDocument(_))));
    assert!(tree.to_value().is_none());
}

#[test]
fn a_tree_goes_to_a_value_and_back() {
    let tree = Json::Record(vec![
        member("b", Json::Number(serde_json::Number::from(7))),
        member("a", Json::List(vec![text("x"), Json::Record(vec![])])),
    ]);
    assert!(tree.is_unambiguous());
    let value = tree.to_value().unwrap();
    assert_eq!(value["b"], serde_json::Value::from(7));
    assert_eq!(value["a"][0], serde_json::Value::from("x"));
    assert_eq!(Json::from_value(&value), tree);
    assert_eq!(tree.clone(), tree);
}

#[test]
fn members_are_located_by_name() {
    let members = vec![
        member("a", Json::Null),
        member("b", Json::Null),
        member("a", Json::Null),
        member("c", Json::Null),
    ];
    assert_eq!(locate(&members, "a"), Slot::Repeated);
    assert_eq!(locate(&members, "b"), Slot::At(1));
    assert_eq!(locate(&members, "c"), Slot::At(3));
    assert_eq!(locate(&members, "d"), Slot::Absent);
    assert!(names_within(&members, &["a", "b", "c"]));
    assert!(!names_within(&members, &["a", "b"]));
    assert!(names_within(&Vec::new(), &[]));
}

#[test]
fn texts_are_found_and_copied() {
    let items = texts(&["one", "two"]);
    assert!(holds_text(&items, "two"));
    assert!(!holds_text(&items, "tw"));
    assert!(!holds_text(&[], "two"));
    assert_eq!(copy_texts(&items), items);
}

#[test]
fn instants_are_written_to_the_second() {
    assert_eq!(Timestamp::new(0, 0).to_rfc3339(), Some("1970-01-01T00:00:00Z".to_string()));
    assert_eq!(
        Timestamp::new(1765411200, 0).to_rfc3339(),
        Some("2025-12-11T00:00:00Z".to_string())
    );
    assert_eq!(
        Timestamp::new(1765411200, 999_999_999).to_rfc3339(),
        Some("2025-12-11T00:00:00Z".to_string())
    );
    assert_eq!(Timestamp::new(-1, 0).to_rfc3339(), Some("1969-12-31T23:59:59Z".to_string()));
    assert_eq!(Timestamp::new(i64::MAX, 0).to_rfc3339(), None);
}

#[test]
fn instants_are_read_from_text() {
    assert_eq!(Timestamp::parse("2025-12-11T00:00:00Z"), Some(Timestamp::new(1765411200, 0)));
    assert_eq!(
        Timestamp::parse("2025-12-11T02:00:00.5+02:00"),
        Some(Timestamp::new(1765411200, 500_000_000))
    );
    assert_eq!(Timestamp::parse("2025-12-11 00:00:00Z"), Some(Timestamp::new(1765411200, 0)));
    assert_eq!(Timestamp::parse("2025-12-11"), None);
    assert_eq!(Timestamp::parse(""), None);
}

#[test]
fn whole_seconds_are_kept_by_text() {
    assert!(Timestamp::new(1765411200, 0).is_kept_by_text());
    assert!(!Timestamp::new(1765411200, 1).is_kept_by_text());
    assert!(!Timestamp::new(i64::MAX, 0).is_kept_by_text());
}

#[test]
fn now_is_after_the_year_2020() {
    assert!(Timestamp::now().seconds > 1_577_836_800);
}

#[test]
fn now_has_a_text() {
    let now = Timestamp::now();
    let text = now.to_rfc3339().unwrap();
    assert_eq!(text.len(), 20);
    assert!(text.ends_with('Z'));
    assert_eq!(Timestamp::parse(&text), Some(Timestamp::new(now.seconds, 0)));
}

#[test]
fn kinds_have_their_tags() {
    let all = [
        (DTGCredentialType::Community, "CommunityCredential"),
        (DTGCredentialType::Membership, "MembershipCredential"),
        (DTGCredentialType::Personhood, "PersonhoodCredential"),
        (DTGCredentialType::Relationship, "RelationshipCredential"),
        (DTGCredentialType::Invitation, "InvitationCredential"),
        (DTGCredentialType::Persona, "PersonaCredential"),
        (DTGCredentialType::Endorsement, "EndorsementCredential"),
        (DTGCredentialType::Witness, "WitnessCredential"),
        (DTGCredentialType::RCard, "RCardCredential"),
    ];
    for (rank, (kind, tag)) in all.iter().enumerate() {
        assert_eq!(kind.to_string(), *tag);
        assert_eq!(kind.tag_str(), *tag);
        assert_eq!(DTGCredentialType::ranked(rank), Some(*kind));
        assert_eq!(DTGCredentialType::try_from(texts(&["DTGCredential", tag]).as_slice()), Ok(*kind));
    }
    assert_eq!(DTGCredentialType::ranked(9), None);
}

#[test]
fn a_list_without_a_known_tag_declares_no_kind() {
    assert_eq!(
        DTGCredentialType::try_from(texts(&["VerifiableCredential", "DTGCredential"]).as_slice()),
        Err(DTGCredentialError::UnknownCredentialKind)
    );
    assert_eq!(DTGCredentialType::try_from(texts(&[]).as_slice()), Err(DTGCredentialError::UnknownCredentialKind));
    assert_eq!(
        DTGCredentialType::try_from(texts(&["communitycredential"]).as_slice()),
        Err(DTGCredentialError::UnknownCredentialKind)
    );
}

#[test]
fn of_two_kinds_the_first_of_the_registry_is_declared() {
    assert_eq!(
        DTGCredentialType::try_from(texts(&["RCardCredential", "WitnessCredential"]).as_slice()),
        Ok(DTGCredentialType::Witness)
    );
    assert_eq!(
        DTGCredentialType::try_from(texts(&["WitnessCredential", "RCardCredential"]).as_slice()),
        Ok(DTGCredentialType::Witness)
    );
    assert_eq!(
        DTGCredentialType::try_from(texts(&["PersonhoodCredential", "MembershipCredential"]).as_slice()),
        Ok(DTGCredentialType::Membership)
    );
    assert_eq!(
        DTGCredentialType::try_from(texts(&["PersonaCredential", "CommunityCredential"]).as_slice()),
        Ok(DTGCredentialType::Community)
    );
}

#[test]
fn versions_are_detected_from_the_context() {
    let legacy = "https://www.w3.org/2018/credentials/v1";
    let current = "https://www.w3.org/ns/credentials/v2";
    assert_eq!(FormatVersion::detect(&texts(&[legacy])), Ok(FormatVersion::V1));
    assert_eq!(FormatVersion::detect(&texts(&["x", current])), Ok(FormatVersion::V2));
    assert_eq!(FormatVersion::detect(&texts(&[current, legacy])), Ok(FormatVersion::V1));
    assert_eq!(
        FormatVersion::detect(&texts(&["https://firstperson.network/credentials/dtg/v1"])),
        Err(DTGCredentialError::UnknownFormatVersion)
    );
    assert_eq!(FormatVersion::detect(&[]), Err(DTGCredentialError::UnknownFormatVersion));
    assert_eq!(FormatVersion::V1.context_str(), legacy);
    assert_eq!(FormatVersion::V2.context_str(), current);
    assert_eq!(FormatVersion::V1.valid_from_str(), "issuanceDate");
    assert_eq!(FormatVersion::V1.valid_until_str(), "expirationDate");
    assert_eq!(FormatVersion::V2.valid_from_str(), "validFrom");
    assert_eq!(FormatVersion::V2.valid_until_str(), "validUntil");
}

#[test]
fn errors_have_their_words() {
    assert_eq!(DTGCredentialError::UnknownCredentialKind.message(), "Unknown credential type");
    assert_eq!(DTGCredentialError::UnknownFormatVersion.message(), "Unknown format version");
    assert_eq!(DTGCredentialError::MalformedSubject.message(), "Malformed credential subject");
    assert_eq!(DTGCredentialError::UnknownCredential.message(), "Unknown credential type");
    assert_eq!(DTGCredentialError::NotSigned.message(), "Credential is not signed");
    assert_eq!(
        DTGCredentialError::ProofProviderError("no key".to_string()).message(),
        "Proof provider error: no key"
    );
    assert_eq!(
        DTGCredentialError::MalformedDocument("no issuer".to_string()).to_string(),
        "Malformed document: no issuer"
    );
}

#[test]
fn the_default_envelope_is_blank() {
    let envelope = DTGCommon::default();
    assert_eq!(
        envelope.context,
        texts(&[
            "https://www.w3.org/ns/credentials/v2",
            "https://firstperson.network/credentials/dtg/v1"
        ])
    );
    assert_eq!(envelope.type_, texts(&["VerifiableCredential", "DTGCredential"]));
    assert_eq!(envelope.issuer(), "");
    assert_eq!(envelope.subject(), "");
    assert_eq!(envelope.valid_until(), None);
    assert!(!envelope.signed());
    assert!(matches!(envelope.credential_subject, CredentialSubject::Basic(_)));
    assert_eq!(
        DTGCredential::try_from(envelope).err(),
        Some(DTGCredentialError::UnknownCredentialKind)
    );
}

#[test]
fn an_envelope_is_written_and_read() {
    let envelope = DTGCommon {
        context: texts(&["https://www.w3.org/2018/credentials/v1"]),
        type_: texts(&["VerifiableCredential"]),
        issuer: "did:example:issuer".to_string(),
        valid_from: Timestamp::new(1765411200, 0),
        valid_until: Some(Timestamp::new(1765411260, 0)),
        credential_subject: CredentialSubject::Basic(CredentialSubjectBasic {
            id: "did:example:subject".to_string(),
        }),
        proof: None,
    };
    let document = envelope.to_document().unwrap();
    assert_eq!(
        document,
        Json::Record(vec![
            member("@context", Json::List(vec![text("https://www.w3.org/2018/credentials/v1")])),
            member("type", Json::List(vec![text("VerifiableCredential")])),
            member("issuer", text("did:example:issuer")),
            member("issuanceDate", text("2025-12-11T00:00:00Z")),
            member("expirationDate", text("2025-12-11T00:01:00Z")),
            member("credentialSubject", Json::Record(vec![member("id", text("did:example:subject"))])),
        ])
    );
    assert_eq!(envelope.to_unsigned_document().unwrap(), document);
    let read = DTGCommon::from_document(&document).unwrap();
    assert_eq!(read.context, envelope.context);
    assert_eq!(read.type_, envelope.type_);
    assert_eq!(read.issuer, envelope.issuer);
    assert_eq!(read.valid_from, envelope.valid_from);
    assert_eq!(read.valid_until, envelope.valid_until);
    assert_eq!(read.credential_subject, envelope.credential_subject);
    assert!(read.proof.is_none());
    let copy = envelope.clone();
    assert_eq!(copy.to_document().unwrap(), document);
}

#[test]
fn an_envelope_with_an_instant_out_of_the_calendar_is_not_written() {
    let mut envelope = DTGCommon::default();
    envelope.valid_from = Timestamp::new(i64::MAX, 0);
    assert!(matches!(envelope.to_document(), Err(DTGCredentialError::MalformedDocument(_))));
    envelope.valid_from = Timestamp::new(0, 0);
    envelope.valid_until = Some(Timestamp::new(i64::MIN, 0));
    assert!(matches!(envelope.to_document(), Err(DTGCredentialError::MalformedDocument(_))));
}

fn envelope_text(replace: (&str, &str)) -> String {
    let members = [
        ("@context", r#"["https://www.w3.org/ns/credentials/v2"]"#),
        ("type", r#"["VerifiableCredential", "DTGCredential", "CommunityCredential"]"#),
        ("issuer", r#""did:example:issuer""#),
        ("validFrom", r#""2024-06-18T10:00:00Z""#),
        ("credentialSubject", r#"{ "id": "did:example:subject" }"#),
    ];
    let mut parts: Vec<String> = Vec::new();
    for (name, value) in members {
        if name == replace.0 {
            if !replace.1.is_empty() {
                parts.push(replace.1.to_string());
            }
        } else {
            parts.push(format!("\"{}\": {}", name, value));
        }
    }
    if replace.0 == "+" {
        parts.push(replace.1.to_string());
    }
    format!("{{{}}}", parts.join(", "))
}

fn is_malformed_document(text: &str) -> bool {
    matches!(DTGCredential::from_json(text), Err(DTGCredentialError::MalformedDocument(_)))
}

#[test]
fn a_document_that_is_no_envelope_is_refused() {
    assert!(DTGCredential::from_json(&envelope_text(("", ""))).is_ok());
    assert!(is_malformed_document("[]"));
    assert!(is_malformed_document("not json"));
    for name in ["@context", "type", "issuer", "validFrom", "credentialSubject"] {
        assert!(is_malformed_document(&envelope_text((name, ""))));
    }
    assert!(is_malformed_document(&envelope_text(("@context", r#""@context": "one""#))));
    assert!(is_malformed_document(&envelope_text(("@context", r#""@context": [1]"#))));
    assert!(is_malformed_document(&envelope_text(("type", r#""type": {}"#))));
    assert!(is_malformed_document(&envelope_text(("issuer", r#""issuer": null"#))));
    assert!(is_malformed_document(&envelope_text(("validFrom", r#""validFrom": "today""#))));
    assert!(is_malformed_document(&envelope_text(("validFrom", r#""validFrom": 5"#))));
    assert!(is_malformed_document(&envelope_text(("+", r#""validUntil": "never""#))));
    assert!(is_malformed_document(&envelope_text(("+", r#""proof": {"type": "x"}"#))));
    assert!(is_malformed_document(&envelope_text((
        "+",
        r#""issuanceDate": "2024-06-18T10:00:00Z""#
    ))));
}

#[test]
fn members_that_may_be_null_or_unknown_are_passed_over() {
    let read = DTGCredential::from_json(&envelope_text((
        "+",
        r#""validUntil": null, "proof": null, "name": "of no concern""#,
    )))
    .unwrap();
    assert_eq!(read.valid_until(), None);
    assert!(!read.signed());
    let read = DTGCredential::from_json(&envelope_text((
        "+",
        r#""expirationDate": "2024-06-19T10:00:00Z""#,
    )))
    .unwrap();
    assert_eq!(read.valid_until(), Some(Timestamp::new(1718791200, 0)));
    assert_eq!(read.valid_from(), Timestamp::new(1718704800, 0));
}

#[test]
fn a_subject_that_is_no_record_is_malformed() {
    for payload in [r#""did:example:subject""#, r#"["did:example:subject"]"#, "null", "7"] {
        let refused = DTGCredential::from_json(&envelope_text((
            "credentialSubject",
            &format!("\"credentialSubject\": {}", payload),
        )));
        assert_eq!(refused.err(), Some(DTGCredentialError::MalformedSubject));
    }
}

#[test]
fn the_kind_is_resolved_before_the_version_and_the_subject() {
    let refused = DTGCredential::from_json(
        r#"{"@context": [], "type": [], "issuer": "i", "validFrom": "2024-06-18T10:00:00Z",
            "credentialSubject": {"other": 1}}"#,
    );
    assert_eq!(refused.err(), Some(DTGCredentialError::UnknownCredentialKind));
    let refused = DTGCredential::from_json(
        r#"{"@context": [], "type": ["RCardCredential"], "issuer": "i",
            "validFrom": "2024-06-18T10:00:00Z", "credentialSubject": {"other": 1}}"#,
    );
    assert_eq!(refused.err(), Some(DTGCredentialError::UnknownFormatVersion));
    let refused = DTGCredential::from_json(
        r#"{"@context": ["https://www.w3.org/ns/credentials/v2"], "type": ["RCardCredential"],
            "issuer": "i", "validFrom": "2024-06-18T10:00:00Z", "credentialSubject": {"other": 1}}"#,
    );
    assert_eq!(refused.err(), Some(DTGCredentialError::MalformedSubject));
    let refused = DTGCommon::from_document(
        &Json::parse(
            r#"{"@context": [], "type": [], "issuer": "i", "validFrom": "2024-06-18T10:00:00Z",
            "credentialSubject": {"other": 1}}"#,
        )
        .unwrap(),
    );
    assert_eq!(refused.err().map(|error| error.message()), Some("Malformed credential subject".to_string()));
}
