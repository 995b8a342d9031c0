use chrono::{DateTime, Utc};
use dtg_credentials::{DTGCredential, Json, Timestamp};

fn instant(text: &str) -> Timestamp {
    let parsed = DateTime::parse_from_rfc3339(text).unwrap().with_timezone(&Utc);
    Timestamp::new(parsed.timestamp(), parsed.timestamp_subsec_nanos())
}

fn text(value: &str) -> Json {
    Json::Text(value.to_string())
}

fn member(name: &str, value: Json) -> (String, Json) {
    (name.to_string(), value)
}

#[test]
fn test_phc_serialization() {
    let phc = DTGCredential::new_phc(
        "did:example:issuer".to_string(),
        "did:example:subject".to_string(),
        instant("2025-12-11T00:00:00Z"),
        None,
    );

    let txt = phc.to_json_pretty().unwrap();
    let sample = r#"{
  "@context": [
    "https://www.w3.org/ns/credentials/v2",
    "https://firstperson.network/credentials/dtg/v1"
  ],
  "type": [
    "VerifiableCredential",
    "DTGCredential",
    "PersonhoodCredential"
  ],
  "issuer": "did:example:issuer",
  "validFrom": "2025-12-11T00:00:00Z",
  "credentialSubject": {
    "id": "did:example:subject"
  }
}"#;

    assert_eq!(txt, sample);
}

#[test]
fn test_vcc_serialization() {
    let vcc = DTGCredential::new_vcc(
        "did:example:issuer".to_string(),
        "did:example:subject".to_string(),
        instant("2025-12-11T00:00:00Z"),
        None,
    );

    let txt = vcc.to_json_pretty().unwrap();
    let sample = r#"{
  "@context": [
    "https://www.w3.org/ns/credentials/v2",
    "https://firstperson.network/credentials/dtg/v1"
  ],
  "type": [
    "VerifiableCredential",
    "DTGCredential",
    "CommunityCredential"
  ],
  "issuer": "did:example:issuer",
  "validFrom": "2025-12-11T00:00:00Z",
  "credentialSubject": {
    "id": "did:example:subject"
  }
}"#;

    assert_eq!(txt, sample);
}

#[test]
fn test_vrc_serialization() {
    let vrc = DTGCredential::new_vrc(
        "did:example:issuer".to_string(),
        "did:example:subject".to_string(),
        instant("2025-12-11T00:00:00Z"),
        None,
    );

    let txt = vrc.to_json_pretty().unwrap();
    let sample = r#"{
  "@context": [
    "https://www.w3.org/ns/credentials/v2",
    "https://firstperson.network/credentials/dtg/v1"
  ],
  "type": [
    "VerifiableCredential",
    "DTGCredential",
    "RelationshipCredential"
  ],
  "issuer": "did:example:issuer",
  "validFrom": "2025-12-11T00:00:00Z",
  "credentialSubject": {
    "id": "did:example:subject"
  }
}"#;

    assert_eq!(txt, sample);
}

#[test]
fn test_vpc_serialization() {
    let vpc = DTGCredential::new_vpc(
        "did:example:issuer".to_string(),
        "did:example:subject".to_string(),
        instant("2025-12-11T00:00:00Z"),
        None,
    );

    let txt = vpc.to_json_pretty().unwrap();
    let sample = r#"{
  "@context": [
    "https://www.w3.org/ns/credentials/v2",
    "https://firstperson.network/credentials/dtg/v1"
  ],
  "type": [
    "VerifiableCredential",
    "DTGCredential",
    "PersonaCredential"
  ],
  "issuer": "did:example:issuer",
  "validFrom": "2025-12-11T00:00:00Z",
  "credentialSubject": {
    "id": "did:example:subject"
  }
}"#;

    assert_eq!(txt, sample);
}

#[test]
fn test_vec_serialization() {
    let vec = DTGCredential::new_vec(
        "did:example:issuer".to_string(),
        "did:example:subject".to_string(),
        instant("2025-12-11T00:00:00Z"),
        None,
        Json::Record(vec![
            member("type", text("SkillEndorsement")),
            member("name", text("Software Development")),
            member("competencyLevel", text("expert")),
        ]),
    );

    let txt = vec.to_json_pretty().unwrap();
    let sample = r#"{
  "@context": [
    "https://www.w3.org/ns/credentials/v2",
    "https://firstperson.network/credentials/dtg/v1"
  ],
  "type": [
    "VerifiableCredential",
    "DTGCredential",
    "EndorsementCredential"
  ],
  "issuer": "did:example:issuer",
  "validFrom": "2025-12-11T00:00:00Z",
  "credentialSubject": {
    "id": "did:example:subject",
    "endorsement": {
      "competencyLevel": "expert",
      "name": "Software Development",
      "type": "SkillEndorsement"
    }
  }
}"#;

    assert_eq!(txt, sample);
}

#[test]
fn test_vwc_serialization() {
    let vwc = DTGCredential::new_vwc(
        "did:example:issuer".to_string(),
        "did:example:subject".to_string(),
        instant("2025-12-11T00:00:00Z"),
        None,
        Some("sha256:test1234".to_string()),
        Some(Json::Record(vec![
            member("event", text("EthDenver 2024")),
            member("sessionId", text("session-8822-nonce")),
            member("method", text("in-person-proximity")),
        ])),
    );

    let txt = vwc.to_json_pretty().unwrap();

    let sample = r#"{
  "@context": [
    "https://www.w3.org/ns/credentials/v2",
    "https://firstperson.network/credentials/dtg/v1"
  ],
  "type": [
    "VerifiableCredential",
    "DTGCredential",
    "WitnessCredential"
  ],
  "issuer": "did:example:issuer",
  "validFrom": "2025-12-11T00:00:00Z",
  "credentialSubject": {
    "id": "did:example:subject",
    "digest": "sha256:test1234",
    "witnessContext": {
      "event": "EthDenver 2024",
      "method": "in-person-proximity",
      "sessionId": "session-8822-nonce"
    }
  }
}"#;

    assert_eq!(txt, sample);
}

#[test]
fn test_rcard_serialization() {
    let rcard = DTGCredential::new_rcard(
        "did:example:issuer".to_string(),
        "did:example:subject".to_string(),
        instant("2025-12-11T00:00:00Z"),
        None,
        Json::List(vec![
            text("vcard"),
            Json::List(vec![
                Json::List(vec![
                    text("fn"),
                    Json::Record(vec![]),
                    text("text"),
                    text("Alice Smith"),
                ]),
                Json::List(vec![
                    text("email"),
                    Json::Record(vec![]),
                    text("text"),
                    text("alice@example.com"),
                ]),
            ]),
        ]),
    );

    let txt = rcard.to_json_pretty().unwrap();

    let sample = r#"{
  "@context": [
    "https://www.w3.org/ns/credentials/v2",
    "https://firstperson.network/credentials/dtg/v1"
  ],
  "type": [
    "VerifiableCredential",
    "DTGCredential",
    "RCardCredential"
  ],
  "issuer": "did:example:issuer",
  "validFrom": "2025-12-11T00:00:00Z",
  "credentialSubject": {
    "id": "did:example:subject",
    "card": [
      "vcard",
      [
        [
          "fn",
          {},
          "text",
          "Alice Smith"
        ],
        [
          "email",
          {},
          "text",
          "alice@example.com"
        ]
      ]
    ]
  }
}"#;

    assert_eq!(txt, sample);
}

#[test]
fn membership_with_personhood_has_both_tags() {
    let vmc = DTGCredential::new_vmc(
        "did:example:issuer".to_string(),
        "did:example:subject".to_string(),
        instant("2025-12-11T00:00:00Z"),
        None,
        true,
    );

    let txt = vmc.to_json().unwrap();
    let sample = concat_lines(&[
        r#"{"@context":["https://www.w3.org/ns/credentials/v2","https://firstperson.network/credentials/dtg/v1"],"#,
        r#""type":["VerifiableCredential","DTGCredential","MembershipCredential","PersonhoodCredential"],"#,
        r#""issuer":"did:example:issuer","validFrom":"2025-12-11T00:00:00Z","#,
        r#""credentialSubject":{"id":"did:example:subject"}}"#,
    ]);
    assert_eq!(txt, sample);
    assert_eq!(
        vmc.credential().type_,
        vec![
            "VerifiableCredential".to_string(),
            "DTGCredential".to_string(),
            "MembershipCredential".to_string(),
            "PersonhoodCredential".to_string(),
        ]
    );
    assert!(vmc.is_personhood());
    assert!(matches!(vmc.type_(), dtg_credentials::DTGCredentialType::Membership));
}

#[test]
fn membership_without_personhood_has_one_tag() {
    let vmc = DTGCredential::new_vmc(
        "did:example:issuer".to_string(),
        "did:example:subject".to_string(),
        instant("2025-12-11T00:00:00Z"),
        None,
        false,
    );
    assert_eq!(
        vmc.credential().type_,
        vec![
            "VerifiableCredential".to_string(),
            "DTGCredential".to_string(),
            "MembershipCredential".to_string(),
        ]
    );
    assert!(!vmc.is_personhood());
}

#[test]
fn invitation_is_built_with_its_tag() {
    let vic = DTGCredential::new_vic(
        "did:example:issuer".to_string(),
        "did:example:subject".to_string(),
        instant("2025-12-11T00:00:00Z"),
        Some(instant("2026-12-11T00:00:00Z")),
    );
    assert!(matches!(vic.type_(), dtg_credentials::DTGCredentialType::Invitation));
    assert_eq!(
        vic.to_json().unwrap(),
        concat_lines(&[
            r#"{"@context":["https://www.w3.org/ns/credentials/v2","https://firstperson.network/credentials/dtg/v1"],"#,
            r#""type":["VerifiableCredential","DTGCredential","InvitationCredential"],"#,
            r#""issuer":"did:example:issuer","validFrom":"2025-12-11T00:00:00Z","validUntil":"2026-12-11T00:00:00Z","#,
            r#""credentialSubject":{"id":"did:example:subject"}}"#,
        ])
    );
}

fn concat_lines(lines: &[&str]) -> String {
    let mut all = String::new();
    for line in lines {
        all.push_str(line);
    }
    all
}

#[test]
fn built_credentials_report_their_parts() {
    let from = instant("2025-12-11T00:00:00Z");
    let until = instant("2030-01-01T12:30:45Z");
    let vcc = DTGCredential::new_vcc(
        "did:example:issuer".to_string(),
        "did:example:subject".to_string(),
        from,
        Some(until),
    );
    assert_eq!(vcc.issuer(), "did:example:issuer");
    assert_eq!(vcc.subject(), "did:example:subject");
    assert_eq!(vcc.valid_from(), from);
    assert_eq!(vcc.valid_until(), Some(until));
    assert!(!vcc.signed());
    assert!(!vcc.credential().signed());
    assert_eq!(vcc.credential().issuer(), "did:example:issuer");
    assert_eq!(vcc.credential().subject(), "did:example:subject");
    assert_eq!(vcc.credential().valid_from(), from);
    assert_eq!(vcc.credential().valid_until(), Some(until));
    assert_eq!(vcc.version(), dtg_credentials::FormatVersion::V2);
    assert_eq!(
        vcc.credential().context,
        vec![
            "https://www.w3.org/ns/credentials/v2".to_string(),
            "https://firstperson.network/credentials/dtg/v1".to_string(),
        ]
    );
}
