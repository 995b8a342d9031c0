use dtg_credentials::{CredentialSubject, DTGCredential, DTGCredentialError, DTGCredentialType};

#[test]
fn test_vcc_deserialize() {
    let vcc: DTGCredential = match DTGCredential::from_json(
        r#"{
                "@context": ["https://www.w3.org/ns/credentials/v2"],
                "type": ["VerifiableCredential", "DTGCredential",  "CommunityCredential"],
                "issuer": "did:example:community",
                "validFrom": "2024-06-18T10:00:00Z",
                "credentialSubject": { "id": "did:example:rDid" }
            }"#,
    ) {
        Ok(vcc) => vcc,
        Err(e) => panic!("Couldn't deserialize VCC: {}", e.to_string()),
    };

    assert!(matches!(vcc.type_(), DTGCredentialType::Community));
    assert!(matches!(
        vcc.credential().credential_subject,
        CredentialSubject::Basic(_)
    ));
}

#[test]
fn test_phc_deserialize() {
    let phc: DTGCredential = match DTGCredential::from_json(
        r#"{
                "@context": ["https://www.w3.org/ns/credentials/v2"],
                "type": ["VerifiableCredential", "DTGCredential",  "PersonhoodCredential"],
                "issuer": "did:example:governmentAgencyPhcDid",
                "validFrom": "2024-06-18T10:00:00Z",
                "credentialSubject": { "id": "did:example:citizenRDid" }
            }"#,
    ) {
        Ok(phc) => phc,
        Err(e) => panic!("Couldn't deserialize PHC: {}", e.to_string()),
    };

    assert!(matches!(phc.type_(), DTGCredentialType::Personhood));
    assert!(matches!(
        phc.credential().credential_subject,
        CredentialSubject::Basic(_)
    ));
}

#[test]
fn test_vrc_deserialize() {
    let vrc: DTGCredential = match DTGCredential::from_json(
        r#"{
                "@context": ["https://www.w3.org/ns/credentials/v2"],
                "type": ["VerifiableCredential", "DTGCredential",  "RelationshipCredential"],
                "issuer": "did:example:governmentAgencyPhcDid",
                "validFrom": "2024-06-18T10:00:00Z",
                "credentialSubject": { "id": "did:example:citizenRDid" }
            }"#,
    ) {
        Ok(vrc) => vrc,
        Err(e) => panic!("Couldn't deserialize VRC: {}", e.to_string()),
    };

    assert!(matches!(vrc.type_(), DTGCredentialType::Relationship));
    assert!(matches!(
        vrc.credential().credential_subject,
        CredentialSubject::Basic(_)
    ));
}

#[test]
fn test_vpc_deserialize() {
    let vpc: DTGCredential = match DTGCredential::from_json(
        r#"{
                "@context": ["https://www.w3.org/ns/credentials/v2"],
                "type": ["VerifiableCredential", "DTGCredential",  "PersonaCredential"],
                "issuer": "did:example:governmentAgencyPhcDid",
                "validFrom": "2024-06-18T10:00:00Z",
                "credentialSubject": { "id": "did:example:citizenRDid" }
            }"#,
    ) {
        Ok(vpc) => vpc,
        Err(e) => panic!("Couldn't deserialize VPC: {}", e.to_string()),
    };

    assert!(matches!(vpc.type_(), DTGCredentialType::Persona));
    assert!(matches!(
        vpc.credential().credential_subject,
        CredentialSubject::Basic(_)
    ));
}

#[test]
fn test_vec_deserialize() {
    let vec: DTGCredential = match DTGCredential::from_json(
        r#"{
                "@context": ["https://www.w3.org/ns/credentials/v2"],
                "type": ["VerifiableCredential", "DTGCredential",  "EndorsementCredential"],
                "issuer": "did:example:governmentAgencyPhcDid",
                "validFrom": "2024-06-18T10:00:00Z",
                "credentialSubject": { "id": "did:example:citizenRDid", "endorsement": {} }
            }"#,
    ) {
        Ok(vec) => vec,
        Err(e) => panic!("Couldn't deserialize VEC: {}", e.to_string()),
    };

    assert!(matches!(vec.type_(), DTGCredentialType::Endorsement));
    assert!(matches!(
        vec.credential().credential_subject,
        CredentialSubject::Endorsement(_)
    ));
}

#[test]
fn test_vec_bad_deserialize() {
    match DTGCredential::from_json(
        r#"{
                "@context": ["https://www.w3.org/ns/credentials/v2"],
                "type": ["VerifiableCredential", "DTGCredential",  "EndorsementCredential"],
                "issuer": "did:example:governmentAgencyPhcDid",
                "validFrom": "2024-06-18T10:00:00Z",
                "credentialSubject": { "id": "did:example:citizenRDid", "other": [] }
            }"#,
    ) {
        Ok(_) => panic!("Expected Unknown Credential type"),
        Err(_) => {
            // Good
        }
    };
}

#[test]
fn test_vwc_simple_deserialize() {
    let vwc: DTGCredential = match DTGCredential::from_json(
        r#"{
                "@context": ["https://www.w3.org/ns/credentials/v2"],
                "type": ["VerifiableCredential", "DTGCredential",  "WitnessCredential"],
                "issuer": "did:example:governmentAgencyPhcDid",
                "validFrom": "2024-06-18T10:00:00Z",
                "credentialSubject": { "id": "did:example:citizenRDid" }
            }"#,
    ) {
        Ok(vwc) => vwc,
        Err(e) => panic!("Couldn't deserialize VWC: {}", e.to_string()),
    };

    assert!(matches!(vwc.type_(), DTGCredentialType::Witness));
    assert!(matches!(
        vwc.credential().credential_subject,
        CredentialSubject::Witness(_)
    ));
}

#[test]
fn test_vwc_full_deserialize() {
    let vwc: DTGCredential = match DTGCredential::from_json(
        r#"{
                "@context": ["https://www.w3.org/ns/credentials/v2"],
                "type": ["VerifiableCredential", "DTGCredential",  "WitnessCredential"],
                "issuer": "did:example:governmentAgencyPhcDid",
                "validFrom": "2024-06-18T10:00:00Z",
                "credentialSubject": { "id": "did:example:citizenRDid", "digest": "abcdf", "witnessContext": {} }
            }"#,
    ) {
        Ok(vwc) => vwc,
        Err(e) => panic!("Couldn't deserialize VWC: {}", e.to_string()),
    };

    assert!(matches!(vwc.type_(), DTGCredentialType::Witness));
    assert!(matches!(
        vwc.credential().credential_subject,
        CredentialSubject::Witness(_)
    ));
}

#[test]
fn test_vwc_bad_deserialize() {
    if DTGCredential::from_json(
        r#"{
                "@context": ["https://www.w3.org/ns/credentials/v2"],
                "type": ["VerifiableCredential", "DTGCredential",  "WitnessCredential"],
                "issuer": "did:example:governmentAgencyPhcDid",
                "validFrom": "2024-06-18T10:00:00Z",
                "credentialSubject": { "id": "did:example:citizenRDid", "digest": "abcdf", "wrongContext": {}  }
            }"#,
    ).is_ok() {
        panic!("Should have failed due to wrong CredentialSubject!");
    }
}

#[test]
fn test_rcard_simple_deserialize() {
    let rcard: DTGCredential = match DTGCredential::from_json(
        r#"{
                "@context": ["https://www.w3.org/ns/credentials/v2"],
                "type": ["VerifiableCredential", "DTGCredential",  "RCardCredential"],
                "issuer": "did:example:governmentAgencyPhcDid",
                "validFrom": "2024-06-18T10:00:00Z",
                "credentialSubject": { "id": "did:example:citizenRDid", "card": [] }
            }"#,
    ) {
        Ok(rcard) => rcard,
        Err(e) => panic!("Couldn't deserialize R-Card: {}", e.to_string()),
    };

    assert!(matches!(rcard.type_(), DTGCredentialType::RCard));
    assert!(matches!(
        rcard.credential().credential_subject,
        CredentialSubject::RCard(_)
    ));
}

#[test]
fn test_rcard_bad_deserialize() {
    if DTGCredential::from_json(
        r#"{
                "@context": ["https://www.w3.org/ns/credentials/v2"],
                "type": ["VerifiableCredential", "DTGCredential",  "RCardCredential"],
                "issuer": "did:example:governmentAgencyPhcDid",
                "validFrom": "2024-06-18T10:00:00Z",
                "credentialSubject": { "id": "did:example:citizenRDid"  }
            }"#,
    )
    .is_ok()
    {
        panic!("Should have failed due to wrong CredentialSubject!");
    }
}

#[test]
fn test_deserialize_unknown() {
    match DTGCredential::from_json(
        r#"{
                "@context": ["https://www.w3.org/ns/credentials/v2"],
                "type": ["VerifiableCredential", "DTGCredential",  "UnknownCredential"],
                "issuer": "did:example:governmentAgencyPhcDid",
                "validFrom": "2024-06-18T10:00:00Z",
                "credentialSubject": { "id": "did:example:citizenRDid" }
            }"#,
    ) {
        Ok(_) => panic!("Expected Unknown Credential type"),
        Err(e) => {
            if e.to_string() == "Unknown credential type" {
                // test passed
            } else {
                panic!("Wrong error type returned");
            }
        }
    };
}

#[test]
fn test_deserialize_mismatched_credential_subject() {
    match DTGCredential::from_json(
        r#"{
                "@context": ["https://www.w3.org/ns/credentials/v2"],
                "type": ["VerifiableCredential", "DTGCredential",  "EndorsementCredential"],
                "issuer": "did:example:governmentAgencyPhcDid",
                "validFrom": "2024-06-18T10:00:00Z",
                "credentialSubject": { "id": "did:example:citizenRDid" }
            }"#,
    ) {
        Ok(_) => panic!("Expected Unknown Credential type"),
        Err(e) => {
            if e.to_string() == "Unknown credential type" {
                // test passed
            } else {
                panic!("Wrong error type returned");
            }
        }
    };
}

#[test]
fn bad_endorsement_is_a_malformed_subject() {
    let refused = DTGCredential::from_json(
        r#"{
                "@context": ["https://www.w3.org/ns/credentials/v2"],
                "type": ["VerifiableCredential", "DTGCredential",  "EndorsementCredential"],
                "issuer": "did:example:governmentAgencyPhcDid",
                "validFrom": "2024-06-18T10:00:00Z",
                "credentialSubject": { "id": "did:example:citizenRDid", "other": [] }
            }"#,
    );
    assert_eq!(refused.err(), Some(DTGCredentialError::MalformedSubject));
}

#[test]
fn card_without_card_is_an_unknown_credential() {
    let refused = DTGCredential::from_json(
        r#"{
                "@context": ["https://www.w3.org/ns/credentials/v2"],
                "type": ["VerifiableCredential", "DTGCredential",  "RCardCredential"],
                "issuer": "did:example:governmentAgencyPhcDid",
                "validFrom": "2024-06-18T10:00:00Z",
                "credentialSubject": { "id": "did:example:citizenRDid"  }
            }"#,
    );
    assert_eq!(refused.err(), Some(DTGCredentialError::UnknownCredential));
}

#[test]
fn unknown_tag_is_an_unknown_kind() {
    let refused = DTGCredential::from_json(
        r#"{
                "@context": [],
                "type": ["VerifiableCredential", "DTGCredential",  "UnknownCredential"],
                "issuer": "did:example:governmentAgencyPhcDid",
                "validFrom": "2024-06-18T10:00:00Z",
                "credentialSubject": { "id": "did:example:citizenRDid" }
            }"#,
    );
    assert_eq!(refused.err(), Some(DTGCredentialError::UnknownCredentialKind));
}

#[test]
fn empty_context_is_an_unknown_version() {
    let refused = DTGCredential::from_json(
        r#"{
                "@context": [],
                "type": ["VerifiableCredential", "DTGCredential",  "CommunityCredential"],
                "issuer": "did:example:community",
                "validFrom": "2024-06-18T10:00:00Z",
                "credentialSubject": { "id": "did:example:rDid" }
            }"#,
    );
    assert_eq!(refused.err(), Some(DTGCredentialError::UnknownFormatVersion));
}
