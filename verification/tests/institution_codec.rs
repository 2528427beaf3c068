use plaid_institutions::codec::{
    DecodeError, FieldKey, WireKind, decode_get_response, decode_institution,
    decode_list_response, encode_get_request, encode_get_response, encode_institution,
    encode_list_response, encode_options,
};
use plaid_institutions::types::{CountryCode, GetInstitutionRequest, Institution,
    InstitutionOption, Secret};
use plaid_institutions::wire::{WireDocument, WireElem, WireField, WireObject, WireValue};

fn s(x: &str) -> String {
    x.to_string()
}

fn full_institution() -> Institution {
    Institution::new(
        s("ins_9"),
        s("Credit Union B"),
        vec![s("auth"), s("transactions")],
        vec![CountryCode::new(s("US")), CountryCode::new(s("GB"))],
        Some(s("https://example.com")),
        Some(s("#00ff77")),
        Some(s("aGVsbG8=")),
        vec![s("011401533"), s("021000021")],
        true,
    )
}

fn full_institution_object() -> WireObject {
    WireObject {
        entries: vec![
            (s("institution_id"), WireField::Str(s("ins_9"))),
            (s("name"), WireField::Str(s("Credit Union B"))),
            (s("products"), WireField::StrArr(vec![s("auth"), s("transactions")])),
            (s("country_codes"), WireField::StrArr(vec![s("US"), s("GB")])),
            (s("url"), WireField::Str(s("https://example.com"))),
            (s("primary_color"), WireField::Str(s("#00ff77"))),
            (s("logo"), WireField::Str(s("aGVsbG8="))),
            (s("routing_numbers"), WireField::StrArr(vec![s("011401533"), s("021000021")])),
            (s("oauth"), WireField::Bool(true)),
        ],
    }
}

#[test]
fn missing_institutions_defaults_to_empty() {
    let doc = WireDocument { entries: vec![(s("request_id"), WireValue::Str(s("req_42")))] };
    let resp = decode_list_response(&doc).expect("absent institutions field must decode");
    assert_eq!(resp.institutions().len(), 0);
    assert_eq!(resp.request_id(), s("req_42"));
}

#[test]
fn missing_request_id_fails_list() {
    let doc = WireDocument { entries: vec![(s("institutions"), WireValue::Arr(vec![]))] };
    let err = decode_list_response(&doc).expect_err("missing request_id must fail");
    assert_eq!(
        err,
        DecodeError::MissingField(WireKind::ListInstitutionsResponse, FieldKey::RequestId)
    );
}

#[test]
fn missing_request_id_fails_get() {
    let doc = WireDocument {
        entries: vec![(s("institution"), WireValue::Obj(full_institution_object()))],
    };
    let err = decode_get_response(&doc).expect_err("missing request_id must fail");
    assert_eq!(
        err,
        DecodeError::MissingField(WireKind::GetInstitutionResponse, FieldKey::RequestId)
    );
}

#[test]
fn institution_round_trip() {
    let original = full_institution();
    let encoded = encode_institution(&original);
    let decoded = decode_institution(&encoded).expect("an encoded institution must decode");
    assert_eq!(decoded, original);
}

#[test]
fn institution_encodes_expected_object() {
    let encoded = encode_institution(&full_institution());
    assert_eq!(encoded, full_institution_object());
}

#[test]
fn single_option_encodes_one_flag() {
    let req = GetInstitutionRequest {
        institution_id: s("ins_9"),
        client_id: s("client_1"),
        secret: Secret::new(s("sandbox-key")),
        country_codes: vec![CountryCode::new(s("US"))],
        options: vec![InstitutionOption::IncludeOptionalMetadata],
    };
    let doc = encode_get_request(&req);
    let options = &doc.entries[4];
    assert_eq!(options.0, s("options"));
    assert_eq!(
        options.1,
        WireValue::Obj(WireObject {
            entries: vec![(s("include_optional_metadata"), WireField::Bool(true))],
        })
    );
}

#[test]
fn empty_options_encode_empty_object() {
    let encoded = encode_options(&vec![]);
    assert_eq!(encoded, WireObject { entries: vec![] });
}

#[test]
fn both_options_encode_in_order() {
    let encoded = encode_options(&vec![
        InstitutionOption::IncludeOptionalMetadata,
        InstitutionOption::IncludeStatus,
    ]);
    assert_eq!(
        encoded,
        WireObject {
            entries: vec![
                (s("include_optional_metadata"), WireField::Bool(true)),
                (s("include_status"), WireField::Bool(true)),
            ],
        }
    );
}

#[test]
fn end_to_end_get_response() {
    let institution = WireObject {
        entries: vec![
            (s("institution_id"), WireField::Str(s("ins_1"))),
            (s("name"), WireField::Str(s("Bank A"))),
            (s("products"), WireField::StrArr(vec![s("auth")])),
            (s("country_codes"), WireField::StrArr(vec![s("US")])),
            (s("url"), WireField::Null),
            (s("primary_color"), WireField::Null),
            (s("logo"), WireField::Null),
            (s("routing_numbers"), WireField::StrArr(vec![])),
            (s("oauth"), WireField::Bool(false)),
        ],
    };
    let doc = WireDocument {
        entries: vec![
            (s("institution"), WireValue::Obj(institution)),
            (s("request_id"), WireValue::Str(s("req_1"))),
        ],
    };
    let resp = decode_get_response(&doc).expect("the example payload must decode");
    assert_eq!(resp.institution().id(), s("ins_1"));
    assert_eq!(resp.request_id(), s("req_1"));
    assert_eq!(resp.institution().name(), s("Bank A"));
    assert_eq!(resp.institution().url(), None);
    assert_eq!(resp.institution().logo(), None);
}

#[test]
fn wrong_shape_institution_id_fails() {
    let mut obj = full_institution_object();
    obj.entries[0].1 = WireField::Bool(true);
    let err = decode_institution(&obj).expect_err("a boolean institution_id must fail");
    assert_eq!(err, DecodeError::WrongShape(WireKind::Institution, FieldKey::InstitutionId));
}

#[test]
fn missing_name_fails() {
    let mut obj = full_institution_object();
    obj.entries.remove(1);
    let err = decode_institution(&obj).expect_err("a missing name must fail");
    assert_eq!(err, DecodeError::MissingField(WireKind::Institution, FieldKey::Name));
}

#[test]
fn wrong_shape_institutions_field_fails() {
    let doc = WireDocument {
        entries: vec![
            (s("institutions"), WireValue::Str(s("oops"))),
            (s("request_id"), WireValue::Str(s("req_7"))),
        ],
    };
    let err = decode_list_response(&doc).expect_err("a string institutions field must fail");
    assert_eq!(
        err,
        DecodeError::WrongShape(WireKind::ListInstitutionsResponse, FieldKey::Institutions)
    );
}

#[test]
fn wrong_shape_institutions_element_fails() {
    let doc = WireDocument {
        entries: vec![
            (s("institutions"), WireValue::Arr(vec![WireElem::Str(s("oops"))])),
            (s("request_id"), WireValue::Str(s("req_7"))),
        ],
    };
    let err = decode_list_response(&doc).expect_err("a string array element must fail");
    assert_eq!(
        err,
        DecodeError::WrongShape(WireKind::ListInstitutionsResponse, FieldKey::Institutions)
    );
}

#[test]
fn missing_institution_fails_get() {
    let doc = WireDocument { entries: vec![(s("request_id"), WireValue::Str(s("req_1")))] };
    let err = decode_get_response(&doc).expect_err("missing institution must fail");
    assert_eq!(
        err,
        DecodeError::MissingField(WireKind::GetInstitutionResponse, FieldKey::Institution)
    );
}

#[test]
fn wrong_shape_institution_fails_get() {
    let doc = WireDocument {
        entries: vec![
            (s("institution"), WireValue::Str(s("oops"))),
            (s("request_id"), WireValue::Str(s("req_1"))),
        ],
    };
    let err = decode_get_response(&doc).expect_err("a string institution must fail");
    assert_eq!(
        err,
        DecodeError::WrongShape(WireKind::GetInstitutionResponse, FieldKey::Institution)
    );
}

#[test]
fn absent_optional_fields_decode_to_none() {
    let obj = WireObject {
        entries: vec![
            (s("institution_id"), WireField::Str(s("ins_2"))),
            (s("name"), WireField::Str(s("Bank C"))),
            (s("products"), WireField::StrArr(vec![])),
            (s("country_codes"), WireField::StrArr(vec![])),
            (s("routing_numbers"), WireField::StrArr(vec![])),
            (s("oauth"), WireField::Bool(false)),
        ],
    };
    let inst = decode_institution(&obj).expect("absent optional fields are no error");
    assert_eq!(inst.url(), None);
    assert_eq!(inst.logo(), None);
}

#[test]
fn list_decodes_institutions_in_order() {
    let mut second = full_institution_object();
    second.entries[0].1 = WireField::Str(s("ins_10"));
    let doc = WireDocument {
        entries: vec![
            (
                s("institutions"),
                WireValue::Arr(vec![
                    WireElem::Obj(full_institution_object()),
                    WireElem::Obj(second),
                ]),
            ),
            (s("request_id"), WireValue::Str(s("req_3"))),
        ],
    };
    let resp = decode_list_response(&doc).expect("two well-formed institutions must decode");
    let insts = resp.institutions();
    assert_eq!(insts.len(), 2);
    assert_eq!(insts[0].id(), s("ins_9"));
    assert_eq!(insts[1].id(), s("ins_10"));
}

#[test]
fn first_occurrence_of_duplicate_field_wins() {
    let doc = WireDocument {
        entries: vec![
            (s("request_id"), WireValue::Str(s("first"))),
            (s("request_id"), WireValue::Str(s("second"))),
        ],
    };
    let resp = decode_list_response(&doc).expect("a duplicated request_id still decodes");
    assert_eq!(resp.request_id(), s("first"));
}

#[test]
fn get_request_encodes_all_fields() {
    let req = GetInstitutionRequest {
        institution_id: s("ins_5"),
        client_id: s("client_2"),
        secret: Secret::new(s("sandbox-secret")),
        country_codes: vec![CountryCode::new(s("US")), CountryCode::new(s("CA"))],
        options: vec![InstitutionOption::IncludeStatus],
    };
    let doc = encode_get_request(&req);
    assert_eq!(
        doc,
        WireDocument {
            entries: vec![
                (s("institution_id"), WireValue::Str(s("ins_5"))),
                (s("client_id"), WireValue::Str(s("client_2"))),
                (s("secret"), WireValue::Str(s("sandbox-secret"))),
                (
                    s("country_codes"),
                    WireValue::Arr(vec![WireElem::Str(s("US")), WireElem::Str(s("CA"))])
                ),
                (
                    s("options"),
                    WireValue::Obj(WireObject {
                        entries: vec![(s("include_status"), WireField::Bool(true))],
                    })
                ),
            ],
        }
    );
}

#[test]
fn get_response_round_trip() {
    let institution = full_institution_object();
    let doc = WireDocument {
        entries: vec![
            (s("institution"), WireValue::Obj(institution)),
            (s("request_id"), WireValue::Str(s("req_8"))),
        ],
    };
    let resp = decode_get_response(&doc).expect("a well-formed get response must decode");
    let encoded = encode_get_response(&resp);
    assert_eq!(encoded, doc);
}

#[test]
fn list_response_round_trip() {
    let doc = WireDocument {
        entries: vec![
            (
                s("institutions"),
                WireValue::Arr(vec![WireElem::Obj(full_institution_object())]),
            ),
            (s("request_id"), WireValue::Str(s("req_9"))),
        ],
    };
    let resp = decode_list_response(&doc).expect("a well-formed list response must decode");
    let encoded = encode_list_response(&resp);
    assert_eq!(encoded, doc);
}

#[test]
fn institution_getters_return_copies() {
    let inst = full_institution();
    assert_eq!(inst.id(), s("ins_9"));
    assert_eq!(inst.name(), s("Credit Union B"));
    assert_eq!(inst.url(), Some(s("https://example.com")));
    assert_eq!(inst.logo(), Some(s("aGVsbG8=")));
    let mut copy = inst.id();
    copy.push('x');
    assert_eq!(inst.id(), s("ins_9"));
}

#[test]
fn country_code_and_secret_carry_values() {
    let cc = CountryCode::new(s("DE"));
    assert_eq!(cc.code(), s("DE"));
    let req = GetInstitutionRequest {
        institution_id: s("ins_1"),
        client_id: s("c"),
        secret: Secret::new(s("s")),
        country_codes: vec![],
        options: vec![],
    };
    let doc = encode_get_request(&req);
    assert_eq!(doc.entries[2].1, WireValue::Str(s("s")));
    assert_eq!(doc.entries[3].1, WireValue::Arr(vec![]));
}
