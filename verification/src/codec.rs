//! The codec: the mapping between the typed values of [`crate::types`] and
//! the wire structure of [`crate::wire`].
//!
//! Encoding is field-by-field, in declaration order, with one deliberate
//! exception: the `options` sequence of a request is encoded as a mapping
//! from each requested option's wire name to the literal `true`. An option
//! not in the sequence is omitted entirely, never written as `false`.
//!
//! Decoding reads fields by name. For a list response an absent
//! `institutions` field yields an empty sequence; every other field of a
//! response is mandatory, and an absent or wrong-shaped mandatory field is a
//! [`DecodeError`] naming the shape and the field.

use vstd::prelude::*;

use crate::types::{
    CountryCode, GetInstitutionRequest, GetInstitutionResponse, GetModel, Institution,
    InstitutionModel, InstitutionOption, ListInstitutionsResponse, ListModel, RequestModel,
    clone_strings, opt_view,
};
use crate::wire::{
    DocModel, ElemModel, FieldModel, ObjectModel, ValueModel, WireDocument, WireElem, WireField,
    WireObject, WireValue, lookup,
};
use crate::wire::{
    find_doc_entry, find_entry, lemma_lookup_at, lemma_lookup_none, lemma_neq_by_char,
    lemma_neq_by_len,
};

verus! {

/// The shape being decoded when an error arose.
#[derive(Debug, Clone, Copy, PartialEq, Eq, Structural)]
pub enum WireKind {
    Institution,
    ListInstitutionsResponse,
    GetInstitutionResponse,
}

/// A wire field name, as decode errors report it.
#[derive(Debug, Clone, Copy, PartialEq, Eq, Structural)]
pub enum FieldKey {
    InstitutionId,
    Name,
    Products,
    CountryCodes,
    Url,
    PrimaryColor,
    Logo,
    RoutingNumbers,
    Oauth,
    Institutions,
    Institution,
    RequestId,
}

/// The one failure this layer can surface: a mandatory field of a wire
/// payload was missing, or a field did not have the expected shape.
#[derive(Debug, Clone, Copy, PartialEq, Eq, Structural)]
pub enum DecodeError {
    /// The named mandatory field was absent from the payload.
    MissingField(WireKind, FieldKey),
    /// The named field was present with the wrong shape.
    WrongShape(WireKind, FieldKey),
}

/// The wire spelling of a field name.
pub open spec fn field_key(f: FieldKey) -> Seq<char> {
    match f {
        FieldKey::InstitutionId => "institution_id"@,
        FieldKey::Name => "name"@,
        FieldKey::Products => "products"@,
        FieldKey::CountryCodes => "country_codes"@,
        FieldKey::Url => "url"@,
        FieldKey::PrimaryColor => "primary_color"@,
        FieldKey::Logo => "logo"@,
        FieldKey::RoutingNumbers => "routing_numbers"@,
        FieldKey::Oauth => "oauth"@,
        FieldKey::Institutions => "institutions"@,
        FieldKey::Institution => "institution"@,
        FieldKey::RequestId => "request_id"@,
    }
}

/// The wire spelling of a field name, as an owned string.
pub fn field_key_string(f: FieldKey) -> (r: String)
    ensures
        r@ == field_key(f),
{
    match f {
        FieldKey::InstitutionId => String::from_str("institution_id"),
        FieldKey::Name => String::from_str("name"),
        FieldKey::Products => String::from_str("products"),
        FieldKey::CountryCodes => String::from_str("country_codes"),
        FieldKey::Url => String::from_str("url"),
        FieldKey::PrimaryColor => String::from_str("primary_color"),
        FieldKey::Logo => String::from_str("logo"),
        FieldKey::RoutingNumbers => String::from_str("routing_numbers"),
        FieldKey::Oauth => String::from_str("oauth"),
        FieldKey::Institutions => String::from_str("institutions"),
        FieldKey::Institution => String::from_str("institution"),
        FieldKey::RequestId => String::from_str("request_id"),
    }
}

/// The wire name of a requested option: the lower-snake-case spelling of
/// the variant.
pub open spec fn option_key(o: InstitutionOption) -> Seq<char> {
    match o {
        InstitutionOption::IncludeOptionalMetadata => "include_optional_metadata"@,
        InstitutionOption::IncludeStatus => "include_status"@,
    }
}

/// The wire name of a requested option, as an owned string.
pub fn option_key_string(o: InstitutionOption) -> (r: String)
    ensures
        r@ == option_key(o),
{
    match o {
        InstitutionOption::IncludeOptionalMetadata => String::from_str(
            "include_optional_metadata",
        ),
        InstitutionOption::IncludeStatus => String::from_str("include_status"),
    }
}

/// The wire options object: each requested option's wire name mapped to
/// `true`, in request order; nothing else.
pub open spec fn encoded_options(opts: Seq<InstitutionOption>) -> ObjectModel {
    ObjectModel {
        entries: opts.map_values(|o: InstitutionOption| (option_key(o), FieldModel::Bool(true))),
    }
}

/// An optional string on the wire: the string itself, or an explicit null.
pub open spec fn opt_str_field(o: Option<Seq<char>>) -> FieldModel {
    match o {
        Some(s) => FieldModel::Str(s),
        None => FieldModel::Null,
    }
}

/// The wire object of one institution, field by field in declaration order.
pub open spec fn encoded_institution(m: InstitutionModel) -> ObjectModel {
    ObjectModel {
        entries: seq![
            ("institution_id"@, FieldModel::Str(m.institution_id)),
            ("name"@, FieldModel::Str(m.name)),
            ("products"@, FieldModel::StrArr(m.products)),
            ("country_codes"@, FieldModel::StrArr(m.country_codes)),
            ("url"@, opt_str_field(m.url)),
            ("primary_color"@, opt_str_field(m.primary_color)),
            ("logo"@, opt_str_field(m.logo)),
            ("routing_numbers"@, FieldModel::StrArr(m.routing_numbers)),
            ("oauth"@, FieldModel::Bool(m.oauth)),
        ],
    }
}

/// The wire document of a get-institution request.
pub open spec fn encoded_get_request(m: RequestModel) -> DocModel {
    DocModel {
        entries: seq![
            ("institution_id"@, ValueModel::Str(m.institution_id)),
            ("client_id"@, ValueModel::Str(m.client_id)),
            ("secret"@, ValueModel::Str(m.secret)),
            (
                "country_codes"@,
                ValueModel::Arr(m.country_codes.map_values(|c: Seq<char>| ElemModel::Str(c))),
            ),
            ("options"@, ValueModel::Obj(encoded_options(m.options))),
        ],
    }
}

/// The wire document of a list-institutions response.
pub open spec fn encoded_list_response(m: ListModel) -> DocModel {
    DocModel {
        entries: seq![
            (
                "institutions"@,
                ValueModel::Arr(
                    m.institutions.map_values(
                        |im: InstitutionModel| ElemModel::Obj(encoded_institution(im)),
                    ),
                ),
            ),
            ("request_id"@, ValueModel::Str(m.request_id)),
        ],
    }
}

/// The wire document of a get-institution response.
pub open spec fn encoded_get_response(m: GetModel) -> DocModel {
    DocModel {
        entries: seq![
            ("institution"@, ValueModel::Obj(encoded_institution(m.institution))),
            ("request_id"@, ValueModel::Str(m.request_id)),
        ],
    }
}

/// Encodes a sequence of requested options as the wire options object.
pub fn encode_options(opts: &Vec<InstitutionOption>) -> (r: WireObject)
    ensures
        r@ == encoded_options(opts@),
{
    let mut entries: Vec<(String, WireField)> = Vec::new();
    let mut i: usize = 0;
    while i < opts.len()
        invariant
            i <= opts.len(),
            entries.len() == i,
            forall|j: int|
                0 <= j < i ==> (#[trigger] entries@[j]).0@ == option_key(opts@[j])
                    && entries@[j].1 == WireField::Bool(true),
        decreases opts.len() - i,
    {
        entries.push((option_key_string(opts[i]), WireField::Bool(true)));
        i += 1;
    }
    let r = WireObject { entries };
    proof {
        assert(r@.entries =~= encoded_options(opts@).entries);
        assert(r@ =~= encoded_options(opts@));
    }
    r
}

/// An optional string, moved onto the wire.
fn opt_str_to_field(o: &Option<String>) -> (r: WireField)
    ensures
        r@ == opt_str_field(opt_view(*o)),
{
    match o {
        Some(s) => WireField::Str(s.clone()),
        None => WireField::Null,
    }
}

/// The country codes of a typed value, as owned strings.
fn country_code_strings(v: &Vec<CountryCode>) -> (r: Vec<String>)
    ensures
        r@.map_values(|s: String| s@) == v@.map_values(|c: CountryCode| c@),
{
    let mut r: Vec<String> = Vec::new();
    let mut i: usize = 0;
    while i < v.len()
        invariant
            i <= v.len(),
            r.len() == i,
            forall|j: int| 0 <= j < i ==> (#[trigger] r@[j])@ == v@[j]@,
        decreases v.len() - i,
    {
        r.push(v[i].code());
        i += 1;
    }
    proof {
        assert(r@.map_values(|s: String| s@) =~= v@.map_values(
            |c: CountryCode| c@,
        ));
    }
    r
}

/// Encodes one institution as its wire object.
pub fn encode_institution(inst: &Institution) -> (r: WireObject)
    ensures
        r@ == encoded_institution(inst@),
{
    let mut entries: Vec<(String, WireField)> = Vec::new();
    entries.push((field_key_string(FieldKey::InstitutionId), WireField::Str(inst.id())));
    entries.push((field_key_string(FieldKey::Name), WireField::Str(inst.name())));
    entries.push((
        field_key_string(FieldKey::Products),
        WireField::StrArr(clone_strings(&inst.products)),
    ));
    entries.push((
        field_key_string(FieldKey::CountryCodes),
        WireField::StrArr(country_code_strings(&inst.country_codes)),
    ));
    entries.push((field_key_string(FieldKey::Url), opt_str_to_field(&inst.url)));
    entries.push((field_key_string(FieldKey::PrimaryColor), opt_str_to_field(&inst.primary_color)));
    entries.push((field_key_string(FieldKey::Logo), opt_str_to_field(&inst.logo)));
    entries.push((
        field_key_string(FieldKey::RoutingNumbers),
        WireField::StrArr(clone_strings(&inst.routing_numbers)),
    ));
    entries.push((field_key_string(FieldKey::Oauth), WireField::Bool(inst.oauth)));
    let r = WireObject { entries };
    proof {
        assert(r@.entries =~= encoded_institution(inst@).entries);
        assert(r@ =~= encoded_institution(inst@));
    }
    r
}

/// Encodes a get-institution request as its wire document. The request is
/// borrowed, not consumed; the caller discards it after the call, as a
/// transient value.
pub fn encode_get_request(req: &GetInstitutionRequest) -> (r: WireDocument)
    ensures
        r@ == encoded_get_request(req@),
{
    let mut country_elems: Vec<WireElem> = Vec::new();
    let mut i: usize = 0;
    while i < req.country_codes.len()
        invariant
            i <= req.country_codes.len(),
            country_elems.len() == i,
            forall|j: int|
                0 <= j < i ==> (#[trigger] country_elems@[j])@ == ElemModel::Str(
                    req.country_codes@[j]@,
                ),
        decreases req.country_codes.len() - i,
    {
        country_elems.push(WireElem::Str(req.country_codes[i].code()));
        i += 1;
    }
    proof {
        assert(country_elems@.map_values(|e: WireElem| e@) =~= req@.country_codes.map_values(
            |c: Seq<char>| ElemModel::Str(c),
        ));
    }
    let mut entries: Vec<(String, WireValue)> = Vec::new();
    entries.push((
        field_key_string(FieldKey::InstitutionId),
        WireValue::Str(req.institution_id.clone()),
    ));
    entries.push((String::from_str("client_id"), WireValue::Str(req.client_id.clone())));
    entries.push((String::from_str("secret"), WireValue::Str(req.secret.value.clone())));
    entries.push((field_key_string(FieldKey::CountryCodes), WireValue::Arr(country_elems)));
    entries.push((String::from_str("options"), WireValue::Obj(encode_options(&req.options))));
    let r = WireDocument { entries };
    proof {
        assert(r@.entries =~= encoded_get_request(req@).entries);
        assert(r@ =~= encoded_get_request(req@));
    }
    r
}

/// Encodes a list-institutions response as its wire document.
pub fn encode_list_response(resp: &ListInstitutionsResponse) -> (r: WireDocument)
    ensures
        r@ == encoded_list_response(resp@),
{
    let insts = resp.institutions();
    let mut elems: Vec<WireElem> = Vec::new();
    let mut i: usize = 0;
    while i < insts.len()
        invariant
            i <= insts.len(),
            elems.len() == i,
            forall|j: int|
                0 <= j < i ==> (#[trigger] elems@[j])@ == ElemModel::Obj(
                    encoded_institution(insts@[j]@),
                ),
        decreases insts.len() - i,
    {
        elems.push(WireElem::Obj(encode_institution(&insts[i])));
        i += 1;
    }
    proof {
        assert(elems@.map_values(|e: WireElem| e@) =~= resp@.institutions.map_values(
            |im: InstitutionModel| ElemModel::Obj(encoded_institution(im)),
        ));
    }
    let mut entries: Vec<(String, WireValue)> = Vec::new();
    entries.push((field_key_string(FieldKey::Institutions), WireValue::Arr(elems)));
    entries.push((field_key_string(FieldKey::RequestId), WireValue::Str(resp.request_id())));
    let r = WireDocument { entries };
    proof {
        assert(r@.entries =~= encoded_list_response(resp@).entries);
        assert(r@ =~= encoded_list_response(resp@));
    }
    r
}

/// Encodes a get-institution response as its wire document.
pub fn encode_get_response(resp: &GetInstitutionResponse) -> (r: WireDocument)
    ensures
        r@ == encoded_get_response(resp@),
{
    let mut entries: Vec<(String, WireValue)> = Vec::new();
    entries.push((
        field_key_string(FieldKey::Institution),
        WireValue::Obj(encode_institution(&resp.institution)),
    ));
    entries.push((field_key_string(FieldKey::RequestId), WireValue::Str(resp.request_id())));
    let r = WireDocument { entries };
    proof {
        assert(r@.entries =~= encoded_get_response(resp@).entries);
        assert(r@ =~= encoded_get_response(resp@));
    }
    r
}

/// What reading a mandatory string field of a flat object yields.
pub open spec fn decode_str_field(o: ObjectModel, k: WireKind, f: FieldKey) -> Result<
    Seq<char>,
    DecodeError,
> {
    match lookup(o.entries, field_key(f)) {
        None => Err(DecodeError::MissingField(k, f)),
        Some(FieldModel::Str(s)) => Ok(s),
        Some(_) => Err(DecodeError::WrongShape(k, f)),
    }
}

/// What reading a mandatory string-array field of a flat object yields.
pub open spec fn decode_str_arr_field(o: ObjectModel, k: WireKind, f: FieldKey) -> Result<
    Seq<Seq<char>>,
    DecodeError,
> {
    match lookup(o.entries, field_key(f)) {
        None => Err(DecodeError::MissingField(k, f)),
        Some(FieldModel::StrArr(v)) => Ok(v),
        Some(_) => Err(DecodeError::WrongShape(k, f)),
    }
}

/// What reading a mandatory boolean field of a flat object yields.
pub open spec fn decode_bool_field(o: ObjectModel, k: WireKind, f: FieldKey) -> Result<
    bool,
    DecodeError,
> {
    match lookup(o.entries, field_key(f)) {
        None => Err(DecodeError::MissingField(k, f)),
        Some(FieldModel::Bool(b)) => Ok(b),
        Some(_) => Err(DecodeError::WrongShape(k, f)),
    }
}

/// What reading an optional string field of a flat object yields: an absent
/// field and an explicit null both read as nothing.
pub open spec fn decode_opt_str_field(o: ObjectModel, k: WireKind, f: FieldKey) -> Result<
    Option<Seq<char>>,
    DecodeError,
> {
    match lookup(o.entries, field_key(f)) {
        None => Ok(None),
        Some(FieldModel::Null) => Ok(None),
        Some(FieldModel::Str(s)) => Ok(Some(s)),
        Some(_) => Err(DecodeError::WrongShape(k, f)),
    }
}

/// The first decode error an institution object surfaces, checking fields
/// in declaration order; nothing when every field reads cleanly.
pub open spec fn institution_decode_error(o: ObjectModel) -> Option<DecodeError> {
    let k = WireKind::Institution;
    if decode_str_field(o, k, FieldKey::InstitutionId) is Err {
        Some(decode_str_field(o, k, FieldKey::InstitutionId)->Err_0)
    } else if decode_str_field(o, k, FieldKey::Name) is Err {
        Some(decode_str_field(o, k, FieldKey::Name)->Err_0)
    } else if decode_str_arr_field(o, k, FieldKey::Products) is Err {
        Some(decode_str_arr_field(o, k, FieldKey::Products)->Err_0)
    } else if decode_str_arr_field(o, k, FieldKey::CountryCodes) is Err {
        Some(decode_str_arr_field(o, k, FieldKey::CountryCodes)->Err_0)
    } else if decode_opt_str_field(o, k, FieldKey::Url) is Err {
        Some(decode_opt_str_field(o, k, FieldKey::Url)->Err_0)
    } else if decode_opt_str_field(o, k, FieldKey::PrimaryColor) is Err {
        Some(decode_opt_str_field(o, k, FieldKey::PrimaryColor)->Err_0)
    } else if decode_opt_str_field(o, k, FieldKey::Logo) is Err {
        Some(decode_opt_str_field(o, k, FieldKey::Logo)->Err_0)
    } else if decode_str_arr_field(o, k, FieldKey::RoutingNumbers) is Err {
        Some(decode_str_arr_field(o, k, FieldKey::RoutingNumbers)->Err_0)
    } else if decode_bool_field(o, k, FieldKey::Oauth) is Err {
        Some(decode_bool_field(o, k, FieldKey::Oauth)->Err_0)
    } else {
        None
    }
}

/// The institution a cleanly-reading wire object describes.
pub open spec fn institution_from_object(o: ObjectModel) -> InstitutionModel {
    let k = WireKind::Institution;
    InstitutionModel {
        institution_id: decode_str_field(o, k, FieldKey::InstitutionId)->Ok_0,
        name: decode_str_field(o, k, FieldKey::Name)->Ok_0,
        products: decode_str_arr_field(o, k, FieldKey::Products)->Ok_0,
        country_codes: decode_str_arr_field(o, k, FieldKey::CountryCodes)->Ok_0,
        url: decode_opt_str_field(o, k, FieldKey::Url)->Ok_0,
        primary_color: decode_opt_str_field(o, k, FieldKey::PrimaryColor)->Ok_0,
        logo: decode_opt_str_field(o, k, FieldKey::Logo)->Ok_0,
        routing_numbers: decode_str_arr_field(o, k, FieldKey::RoutingNumbers)->Ok_0,
        oauth: decode_bool_field(o, k, FieldKey::Oauth)->Ok_0,
    }
}

/// What decoding a wire object as an institution yields.
pub open spec fn decoded_institution(o: ObjectModel) -> Result<InstitutionModel, DecodeError> {
    match institution_decode_error(o) {
        Some(e) => Err(e),
        None => Ok(institution_from_object(o)),
    }
}

/// What decoding the elements of an `institutions` array yields: every
/// element must be an object that decodes; the first failure wins.
pub open spec fn decoded_institution_elems(elems: Seq<ElemModel>) -> Result<
    Seq<InstitutionModel>,
    DecodeError,
>
    decreases elems.len(),
{
    if elems.len() == 0 {
        Ok(Seq::empty())
    } else {
        match elems[0] {
            ElemModel::Obj(o) => match decoded_institution(o) {
                Ok(m) => match decoded_institution_elems(
                    elems.subrange(1, elems.len() as int),
                ) {
                    Ok(rest) => Ok(seq![m] + rest),
                    Err(e) => Err(e),
                },
                Err(e) => Err(e),
            },
            ElemModel::Str(_) => Err(
                DecodeError::WrongShape(
                    WireKind::ListInstitutionsResponse,
                    FieldKey::Institutions,
                ),
            ),
        }
    }
}

/// What reading a mandatory string field of a document yields.
pub open spec fn decode_doc_str_field(d: DocModel, k: WireKind, f: FieldKey) -> Result<
    Seq<char>,
    DecodeError,
> {
    match lookup(d.entries, field_key(f)) {
        None => Err(DecodeError::MissingField(k, f)),
        Some(ValueModel::Str(s)) => Ok(s),
        Some(_) => Err(DecodeError::WrongShape(k, f)),
    }
}

/// The institutions of a list-response document. An absent `institutions`
/// field is no error: it reads as the empty sequence.
pub open spec fn decoded_list_institutions(d: DocModel) -> Result<
    Seq<InstitutionModel>,
    DecodeError,
> {
    match lookup(d.entries, field_key(FieldKey::Institutions)) {
        None => Ok(Seq::empty()),
        Some(ValueModel::Arr(elems)) => decoded_institution_elems(elems),
        Some(_) => Err(
            DecodeError::WrongShape(WireKind::ListInstitutionsResponse, FieldKey::Institutions),
        ),
    }
}

/// What decoding a wire document as a list-institutions response yields:
/// the institutions (defaulting to none), then the mandatory `request_id`.
pub open spec fn decoded_list_response(d: DocModel) -> Result<ListModel, DecodeError> {
    match decoded_list_institutions(d) {
        Err(e) => Err(e),
        Ok(insts) => match decode_doc_str_field(
            d,
            WireKind::ListInstitutionsResponse,
            FieldKey::RequestId,
        ) {
            Err(e) => Err(e),
            Ok(rid) => Ok(ListModel { institutions: insts, request_id: rid }),
        },
    }
}

/// The institution of a get-response document; the field is mandatory.
pub open spec fn decoded_get_institution(d: DocModel) -> Result<InstitutionModel, DecodeError> {
    match lookup(d.entries, field_key(FieldKey::Institution)) {
        None => Err(
            DecodeError::MissingField(WireKind::GetInstitutionResponse, FieldKey::Institution),
        ),
        Some(ValueModel::Obj(o)) => decoded_institution(o),
        Some(_) => Err(
            DecodeError::WrongShape(WireKind::GetInstitutionResponse, FieldKey::Institution),
        ),
    }
}

/// What decoding a wire document as a get-institution response yields:
/// both `institution` and `request_id` are mandatory.
pub open spec fn decoded_get_response(d: DocModel) -> Result<GetModel, DecodeError> {
    match decoded_get_institution(d) {
        Err(e) => Err(e),
        Ok(inst) => match decode_doc_str_field(
            d,
            WireKind::GetInstitutionResponse,
            FieldKey::RequestId,
        ) {
            Err(e) => Err(e),
            Ok(rid) => Ok(GetModel { institution: inst, request_id: rid }),
        },
    }
}

/// Reads a mandatory string field of a flat object.
fn get_str_field(o: &WireObject, k: WireKind, f: FieldKey) -> (r: Result<String, DecodeError>)
    ensures
        match r {
            Ok(s) => decode_str_field(o@, k, f) == Ok::<Seq<char>, DecodeError>(s@),
            Err(e) => decode_str_field(o@, k, f) == Err::<Seq<char>, DecodeError>(e),
        },
{
    let key = field_key_string(f);
    match find_entry(o, &key) {
        None => Err(DecodeError::MissingField(k, f)),
        Some(i) => match &o.entries[i].1 {
            WireField::Str(s) => Ok(s.clone()),
            _ => Err(DecodeError::WrongShape(k, f)),
        },
    }
}

/// Reads a mandatory string-array field of a flat object.
fn get_str_arr_field(o: &WireObject, k: WireKind, f: FieldKey) -> (r: Result<
    Vec<String>,
    DecodeError,
>)
    ensures
        match r {
            Ok(v) => decode_str_arr_field(o@, k, f) == Ok::<Seq<Seq<char>>, DecodeError>(
                v@.map_values(|s: String| s@),
            ),
            Err(e) => decode_str_arr_field(o@, k, f) == Err::<Seq<Seq<char>>, DecodeError>(e),
        },
{
    let key = field_key_string(f);
    match find_entry(o, &key) {
        None => Err(DecodeError::MissingField(k, f)),
        Some(i) => match &o.entries[i].1 {
            WireField::StrArr(v) => Ok(clone_strings(v)),
            _ => Err(DecodeError::WrongShape(k, f)),
        },
    }
}

/// Reads a mandatory boolean field of a flat object.
fn get_bool_field(o: &WireObject, k: WireKind, f: FieldKey) -> (r: Result<bool, DecodeError>)
    ensures
        match r {
            Ok(b) => decode_bool_field(o@, k, f) == Ok::<bool, DecodeError>(b),
            Err(e) => decode_bool_field(o@, k, f) == Err::<bool, DecodeError>(e),
        },
{
    let key = field_key_string(f);
    match find_entry(o, &key) {
        None => Err(DecodeError::MissingField(k, f)),
        Some(i) => match &o.entries[i].1 {
            WireField::Bool(b) => Ok(*b),
            _ => Err(DecodeError::WrongShape(k, f)),
        },
    }
}

/// Reads an optional string field of a flat object.
fn get_opt_str_field(o: &WireObject, k: WireKind, f: FieldKey) -> (r: Result<
    Option<String>,
    DecodeError,
>)
    ensures
        match r {
            Ok(v) => decode_opt_str_field(o@, k, f) == Ok::<Option<Seq<char>>, DecodeError>(
                opt_view(v),
            ),
            Err(e) => decode_opt_str_field(o@, k, f) == Err::<Option<Seq<char>>, DecodeError>(e),
        },
{
    let key = field_key_string(f);
    match find_entry(o, &key) {
        None => Ok(None),
        Some(i) => match &o.entries[i].1 {
            WireField::Null => Ok(None),
            WireField::Str(s) => Ok(Some(s.clone())),
            _ => Err(DecodeError::WrongShape(k, f)),
        },
    }
}

/// Decodes a wire object as one institution.
pub fn decode_institution(o: &WireObject) -> (r: Result<Institution, DecodeError>)
    ensures
        match r {
            Ok(inst) => decoded_institution(o@) == Ok::<InstitutionModel, DecodeError>(inst@),
            Err(e) => decoded_institution(o@) == Err::<InstitutionModel, DecodeError>(e),
        },
{
    let k = WireKind::Institution;
    let institution_id = match get_str_field(o, k, FieldKey::InstitutionId) {
        Ok(s) => s,
        Err(e) => return Err(e),
    };
    let name = match get_str_field(o, k, FieldKey::Name) {
        Ok(s) => s,
        Err(e) => return Err(e),
    };
    let products = match get_str_arr_field(o, k, FieldKey::Products) {
        Ok(v) => v,
        Err(e) => return Err(e),
    };
    let country_strs = match get_str_arr_field(o, k, FieldKey::CountryCodes) {
        Ok(v) => v,
        Err(e) => return Err(e),
    };
    let url = match get_opt_str_field(o, k, FieldKey::Url) {
        Ok(v) => v,
        Err(e) => return Err(e),
    };
    let primary_color = match get_opt_str_field(o, k, FieldKey::PrimaryColor) {
        Ok(v) => v,
        Err(e) => return Err(e),
    };
    let logo = match get_opt_str_field(o, k, FieldKey::Logo) {
        Ok(v) => v,
        Err(e) => return Err(e),
    };
    let routing_numbers = match get_str_arr_field(o, k, FieldKey::RoutingNumbers) {
        Ok(v) => v,
        Err(e) => return Err(e),
    };
    let oauth = match get_bool_field(o, k, FieldKey::Oauth) {
        Ok(b) => b,
        Err(e) => return Err(e),
    };
    let country_codes = country_codes_of_strings(country_strs);
    let inst = Institution::new(
        institution_id,
        name,
        products,
        country_codes,
        url,
        primary_color,
        logo,
        routing_numbers,
        oauth,
    );
    proof {
        assert(inst@ =~= institution_from_object(o@));
    }
    Ok(inst)
}

/// Wraps wire strings as country codes, in order.
fn country_codes_of_strings(v: Vec<String>) -> (r: Vec<CountryCode>)
    ensures
        r@.map_values(|c: CountryCode| c@) == v@.map_values(|s: String| s@),
{
    let mut r: Vec<CountryCode> = Vec::new();
    let mut i: usize = 0;
    while i < v.len()
        invariant
            i <= v.len(),
            r.len() == i,
            forall|j: int| 0 <= j < i ==> (#[trigger] r@[j])@ == v@[j]@,
        decreases v.len() - i,
    {
        r.push(CountryCode::new(v[i].clone()));
        i += 1;
    }
    proof {
        assert(r@.map_values(|c: CountryCode| c@) =~= v@.map_values(
            |s: String| s@,
        ));
    }
    r
}

/// Joins a decoded prefix onto the outcome for the remaining elements.
pub open spec fn prepend_decoded(
    pre: Seq<InstitutionModel>,
    r: Result<Seq<InstitutionModel>, DecodeError>,
) -> Result<Seq<InstitutionModel>, DecodeError> {
    match r {
        Ok(rest) => Ok(pre + rest),
        Err(e) => Err(e),
    }
}

/// Decodes every element of an `institutions` array.
fn decode_institution_elems(elems: &Vec<WireElem>) -> (r: Result<Vec<Institution>, DecodeError>)
    ensures
        match r {
            Ok(v) => decoded_institution_elems(elems@.map_values(|e: WireElem| e@)) == Ok::<
                Seq<InstitutionModel>,
                DecodeError,
            >(v@.map_values(|x: Institution| x@)),
            Err(e) => decoded_institution_elems(elems@.map_values(|e: WireElem| e@)) == Err::<
                Seq<InstitutionModel>,
                DecodeError,
            >(e),
        },
{
    let ghost s = elems@.map_values(|e: WireElem| e@);
    let mut acc: Vec<Institution> = Vec::new();
    let mut i: usize = 0;
    proof {
        assert(s.subrange(0, s.len() as int) =~= s);
        assert(acc@.map_values(|x: Institution| x@) =~= Seq::<InstitutionModel>::empty());
        if decoded_institution_elems(s) is Ok {
            assert(Seq::<InstitutionModel>::empty() + decoded_institution_elems(s)->Ok_0
                =~= decoded_institution_elems(s)->Ok_0);
        }
    }
    while i < elems.len()
        invariant
            i <= elems.len(),
            s == elems@.map_values(|e: WireElem| e@),
            decoded_institution_elems(s) == prepend_decoded(
                acc@.map_values(|x: Institution| x@),
                decoded_institution_elems(s.subrange(i as int, s.len() as int)),
            ),
        decreases elems.len() - i,
    {
        let ghost sub_i = s.subrange(i as int, s.len() as int);
        let ghost sub_n = s.subrange(i as int + 1, s.len() as int);
        proof {
            assert(sub_i.len() > 0);
            assert(sub_i[0] == s[i as int]);
            assert(sub_i.subrange(1, sub_i.len() as int) =~= sub_n);
        }
        match &elems[i] {
            WireElem::Obj(o) => {
                match decode_institution(o) {
                    Ok(inst) => {
                        let ghost prev = acc@;
                        acc.push(inst);
                        proof {
                            assert(acc@.map_values(|x: Institution| x@) =~= prev.map_values(
                                |x: Institution| x@,
                            ).push(inst@));
                            if decoded_institution_elems(sub_n) is Ok {
                                let rest = decoded_institution_elems(sub_n)->Ok_0;
                                assert(prev.map_values(|x: Institution| x@) + (seq![inst@] + rest)
                                    =~= prev.map_values(|x: Institution| x@).push(inst@) + rest);
                            }
                        }
                    },
                    Err(e) => {
                        proof {
                            assert(decoded_institution_elems(s) == Err::<
                                Seq<InstitutionModel>,
                                DecodeError,
                            >(e));
                        }
                        return Err(e);
                    },
                }
            },
            WireElem::Str(_) => {
                return Err(
                    DecodeError::WrongShape(
                        WireKind::ListInstitutionsResponse,
                        FieldKey::Institutions,
                    ),
                );
            },
        }
        i += 1;
    }
    proof {
        assert(s.subrange(i as int, s.len() as int).len() == 0);
        assert(acc@.map_values(|x: Institution| x@) + Seq::<InstitutionModel>::empty()
            =~= acc@.map_values(|x: Institution| x@));
    }
    Ok(acc)
}

/// Reads a mandatory string field of a document.
fn get_doc_str_field(d: &WireDocument, k: WireKind, f: FieldKey) -> (r: Result<
    String,
    DecodeError,
>)
    ensures
        match r {
            Ok(s) => decode_doc_str_field(d@, k, f) == Ok::<Seq<char>, DecodeError>(s@),
            Err(e) => decode_doc_str_field(d@, k, f) == Err::<Seq<char>, DecodeError>(e),
        },
{
    let key = field_key_string(f);
    match find_doc_entry(d, &key) {
        None => Err(DecodeError::MissingField(k, f)),
        Some(i) => match &d.entries[i].1 {
            WireValue::Str(s) => Ok(s.clone()),
            _ => Err(DecodeError::WrongShape(k, f)),
        },
    }
}

/// Decodes a wire document as a list-institutions response.
pub fn decode_list_response(d: &WireDocument) -> (r: Result<
    ListInstitutionsResponse,
    DecodeError,
>)
    ensures
        match r {
            Ok(resp) => decoded_list_response(d@) == Ok::<ListModel, DecodeError>(resp@),
            Err(e) => decoded_list_response(d@) == Err::<ListModel, DecodeError>(e),
        },
{
    let key = field_key_string(FieldKey::Institutions);
    let institutions: Vec<Institution> = match find_doc_entry(d, &key) {
        None => {
            let v: Vec<Institution> = Vec::new();
            proof {
                assert(v@.map_values(|x: Institution| x@) =~= Seq::<InstitutionModel>::empty());
            }
            v
        },
        Some(i) => match &d.entries[i].1 {
            WireValue::Arr(elems) => match decode_institution_elems(elems) {
                Ok(v) => v,
                Err(e) => return Err(e),
            },
            _ => {
                return Err(
                    DecodeError::WrongShape(
                        WireKind::ListInstitutionsResponse,
                        FieldKey::Institutions,
                    ),
                );
            },
        },
    };
    let request_id = match get_doc_str_field(
        d,
        WireKind::ListInstitutionsResponse,
        FieldKey::RequestId,
    ) {
        Ok(s) => s,
        Err(e) => return Err(e),
    };
    let resp = ListInstitutionsResponse { institutions, request_id };
    proof {
        assert(decoded_list_institutions(d@) == Ok::<Seq<InstitutionModel>, DecodeError>(
            resp@.institutions,
        ));
        assert(decoded_list_response(d@) == Ok::<ListModel, DecodeError>(resp@));
    }
    Ok(resp)
}

/// Decodes a wire document as a get-institution response.
pub fn decode_get_response(d: &WireDocument) -> (r: Result<GetInstitutionResponse, DecodeError>)
    ensures
        match r {
            Ok(resp) => decoded_get_response(d@) == Ok::<GetModel, DecodeError>(resp@),
            Err(e) => decoded_get_response(d@) == Err::<GetModel, DecodeError>(e),
        },
{
    let key = field_key_string(FieldKey::Institution);
    let institution: Institution = match find_doc_entry(d, &key) {
        None => {
            return Err(
                DecodeError::MissingField(WireKind::GetInstitutionResponse, FieldKey::Institution),
            );
        },
        Some(i) => match &d.entries[i].1 {
            WireValue::Obj(o) => match decode_institution(o) {
                Ok(inst) => inst,
                Err(e) => return Err(e),
            },
            _ => {
                return Err(
                    DecodeError::WrongShape(
                        WireKind::GetInstitutionResponse,
                        FieldKey::Institution,
                    ),
                );
            },
        },
    };
    let request_id = match get_doc_str_field(
        d,
        WireKind::GetInstitutionResponse,
        FieldKey::RequestId,
    ) {
        Ok(s) => s,
        Err(e) => return Err(e),
    };
    let resp = GetInstitutionResponse { institution, request_id };
    proof {
        assert(decoded_get_response(d@) == Ok::<GetModel, DecodeError>(resp@));
    }
    Ok(resp)
}

/// An absent `institutions` field is no failure: whenever the document's
/// `request_id` reads cleanly, decoding succeeds and the institutions come
/// back as the empty sequence.
pub proof fn lemma_missing_institutions_decodes_empty(d: DocModel)
    requires
        lookup(d.entries, field_key(FieldKey::Institutions)) is None,
        decode_doc_str_field(d, WireKind::ListInstitutionsResponse, FieldKey::RequestId) is Ok,
    ensures
        decoded_list_response(d) == Ok::<ListModel, DecodeError>(
            ListModel {
                institutions: Seq::empty(),
                request_id: decode_doc_str_field(
                    d,
                    WireKind::ListInstitutionsResponse,
                    FieldKey::RequestId,
                )->Ok_0,
            },
        ),
{
}

/// A list-response document without a `request_id` field never decodes.
pub proof fn lemma_missing_request_id_fails_list(d: DocModel)
    requires
        lookup(d.entries, field_key(FieldKey::RequestId)) is None,
    ensures
        decoded_list_response(d) is Err,
{
}

/// A get-response document without a `request_id` field never decodes.
pub proof fn lemma_missing_request_id_fails_get(d: DocModel)
    requires
        lookup(d.entries, field_key(FieldKey::RequestId)) is None,
    ensures
        decoded_get_response(d) is Err,
{
}

/// Each field of an encoded institution is found under its own name.
proof fn lemma_encoded_institution_lookup(m: InstitutionModel)
    ensures
        lookup(encoded_institution(m).entries, field_key(FieldKey::InstitutionId)) == Some(
            FieldModel::Str(m.institution_id),
        ),
        lookup(encoded_institution(m).entries, field_key(FieldKey::Name)) == Some(
            FieldModel::Str(m.name),
        ),
        lookup(encoded_institution(m).entries, field_key(FieldKey::Products)) == Some(
            FieldModel::StrArr(m.products),
        ),
        lookup(encoded_institution(m).entries, field_key(FieldKey::CountryCodes)) == Some(
            FieldModel::StrArr(m.country_codes),
        ),
        lookup(encoded_institution(m).entries, field_key(FieldKey::Url)) == Some(
            opt_str_field(m.url),
        ),
        lookup(encoded_institution(m).entries, field_key(FieldKey::PrimaryColor)) == Some(
            opt_str_field(m.primary_color),
        ),
        lookup(encoded_institution(m).entries, field_key(FieldKey::Logo)) == Some(
            opt_str_field(m.logo),
        ),
        lookup(encoded_institution(m).entries, field_key(FieldKey::RoutingNumbers)) == Some(
            FieldModel::StrArr(m.routing_numbers),
        ),
        lookup(encoded_institution(m).entries, field_key(FieldKey::Oauth)) == Some(
            FieldModel::Bool(m.oauth),
        ),
{
    reveal_strlit("institution_id");
    reveal_strlit("name");
    reveal_strlit("products");
    reveal_strlit("country_codes");
    reveal_strlit("url");
    reveal_strlit("primary_color");
    reveal_strlit("logo");
    reveal_strlit("routing_numbers");
    reveal_strlit("oauth");
    let k0 = "institution_id"@;
    let k1 = "name"@;
    let k2 = "products"@;
    let k3 = "country_codes"@;
    let k4 = "url"@;
    let k5 = "primary_color"@;
    let k6 = "logo"@;
    let k7 = "routing_numbers"@;
    let k8 = "oauth"@;
    lemma_neq_by_len(k0, k1);
    lemma_neq_by_len(k0, k2);
    lemma_neq_by_len(k0, k3);
    lemma_neq_by_len(k0, k4);
    lemma_neq_by_len(k0, k5);
    lemma_neq_by_len(k0, k6);
    lemma_neq_by_len(k0, k7);
    lemma_neq_by_len(k0, k8);
    lemma_neq_by_len(k1, k2);
    lemma_neq_by_len(k1, k3);
    lemma_neq_by_len(k1, k4);
    lemma_neq_by_len(k1, k5);
    lemma_neq_by_char(k1, k6, 0);
    lemma_neq_by_len(k1, k7);
    lemma_neq_by_len(k1, k8);
    lemma_neq_by_len(k2, k3);
    lemma_neq_by_len(k2, k4);
    lemma_neq_by_len(k2, k5);
    lemma_neq_by_len(k2, k6);
    lemma_neq_by_len(k2, k7);
    lemma_neq_by_len(k2, k8);
    lemma_neq_by_len(k3, k4);
    lemma_neq_by_char(k3, k5, 0);
    lemma_neq_by_len(k3, k6);
    lemma_neq_by_len(k3, k7);
    lemma_neq_by_len(k3, k8);
    lemma_neq_by_len(k4, k5);
    lemma_neq_by_len(k4, k6);
    lemma_neq_by_len(k4, k7);
    lemma_neq_by_len(k4, k8);
    lemma_neq_by_len(k5, k6);
    lemma_neq_by_len(k5, k7);
    lemma_neq_by_len(k5, k8);
    lemma_neq_by_len(k6, k7);
    lemma_neq_by_len(k6, k8);
    lemma_neq_by_len(k7, k8);
    let e = encoded_institution(m).entries;
    assert(e.len() == 9);
    assert(e[0].0 == k0);
    assert(e[1].0 == k1);
    assert(e[2].0 == k2);
    assert(e[3].0 == k3);
    assert(e[4].0 == k4);
    assert(e[5].0 == k5);
    assert(e[6].0 == k6);
    assert(e[7].0 == k7);
    assert(e[8].0 == k8);
    lemma_lookup_at(e, field_key(FieldKey::InstitutionId), 0);
    assert forall|j: int| 0 <= j < 1 implies (#[trigger] e[j]).0 != field_key(FieldKey::Name) by {
        assert(j == 0);
    }
    lemma_lookup_at(e, field_key(FieldKey::Name), 1);
    assert forall|j: int| 0 <= j < 2 implies (#[trigger] e[j]).0 != field_key(
        FieldKey::Products,
    ) by {
        assert(j == 0 || j == 1);
    }
    lemma_lookup_at(e, field_key(FieldKey::Products), 2);
    assert forall|j: int| 0 <= j < 3 implies (#[trigger] e[j]).0 != field_key(
        FieldKey::CountryCodes,
    ) by {
        assert(j == 0 || j == 1 || j == 2);
    }
    lemma_lookup_at(e, field_key(FieldKey::CountryCodes), 3);
    assert forall|j: int| 0 <= j < 4 implies (#[trigger] e[j]).0 != field_key(FieldKey::Url) by {
        assert(j == 0 || j == 1 || j == 2 || j == 3);
    }
    lemma_lookup_at(e, field_key(FieldKey::Url), 4);
    assert forall|j: int| 0 <= j < 5 implies (#[trigger] e[j]).0 != field_key(
        FieldKey::PrimaryColor,
    ) by {
        assert(j == 0 || j == 1 || j == 2 || j == 3 || j == 4);
    }
    lemma_lookup_at(e, field_key(FieldKey::PrimaryColor), 5);
    assert forall|j: int| 0 <= j < 6 implies (#[trigger] e[j]).0 != field_key(FieldKey::Logo) by {
        assert(j == 0 || j == 1 || j == 2 || j == 3 || j == 4 || j == 5);
    }
    lemma_lookup_at(e, field_key(FieldKey::Logo), 6);
    assert forall|j: int| 0 <= j < 7 implies (#[trigger] e[j]).0 != field_key(
        FieldKey::RoutingNumbers,
    ) by {
        assert(j == 0 || j == 1 || j == 2 || j == 3 || j == 4 || j == 5 || j == 6);
    }
    lemma_lookup_at(e, field_key(FieldKey::RoutingNumbers), 7);
    assert forall|j: int| 0 <= j < 8 implies (#[trigger] e[j]).0 != field_key(
        FieldKey::Oauth,
    ) by {
        assert(j == 0 || j == 1 || j == 2 || j == 3 || j == 4 || j == 5 || j == 6 || j == 7);
    }
    lemma_lookup_at(e, field_key(FieldKey::Oauth), 8);
}

/// Round trip: encoding an institution and decoding the result yields the
/// value that was encoded, whatever it holds.
pub proof fn lemma_institution_round_trip(m: InstitutionModel)
    ensures
        decoded_institution(encoded_institution(m)) == Ok::<InstitutionModel, DecodeError>(m),
{
    lemma_encoded_institution_lookup(m);
    let o = encoded_institution(m);
    assert(institution_decode_error(o) is None);
    assert(institution_from_object(o) =~= m);
}

/// Every element of an encoded institutions array decodes back to its model.
proof fn lemma_encoded_elems_decode(insts: Seq<InstitutionModel>)
    ensures
        decoded_institution_elems(
            insts.map_values(|im: InstitutionModel| ElemModel::Obj(encoded_institution(im))),
        ) == Ok::<Seq<InstitutionModel>, DecodeError>(insts),
    decreases insts.len(),
{
    let elems = insts.map_values(|im: InstitutionModel| ElemModel::Obj(encoded_institution(im)));
    if insts.len() == 0 {
        assert(insts =~= Seq::<InstitutionModel>::empty());
    } else {
        let rest = insts.subrange(1, insts.len() as int);
        lemma_institution_round_trip(insts[0]);
        lemma_encoded_elems_decode(rest);
        assert(elems.subrange(1, elems.len() as int) =~= rest.map_values(
            |im: InstitutionModel| ElemModel::Obj(encoded_institution(im)),
        ));
        assert(seq![insts[0]] + rest =~= insts);
    }
}

/// Round trip: encoding a get-institution response and decoding the result
/// yields the value that was encoded.
pub proof fn lemma_get_response_round_trip(m: GetModel)
    ensures
        decoded_get_response(encoded_get_response(m)) == Ok::<GetModel, DecodeError>(m),
{
    reveal_strlit("institution");
    reveal_strlit("request_id");
    assert("institution"@.len() == 11);
    assert("request_id"@.len() == 10);
    lemma_neq_by_len("institution"@, "request_id"@);
    let e = encoded_get_response(m).entries;
    assert(e.len() == 2);
    assert(e[0].0 == "institution"@);
    assert(e[1].0 == "request_id"@);
    lemma_lookup_at(e, field_key(FieldKey::Institution), 0);
    assert forall|j: int| 0 <= j < 1 implies (#[trigger] e[j]).0 != field_key(
        FieldKey::RequestId,
    ) by {
        assert(j == 0);
    }
    lemma_lookup_at(e, field_key(FieldKey::RequestId), 1);
    lemma_institution_round_trip(m.institution);
    assert(decoded_get_response(encoded_get_response(m))->Ok_0 =~= m);
}

/// Round trip: encoding a list-institutions response and decoding the
/// result yields the value that was encoded.
pub proof fn lemma_list_response_round_trip(m: ListModel)
    ensures
        decoded_list_response(encoded_list_response(m)) == Ok::<ListModel, DecodeError>(m),
{
    reveal_strlit("institutions");
    reveal_strlit("request_id");
    assert("institutions"@.len() == 12);
    assert("request_id"@.len() == 10);
    lemma_neq_by_len("institutions"@, "request_id"@);
    let e = encoded_list_response(m).entries;
    assert(e.len() == 2);
    assert(e[0].0 == "institutions"@);
    assert(e[1].0 == "request_id"@);
    lemma_lookup_at(e, field_key(FieldKey::Institutions), 0);
    assert forall|j: int| 0 <= j < 1 implies (#[trigger] e[j]).0 != field_key(
        FieldKey::RequestId,
    ) by {
        assert(j == 0);
    }
    lemma_lookup_at(e, field_key(FieldKey::RequestId), 1);
    lemma_encoded_elems_decode(m.institutions);
    assert(decoded_list_response(encoded_list_response(m))->Ok_0 =~= m);
}

/// An option absent from a request's sequence is wholly absent from the
/// encoded options object: omitted, never written as `false`.
pub proof fn lemma_absent_option_omitted(opts: Seq<InstitutionOption>, o: InstitutionOption)
    requires
        !opts.contains(o),
    ensures
        lookup(encoded_options(opts).entries, option_key(o)) is None,
{
    reveal_strlit("include_optional_metadata");
    reveal_strlit("include_status");
    assert("include_optional_metadata"@.len() == 25);
    assert("include_status"@.len() == 14);
    lemma_neq_by_len("include_optional_metadata"@, "include_status"@);
    let e = encoded_options(opts).entries;
    assert forall|j: int| 0 <= j < e.len() implies (#[trigger] e[j]).0 != option_key(o) by {
        if opts[j] == o {
            assert(opts.contains(o));
        }
    }
    lemma_lookup_none(e, option_key(o));
}

} // verus!
