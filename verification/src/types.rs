//! The typed values this endpoint family exchanges: the `Institution`
//! entity, the two response shapes, the one request shape, and the shared
//! primitives they carry.

use vstd::prelude::*;

verus! {

/// An ISO-3166-1 alpha-2 country code, carried opaquely: validation is the
/// supplier's concern, not this module's.
#[derive(Debug, Clone, PartialEq, Eq)]
pub struct CountryCode {
    pub(crate) code: String,
}

impl View for CountryCode {
    type V = Seq<char>;

    open(crate) spec fn view(&self) -> Seq<char> {
        self.code@
    }
}

impl CountryCode {
    /// Wraps a two-letter code as supplied; no validation happens here.
    pub fn new(code: String) -> (r: CountryCode)
        ensures
            r@ == code@,
    {
        CountryCode { code }
    }

    /// The code itself, as a fresh copy.
    pub fn code(&self) -> (r: String)
        ensures
            r@ == self@,
    {
        self.code.clone()
    }
}

/// An API secret, carried opaquely. The type deliberately offers no way to
/// display itself; the value leaves it only toward the wire encoding.
#[derive(Debug, Clone, PartialEq, Eq)]
pub struct Secret {
    pub(crate) value: String,
}

impl View for Secret {
    type V = Seq<char>;

    open(crate) spec fn view(&self) -> Seq<char> {
        self.value@
    }
}

impl Secret {
    /// Wraps a credential as supplied.
    pub fn new(value: String) -> (r: Secret)
        ensures
            r@ == value@,
    {
        Secret { value }
    }
}

/// A capability a `GetInstitutionRequest` may ask the remote side for.
/// These steer the request's encoding only; they carry no data.
#[derive(Debug, Clone, Copy, PartialEq, Eq, Structural)]
pub enum InstitutionOption {
    /// Ask for the institution's logo, brand color, and URL.
    IncludeOptionalMetadata,
    /// Ask for status information about the institution.
    IncludeStatus,
}

/// Mathematical model of an [`Institution`].
#[verifier::ext_equal]
pub struct InstitutionModel {
    pub institution_id: Seq<char>,
    pub name: Seq<char>,
    pub products: Seq<Seq<char>>,
    pub country_codes: Seq<Seq<char>>,
    pub url: Option<Seq<char>>,
    pub primary_color: Option<Seq<char>>,
    pub logo: Option<Seq<char>>,
    pub routing_numbers: Seq<Seq<char>>,
    pub oauth: bool,
}

/// The view of an optional string.
pub open spec fn opt_view(o: Option<String>) -> Option<Seq<char>> {
    match o {
        Some(s) => Some(s@),
        None => None,
    }
}

/// Metadata about one financial institution, immutable once constructed.
#[derive(Debug, Clone, PartialEq, Eq)]
pub struct Institution {
    /// Unique identifier for the institution.
    pub(crate) institution_id: String,
    /// The official name of the institution.
    pub(crate) name: String,
    /// The product names the institution supports; the vocabulary is
    /// remote-defined and not validated locally.
    pub(crate) products: Vec<String>,
    /// The country codes the institution supports.
    pub(crate) country_codes: Vec<CountryCode>,
    /// The URL for the institution's website, when known.
    pub(crate) url: Option<String>,
    /// Hexadecimal form of the institution's primary brand color, when known.
    pub(crate) primary_color: Option<String>,
    /// Base64-encoded logo image, carried as an opaque blob, when known.
    pub(crate) logo: Option<String>,
    /// A partial list of routing numbers: never complete by contract, and
    /// never to be treated as such.
    pub(crate) routing_numbers: Vec<String>,
    /// Whether the institution has an OAuth login flow.
    pub(crate) oauth: bool,
}

impl View for Institution {
    type V = InstitutionModel;

    open(crate) spec fn view(&self) -> InstitutionModel {
        InstitutionModel {
            institution_id: self.institution_id@,
            name: self.name@,
            products: self.products@.map_values(|s: String| s@),
            country_codes: self.country_codes@.map_values(|c: CountryCode| c@),
            url: opt_view(self.url),
            primary_color: opt_view(self.primary_color),
            logo: opt_view(self.logo),
            routing_numbers: self.routing_numbers@.map_values(|s: String| s@),
            oauth: self.oauth,
        }
    }
}

impl Institution {
    /// Assembles an institution from its parts, verbatim.
    pub fn new(
        institution_id: String,
        name: String,
        products: Vec<String>,
        country_codes: Vec<CountryCode>,
        url: Option<String>,
        primary_color: Option<String>,
        logo: Option<String>,
        routing_numbers: Vec<String>,
        oauth: bool,
    ) -> (r: Institution)
        ensures
            r@ == (InstitutionModel {
                institution_id: institution_id@,
                name: name@,
                products: products@.map_values(|s: String| s@),
                country_codes: country_codes@.map_values(|c: CountryCode| c@),
                url: opt_view(url),
                primary_color: opt_view(primary_color),
                logo: opt_view(logo),
                routing_numbers: routing_numbers@.map_values(|s: String| s@),
                oauth: oauth,
            }),
    {
        Institution {
            institution_id,
            name,
            products,
            country_codes,
            url,
            primary_color,
            logo,
            routing_numbers,
            oauth,
        }
    }

    /// The institution's unique identifier, as a fresh copy.
    pub fn id(&self) -> (r: String)
        ensures
            r@ == self@.institution_id,
    {
        self.institution_id.clone()
    }

    /// The institution's official name, as a fresh copy.
    pub fn name(&self) -> (r: String)
        ensures
            r@ == self@.name,
    {
        self.name.clone()
    }

    /// The institution's logo, if one was supplied, as a fresh copy.
    pub fn logo(&self) -> (r: Option<String>)
        ensures
            opt_view(r) == self@.logo,
    {
        match &self.logo {
            Some(s) => Some(s.clone()),
            None => None,
        }
    }

    /// The institution's website URL, if one was supplied, as a fresh copy.
    pub fn url(&self) -> (r: Option<String>)
        ensures
            opt_view(r) == self@.url,
    {
        match &self.url {
            Some(s) => Some(s.clone()),
            None => None,
        }
    }

    /// A full copy whose model is the same as this one's.
    pub fn duplicate(&self) -> (r: Institution)
        ensures
            r@ == self@,
    {
        let r = Institution {
            institution_id: self.institution_id.clone(),
            name: self.name.clone(),
            products: clone_strings(&self.products),
            country_codes: clone_country_codes(&self.country_codes),
            url: self.url(),
            primary_color: match &self.primary_color {
                Some(s) => Some(s.clone()),
                None => None,
            },
            logo: self.logo(),
            routing_numbers: clone_strings(&self.routing_numbers),
            oauth: self.oauth,
        };
        proof {
            assert(r@ =~= self@);
        }
        r
    }
}

/// An element-wise copy of a vector of strings, view-preserving.
pub fn clone_strings(v: &Vec<String>) -> (r: Vec<String>)
    ensures
        r@.map_values(|s: String| s@) == v@.map_values(|s: String| s@),
{
    let mut r: Vec<String> = Vec::new();
    let mut i: usize = 0;
    while i < v.len()
        invariant
            i <= v.len(),
            r.len() == i,
            forall|j: int| 0 <= j < i ==> #[trigger] r@[j] == v@[j],
        decreases v.len() - i,
    {
        r.push(v[i].clone());
        i += 1;
    }
    proof {
        assert(r@.map_values(|s: String| s@) =~= v@.map_values(|s: String| s@));
    }
    r
}

/// An element-wise copy of a vector of country codes, view-preserving.
pub fn clone_country_codes(v: &Vec<CountryCode>) -> (r: Vec<CountryCode>)
    ensures
        r@.map_values(|c: CountryCode| c@) == v@.map_values(|c: CountryCode| c@),
{
    let mut r: Vec<CountryCode> = Vec::new();
    let mut i: usize = 0;
    while i < v.len()
        invariant
            i <= v.len(),
            r.len() == i,
            forall|j: int| 0 <= j < i ==> (#[trigger] r@[j])@ == v@[j]@,
        decreases v.len() - i,
    {
        r.push(v[i].clone_code());
        i += 1;
    }
    proof {
        assert(r@.map_values(|c: CountryCode| c@) =~= v@.map_values(|c: CountryCode| c@));
    }
    r
}

impl CountryCode {
    /// A copy whose view is the same as this one's.
    pub fn clone_code(&self) -> (r: CountryCode)
        ensures
            r@ == self@,
    {
        CountryCode { code: self.code.clone() }
    }
}

/// Mathematical model of a [`ListInstitutionsResponse`].
#[verifier::ext_equal]
pub struct ListModel {
    pub institutions: Seq<InstitutionModel>,
    pub request_id: Seq<char>,
}

/// The response to a list-institutions call.
#[derive(Debug, Clone, PartialEq, Eq)]
pub struct ListInstitutionsResponse {
    /// The institutions the call matched; empty when the payload had none.
    pub(crate) institutions: Vec<Institution>,
    /// Correlation identifier echoed from the remote call, carried opaquely.
    pub(crate) request_id: String,
}

impl View for ListInstitutionsResponse {
    type V = ListModel;

    open(crate) spec fn view(&self) -> ListModel {
        ListModel {
            institutions: self.institutions@.map_values(|i: Institution| i@),
            request_id: self.request_id@,
        }
    }
}

impl ListInstitutionsResponse {
    /// The matched institutions, as fresh copies.
    pub fn institutions(&self) -> (r: Vec<Institution>)
        ensures
            r@.map_values(|i: Institution| i@) == self@.institutions,
    {
        let mut r: Vec<Institution> = Vec::new();
        let mut i: usize = 0;
        while i < self.institutions.len()
            invariant
                i <= self.institutions.len(),
                r.len() == i,
                forall|j: int| 0 <= j < i ==> (#[trigger] r@[j])@ == self.institutions@[j]@,
            decreases self.institutions.len() - i,
        {
            r.push(self.institutions[i].duplicate());
            i += 1;
        }
        proof {
            assert(r@.map_values(|x: Institution| x@) =~= self.institutions@.map_values(
                |x: Institution| x@,
            ));
        }
        r
    }

    /// The correlation identifier, as a fresh copy.
    pub fn request_id(&self) -> (r: String)
        ensures
            r@ == self@.request_id,
    {
        self.request_id.clone()
    }
}

/// Mathematical model of a [`GetInstitutionResponse`].
#[verifier::ext_equal]
pub struct GetModel {
    pub institution: InstitutionModel,
    pub request_id: Seq<char>,
}

/// The response to a get-institution-by-id call; the institution is always
/// present, by the contract of a get-by-id call.
#[derive(Debug, Clone, PartialEq, Eq)]
pub struct GetInstitutionResponse {
    pub(crate) institution: Institution,
    pub(crate) request_id: String,
}

impl View for GetInstitutionResponse {
    type V = GetModel;

    open(crate) spec fn view(&self) -> GetModel {
        GetModel { institution: self.institution@, request_id: self.request_id@ }
    }
}

impl GetInstitutionResponse {
    /// The institution the call returned, as a fresh copy.
    pub fn institution(&self) -> (r: Institution)
        ensures
            r@ == self@.institution,
    {
        self.institution.duplicate()
    }

    /// The correlation identifier, as a fresh copy.
    pub fn request_id(&self) -> (r: String)
        ensures
            r@ == self@.request_id,
    {
        self.request_id.clone()
    }
}

/// Mathematical model of a [`GetInstitutionRequest`].
#[verifier::ext_equal]
pub struct RequestModel {
    pub institution_id: Seq<char>,
    pub client_id: Seq<char>,
    pub secret: Seq<char>,
    pub country_codes: Seq<Seq<char>>,
    pub options: Seq<InstitutionOption>,
}

/// The parameters of a get-institution-by-id call: a transient data holder,
/// built per call, encoded onto the wire, then discarded. No validation
/// happens at this layer.
#[derive(Debug, Clone, PartialEq, Eq)]
pub struct GetInstitutionRequest {
    /// The identifier of the institution to look up.
    pub institution_id: String,
    /// The caller's client identifier.
    pub client_id: String,
    /// The caller's API secret.
    pub secret: Secret,
    /// The country codes the lookup concerns; a non-empty sequence is
    /// recommended, not enforced.
    pub country_codes: Vec<CountryCode>,
    /// The capabilities to ask the remote side for.
    pub options: Vec<InstitutionOption>,
}

impl View for GetInstitutionRequest {
    type V = RequestModel;

    open(crate) spec fn view(&self) -> RequestModel {
        RequestModel {
            institution_id: self.institution_id@,
            client_id: self.client_id@,
            secret: self.secret@,
            country_codes: self.country_codes@.map_values(|c: CountryCode| c@),
            options: self.options@,
        }
    }
}

} // verus!
