//! The conversion webhook: it converts `BottlerocketShadow` objects between versions.

use vstd::prelude::*;
use vstd::string::*;

use crate::models::node::crd::{v1, v2};
use crate::text::{concat2, concat3, concat5, str_eq};

verus! {

pub const API_VERSION_V1: &'static str = "brupop.bottlerocket.aws/v1";

pub const API_VERSION_V2: &'static str = "brupop.bottlerocket.aws/v2";

/// What a member of a JSON object is read as, if it is text; else the error of `serde_json`.
pub uninterp spec fn json_text_member(json: Seq<char>, key: Seq<char>) -> Result<
    Seq<char>,
    Seq<char>,
>;

/// Reads a document with `serde_json::from_str`, takes a member of it and reads that as text with
/// `serde_json::from_value`; `json_text_member` names the outcome. A document that is not JSON
/// counts as null, and so does a member that is missing.
#[verifier::external_body]
fn read_text_member(json: &str, key: &str) -> (r: Result<String, String>)
    ensures
        (match r {
            Ok(s) => Ok::<Seq<char>, Seq<char>>(s@),
            Err(e) => Err::<Seq<char>, Seq<char>>(e@),
        }) == json_text_member(json@, key@),
{
    let value: serde_json::Value = serde_json::from_str(json).unwrap_or(serde_json::Value::Null);
    let member = value[key].clone();
    serde_json::from_value::<String>(member).map_err(|e| e.to_string())
}

/// An object of either version.
#[derive(Debug)]
pub enum Shadow {
    V1(v1::BottlerocketShadow),
    V2(v2::BottlerocketShadow),
}

/// The contents of a `Shadow`.
pub enum ShadowOfVersion {
    V1(v1::ShadowView),
    V2(v2::ShadowView),
}

impl View for Shadow {
    type V = ShadowOfVersion;

    open spec fn view(&self) -> ShadowOfVersion {
        match *self {
            Shadow::V1(s) => ShadowOfVersion::V1(s@),
            Shadow::V2(s) => ShadowOfVersion::V2(s@),
        }
    }
}

impl Shadow {
    fn copy(&self) -> (r: Shadow)
        ensures
            r@ == self@,
    {
        match self {
            Shadow::V1(s) => Shadow::V1(s.copy()),
            Shadow::V2(s) => Shadow::V2(s.copy()),
        }
    }
}

/// An object that is converted.
///
/// To add a new version convert, first add a method build the logic
/// to convert from previous version.
/// Then update `pinwheel_convert` to map the
/// BottlerocketShadow version to the above method.
#[derive(Debug)]
pub enum BRSObject {
    /// An object as it came: its document, and what the document is read as in the version that
    /// it names, if it can be read.
    Source { json: String, shadow: Option<Shadow> },
    /// An object that was made by a conversion.
    Converted(Shadow),
}

/// The contents of a `BRSObject`.
pub enum ObjectView {
    Source { json: Seq<char>, shadow: Option<ShadowOfVersion> },
    Converted(ShadowOfVersion),
}

impl View for BRSObject {
    type V = ObjectView;

    open spec fn view(&self) -> ObjectView {
        match *self {
            BRSObject::Source { json, shadow } => ObjectView::Source {
                json: json@,
                shadow: match shadow {
                    Some(s) => Some(s@),
                    None => None,
                },
            },
            BRSObject::Converted(s) => ObjectView::Converted(s@),
        }
    }
}

impl ObjectView {
    /// The version that an object names.
    pub open spec fn version(self) -> Result<Seq<char>, Seq<char>> {
        match self {
            ObjectView::Source { json, shadow: _ } => json_text_member(json, "apiVersion"@),
            ObjectView::Converted(ShadowOfVersion::V1(_)) => Ok(API_VERSION_V1@),
            ObjectView::Converted(ShadowOfVersion::V2(_)) => Ok(API_VERSION_V2@),
        }
    }

    /// What an object is read as.
    pub open spec fn shadow(self) -> Option<ShadowOfVersion> {
        match self {
            ObjectView::Source { json: _, shadow } => shadow,
            ObjectView::Converted(s) => Some(s),
        }
    }
}

/// An error in a conversion.
#[derive(Debug, PartialEq, Eq)]
pub enum WebhookConvertError {
    SourceVersionNotExistInRequest { source: String },
    JsonToBottlerocketShadowConvertError { version: String },
    InvalidDesiredVersionError { version: String },
    InvalidVersionError { version: String },
    ChainedConvertError { src_version: String, dst_version: String },
}

impl WebhookConvertError {
    /// The error in words.
    pub open spec fn message(self) -> Seq<char> {
        match self {
            WebhookConvertError::SourceVersionNotExistInRequest { source } =>
            "Source version does not exist in ConversionRequest: "@ + source@,
            WebhookConvertError::JsonToBottlerocketShadowConvertError { version } =>
            "Failed to convert json object to BottlerocketShadow "@ + version@,
            WebhookConvertError::InvalidDesiredVersionError { version } => "Desired version "@
                + version@ + " is not a valid BottlerocketShadow version"@,
            WebhookConvertError::InvalidVersionError { version } => "Version "@ + version@
                + " does not exist in converting logic"@,
            WebhookConvertError::ChainedConvertError { src_version, dst_version } =>
            "Failed to convert from "@ + src_version@ + " to "@ + dst_version@ + " version"@,
        }
    }

    /// The error in words.
    pub fn to_text(&self) -> (r: String)
        ensures
            r@ == self.message(),
    {
        match self {
            Self::SourceVersionNotExistInRequest { source } => concat2(
                "Source version does not exist in ConversionRequest: ",
                source.as_str(),
            ),
            Self::JsonToBottlerocketShadowConvertError { version } => concat2(
                "Failed to convert json object to BottlerocketShadow ",
                version.as_str(),
            ),
            Self::InvalidDesiredVersionError { version } => concat3(
                "Desired version ",
                version.as_str(),
                " is not a valid BottlerocketShadow version",
            ),
            Self::InvalidVersionError { version } => concat3(
                "Version ",
                version.as_str(),
                " does not exist in converting logic",
            ),
            Self::ChainedConvertError { src_version, dst_version } => concat5(
                "Failed to convert from ",
                src_version.as_str(),
                " to ",
                dst_version.as_str(),
                " version",
            ),
        }
    }
}

/// Whether a version is one that objects can be converted to.
pub open spec fn is_known_version(version: Seq<char>) -> bool {
    version == API_VERSION_V1@ || version == API_VERSION_V2@
}

/// Why an object cannot be brought to a version.
pub enum ConvertFailure {
    NoVersion(Seq<char>),
    InvalidDesiredVersion(Seq<char>),
    Chained(Seq<char>, Seq<char>),
}

/// Whether an object is read as one of a version.
pub open spec fn reads_as(version: Seq<char>, shadow: Option<ShadowOfVersion>) -> bool {
    ||| version == API_VERSION_V1@ && shadow is Some && shadow->0 is V1
    ||| version == API_VERSION_V2@ && shadow is Some && shadow->0 is V2
}

/// Why an object that names a version, or none, cannot be brought to the desired version, if it
/// cannot: it names no version, the desired version is not known, or it has another version and
/// is not read as one of that.
pub open spec fn named_failure(
    named: Result<Seq<char>, Seq<char>>,
    shadow: Option<ShadowOfVersion>,
    desired: Seq<char>,
) -> Option<ConvertFailure> {
    match named {
        Err(why) => Some(ConvertFailure::NoVersion(why)),
        Ok(version) => if !is_known_version(desired) {
            Some(ConvertFailure::InvalidDesiredVersion(desired))
        } else if version != desired && !reads_as(version, shadow) {
            Some(ConvertFailure::Chained(version, desired))
        } else {
            None
        },
    }
}

/// Why an object cannot be brought to the desired version, if it cannot.
pub open spec fn convert_failure(obj: ObjectView, desired: Seq<char>) -> Option<ConvertFailure> {
    named_failure(obj.version(), obj.shadow(), desired)
}

/// Whether a new object is what an old one that names a version is brought to: the old one where
/// that is the desired version already, else its conversion.
pub open spec fn converted_from(
    named: Result<Seq<char>, Seq<char>>,
    old: ObjectView,
    desired: Seq<char>,
    new: ObjectView,
) -> bool {
    if named == Ok::<Seq<char>, Seq<char>>(desired) {
        new == old
    } else {
        match old.shadow() {
            Some(ShadowOfVersion::V1(s)) => {
                &&& new is Converted
                &&& new->Converted_0 is V2
                &&& v2::shadow_upgrade(s, new->Converted_0->V2_0)
            },
            Some(ShadowOfVersion::V2(s)) => {
                &&& new is Converted
                &&& new->Converted_0 is V1
                &&& v1::shadow_downgrade(s, new->Converted_0->V1_0)
            },
            None => false,
        }
    }
}

/// Whether a new object is what an old one is brought to.
pub open spec fn converted(old: ObjectView, desired: Seq<char>, new: ObjectView) -> bool {
    converted_from(old.version(), old, desired, new)
}

/// Whether an error tells a failure.
pub open spec fn tells(e: WebhookConvertError, failure: ConvertFailure) -> bool {
    match failure {
        ConvertFailure::NoVersion(why) => e is SourceVersionNotExistInRequest && e->source@ == why,
        ConvertFailure::InvalidDesiredVersion(version) => e is InvalidDesiredVersionError
            && e->InvalidDesiredVersionError_version@ == version,
        ConvertFailure::Chained(src, dst) => {
            &&& e is ChainedConvertError
            &&& e->src_version@ == src
            &&& e->dst_version@ == dst
        },
    }
}

/// Whether a conversion can read the versions and timestamps of an object that names a version,
/// where one is needed to bring it to the desired version.
pub open spec fn named_reads(
    named: Result<Seq<char>, Seq<char>>,
    shadow: Option<ShadowOfVersion>,
    desired: Seq<char>,
) -> bool {
    named_failure(named, shadow, desired) is None && named != Ok::<Seq<char>, Seq<char>>(desired)
        ==> match shadow {
        Some(ShadowOfVersion::V1(s)) => s.convertible(),
        Some(ShadowOfVersion::V2(s)) => s.convertible(),
        None => true,
    }
}

/// Whether a conversion can read the versions and timestamps of an object, where one is needed to
/// bring it to the desired version.
pub open spec fn conversion_reads(obj: ObjectView, desired: Seq<char>) -> bool {
    named_reads(obj.version(), obj.shadow(), desired)
}

/// The contents of a version that was looked up.
pub open spec fn named_view(named: Result<String, String>) -> Result<Seq<char>, Seq<char>> {
    match named {
        Ok(v) => Ok(v@),
        Err(e) => Err(e@),
    }
}

impl BRSObject {
    fn named_version(&self) -> (r: Result<String, String>)
        ensures
            named_view(r) == self@.version(),
    {
        match self {
            BRSObject::Source { json, shadow: _ } => read_text_member(json.as_str(), "apiVersion"),
            BRSObject::Converted(Shadow::V1(_)) => Ok(String::from_str(API_VERSION_V1)),
            BRSObject::Converted(Shadow::V2(_)) => Ok(String::from_str(API_VERSION_V2)),
        }
    }

    /// The version that the object names.
    pub fn get_version(&self) -> (r: Result<String, WebhookConvertError>)
        ensures
            match self@.version() {
                Ok(v) => r is Ok && r->Ok_0@ == v,
                Err(why) => {
                    &&& r is Err
                    &&& r->Err_0 is SourceVersionNotExistInRequest
                    &&& r->Err_0->source@ == why
                },
            },
    {
        match self.named_version() {
            Ok(v) => Ok(v),
            Err(source) => Err(WebhookConvertError::SourceVersionNotExistInRequest { source }),
        }
    }

    fn into_shadow(self) -> (r: Option<Shadow>)
        ensures
            (match r {
                Some(s) => Some(s@),
                None => None,
            }) == self@.shadow(),
    {
        match self {
            BRSObject::Source { json: _, shadow } => shadow,
            BRSObject::Converted(s) => Some(s),
        }
    }

    fn to_v2(source_obj: BRSObject) -> (r: Result<BRSObject, WebhookConvertError>)
        requires
            source_obj@.shadow() matches Some(ShadowOfVersion::V1(s)) ==> s.convertible(),
        ensures
            match source_obj@.shadow() {
                Some(ShadowOfVersion::V1(s)) => {
                    &&& r is Ok
                    &&& r->Ok_0@ is Converted
                    &&& r->Ok_0@->Converted_0 is V2
                    &&& v2::shadow_upgrade(s, r->Ok_0@->Converted_0->V2_0)
                },
                _ => r is Err && r->Err_0 is JsonToBottlerocketShadowConvertError,
            },
    {
        match source_obj.into_shadow() {
            Some(Shadow::V1(s)) => Ok(
                BRSObject::Converted(Shadow::V2(v2::BottlerocketShadow::from(s))),
            ),
            _ => Err(
                WebhookConvertError::JsonToBottlerocketShadowConvertError {
                    version: String::from_str("v1"),
                },
            ),
        }
    }

    fn to_v1(source_obj: BRSObject) -> (r: Result<BRSObject, WebhookConvertError>)
        requires
            source_obj@.shadow() matches Some(ShadowOfVersion::V2(s)) ==> s.convertible(),
        ensures
            match source_obj@.shadow() {
                Some(ShadowOfVersion::V2(s)) => {
                    &&& r is Ok
                    &&& r->Ok_0@ is Converted
                    &&& r->Ok_0@->Converted_0 is V1
                    &&& v1::shadow_downgrade(s, r->Ok_0@->Converted_0->V1_0)
                },
                _ => r is Err && r->Err_0 is JsonToBottlerocketShadowConvertError,
            },
    {
        match source_obj.into_shadow() {
            Some(Shadow::V2(s)) => Ok(
                BRSObject::Converted(Shadow::V1(v1::BottlerocketShadow::from(s))),
            ),
            _ => Err(
                WebhookConvertError::JsonToBottlerocketShadowConvertError {
                    version: String::from_str("v2"),
                },
            ),
        }
    }

    // Since we ware supporting/ship both v1 and v2 versions of the bottlerocketshadow CRD,
    // the CRD conversion webhook needs to also support conversions between the two.
    // Primarily, the kube-api server puts a "watcher" on both versions and will attempt
    // to convert to the one found in it's "Stored Versions".
    // This "pinwheel" converter ensures that we support a seamless transition between either.
    //
    // If we ever have the need to support many more versions,
    // this pinwheel converter should use a single CRD version as the "hub" to convert to
    // and from (preventing the need for a large matrix of supported conversions.
    //
    // For reference:
    // https://book.kubebuilder.io/multiversion-tutorial/conversion-concepts.html
    fn pinwheel_convert(self, version: &String) -> (r: Result<Self, WebhookConvertError>)
        requires
            version@ == API_VERSION_V1@ ==> (self@.shadow() matches Some(ShadowOfVersion::V1(s))
                ==> s.convertible()),
            version@ == API_VERSION_V2@ ==> (self@.shadow() matches Some(ShadowOfVersion::V2(s))
                ==> s.convertible()),
        ensures
            r is Ok <==> reads_as(version@, self@.shadow()),
            r is Ok && version@ == API_VERSION_V1@ ==> {
                &&& r->Ok_0@ is Converted
                &&& r->Ok_0@->Converted_0 is V2
                &&& v2::shadow_upgrade(self@.shadow()->0->V1_0, r->Ok_0@->Converted_0->V2_0)
            },
            r is Ok && version@ != API_VERSION_V1@ ==> {
                &&& r->Ok_0@ is Converted
                &&& r->Ok_0@->Converted_0 is V1
                &&& v1::shadow_downgrade(self@.shadow()->0->V2_0, r->Ok_0@->Converted_0->V1_0)
            },
    {
        proof {
            lemma_versions_differ();
        }
        if str_eq(version.as_str(), API_VERSION_V1) {
            BRSObject::to_v2(self)
        } else if str_eq(version.as_str(), API_VERSION_V2) {
            BRSObject::to_v1(self)
        } else {
            Err(WebhookConvertError::InvalidVersionError { version: version.clone() })
        }
    }

    /// Brings the object to the desired version.
    pub fn chained_convert_object(self, desired_version: &str) -> (r: Result<
        Self,
        WebhookConvertError,
    >)
        requires
            conversion_reads(self@, desired_version@),
        ensures
            match convert_failure(self@, desired_version@) {
                Some(failure) => r is Err && tells(r->Err_0, failure),
                None => r is Ok && converted(self@, desired_version@, r->Ok_0@),
            },
    {
        let named = self.named_version();
        self.convert_from(named, desired_version)
    }

    /// Brings the object to the desired version, from the version that it names or the reason why
    /// it names none.
    pub fn convert_from(self, named: Result<String, String>, desired_version: &str) -> (r: Result<
        Self,
        WebhookConvertError,
    >)
        requires
            named_reads(named_view(named), self@.shadow(), desired_version@),
        ensures
            match named_failure(named_view(named), self@.shadow(), desired_version@) {
                Some(failure) => r is Err && tells(r->Err_0, failure),
                None => r is Ok && converted_from(
                    named_view(named),
                    self@,
                    desired_version@,
                    r->Ok_0@,
                ),
            },
    {
        proof {
            lemma_versions_differ();
        }
        let ghost start = self@;
        let ghost from = named_view(named);
        let mut version = match named {
            Ok(v) => v,
            Err(source) => {
                return Err(WebhookConvertError::SourceVersionNotExistInRequest { source });
            },
        };
        // Validates desired version can be accepted into the pinwheel converter
        if !str_eq(desired_version, API_VERSION_V1) && !str_eq(desired_version, API_VERSION_V2) {
            return Err(
                WebhookConvertError::InvalidDesiredVersionError {
                    version: String::from_str(desired_version),
                },
            );
        }
        let mut source_object = self;
        // Enter the pinwheel converter
        while !str_eq(version.as_str(), desired_version)
            invariant
                start == self@,
                from == named_view(named),
                from is Ok,
                is_known_version(desired_version@),
                API_VERSION_V1@ != API_VERSION_V2@,
                version@ != desired_version@ ==> source_object@ == start && from == Ok::<
                    Seq<char>,
                    Seq<char>,
                >(version@),
                version@ == desired_version@ ==> converted_from(
                    from,
                    start,
                    desired_version@,
                    source_object@,
                ) && named_failure(from, start.shadow(), desired_version@) is None,
                named_reads(from, start.shadow(), desired_version@),
            decreases
                    (if version@ == desired_version@ {
                        0int
                    } else {
                        1int
                    }),
        {
            match source_object.pinwheel_convert(&version) {
                Ok(val) => {
                    source_object = val;
                },
                Err(_) => {
                    return Err(
                        WebhookConvertError::ChainedConvertError {
                            src_version: version,
                            dst_version: String::from_str(desired_version),
                        },
                    );
                },
            }
            version = match source_object.get_version() {
                Ok(v) => v,
                Err(e) => {
                    return Err(e);
                },
            };
        }
        Ok(source_object)
    }

    fn copy(&self) -> (r: BRSObject)
        ensures
            r@ == self@,
    {
        match self {
            BRSObject::Source { json, shadow } => BRSObject::Source {
                json: json.clone(),
                shadow: match shadow {
                    Some(s) => Some(s.copy()),
                    None => None,
                },
            },
            BRSObject::Converted(s) => BRSObject::Converted(s.copy()),
        }
    }
}

proof fn lemma_versions_differ()
    ensures
        API_VERSION_V1@ != API_VERSION_V2@,
{
    reveal_strlit("brupop.bottlerocket.aws/v1");
    reveal_strlit("brupop.bottlerocket.aws/v2");
    assert(API_VERSION_V1@[25] != API_VERSION_V2@[25]);
}

/// Objects as their contents.
pub open spec fn object_views(objects: Seq<BRSObject>) -> Seq<ObjectView> {
    objects.map_values(|o: BRSObject| o@)
}

/// Whether the conversions of a list, up to the first object that cannot be converted, can read
/// their objects.
pub open spec fn list_reads(objects: Seq<ObjectView>, desired: Seq<char>) -> bool {
    forall|i: int|
        0 <= i < objects.len() && (forall|j: int|
            0 <= j < i ==> convert_failure(#[trigger] objects[j], desired) is None)
            ==> conversion_reads(#[trigger] objects[i], desired)
}

/// Whether the outcome of converting a list is right: the conversions of all objects, in their
/// order, or the failure of the first one that cannot be converted.
pub open spec fn list_converted(
    objects: Seq<ObjectView>,
    desired: Seq<char>,
    r: Result<Seq<ObjectView>, WebhookConvertError>,
) -> bool {
    match r {
        Ok(new_objects) => {
            &&& new_objects.len() == objects.len()
            &&& forall|i: int|
                0 <= i < objects.len() ==> convert_failure(#[trigger] objects[i], desired) is None
                    && converted(objects[i], desired, new_objects[i])
        },
        Err(e) => exists|i: int|
            {
                &&& 0 <= i < objects.len()
                &&& convert_failure(#[trigger] objects[i], desired) is Some
                &&& tells(e, convert_failure(objects[i], desired)->0)
                &&& forall|j: int|
                    0 <= j < i ==> convert_failure(#[trigger] objects[j], desired) is None
            },
    }
}

/// The outcome of converting a list, as contents.
pub open spec fn outcome_view(r: Result<Vec<BRSObject>, WebhookConvertError>) -> Result<
    Seq<ObjectView>,
    WebhookConvertError,
> {
    match r {
        Ok(v) => Ok(object_views(v@)),
        Err(e) => Err(e),
    }
}

/// Converts a list of objects to the desired version.
pub fn convert_objects(desired_version: &str, objects: &Vec<BRSObject>) -> (r: Result<
    Vec<BRSObject>,
    WebhookConvertError,
>)
    requires
        list_reads(object_views(objects@), desired_version@),
    ensures
        list_converted(object_views(objects@), desired_version@, outcome_view(r)),
{
    let ghost all = object_views(objects@);
    let mut new_objects: Vec<BRSObject> = Vec::new();
    let mut i: usize = 0;
    while i < objects.len()
        invariant
            i <= objects@.len(),
            all == object_views(objects@),
            list_reads(all, desired_version@),
            new_objects@.len() == i,
            forall|j: int|
                0 <= j < i ==> convert_failure(#[trigger] all[j], desired_version@) is None
                    && converted(all[j], desired_version@, new_objects@[j]@),
        decreases objects@.len() - i,
    {
        let old_brs_object = objects[i].copy();
        assert(all[i as int] == old_brs_object@);
        assert(conversion_reads(all[i as int], desired_version@));
        match old_brs_object.chained_convert_object(desired_version) {
            Ok(new_brs_object) => {
                new_objects.push(new_brs_object);
            },
            Err(e) => {
                return Err(e);
            },
        }
        i = i + 1;
    }
    proof {
        assert forall|j: int| 0 <= j < all.len() implies convert_failure(
            #[trigger] all[j],
            desired_version@,
        ) is None && converted(all[j], desired_version@, object_views(new_objects@)[j]) by {
            assert(object_views(new_objects@)[j] == new_objects@[j]@);
        }
    }
    Ok(new_objects)
}

/// Whether a conversion succeeded.
#[derive(Debug, Clone, Copy, PartialEq, Eq, Structural)]
pub enum Status {
    Success,
    Failed,
}

/// The result of a conversion.
#[derive(Debug, PartialEq, Eq)]
pub struct ConvertResult {
    pub status: Status,
    pub message: Option<String>,
}

impl Default for ConvertResult {
    fn default() -> (r: Self)
        ensures
            r.status == Status::Success,
            r.message is None,
    {
        ConvertResult { status: Status::Success, message: None }
    }
}

impl ConvertResult {
    /// The result of a conversion that failed.
    pub fn create_fail_result(msg: String) -> (r: Self)
        ensures
            r.status == Status::Failed,
            r.message is Some,
            r.message->0@ == msg@,
    {
        ConvertResult { status: Status::Failed, message: Some(msg) }
    }
}

/// What is asked of the webhook.
#[derive(Debug)]
pub struct Request {
    pub uid: String,
    pub desired_api_version: String,
    pub objects: Vec<BRSObject>,
}

/// A request to the webhook.
#[derive(Debug)]
pub struct ConversionRequest {
    pub kind: String,
    pub api_version: String,
    pub request: Request,
}

/// What the webhook answers.
#[derive(Debug)]
pub struct Response {
    pub uid: String,
    pub result: ConvertResult,
    pub converted_objects: Option<Vec<BRSObject>>,
}

/// An answer of the webhook.
#[derive(Debug)]
pub struct ConversionResponse {
    pub kind: String,
    pub api_version: String,
    pub response: Response,
}

/// Whether a response answers a request: it carries the kind, the API version and the uid of the
/// request; all objects in the desired version and in their order, or, where one of them cannot
/// be converted, no objects and the failure of the first such one in words.
pub open spec fn answers(req: ConversionRequest, r: ConversionResponse) -> bool {
    let objects = object_views(req.request.objects@);
    let desired = req.request.desired_api_version@;
    &&& r.kind@ == req.kind@
    &&& r.api_version@ == req.api_version@
    &&& r.response.uid@ == req.request.uid@
    &&& match r.response.converted_objects {
        Some(new_objects) => {
            &&& r.response.result.status == Status::Success
            &&& r.response.result.message is None
            &&& list_converted(objects, desired, Ok(object_views(new_objects@)))
        },
        None => {
            &&& r.response.result.status == Status::Failed
            &&& r.response.result.message is Some
            &&& exists|e: WebhookConvertError|
                #![trigger e.message()]
                list_converted(objects, desired, Err(e)) && r.response.result.message->0@
                    == e.message()
        },
    }
}

/// Convert k8s ConversionReview object from request to response
/// by applying chained convert methods on its objects.
pub fn convert_request_to_response(req: &ConversionRequest) -> (r: ConversionResponse)
    requires
        list_reads(object_views(req.request.objects@), req.request.desired_api_version@),
    ensures
        answers(*req, r),
{
    let request = &req.request;
    match convert_objects(request.desired_api_version.as_str(), &request.objects) {
        Ok(new_objects) => ConversionResponse {
            kind: req.kind.clone(),
            api_version: req.api_version.clone(),
            response: Response {
                uid: request.uid.clone(),
                result: ConvertResult::default(),
                converted_objects: Some(new_objects),
            },
        },
        Err(e) => {
            let fail_result = ConvertResult::create_fail_result(e.to_text());
            ConversionResponse {
                kind: req.kind.clone(),
                api_version: req.api_version.clone(),
                response: Response {
                    uid: request.uid.clone(),
                    result: fail_result,
                    converted_objects: None,
                },
            }
        },
    }
}

impl ConversionRequest {
    /// Answers the request.
    pub fn convert_resource(&self) -> (r: ConversionResponse)
        requires
            list_reads(object_views(self.request.objects@), self.request.desired_api_version@),
        ensures
            answers(*self, r),
    {
        convert_request_to_response(self)
    }

    /// Answers the request, unless an object holds a version or a timestamp that cannot be read.
    pub fn checked_convert_resource(&self) -> (r: Option<ConversionResponse>)
        ensures
            match r {
                Some(response) => answers(*self, response),
                None => !list_reads(
                    object_views(self.request.objects@),
                    self.request.desired_api_version@,
                ),
            },
            r is Some <==> list_reads(
                object_views(self.request.objects@),
                self.request.desired_api_version@,
            ),
    {
        let ghost all = object_views(self.request.objects@);
        let ghost desired = self.request.desired_api_version@;
        let objects = &self.request.objects;
        let mut i: usize = 0;
        let mut failed = false;
        while i < objects.len() && !failed
            invariant
                i <= objects@.len(),
                objects@ == self.request.objects@,
                all == object_views(objects@),
                desired == self.request.desired_api_version@,
                !failed ==> forall|j: int|
                    0 <= j < i ==> convert_failure(#[trigger] all[j], desired) is None,
                failed ==> exists|k: int|
                    0 <= k < i && convert_failure(#[trigger] all[k], desired) is Some,
                forall|j: int| 0 <= j < i ==> conversion_reads(#[trigger] all[j], desired),
            decreases objects@.len() - i,
        {
            assert(all[i as int] == objects@[i as int]@);
            let (fails, reads) = examine(&objects[i], self.request.desired_api_version.as_str());
            if !reads {
                proof {
                    assert(!conversion_reads(all[i as int], desired));
                }
                return None;
            }
            failed = fails;
            i = i + 1;
        }
        proof {
            assert forall|k: int|
                0 <= k < all.len() && (forall|j: int|
                    0 <= j < k ==> convert_failure(#[trigger] all[j], desired) is None)
                implies conversion_reads(#[trigger] all[k], desired) by {
                if k >= i {
                    assert(failed);
                    let m = choose|m: int|
                        0 <= m < i && convert_failure(#[trigger] all[m], desired) is Some;
                    assert(convert_failure(all[m], desired) is None);
                }
            }
        }
        Some(self.convert_resource())
    }
}

/// Whether an object cannot be converted, and whether its conversion can read it.
fn examine(obj: &BRSObject, desired_version: &str) -> (r: (bool, bool))
    ensures
        r.0 == (convert_failure(obj@, desired_version@) is Some),
        r.1 == conversion_reads(obj@, desired_version@),
{
    let version = match obj.get_version() {
        Ok(v) => v,
        Err(_) => {
            return (true, true);
        },
    };
    if !str_eq(desired_version, API_VERSION_V1) && !str_eq(desired_version, API_VERSION_V2) {
        return (true, true);
    }
    if str_eq(version.as_str(), desired_version) {
        return (false, true);
    }
    let shadow: Option<&Shadow> = match obj {
        BRSObject::Source { json: _, shadow } => match shadow {
            Some(s) => Some(s),
            None => None,
        },
        BRSObject::Converted(s) => Some(s),
    };
    match shadow {
        Some(Shadow::V1(s)) => {
            if str_eq(version.as_str(), API_VERSION_V1) {
                (false, s.is_convertible())
            } else {
                (true, true)
            }
        },
        Some(Shadow::V2(s)) => {
            if str_eq(version.as_str(), API_VERSION_V2) {
                (false, s.is_convertible())
            } else {
                (true, true)
            }
        },
        None => (true, true),
    }
}

/// Every object that the webhook hands out has the desired version.
pub proof fn converted_objects_have_desired_version(
    old: ObjectView,
    desired: Seq<char>,
    new: ObjectView,
)
    requires
        convert_failure(old, desired) is None,
        converted(old, desired, new),
    ensures
        new.version() == Ok::<Seq<char>, Seq<char>>(desired),
{
    lemma_versions_differ();
}

/// The metadata of an object of either version.
pub open spec fn metadata_of(s: ShadowOfVersion) -> crate::models::meta::ObjectMetaView {
    match s {
        ShadowOfVersion::V1(v) => v.metadata,
        ShadowOfVersion::V2(v) => v.metadata,
    }
}

/// A conversion does not change the name, the namespace, the uid and the owners of an object.
pub proof fn conversion_keeps_identity(old: ObjectView, desired: Seq<char>, new: ObjectView)
    requires
        convert_failure(old, desired) is None,
        converted(old, desired, new),
        old.version() != Ok::<Seq<char>, Seq<char>>(desired),
    ensures
        old.shadow() is Some,
        new.shadow() is Some,
        metadata_of(new.shadow()->0).name == metadata_of(old.shadow()->0).name,
        metadata_of(new.shadow()->0).namespace == metadata_of(old.shadow()->0).namespace,
        metadata_of(new.shadow()->0).uid == metadata_of(old.shadow()->0).uid,
        metadata_of(new.shadow()->0).owner_references == metadata_of(
            old.shadow()->0,
        ).owner_references,
{
}

} // verus!
