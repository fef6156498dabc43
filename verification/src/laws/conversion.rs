//! The conversion of objects between their versions, as the server answers for it.

use vstd::prelude::*;

use crate::apiserver::webhook::{
    answers, conversion_reads, convert_failure, converted, converted_from, json_text_member,
    list_converted, list_reads, named_failure, named_reads, object_views, tells, BRSObject,
    ConversionRequest, ConversionResponse, ConvertFailure, ConvertResult, ObjectView,
    ShadowOfVersion, WebhookConvertError,
};
use crate::models::node::crd::{v1, v2};

verus! {

/// An object that came from outside has the version that its document names, and one that was
/// converted has the version that it was converted to.
pub proof fn versions_of_objects(
    json: Seq<char>,
    shadow: Option<ShadowOfVersion>,
    first: v1::ShadowView,
    second: v2::ShadowView,
)
    ensures
        (ObjectView::Source { json, shadow }).version() == json_text_member(json, "apiVersion"@),
        (ObjectView::Source { json, shadow }).shadow() == shadow,
        ObjectView::Converted(ShadowOfVersion::V1(first)).version() == Ok::<Seq<char>, Seq<char>>(
            "brupop.bottlerocket.aws/v1"@,
        ),
        ObjectView::Converted(ShadowOfVersion::V2(second)).version() == Ok::<Seq<char>, Seq<char>>(
            "brupop.bottlerocket.aws/v2"@,
        ),
        ObjectView::Converted(ShadowOfVersion::V1(first)).shadow() == Some(
            ShadowOfVersion::V1(first),
        ),
        ObjectView::Converted(ShadowOfVersion::V2(second)).shadow() == Some(
            ShadowOfVersion::V2(second),
        ),
{
}

/// An object can be converted exactly where it names a version, a known version is desired, and the
/// object is of that version or is read as one of the other known version. The failure of any other
/// one tells what is wrong.
pub proof fn objects_that_can_be_converted(
    named: Result<Seq<char>, Seq<char>>,
    shadow: Option<ShadowOfVersion>,
    desired: Seq<char>,
)
    ensures
        ({
            let first = "brupop.bottlerocket.aws/v1"@;
            let second = "brupop.bottlerocket.aws/v2"@;
            let failure = named_failure(named, shadow, desired);
            let known = desired == first || desired == second;
            let read = shadow is Some && ((named->Ok_0 == first && shadow->0 is V1) || (named->Ok_0
                == second && shadow->0 is V2));
            &&& failure is None <==> named is Ok && known && (named->Ok_0 == desired || read)
            &&& named is Err ==> failure == Some(ConvertFailure::NoVersion(named->Err_0))
            &&& named is Ok && !known ==> failure == Some(
                ConvertFailure::InvalidDesiredVersion(desired),
            )
            &&& named is Ok && known && named->Ok_0 != desired && !read ==> failure == Some(
                ConvertFailure::Chained(named->Ok_0, desired),
            )
        }),
{
}

/// What becomes of an object is decided by the version that it names.
pub proof fn objects_are_converted_by_their_version(
    old: ObjectView,
    desired: Seq<char>,
    new: ObjectView,
)
    ensures
        convert_failure(old, desired) == named_failure(old.version(), old.shadow(), desired),
        converted(old, desired, new) <==> converted_from(old.version(), old, desired, new),
        conversion_reads(old, desired) <==> named_reads(old.version(), old.shadow(), desired),
{
}

/// An object of the desired version stays as it is; one of the first version becomes one of the second,
/// and one of the second becomes one of the first.
pub proof fn objects_become_the_other_version(
    named: Result<Seq<char>, Seq<char>>,
    old: ObjectView,
    desired: Seq<char>,
    new: ObjectView,
)
    requires
        converted_from(named, old, desired, new),
    ensures
        named is Ok && named->Ok_0 == desired ==> new == old,
        named is Err || named->Ok_0 != desired ==> {
            &&& old.shadow() is Some
            &&& new is Converted
            &&& old.shadow()->0 is V1 ==> new->Converted_0 is V2 && v2::shadow_upgrade(
                old.shadow()->0->V1_0,
                new->Converted_0->V2_0,
            )
            &&& old.shadow()->0 is V2 ==> new->Converted_0 is V1 && v1::shadow_downgrade(
                old.shadow()->0->V2_0,
                new->Converted_0->V1_0,
            )
        },
{
}

/// What is read of an object that is to be converted can be read; of any other one nothing is read.
pub proof fn only_converted_objects_are_read(
    named: Result<Seq<char>, Seq<char>>,
    shadow: Option<ShadowOfVersion>,
    desired: Seq<char>,
)
    ensures
        ({
            let changes = named_failure(named, shadow, desired) is None && named->Ok_0 != desired;
            &&& !changes ==> named_reads(named, shadow, desired)
            &&& changes && shadow is Some && shadow->0 is V1 ==> (named_reads(
                named,
                shadow,
                desired,
            ) <==> shadow->0->V1_0.convertible())
            &&& changes && shadow is Some && shadow->0 is V2 ==> (named_reads(
                named,
                shadow,
                desired,
            ) <==> shadow->0->V2_0.convertible())
        }),
{
}

/// A list of objects is converted one by one, and only where each of them can be: the result has as
/// many, in the same order.
pub proof fn lists_are_converted_one_by_one(
    objects: Seq<ObjectView>,
    desired: Seq<char>,
    r: Result<Seq<ObjectView>, WebhookConvertError>,
    i: int,
)
    requires
        list_converted(objects, desired, r),
        0 <= i < objects.len(),
    ensures
        r is Ok ==> r->Ok_0.len() == objects.len() && convert_failure(objects[i], desired) is None
            && converted(objects[i], desired, r->Ok_0[i]),
        convert_failure(objects[i], desired) is Some ==> r is Err,
        (forall|j: int|
            0 <= j < objects.len() ==> convert_failure(#[trigger] objects[j], desired) is None)
            ==> r is Ok,
        convert_failure(objects[i], desired) is Some && (forall|j: int|
            0 <= j < i ==> convert_failure(#[trigger] objects[j], desired) is None) ==> tells(
            r->Err_0,
            convert_failure(objects[i], desired)->0,
        ),
{
    if convert_failure(objects[i], desired) is Some && (forall|j: int|
        0 <= j < i ==> convert_failure(#[trigger] objects[j], desired) is None) && r is Err {
        let k = choose|k: int|
            {
                &&& 0 <= k < objects.len()
                &&& convert_failure(#[trigger] objects[k], desired) is Some
                &&& tells(r->Err_0, convert_failure(objects[k], desired)->0)
                &&& forall|j: int|
                    0 <= j < k ==> convert_failure(#[trigger] objects[j], desired) is None
            };
        if k < i {
            assert(convert_failure(objects[k], desired) is None);
        }
        if i < k {
            assert(convert_failure(objects[i], desired) is None);
        }
    }
}

/// A list without objects is converted to one without objects.
pub proof fn empty_lists_are_converted(
    desired: Seq<char>,
    r: Result<Seq<ObjectView>, WebhookConvertError>,
)
    requires
        list_converted(Seq::empty(), desired, r),
    ensures
        r is Ok,
        r->Ok_0.len() == 0,
{
}

/// Each failure is told by one error, which carries what the failure is about.
pub proof fn failures_of_conversion_are_told(e: WebhookConvertError, failure: ConvertFailure)
    ensures
        e is SourceVersionNotExistInRequest ==> (tells(e, failure) <==> failure
            == ConvertFailure::NoVersion(e->source@)),
        e is InvalidDesiredVersionError ==> (tells(e, failure) <==> failure
            == ConvertFailure::InvalidDesiredVersion(e->InvalidDesiredVersionError_version@)),
        e is ChainedConvertError ==> (tells(e, failure) <==> failure == ConvertFailure::Chained(
            e->src_version@,
            e->dst_version@,
        )),
        e is JsonToBottlerocketShadowConvertError || e is InvalidVersionError ==> !tells(e, failure),
{
}

/// A list can be converted where each object that is to be converted can be read; and where it can
/// be, so can each object before which none fails.
pub proof fn readable_lists_can_be_converted(objects: Seq<ObjectView>, desired: Seq<char>, i: int)
    requires
        0 <= i < objects.len(),
    ensures
        (forall|j: int| 0 <= j < objects.len() ==> conversion_reads(#[trigger] objects[j], desired))
            ==> list_reads(objects, desired),
        list_reads(objects, desired) && (forall|j: int|
            0 <= j < i ==> convert_failure(#[trigger] objects[j], desired) is None)
            ==> conversion_reads(objects[i], desired),
{
}

/// An answer is of the kind and version of its request and carries its uid. It succeeds, with all
/// objects, where each of them can be converted, and else fails with a message and no objects.
pub proof fn conversions_are_answered(req: ConversionRequest, r: ConversionResponse)
    requires
        answers(req, r),
    ensures
        r.kind@ == req.kind@,
        r.api_version@ == req.api_version@,
        r.response.uid@ == req.request.uid@,
        ({
            let objects = object_views(req.request.objects@);
            let desired = req.request.desired_api_version@;
            let possible = forall|i: int|
                0 <= i < objects.len() ==> convert_failure(#[trigger] objects[i], desired) is None;
            &&& possible <==> r.response.result.status is Success
            &&& possible <==> r.response.converted_objects is Some
            &&& possible <==> r.response.result.message is None
            &&& possible ==> {
                let new = object_views(r.response.converted_objects->0@);
                &&& new.len() == objects.len()
                &&& forall|i: int|
                    0 <= i < objects.len() ==> converted(#[trigger] objects[i], desired, new[i])
            }
            &&& !possible ==> r.response.result.status is Failed
        }),
{
}

/// The version of an object is told, or why it has none; and the result of a conversion that failed
/// says so, with the message.
pub proof fn objects_tell_their_version(
    obj: &BRSObject,
    version: Result<String, WebhookConvertError>,
    message: String,
    failed: ConvertResult,
)
    requires
        call_ensures(BRSObject::get_version, (obj,), version),
        call_ensures(ConvertResult::create_fail_result, (message,), failed),
    ensures
        version is Ok <==> obj@.version() is Ok,
        version is Ok ==> version->Ok_0@ == obj@.version()->Ok_0,
        version is Err ==> version->Err_0 is SourceVersionNotExistInRequest
            && version->Err_0->source@ == obj@.version()->Err_0,
        failed.status is Failed,
        failed.message is Some,
        failed.message->0@ == message@,
{
}

/// An object is converted where it can be, and the failure of any other one is told.
pub proof fn objects_are_converted_or_told(
    obj: BRSObject,
    desired: &str,
    r: Result<BRSObject, WebhookConvertError>,
)
    requires
        conversion_reads(obj@, desired@),
        call_ensures(BRSObject::chained_convert_object, (obj, desired), r),
    ensures
        r is Ok <==> convert_failure(obj@, desired@) is None,
        r is Ok ==> converted(obj@, desired@, r->Ok_0@),
        r is Err ==> tells(r->Err_0, convert_failure(obj@, desired@)->0),
{
}

} // verus!
