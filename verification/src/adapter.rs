//! The conversion adapter.
//!
//! [`convert`] takes one batch conversion request, validates the desired
//! target version up front, runs every object through the migration
//! transform in order, and aggregates the results under an all-or-nothing
//! policy: either every object converts and the response carries the full
//! batch in input order, or the response is a single failure carrying the
//! first error encountered.

use vstd::prelude::*;
use vstd::string::StringExecFns;

use crate::object::{RawObject, RawObjectV};
use crate::transform::{migrate, res_view, spec_migrate, TransformError};
use crate::version::{parse_version, spec_parse_version, Version};

verus! {

/// The machine-readable reason surfaced to the caller on failure.
#[derive(Clone, Copy, PartialEq, Eq, Debug, Structural)]
pub enum ReasonCode {
    /// The inbound envelope could not be decoded into a request.
    InvalidRequest,
    /// The desired version names a target this engine does not implement.
    UnsupportedTarget,
    /// Some object in the batch failed to transform.
    ConversionFailed,
}

/// One batch conversion request.
#[derive(PartialEq, Eq, Debug)]
pub struct ConversionRequest {
    /// Opaque correlation token, echoed in the response.
    pub uid: String,
    /// The version every object should be rewritten to.
    pub desired_api_version: String,
    /// The raw objects to convert, in caller order.
    pub objects: Vec<RawObject>,
}

/// Mathematical model of a [`ConversionRequest`].
pub struct ConversionRequestV {
    pub uid: Seq<char>,
    pub desired_api_version: Seq<char>,
    pub objects: Seq<RawObjectV>,
}

impl View for ConversionRequest {
    type V = ConversionRequestV;

    open spec fn view(&self) -> ConversionRequestV {
        ConversionRequestV {
            uid: self.uid@,
            desired_api_version: self.desired_api_version@,
            objects: self.objects.deep_view(),
        }
    }
}

/// Why and how a batch was rejected.
#[derive(PartialEq, Eq, Debug)]
pub struct FailureInfo {
    /// A human-readable description of the rejection.
    pub message: String,
    /// The machine-readable reason.
    pub reason_code: ReasonCode,
}

/// Mathematical model of a [`FailureInfo`].
pub struct FailureInfoV {
    pub message: Seq<char>,
    pub reason_code: ReasonCode,
}

impl View for FailureInfo {
    type V = FailureInfoV;

    open spec fn view(&self) -> FailureInfoV {
        FailureInfoV { message: self.message@, reason_code: self.reason_code }
    }
}

/// The outcome of one batch: all objects converted, or one failure.
#[derive(PartialEq, Eq, Debug)]
pub enum Outcome {
    Success(Vec<RawObject>),
    Failure(FailureInfo),
}

/// Mathematical model of an [`Outcome`].
pub enum OutcomeV {
    Success(Seq<RawObjectV>),
    Failure(FailureInfoV),
}

impl View for Outcome {
    type V = OutcomeV;

    open spec fn view(&self) -> OutcomeV {
        match self {
            Outcome::Success(objs) => OutcomeV::Success(objs.deep_view()),
            Outcome::Failure(f) => OutcomeV::Failure(f@),
        }
    }
}

/// One batch conversion response.
#[derive(PartialEq, Eq, Debug)]
pub struct ConversionResponse {
    /// The request's correlation token, echoed back.
    pub uid: String,
    /// The outcome of the batch.
    pub outcome: Outcome,
}

/// Mathematical model of a [`ConversionResponse`].
pub struct ConversionResponseV {
    pub uid: Seq<char>,
    pub outcome: OutcomeV,
}

impl View for ConversionResponse {
    type V = ConversionResponseV;

    open spec fn view(&self) -> ConversionResponseV {
        ConversionResponseV { uid: self.uid@, outcome: self.outcome@ }
    }
}

/// The description of a transform error, as it appears in failure messages.
pub open spec fn spec_describe_error(e: TransformError) -> Seq<char> {
    match e {
        TransformError::MalformedVersion => "object apiVersion is missing or not a string"@,
        TransformError::InvalidSpecShape => (
        "spec or a tracked sub-key of spec is not a JSON object"@),
        TransformError::UnsupportedSourceVersion => (
        "object declares an unsupported source apiVersion"@),
    }
}

/// Render a transform error as its failure-message description.
pub fn describe_error(e: TransformError) -> (r: String)
    ensures
        r@ == spec_describe_error(e),
{
    match e {
        TransformError::MalformedVersion => "object apiVersion is missing or not a string".to_owned(),
        TransformError::InvalidSpecShape => "spec or a tracked sub-key of spec is not a JSON object".to_owned(),
        TransformError::UnsupportedSourceVersion => "object declares an unsupported source apiVersion".to_owned(),
    }
}

/// The message of a response that rejects the desired target version.
pub open spec fn spec_unsupported_target_message(desired: Seq<char>) -> Seq<char> {
    "unsupported desiredAPIVersion: "@ + desired
}

/// The message of a response that rejects the whole batch.
pub open spec fn spec_conversion_failed_message(e: TransformError) -> Seq<char> {
    "conversion failed: "@ + spec_describe_error(e)
}

/// What migrating a whole batch yields: every object migrated, in order, or
/// the first error encountered.
pub open spec fn spec_migrate_all(objs: Seq<RawObjectV>, target: Version) -> Result<
    Seq<RawObjectV>,
    TransformError,
>
    decreases objs.len(),
{
    if objs.len() == 0 {
        Ok(Seq::empty())
    } else {
        match spec_migrate_all(objs.drop_last(), target) {
            Err(e) => Err(e),
            Ok(p) => match spec_migrate(objs.last(), target) {
                Err(e) => Err(e),
                Ok(m) => Ok(p.push(m)),
            },
        }
    }
}

/// What converting a request yields: a rejection of an unsupported target
/// before any object is inspected, and otherwise the migrated batch or the
/// first per-object error, with the request's uid echoed either way.
pub open spec fn spec_convert(r: ConversionRequestV) -> ConversionResponseV {
    match spec_parse_version(r.desired_api_version) {
        None => ConversionResponseV {
            uid: r.uid,
            outcome: OutcomeV::Failure(
                FailureInfoV {
                    message: spec_unsupported_target_message(r.desired_api_version),
                    reason_code: ReasonCode::UnsupportedTarget,
                },
            ),
        },
        Some(target) => match spec_migrate_all(r.objects, target) {
            Ok(out) => ConversionResponseV { uid: r.uid, outcome: OutcomeV::Success(out) },
            Err(e) => ConversionResponseV {
                uid: r.uid,
                outcome: OutcomeV::Failure(
                    FailureInfoV {
                        message: spec_conversion_failed_message(e),
                        reason_code: ReasonCode::ConversionFailed,
                    },
                ),
            },
        },
    }
}

/// Law: a batch migrates in an order-preserving way. A successful batch has
/// exactly one output per input, and the output at each position is the
/// migration of the input at that position.
pub proof fn lemma_order_preserving(objs: Seq<RawObjectV>, target: Version)
    requires
        spec_migrate_all(objs, target) is Ok,
    ensures
        spec_migrate_all(objs, target)->Ok_0.len() == objs.len(),
        forall|i: int|
            0 <= i < objs.len() ==> spec_migrate(#[trigger] objs[i], target) is Ok
                && spec_migrate_all(objs, target)->Ok_0[i] == spec_migrate(objs[i], target)->Ok_0,
    decreases objs.len(),
{
    if objs.len() > 0 {
        lemma_order_preserving(objs.drop_last(), target);
        let p = spec_migrate_all(objs.drop_last(), target)->Ok_0;
        let m = spec_migrate(objs.last(), target)->Ok_0;
        assert(spec_migrate_all(objs, target)->Ok_0 == p.push(m));
        assert forall|i: int| 0 <= i < objs.len() implies spec_migrate(#[trigger] objs[i], target)
            is Ok && spec_migrate_all(objs, target)->Ok_0[i] == spec_migrate(
            objs[i],
            target,
        )->Ok_0 by {
            if i < objs.len() - 1 {
                assert(objs.drop_last()[i] == objs[i]);
                assert(p.push(m)[i] == p[i]);
            } else {
                assert(objs[i] == objs.last());
            }
        }
    }
}

/// Law: the batch is all-or-nothing. If any single object fails to migrate,
/// the whole batch fails.
pub proof fn lemma_all_or_nothing(objs: Seq<RawObjectV>, target: Version, i: int)
    requires
        0 <= i < objs.len(),
        spec_migrate(objs[i], target) is Err,
    ensures
        spec_migrate_all(objs, target) is Err,
{
    if spec_migrate_all(objs, target) is Ok {
        lemma_order_preserving(objs, target);
        assert(false);
    }
}

/// The first error wins: when every object before position `i` migrates and
/// the object at `i` fails, the whole batch fails with that object's error.
proof fn lemma_first_error(objs: Seq<RawObjectV>, target: Version, i: int)
    requires
        0 <= i < objs.len(),
        spec_migrate_all(objs.take(i), target) is Ok,
        spec_migrate(objs[i], target) is Err,
    ensures
        spec_migrate_all(objs, target) == Err::<Seq<RawObjectV>, TransformError>(
            spec_migrate(objs[i], target)->Err_0,
        ),
    decreases objs.len(),
{
    if objs.len() == i + 1 {
        assert(objs.take(i) =~= objs.drop_last());
        assert(objs.last() == objs[i]);
    } else {
        assert(objs.drop_last().take(i) =~= objs.take(i));
        assert(objs.drop_last()[i] == objs[i]);
        lemma_first_error(objs.drop_last(), target, i);
    }
}

/// Law: on success the response echoes the uid, carries exactly one output
/// per input, and the output at each position is the migration of the input
/// at that position.
pub proof fn lemma_success_alignment(r: ConversionRequestV)
    requires
        spec_convert(r).outcome is Success,
    ensures
        spec_convert(r).uid == r.uid,
        spec_parse_version(r.desired_api_version) is Some,
        spec_convert(r).outcome->Success_0.len() == r.objects.len(),
        forall|i: int|
            0 <= i < r.objects.len() ==> spec_convert(r).outcome->Success_0[i] == spec_migrate(
                r.objects[i],
                spec_parse_version(r.desired_api_version)->Some_0,
            )->Ok_0,
{
    let target = spec_parse_version(r.desired_api_version)->Some_0;
    lemma_order_preserving(r.objects, target);
}

/// Law: a single bad object voids the whole batch. When the target is
/// supported but some object fails to migrate, the response is a failure
/// with reason `ConversionFailed`, never a partial success.
pub proof fn lemma_batch_all_or_nothing(r: ConversionRequestV, i: int)
    requires
        spec_parse_version(r.desired_api_version) is Some,
        0 <= i < r.objects.len(),
        spec_migrate(r.objects[i], spec_parse_version(r.desired_api_version)->Some_0) is Err,
    ensures
        spec_convert(r).outcome is Failure,
        spec_convert(r).outcome->Failure_0.reason_code == ReasonCode::ConversionFailed,
{
    let target = spec_parse_version(r.desired_api_version)->Some_0;
    lemma_all_or_nothing(r.objects, target, i);
}

/// Convert one batch request into its response.
pub fn convert(req: ConversionRequest) -> (r: ConversionResponse)
    ensures
        r@ == spec_convert(req@),
{
    let ConversionRequest { uid, desired_api_version, objects } = req;
    let target = match parse_version(&desired_api_version) {
        Some(t) => t,
        None => {
            let message = "unsupported desiredAPIVersion: ".to_owned().concat(
                desired_api_version.as_str(),
            );
            return ConversionResponse {
                uid,
                outcome: Outcome::Failure(
                    FailureInfo { message, reason_code: ReasonCode::UnsupportedTarget },
                ),
            };
        },
    };
    let mut out: Vec<RawObject> = Vec::new();
    let mut i: usize = 0;
    proof {
        assert(objects.deep_view().take(0) =~= Seq::<RawObjectV>::empty());
        assert(out.deep_view() =~= Seq::<RawObjectV>::empty());
    }
    while i < objects.len()
        invariant
            i <= objects.len(),
            uid@ == req@.uid,
            objects.deep_view() == req@.objects,
            spec_parse_version(desired_api_version@) == Some(target),
            desired_api_version@ == req@.desired_api_version,
            spec_migrate_all(objects.deep_view().take(i as int), target) == Ok::<
                Seq<RawObjectV>,
                TransformError,
            >(out.deep_view()),
        decreases objects.len() - i,
    {
        let ghost prefix = objects.deep_view().take(i as int);
        let ghost out0 = out.deep_view();
        match migrate(&objects[i], target) {
            Ok(m) => {
                let ghost mv = m@;
                out.push(m);
                i = i + 1;
                proof {
                    assert(out.deep_view() =~= out0.push(mv));
                    assert(objects.deep_view().take(i as int).drop_last() =~= prefix);
                    assert(objects.deep_view().take(i as int).last() == objects.deep_view()[i - 1]);
                }
            },
            Err(e) => {
                proof {
                    lemma_first_error(objects.deep_view(), target, i as int);
                }
                let message = "conversion failed: ".to_owned().concat(describe_error(e).as_str());
                return ConversionResponse {
                    uid,
                    outcome: Outcome::Failure(
                        FailureInfo { message, reason_code: ReasonCode::ConversionFailed },
                    ),
                };
            },
        }
    }
    proof {
        assert(objects.deep_view().take(objects.deep_view().len() as int) =~= objects.deep_view());
    }
    ConversionResponse { uid, outcome: Outcome::Success(out) }
}

/// The response returned when the inbound envelope cannot be decoded into a
/// well-formed request: no uid is known yet, so none is echoed.
pub open spec fn spec_invalid_request_response() -> ConversionResponseV {
    ConversionResponseV {
        uid: Seq::empty(),
        outcome: OutcomeV::Failure(
            FailureInfoV {
                message: "the conversion review request could not be decoded"@,
                reason_code: ReasonCode::InvalidRequest,
            },
        ),
    }
}

/// Build the failure response for an envelope that could not be decoded.
pub fn invalid_request_response() -> (r: ConversionResponse)
    ensures
        r@ == spec_invalid_request_response(),
{
    ConversionResponse {
        uid: String::new(),
        outcome: Outcome::Failure(
            FailureInfo {
                message: "the conversion review request could not be decoded".to_owned(),
                reason_code: ReasonCode::InvalidRequest,
            },
        ),
    }
}

} // verus!
