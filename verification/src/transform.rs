//! The version-migration transform.
//!
//! [`migrate`] rewrites one raw object to a target version. Converting
//! forward (to `V2`) moves the root `spec.secretName` into each tracked
//! sub-object (`spec.kafka`, `spec.openSearch`) that exists and does not
//! already define its own `secretName`; the root field is consumed either
//! way. Converting backward (to `V1`) only rewrites `apiVersion`.

use vstd::prelude::*;

use crate::object::{
    Field, FieldV, RawObject, RawObjectV, SpecField, SpecFieldV, SpecObject, SpecObjectV, SubField,
    SubFieldV, SubObject, SubObjectV,
};
use crate::version::{parse_version, spec_parse_version, spec_version_str, version_str, Version};

verus! {

/// Why one object could not be transformed.
#[derive(Clone, Copy, PartialEq, Eq, Debug, Structural)]
pub enum TransformError {
    /// The object's `apiVersion` is absent or not a string.
    MalformedVersion,
    /// `spec`, or a tracked sub-key of `spec`, exists but is not a JSON object.
    InvalidSpecShape,
    /// The object declares a source version the transform does not recognize.
    UnsupportedSourceVersion,
}

/// What migrating one tracked sub-key yields: an absent sub-key stays absent,
/// a non-object sub-key is rejected, and a sub-object receives the consumed
/// root secret only if it does not already define its own.
pub open spec fn spec_migrate_sub(
    sub: SubFieldV,
    secret: Option<Seq<char>>,
) -> Result<SubFieldV, TransformError> {
    match sub {
        SubFieldV::Absent => Ok(SubFieldV::Absent),
        SubFieldV::NotObject(_) => Err(TransformError::InvalidSpecShape),
        SubFieldV::Object(so) => Ok(
            SubFieldV::Object(
                SubObjectV {
                    secret_name: if so.secret_name is Some {
                        so.secret_name
                    } else {
                        secret
                    },
                    extra: so.extra,
                },
            ),
        ),
    }
}

/// What migrating the whole `spec` field forward yields: the root
/// `secretName` is removed and offered to each tracked sub-key in the fixed
/// order `kafka`, `openSearch`; every other field of `spec` is kept.
pub open spec fn spec_migrate_spec(sf: SpecFieldV) -> Result<SpecFieldV, TransformError> {
    match sf {
        SpecFieldV::Absent => Ok(SpecFieldV::Absent),
        SpecFieldV::NotObject(_) => Err(TransformError::InvalidSpecShape),
        SpecFieldV::Object(so) => match spec_migrate_sub(so.kafka, so.secret_name) {
            Err(e) => Err(e),
            Ok(k) => match spec_migrate_sub(so.open_search, so.secret_name) {
                Err(e) => Err(e),
                Ok(os) => Ok(
                    SpecFieldV::Object(
                        SpecObjectV {
                            secret_name: None,
                            kafka: k,
                            open_search: os,
                            extra: so.extra,
                        },
                    ),
                ),
            },
        },
    }
}

/// What migrating one object to `target` yields: the object with
/// `apiVersion` rewritten to the target's string and, for a forward
/// migration, `spec` rewritten by [`spec_migrate_spec`]; or the first
/// structural error.
pub open spec fn spec_migrate(o: RawObjectV, target: Version) -> Result<
    RawObjectV,
    TransformError,
> {
    match o.api_version {
        None => Err(TransformError::MalformedVersion),
        Some(src) => if spec_parse_version(src) is None {
            Err(TransformError::UnsupportedSourceVersion)
        } else {
            match target {
                Version::V1 => Ok(
                    RawObjectV {
                        api_version: Some(spec_version_str(Version::V1)),
                        spec_field: o.spec_field,
                        extra: o.extra,
                    },
                ),
                Version::V2 => match spec_migrate_spec(o.spec_field) {
                    Err(e) => Err(e),
                    Ok(sf) => Ok(
                        RawObjectV {
                            api_version: Some(spec_version_str(Version::V2)),
                            spec_field: sf,
                            extra: o.extra,
                        },
                    ),
                },
            }
        },
    }
}

/// The model of a transform outcome.
pub open spec fn res_view(r: Result<RawObject, TransformError>) -> Result<
    RawObjectV,
    TransformError,
> {
    match r {
        Ok(o) => Ok(o@),
        Err(e) => Err(e),
    }
}

spec fn sub_res_view(r: Result<SubField, TransformError>) -> Result<SubFieldV, TransformError> {
    match r {
        Ok(s) => Ok(s@),
        Err(e) => Err(e),
    }
}

spec fn spec_res_view(r: Result<SpecField, TransformError>) -> Result<SpecFieldV, TransformError> {
    match r {
        Ok(s) => Ok(s@),
        Err(e) => Err(e),
    }
}

fn clone_string_opt(s: &Option<String>) -> (r: Option<String>)
    ensures
        r.deep_view() == s.deep_view(),
{
    match s {
        Some(v) => Some(v.clone()),
        None => None,
    }
}

fn clone_fields(v: &Vec<Field>) -> (r: Vec<Field>)
    ensures
        r.deep_view() == v.deep_view(),
{
    let mut r: Vec<Field> = Vec::new();
    let mut i: usize = 0;
    while i < v.len()
        invariant
            i <= v.len(),
            r.deep_view() =~= v.deep_view().take(i as int),
        decreases v.len() - i,
    {
        let ghost r0 = r.deep_view();
        proof {
            assert(r0.len() == i as int);
            assert(r@.len() == i as int);
        }
        let f = &v[i];
        let fld = Field { name: f.name.clone(), value: f.value.clone() };
        proof {
            assert(fld@ == v.deep_view()[i as int]);
        }
        r.push(fld);
        i = i + 1;
        proof {
            assert forall|j: int| 0 <= j < i as int implies r.deep_view()[j] == v.deep_view()[j] by {
                if j < i as int - 1 {
                    assert(r.deep_view()[j] == r0[j]);
                } else {
                    assert(r.deep_view()[j] == fld@);
                }
            }
            assert(r.deep_view() =~= v.deep_view().take(i as int));
        }
    }
    proof {
        assert(r.deep_view() =~= v.deep_view());
    }
    r
}

fn clone_sub_field(sub: &SubField) -> (r: SubField)
    ensures
        r@ == sub@,
{
    match sub {
        SubField::Absent => SubField::Absent,
        SubField::NotObject(raw) => SubField::NotObject(raw.clone()),
        SubField::Object(so) => SubField::Object(
            SubObject {
                secret_name: clone_string_opt(&so.secret_name),
                extra: clone_fields(&so.extra),
            },
        ),
    }
}

fn clone_spec_field(sf: &SpecField) -> (r: SpecField)
    ensures
        r@ == sf@,
{
    match sf {
        SpecField::Absent => SpecField::Absent,
        SpecField::NotObject(raw) => SpecField::NotObject(raw.clone()),
        SpecField::Object(so) => SpecField::Object(
            SpecObject {
                secret_name: clone_string_opt(&so.secret_name),
                kafka: clone_sub_field(&so.kafka),
                open_search: clone_sub_field(&so.open_search),
                extra: clone_fields(&so.extra),
            },
        ),
    }
}

fn migrate_sub(sub: &SubField, secret: &Option<String>) -> (r: Result<SubField, TransformError>)
    ensures
        sub_res_view(r) == spec_migrate_sub(sub@, secret.deep_view()),
{
    match sub {
        SubField::Absent => Ok(SubField::Absent),
        SubField::NotObject(_) => Err(TransformError::InvalidSpecShape),
        SubField::Object(so) => {
            let sn = match &so.secret_name {
                Some(s) => Some(s.clone()),
                None => clone_string_opt(secret),
            };
            Ok(SubField::Object(SubObject { secret_name: sn, extra: clone_fields(&so.extra) }))
        },
    }
}

fn migrate_spec(sf: &SpecField) -> (r: Result<SpecField, TransformError>)
    ensures
        spec_res_view(r) == spec_migrate_spec(sf@),
{
    match sf {
        SpecField::Absent => Ok(SpecField::Absent),
        SpecField::NotObject(_) => Err(TransformError::InvalidSpecShape),
        SpecField::Object(so) => {
            let kafka = match migrate_sub(&so.kafka, &so.secret_name) {
                Ok(k) => k,
                Err(e) => {
                    return Err(e);
                },
            };
            let open_search = match migrate_sub(&so.open_search, &so.secret_name) {
                Ok(os) => os,
                Err(e) => {
                    return Err(e);
                },
            };
            Ok(
                SpecField::Object(
                    SpecObject {
                        secret_name: None,
                        kafka,
                        open_search,
                        extra: clone_fields(&so.extra),
                    },
                ),
            )
        },
    }
}

/// Rewrite one raw object to `target`, or report the first structural error.
///
/// The caller's object is not touched: the result is a fresh value, equal to
/// the input in every field the migration rule does not move.
pub fn migrate(obj: &RawObject, target: Version) -> (r: Result<RawObject, TransformError>)
    ensures
        res_view(r) == spec_migrate(obj@, target),
{
    let src = match &obj.api_version {
        Some(s) => s,
        None => {
            return Err(TransformError::MalformedVersion);
        },
    };
    if parse_version(src).is_none() {
        return Err(TransformError::UnsupportedSourceVersion);
    }
    match target {
        Version::V1 => Ok(
            RawObject {
                api_version: Some(version_str(Version::V1)),
                spec_field: clone_spec_field(&obj.spec_field),
                extra: clone_fields(&obj.extra),
            },
        ),
        Version::V2 => {
            let spec_field = match migrate_spec(&obj.spec_field) {
                Ok(s) => s,
                Err(e) => {
                    return Err(e);
                },
            };
            Ok(
                RawObject {
                    api_version: Some(version_str(Version::V2)),
                    spec_field,
                    extra: clone_fields(&obj.extra),
                },
            )
        },
    }
}

/// Law: migrating forward is idempotent. When an object migrates to `V2`,
/// migrating the result to `V2` again returns that result unchanged.
pub proof fn lemma_migrate_v2_idempotent(o: RawObjectV)
    requires
        spec_migrate(o, Version::V2) is Ok,
    ensures
        spec_migrate(spec_migrate(o, Version::V2)->Ok_0, Version::V2) == spec_migrate(
            o,
            Version::V2,
        ),
{
    let m = spec_migrate(o, Version::V2)->Ok_0;
    assert(m.api_version == Some("v2"@));
    assert(spec_parse_version("v2"@) is Some);
    match m.spec_field {
        SpecFieldV::Absent => {},
        SpecFieldV::NotObject(_) => {
            assert(false);
        },
        SpecFieldV::Object(so) => {
            assert(so.secret_name is None);
            assert(spec_migrate_sub(so.kafka, so.secret_name) == Ok::<SubFieldV, TransformError>(
                so.kafka,
            ));
            assert(spec_migrate_sub(so.open_search, so.secret_name) == Ok::<
                SubFieldV,
                TransformError,
            >(so.open_search));
        },
    }
}

/// Law: a sub-object's own `secretName` is never overwritten. If
/// `spec.kafka.secretName` is already `x` while the root `spec.secretName`
/// is `y`, the migrated object keeps `x` under `kafka` and has no root
/// `secretName` left.
pub proof fn lemma_merge_if_missing(o: RawObjectV, x: Seq<char>, y: Seq<char>)
    requires
        spec_migrate(o, Version::V2) is Ok,
        o.spec_field is Object,
        o.spec_field->Object_0.kafka is Object,
        o.spec_field->Object_0.kafka->Object_0.secret_name == Some(x),
        o.spec_field->Object_0.secret_name == Some(y),
    ensures
        spec_migrate(o, Version::V2)->Ok_0.spec_field is Object,
        spec_migrate(o, Version::V2)->Ok_0.spec_field->Object_0.kafka is Object,
        spec_migrate(o, Version::V2)->Ok_0.spec_field->Object_0.kafka->Object_0.secret_name
            == Some(x),
        spec_migrate(o, Version::V2)->Ok_0.spec_field->Object_0.secret_name is None,
{
}

/// Law: nothing is resurrected. If the root `spec.secretName` is absent and
/// `spec.kafka` is absent, migrating forward leaves `spec.kafka` absent: no
/// empty sub-object is fabricated.
pub proof fn lemma_no_resurrection(o: RawObjectV)
    requires
        spec_migrate(o, Version::V2) is Ok,
        o.spec_field is Object,
        o.spec_field->Object_0.secret_name is None,
        o.spec_field->Object_0.kafka is Absent,
    ensures
        spec_migrate(o, Version::V2)->Ok_0.spec_field is Object,
        spec_migrate(o, Version::V2)->Ok_0.spec_field->Object_0.kafka is Absent,
{
}

} // verus!

