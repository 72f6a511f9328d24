//! The model of one raw custom-resource object.
//!
//! A raw object is an arbitrary JSON document. The engine reads and rewrites
//! only `apiVersion` and the tracked parts of `spec`; every field it does not
//! interpret is carried through verbatim, in its original order, as opaque
//! serialized JSON text.

use vstd::prelude::*;

verus! {

/// One field of a JSON object that the engine does not interpret: its name,
/// and its value as opaque serialized JSON text.
#[derive(PartialEq, Eq, Debug)]
pub struct Field {
    pub name: String,
    pub value: String,
}

/// Mathematical model of a [`Field`].
pub struct FieldV {
    pub name: Seq<char>,
    pub value: Seq<char>,
}

impl View for Field {
    type V = FieldV;

    open spec fn view(&self) -> FieldV {
        FieldV { name: self.name@, value: self.value@ }
    }
}

impl DeepView for Field {
    type V = FieldV;

    open spec fn deep_view(&self) -> FieldV {
        self.view()
    }
}

/// A sub-resource object: the value of a tracked sub-key of `spec`
/// (`kafka` or `openSearch`) when that value is a JSON object.
#[derive(PartialEq, Eq, Debug)]
pub struct SubObject {
    /// The sub-object's own `secretName` value, if it defines one.
    pub secret_name: Option<String>,
    /// All other fields of the sub-object, verbatim.
    pub extra: Vec<Field>,
}

/// Mathematical model of a [`SubObject`].
pub struct SubObjectV {
    pub secret_name: Option<Seq<char>>,
    pub extra: Seq<FieldV>,
}

impl View for SubObject {
    type V = SubObjectV;

    open spec fn view(&self) -> SubObjectV {
        SubObjectV { secret_name: self.secret_name.deep_view(), extra: self.extra.deep_view() }
    }
}

impl DeepView for SubObject {
    type V = SubObjectV;

    open spec fn deep_view(&self) -> SubObjectV {
        self.view()
    }
}

/// A tracked sub-key of `spec`: absent, present but not a JSON object
/// (the raw text of that value), or present as an object.
#[derive(PartialEq, Eq, Debug)]
pub enum SubField {
    Absent,
    NotObject(String),
    Object(SubObject),
}

/// Mathematical model of a [`SubField`].
pub enum SubFieldV {
    Absent,
    NotObject(Seq<char>),
    Object(SubObjectV),
}

impl View for SubField {
    type V = SubFieldV;

    open spec fn view(&self) -> SubFieldV {
        match self {
            SubField::Absent => SubFieldV::Absent,
            SubField::NotObject(raw) => SubFieldV::NotObject(raw@),
            SubField::Object(o) => SubFieldV::Object(o@),
        }
    }
}

impl DeepView for SubField {
    type V = SubFieldV;

    open spec fn deep_view(&self) -> SubFieldV {
        self.view()
    }
}

/// The `spec` sub-tree of a raw object when it is a JSON object.
#[derive(PartialEq, Eq, Debug)]
pub struct SpecObject {
    /// The root `spec.secretName` value, if present.
    pub secret_name: Option<String>,
    /// The tracked `spec.kafka` sub-key.
    pub kafka: SubField,
    /// The tracked `spec.openSearch` sub-key.
    pub open_search: SubField,
    /// All other fields of `spec`, verbatim.
    pub extra: Vec<Field>,
}

/// Mathematical model of a [`SpecObject`].
pub struct SpecObjectV {
    pub secret_name: Option<Seq<char>>,
    pub kafka: SubFieldV,
    pub open_search: SubFieldV,
    pub extra: Seq<FieldV>,
}

impl View for SpecObject {
    type V = SpecObjectV;

    open spec fn view(&self) -> SpecObjectV {
        SpecObjectV {
            secret_name: self.secret_name.deep_view(),
            kafka: self.kafka@,
            open_search: self.open_search@,
            extra: self.extra.deep_view(),
        }
    }
}

impl DeepView for SpecObject {
    type V = SpecObjectV;

    open spec fn deep_view(&self) -> SpecObjectV {
        self.view()
    }
}

/// The `spec` field of a raw object: absent, present but not a JSON object
/// (the raw text of that value), or present as an object.
#[derive(PartialEq, Eq, Debug)]
pub enum SpecField {
    Absent,
    NotObject(String),
    Object(SpecObject),
}

/// Mathematical model of a [`SpecField`].
pub enum SpecFieldV {
    Absent,
    NotObject(Seq<char>),
    Object(SpecObjectV),
}

impl View for SpecField {
    type V = SpecFieldV;

    open spec fn view(&self) -> SpecFieldV {
        match self {
            SpecField::Absent => SpecFieldV::Absent,
            SpecField::NotObject(raw) => SpecFieldV::NotObject(raw@),
            SpecField::Object(o) => SpecFieldV::Object(o@),
        }
    }
}

impl DeepView for SpecField {
    type V = SpecFieldV;

    open spec fn deep_view(&self) -> SpecFieldV {
        self.view()
    }
}

/// One raw custom-resource object.
#[derive(PartialEq, Eq, Debug)]
pub struct RawObject {
    /// The object's declared `apiVersion`; `None` when the field is absent
    /// or its value is not a JSON string.
    pub api_version: Option<String>,
    /// The object's `spec` field.
    pub spec_field: SpecField,
    /// All other top-level fields of the object, verbatim.
    pub extra: Vec<Field>,
}

/// Mathematical model of a [`RawObject`].
pub struct RawObjectV {
    pub api_version: Option<Seq<char>>,
    pub spec_field: SpecFieldV,
    pub extra: Seq<FieldV>,
}

impl View for RawObject {
    type V = RawObjectV;

    open spec fn view(&self) -> RawObjectV {
        RawObjectV {
            api_version: self.api_version.deep_view(),
            spec_field: self.spec_field@,
            extra: self.extra.deep_view(),
        }
    }
}

impl DeepView for RawObject {
    type V = RawObjectV;

    open spec fn deep_view(&self) -> RawObjectV {
        self.view()
    }
}

} // verus!
