//! The discriminated record form of a toolchain, for persistence.

use vstd::prelude::*;
use vstd::string::StringExecFns;

use crate::toolchain::{Toolchain, ToolchainModel};

verus! {

/// A toolchain rendered as a discriminated record: `record_type` is `"dist"`
/// or `"ci"`, and exactly the fields of that variant are present. This is
/// the shape persisted to configuration.
#[derive(Debug)]
pub struct ToolchainRecord {
    pub record_type: String,
    pub name: Option<String>,
    pub sha: Option<String>,
    pub alt: Option<bool>,
}

/// The mathematical value of a [`ToolchainRecord`].
pub ghost struct RecordModel {
    pub record_type: Seq<char>,
    pub name: Option<Seq<char>>,
    pub sha: Option<Seq<char>>,
    pub alt: Option<bool>,
}

impl View for ToolchainRecord {
    type V = RecordModel;

    open spec fn view(&self) -> RecordModel {
        RecordModel {
            record_type: self.record_type@,
            name: self.name.deep_view(),
            sha: self.sha.deep_view(),
            alt: self.alt,
        }
    }
}

/// The record that serializes `t`: the variant's tag and exactly the
/// variant's fields.
pub open spec fn spec_serialize(t: ToolchainModel) -> RecordModel {
    match t {
        ToolchainModel::Dist { name } => RecordModel {
            record_type: "dist"@,
            name: Some(name),
            sha: None,
            alt: None,
        },
        ToolchainModel::CI { sha, alt } => RecordModel {
            record_type: "ci"@,
            name: None,
            sha: Some(sha),
            alt: Some(alt),
        },
    }
}

/// The toolchain a record deserializes to: `None` when the tag is neither
/// `"dist"` nor `"ci"`, or when the tagged variant's fields are missing.
pub open spec fn spec_deserialize(r: RecordModel) -> Option<ToolchainModel> {
    if r.record_type == "dist"@ {
        match r.name {
            Some(name) => Some(ToolchainModel::Dist { name }),
            None => None,
        }
    } else if r.record_type == "ci"@ {
        match (r.sha, r.alt) {
            (Some(sha), Some(alt)) => Some(ToolchainModel::CI { sha, alt }),
            _ => None,
        }
    } else {
        None
    }
}

/// Render `t` as its discriminated record.
pub fn serialize(t: &Toolchain) -> (r: ToolchainRecord)
    ensures
        r@ == spec_serialize(t@),
{
    match t {
        Toolchain::Dist { name } => ToolchainRecord {
            record_type: String::from_str("dist"),
            name: Some(name.clone()),
            sha: None,
            alt: None,
        },
        Toolchain::CI { sha, alt } => ToolchainRecord {
            record_type: String::from_str("ci"),
            name: None,
            sha: Some(sha.clone()),
            alt: Some(*alt),
        },
    }
}

/// Parse a discriminated record back into a toolchain.
///
/// Returns `None` exactly when the record's type is unknown or the tagged
/// variant's fields are missing.
pub fn deserialize(r: &ToolchainRecord) -> (t: Option<Toolchain>)
    ensures
        match t {
            Some(tc) => spec_deserialize(r@) == Some(tc@),
            None => spec_deserialize(r@) is None,
        },
{
    let dist_tag = String::from_str("dist");
    let ci_tag = String::from_str("ci");
    if r.record_type == dist_tag {
        match &r.name {
            Some(name) => Some(Toolchain::Dist { name: name.clone() }),
            None => None,
        }
    } else if r.record_type == ci_tag {
        match (&r.sha, &r.alt) {
            (Some(sha), Some(alt)) => Some(Toolchain::CI { sha: sha.clone(), alt: *alt }),
            _ => None,
        }
    } else {
        None
    }
}

/// Round-trip law: deserializing the serialization of any toolchain value
/// yields that value back.
pub proof fn lemma_serialize_round_trip(t: ToolchainModel)
    ensures
        spec_deserialize(spec_serialize(t)) == Some(t),
{
    // The two tags differ, so each record is parsed under its own tag.
    reveal_strlit("dist");
    reveal_strlit("ci");
    assert("dist"@.len() == 4);
    assert("ci"@.len() == 2);
}

} // verus!
