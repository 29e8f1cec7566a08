//! Error kinds surfaced by the layout engine and the export/import
//! operations built on it.

use vstd::prelude::*;

verus! {

/// Malformed column forest: a column declared a parent key that was never
/// declared, or one whose parent's descendant block had already been closed
/// by an unrelated sibling when the column was reached.
#[derive(Debug)]
pub struct HierarchyError {
    /// The parent key that could not be found on the open-block stack.
    pub parent: String,
    /// The key of the column whose declaration was rejected.
    pub column: String,
}

/// A leaf value could not be converted to its column's declared data type.
#[derive(Debug)]
pub struct ValueError {
    /// The key of the column the value was destined for.
    pub key: String,
    /// The raw text that failed to convert.
    pub raw: String,
}

/// A failure of the underlying spreadsheet reader or writer, propagated
/// with the name of the operation that was attempted.
#[derive(Debug)]
pub struct CodecError {
    /// The operation that failed.
    pub op: String,
    /// The underlying library's description of the failure.
    pub detail: String,
}

/// Any failure of the three host-facing operations.
#[derive(Debug)]
pub enum ExcelError {
    Hierarchy(HierarchyError),
    Value(ValueError),
    Codec(CodecError),
}

impl HierarchyError {
    /// The text `message` reports: the missing parent and the rejected
    /// column, named in full.
    pub open spec fn spec_message(self) -> Seq<char> {
        "parent column "@ + self.parent@ + " not found for column "@ + self.column@
    }

    /// A human-readable description of the failure.
    pub fn message(&self) -> (r: String)
        ensures
            r@ == self.spec_message(),
    {
        let mut m = String::from_str("parent column ");
        m.append(self.parent.as_str());
        m.append(" not found for column ");
        m.append(self.column.as_str());
        m
    }
}

impl ValueError {
    /// The text `message` reports: the raw text and the column it was
    /// destined for, named in full.
    pub open spec fn spec_message(self) -> Seq<char> {
        "value "@ + self.raw@ + " cannot be converted for column "@ + self.key@
    }

    /// A human-readable description of the failure.
    pub fn message(&self) -> (r: String)
        ensures
            r@ == self.spec_message(),
    {
        let mut m = String::from_str("value ");
        m.append(self.raw.as_str());
        m.append(" cannot be converted for column ");
        m.append(self.key.as_str());
        m
    }
}

impl CodecError {
    /// The text `message` reports: the failed operation and the underlying
    /// library's description, named in full.
    pub open spec fn spec_message(self) -> Seq<char> {
        "codec failure in "@ + self.op@ + ": "@ + self.detail@
    }

    /// A human-readable description of the failure.
    pub fn message(&self) -> (r: String)
        ensures
            r@ == self.spec_message(),
    {
        let mut m = String::from_str("codec failure in ");
        m.append(self.op.as_str());
        m.append(": ");
        m.append(self.detail.as_str());
        m
    }
}

impl ExcelError {
    /// The text `message` reports: the carried failure's own message.
    pub open spec fn spec_message(self) -> Seq<char> {
        match self {
            ExcelError::Hierarchy(e) => e.spec_message(),
            ExcelError::Value(e) => e.spec_message(),
            ExcelError::Codec(e) => e.spec_message(),
        }
    }

    /// A human-readable description of the failure.
    pub fn message(&self) -> (r: String)
        ensures
            r@ == self.spec_message(),
    {
        match self {
            ExcelError::Hierarchy(e) => e.message(),
            ExcelError::Value(e) => e.message(),
            ExcelError::Codec(e) => e.message(),
        }
    }
}

} // verus!
