//! What can be wrong with an upstream document.

use vstd::prelude::*;

verus! {

/// A key that is read in an upstream document.
#[derive(Clone, Copy, Debug, PartialEq, Eq, Structural)]
pub enum Key {
    LicenseListVersion,
    Licenses,
    Exceptions,
    LicenseId,
    LicenseExceptionId,
    Name,
    IsDeprecatedLicenseId,
    IsOsiApproved,
    IsFsfLibre,
}

impl Key {
    /// The key as it is spelled in a document.
    pub open spec fn text(self) -> Seq<char> {
        match self {
            Key::LicenseListVersion => "licenseListVersion"@,
            Key::Licenses => "licenses"@,
            Key::Exceptions => "exceptions"@,
            Key::LicenseId => "licenseId"@,
            Key::LicenseExceptionId => "licenseExceptionId"@,
            Key::Name => "name"@,
            Key::IsDeprecatedLicenseId => "isDeprecatedLicenseId"@,
            Key::IsOsiApproved => "isOsiApproved"@,
            Key::IsFsfLibre => "isFsfLibre"@,
        }
    }

    /// The key as it is spelled in a document.
    pub fn name(self) -> (name: &'static str)
        ensures
            name@ == self.text(),
    {
        match self {
            Key::LicenseListVersion => "licenseListVersion",
            Key::Licenses => "licenses",
            Key::Exceptions => "exceptions",
            Key::LicenseId => "licenseId",
            Key::LicenseExceptionId => "licenseExceptionId",
            Key::Name => "name",
            Key::IsDeprecatedLicenseId => "isDeprecatedLicenseId",
            Key::IsOsiApproved => "isOsiApproved",
            Key::IsFsfLibre => "isFsfLibre",
        }
    }
}

/// The structure of a document in which something is wrong.
#[derive(Clone, Copy, Debug, PartialEq, Eq, Structural)]
pub enum Place {
    /// The document itself.
    Document,
    /// The element at this position of the document's list.
    Element(usize),
}

/// What is wrong with a structure.
#[derive(Clone, Copy, Debug, PartialEq, Eq, Structural)]
pub enum Fault {
    /// It is not a JSON object.
    NotAnObject,
    /// It lacks a key that it must have.
    Missing(Key),
    /// The value under a key is not of the type that it must have.
    Mistyped(Key),
}

/// A document that does not have the shape it must have.
#[derive(Clone, Copy, Debug, PartialEq, Eq, Structural)]
pub struct SchemaError {
    /// The structure concerned.
    pub place: Place,
    /// What is wrong with it.
    pub fault: Fault,
}

} // verus!
