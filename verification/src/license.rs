//! The license record of a package, and the package row built from it.

use vstd::prelude::*;

verus! {

/// Why an evaluator's answer gave no license record.
#[derive(Clone, Copy, Debug, PartialEq, Eq, Structural)]
pub enum LicenseError {
    /// The answer is not a JSON text.
    NotJson,
    /// The answer is JSON, but not a license document: it is no object, or one
    /// of the known keys holds a value of the wrong type.
    SchemaMismatch,
}

/// The legal status of a package as the evaluator reports it.
#[derive(Clone, Debug)]
pub struct License {
    pub deprecated: bool,
    pub free: bool,
    pub full_name: String,
    pub redistributable: bool,
    pub short_name: String,
    pub spdx_id: String,
    pub url: String,
}

/// A license record as a mathematical value.
pub ghost struct LicenseModel {
    pub deprecated: bool,
    pub free: bool,
    pub full_name: Seq<char>,
    pub redistributable: bool,
    pub short_name: Seq<char>,
    pub spdx_id: Seq<char>,
    pub url: Seq<char>,
}

/// The record in which every flag is false and every text is empty.
pub open spec fn blank_license() -> LicenseModel {
    LicenseModel {
        deprecated: false,
        free: false,
        full_name: Seq::empty(),
        redistributable: false,
        short_name: Seq::empty(),
        spdx_id: Seq::empty(),
        url: Seq::empty(),
    }
}

impl View for License {
    type V = LicenseModel;

    open spec fn view(&self) -> LicenseModel {
        LicenseModel {
            deprecated: self.deprecated,
            free: self.free,
            full_name: self.full_name@,
            redistributable: self.redistributable,
            short_name: self.short_name@,
            spdx_id: self.spdx_id@,
            url: self.url@,
        }
    }
}

impl Default for License {
    fn default() -> (r: License)
        ensures
            r@ == blank_license(),
    {
        License {
            deprecated: false,
            free: false,
            full_name: String::new(),
            redistributable: false,
            short_name: String::new(),
            spdx_id: String::new(),
            url: String::new(),
        }
    }
}

/// A package: the identifier as it stood in the list, and its license.
#[derive(Clone, Debug)]
pub struct Pkg {
    pub name: String,
    pub license: License,
}

/// A package as a mathematical value.
pub ghost struct PkgModel {
    pub name: Seq<char>,
    pub license: LicenseModel,
}

/// The package with an empty name and the blank license.
pub open spec fn blank_pkg() -> PkgModel {
    PkgModel { name: Seq::empty(), license: blank_license() }
}

impl Default for Pkg {
    fn default() -> (r: Pkg)
        ensures
            r@ == blank_pkg(),
    {
        Pkg { name: String::new(), license: License::default() }
    }
}

impl View for Pkg {
    type V = PkgModel;

    open spec fn view(&self) -> PkgModel {
        PkgModel { name: self.name@, license: self.license@ }
    }
}

} // verus!
