//! The package catalog: the pinned version of every known package.

use vstd::prelude::*;
use crate::text::same_text;

verus! {

/// The version given to a package that the catalog does not list.
pub open spec fn fallback_version() -> Seq<char> {
    "^1.0.0"@
}

/// The version the catalog pins for `id`: the table of known packages, and the
/// fallback for every other text.
pub open spec fn pinned_version(id: Seq<char>) -> Seq<char> {
    if id == "express"@ {
        "^4.18.2"@
    } else if id == "cors"@ {
        "^2.8.5"@
    } else if id == "helmet"@ {
        "^7.0.0"@
    } else if id == "morgan"@ {
        "^1.10.0"@
    } else if id == "dotenv"@ {
        "^16.3.1"@
    } else if id == "jsonwebtoken"@ {
        "^9.0.0"@
    } else if id == "bcrypt"@ {
        "^5.1.0"@
    } else if id == "mongoose"@ {
        "^7.4.0"@
    } else if id == "sequelize"@ {
        "^6.32.1"@
    } else if id == "joi"@ {
        "^17.9.2"@
    } else if id == "nodemailer"@ {
        "^6.9.4"@
    } else {
        fallback_version()
    }
}

/// Whether the catalog lists `id`.
pub open spec fn is_cataloged(id: Seq<char>) -> bool {
    id == "express"@ || id == "cors"@ || id == "helmet"@ || id == "morgan"@ || id == "dotenv"@
        || id == "jsonwebtoken"@ || id == "bcrypt"@ || id == "mongoose"@ || id == "sequelize"@
        || id == "joi"@ || id == "nodemailer"@
}

/// The pinned version of a package. Total: an unknown package gets the fallback.
pub fn version_of(id: &str) -> (version: &'static str)
    ensures
        version@ == pinned_version(id@),
        !is_cataloged(id@) ==> version@ == fallback_version(),
{
    if same_text(id, "express") {
        "^4.18.2"
    } else if same_text(id, "cors") {
        "^2.8.5"
    } else if same_text(id, "helmet") {
        "^7.0.0"
    } else if same_text(id, "morgan") {
        "^1.10.0"
    } else if same_text(id, "dotenv") {
        "^16.3.1"
    } else if same_text(id, "jsonwebtoken") {
        "^9.0.0"
    } else if same_text(id, "bcrypt") {
        "^5.1.0"
    } else if same_text(id, "mongoose") {
        "^7.4.0"
    } else if same_text(id, "sequelize") {
        "^6.32.1"
    } else if same_text(id, "joi") {
        "^17.9.2"
    } else if same_text(id, "nodemailer") {
        "^6.9.4"
    } else {
        "^1.0.0"
    }
}

/// The catalog's ids are pairwise different texts, so each of them has the
/// version written beside it, and no entry hides another.
pub proof fn lemma_catalog_entries()
    ensures
        pinned_version("express"@) == "^4.18.2"@,
        pinned_version("cors"@) == "^2.8.5"@,
        pinned_version("helmet"@) == "^7.0.0"@,
        pinned_version("morgan"@) == "^1.10.0"@,
        pinned_version("dotenv"@) == "^16.3.1"@,
        pinned_version("jsonwebtoken"@) == "^9.0.0"@,
        pinned_version("bcrypt"@) == "^5.1.0"@,
        pinned_version("mongoose"@) == "^7.4.0"@,
        pinned_version("sequelize"@) == "^6.32.1"@,
        pinned_version("joi"@) == "^17.9.2"@,
        pinned_version("nodemailer"@) == "^6.9.4"@,
{
    reveal_strlit("express");
    reveal_strlit("cors");
    reveal_strlit("helmet");
    reveal_strlit("morgan");
    reveal_strlit("dotenv");
    reveal_strlit("jsonwebtoken");
    reveal_strlit("bcrypt");
    reveal_strlit("mongoose");
    reveal_strlit("sequelize");
    reveal_strlit("joi");
    reveal_strlit("nodemailer");
    assert("express"@.len() == 7);
    assert("cors"@.len() == 4);
    assert("helmet"@[0] == 'h');
    assert("morgan"@[0] == 'm');
    assert("dotenv"@[0] == 'd');
    assert("bcrypt"@[0] == 'b');
    assert("jsonwebtoken"@.len() == 12);
    assert("mongoose"@.len() == 8);
    assert("sequelize"@.len() == 9);
    assert("joi"@.len() == 3);
    assert("nodemailer"@.len() == 10);
}

/// Every text outside the catalog has the fallback version.
pub proof fn lemma_unknown_package_falls_back(id: Seq<char>)
    requires
        !is_cataloged(id),
    ensures
        pinned_version(id) == fallback_version(),
{
}

} // verus!
