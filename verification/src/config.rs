//! The configuration model: what the installer knows about its packages,
//! their shortcuts and release sources, and how users are authenticated.

use vstd::prelude::*;

use crate::strutil::clone_strings;
use crate::strutil::spec_contains_string;
use crate::strutil::str_eq;
use crate::strutil::vec_contains_string;
use crate::strutil::views_of;

verus! {

/// The mathematical content of a shortcut description.
#[verifier::ext_equal]
pub struct PackageShortcutView {
    pub name: Seq<char>,
    pub relative_path: Seq<char>,
    pub description: Seq<char>,
}

/// Describes if and how a shortcut should be built for a package.
#[derive(Debug)]
pub struct PackageShortcut {
    pub name: String,
    pub relative_path: String,
    pub description: String,
}

impl View for PackageShortcut {
    type V = PackageShortcutView;

    open spec fn view(&self) -> PackageShortcutView {
        PackageShortcutView {
            name: self.name@,
            relative_path: self.relative_path@,
            description: self.description@,
        }
    }
}

impl PackageShortcut {
    /// A copy of this shortcut description with the same content.
    pub fn duplicate(&self) -> (r: Self)
        ensures
            r@ == self@,
    {
        PackageShortcut {
            name: self.name.clone(),
            relative_path: self.relative_path.clone(),
            description: self.description.clone(),
        }
    }
}

/// The mathematical content of a package source description.
#[verifier::ext_equal]
pub struct PackageSourceView {
    pub name: Seq<char>,
    pub match_regex: Seq<char>,
}

/// Description of the source of a package: which backend serves it and which
/// file name pattern picks the right release asset.
#[derive(Debug)]
pub struct PackageSource {
    pub name: String,
    pub match_regex: String,
}

impl View for PackageSource {
    type V = PackageSourceView;

    open spec fn view(&self) -> PackageSourceView {
        PackageSourceView { name: self.name@, match_regex: self.match_regex@ }
    }
}

impl PackageSource {
    /// A copy of this source description with the same content.
    pub fn duplicate(&self) -> (r: Self)
        ensures
            r@ == self@,
    {
        PackageSource { name: self.name.clone(), match_regex: self.match_regex.clone() }
    }
}

/// The mathematical content of a package description.
#[verifier::ext_equal]
pub struct PackageDescriptionView {
    pub name: Seq<char>,
    pub description: Seq<char>,
    pub default: Option<bool>,
    pub source: PackageSourceView,
    pub shortcuts: Seq<PackageShortcutView>,
}

/// An overview of an individual package.
#[derive(Debug)]
pub struct PackageDescription {
    pub name: String,
    pub description: String,
    pub default: Option<bool>,
    pub source: PackageSource,
    pub shortcuts: Vec<PackageShortcut>,
}

impl View for PackageDescription {
    type V = PackageDescriptionView;

    open spec fn view(&self) -> PackageDescriptionView {
        PackageDescriptionView {
            name: self.name@,
            description: self.description@,
            default: self.default,
            source: self.source@,
            shortcuts: views_of(self.shortcuts@),
        }
    }
}

impl PackageDescription {
    /// A copy of this package description with the same content.
    pub fn duplicate(&self) -> (r: Self)
        ensures
            r@ == self@,
    {
        let mut shortcuts: Vec<PackageShortcut> = Vec::new();
        let mut i: usize = 0;
        while i < self.shortcuts.len()
            invariant
                i <= self.shortcuts@.len(),
                shortcuts@.len() == i,
                forall|j: int| 0 <= j < i ==> shortcuts@[j]@ == self.shortcuts@[j]@,
            decreases self.shortcuts@.len() - i,
        {
            shortcuts.push(self.shortcuts[i].duplicate());
            i = i + 1;
        }
        proof {
            assert(views_of(shortcuts@) =~= views_of(self.shortcuts@));
        }
        let r = PackageDescription {
            name: self.name.clone(),
            description: self.description.clone(),
            default: if let Some(b) = self.default {
                Some(b)
            } else {
                None
            },
            source: self.source.duplicate(),
            shortcuts,
        };
        proof {
            assert(r@ =~~= self@);
        }
        r
    }
}

/// Configuration for validating an authentication token.
#[derive(Debug)]
pub struct JWTValidation {
    pub iss: Option<String>,
    pub aud: Option<String>,
}

/// How the installer authenticates users for gated downloads.
#[derive(Debug)]
pub struct AuthenticationConfig {
    pub pub_key_base64: String,
    pub auth_url: String,
    pub validation: Option<JWTValidation>,
}

/// The mathematical content of the application's base attributes.
#[verifier::ext_equal]
pub struct BaseAttributesView {
    pub name: Seq<char>,
    pub target_url: Seq<char>,
}

/// Describes the application itself.
#[derive(Debug)]
pub struct BaseAttributes {
    pub name: String,
    pub target_url: String,
}

impl View for BaseAttributes {
    type V = BaseAttributesView;

    open spec fn view(&self) -> BaseAttributesView {
        BaseAttributesView { name: self.name@, target_url: self.target_url@ }
    }
}

impl BaseAttributes {
    /// A copy of these attributes with the same content.
    pub fn duplicate(&self) -> (r: Self)
        ensures
            r@ == self@,
    {
        BaseAttributes { name: self.name.clone(), target_url: self.target_url.clone() }
    }
}

/// The mathematical content of a configuration.
#[verifier::ext_equal]
pub struct ConfigView {
    pub installing_message: Seq<char>,
    pub new_tool: Option<Seq<char>>,
    pub packages: Seq<PackageDescriptionView>,
    pub hide_advanced: bool,
}

/// The full configuration of an installer build.
#[derive(Debug)]
pub struct Config {
    pub installing_message: String,
    pub new_tool: Option<String>,
    pub packages: Vec<PackageDescription>,
    pub hide_advanced: bool,
    pub authentication: Option<AuthenticationConfig>,
}

impl View for Config {
    type V = ConfigView;

    open spec fn view(&self) -> ConfigView {
        ConfigView {
            installing_message: self.installing_message@,
            new_tool: match self.new_tool {
                Some(ref s) => Some(s@),
                None => None,
            },
            packages: views_of(self.packages@),
            hide_advanced: self.hide_advanced,
        }
    }
}

impl Config {
    /// A copy of this configuration with the same content, leaving the
    /// authentication section out: credentials never need duplicating.
    pub fn duplicate_without_authentication(&self) -> (r: Self)
        ensures
            r@ == self@,
            r@.packages == self@.packages,
    {
        let mut packages: Vec<PackageDescription> = Vec::new();
        let mut i: usize = 0;
        while i < self.packages.len()
            invariant
                i <= self.packages@.len(),
                packages@.len() == i,
                forall|j: int| 0 <= j < i ==> packages@[j]@ == self.packages@[j]@,
            decreases self.packages@.len() - i,
        {
            packages.push(self.packages[i].duplicate());
            i = i + 1;
        }
        let r = Config {
            installing_message: self.installing_message.clone(),
            new_tool: match &self.new_tool {
                Some(s) => Some(s.clone()),
                None => None,
            },
            packages,
            hide_advanced: self.hide_advanced,
            authentication: None,
        };
        proof {
            assert(r@ =~~= self@);
        }
        r
    }
}

/// The mathematical content of a set of token claims.
#[verifier::ext_equal]
pub struct JWTClaimsView {
    pub sub: Seq<char>,
    pub iss: Seq<char>,
    pub aud: Seq<char>,
    pub exp: u64,
    pub roles: Seq<Seq<char>>,
    pub channels: Seq<Seq<char>>,
    pub is_linked: bool,
    pub is_subscribed: bool,
}

/// The claims carried by a validated authentication token.
#[derive(Debug)]
pub struct JWTClaims {
    pub sub: String,
    pub iss: String,
    pub aud: String,
    pub exp: u64,
    pub roles: Vec<String>,
    pub channels: Vec<String>,
    pub is_linked: bool,
    pub is_subscribed: bool,
}

impl View for JWTClaims {
    type V = JWTClaimsView;

    open spec fn view(&self) -> JWTClaimsView {
        JWTClaimsView {
            sub: self.sub@,
            iss: self.iss@,
            aud: self.aud@,
            exp: self.exp,
            roles: views_of(self.roles@),
            channels: views_of(self.channels@),
            is_linked: self.is_linked,
            is_subscribed: self.is_subscribed,
        }
    }
}

/// Whether these claims entitle the holder to gated downloads: either a
/// moderator-granted role or an active early-access channel.
pub open spec fn spec_claims_entitled(c: JWTClaimsView) -> bool {
    spec_contains_string(c.roles, "vip"@) || spec_contains_string(c.channels, "early-access"@)
}

impl JWTClaims {
    /// Whether these claims entitle the holder to gated downloads.
    pub fn entitled(&self) -> (r: bool)
        ensures
            r == spec_claims_entitled(self@),
    {
        vec_contains_string(&self.roles, "vip") || vec_contains_string(
            &self.channels,
            "early-access",
        )
    }

    /// A copy of these claims with the same content.
    pub fn duplicate(&self) -> (r: Self)
        ensures
            r@ == self@,
    {
        let r = JWTClaims {
            sub: self.sub.clone(),
            iss: self.iss.clone(),
            aud: self.aud.clone(),
            exp: self.exp,
            roles: clone_strings(&self.roles),
            channels: clone_strings(&self.channels),
            is_linked: self.is_linked,
            is_subscribed: self.is_subscribed,
        };
        proof {
            assert(r@ =~~= self@);
        }
        r
    }
}

/// The first package description named `name`, if any.
pub open spec fn spec_find_package(packages: Seq<PackageDescriptionView>, name: Seq<char>) -> Option<
    PackageDescriptionView,
>
    decreases packages.len(),
{
    if packages.len() == 0 {
        None
    } else if packages[0].name == name {
        Some(packages[0])
    } else {
        spec_find_package(packages.drop_first(), name)
    }
}

/// Looks up the first package description named `name`, handing back a copy.
pub fn find_package(packages: &Vec<PackageDescription>, name: &str) -> (r: Option<
    PackageDescription,
>)
    ensures
        match r {
            Some(p) => spec_find_package(views_of(packages@), name@) == Some(p@),
            None => spec_find_package(views_of(packages@), name@) is None,
        },
{
    let ghost pviews = views_of(packages@);
    let mut i: usize = 0;
    proof {
        assert(pviews.skip(0) =~= pviews);
    }
    while i < packages.len()
        invariant
            i <= packages@.len(),
            pviews == views_of(packages@),
            spec_find_package(pviews, name@) == spec_find_package(pviews.skip(i as int), name@),
        decreases packages@.len() - i,
    {
        proof {
            assert(pviews.skip(i as int).drop_first() =~= pviews.skip(i as int + 1));
            assert(pviews.skip(i as int)[0] == packages@[i as int]@);
        }
        if str_eq(packages[i].name.as_str(), name) {
            return Some(packages[i].duplicate());
        }
        i = i + 1;
    }
    proof {
        assert(pviews.skip(i as int).len() == 0);
    }
    None
}

} // verus!
