//! Records of the hosting service's organizations and repositories.

use crate::views::views;
use vstd::prelude::*;

verus! {

/// The text of an optional string.
pub open spec fn optional_text(s: Option<String>) -> Option<Seq<char>> {
    match s {
        Some(t) => Some(t@),
        None => None,
    }
}

/// An organization as a search returns it.
#[derive(Debug, PartialEq, Eq)]
pub struct Organization {
    pub login: String,
    pub url: String,
    pub email: Option<String>,
    pub website_url: Option<String>,
}

/// An `Organization` as plain values.
pub struct OrgRow {
    pub login: Seq<char>,
    pub url: Seq<char>,
    pub email: Option<Seq<char>>,
    pub website_url: Option<Seq<char>>,
}

impl View for Organization {
    type V = OrgRow;

    open spec fn view(&self) -> OrgRow {
        OrgRow {
            login: self.login@,
            url: self.url@,
            email: optional_text(self.email),
            website_url: optional_text(self.website_url),
        }
    }
}

/// The answer to an organization search.
#[derive(Debug, PartialEq, Eq)]
pub struct SearchResponse {
    pub items: Vec<Organization>,
}

/// A user account.
#[derive(Debug, PartialEq, Eq)]
pub struct User {
    pub login: String,
}

/// What a research run reports of one organization.
#[derive(Debug, PartialEq, Eq)]
pub struct OrgResult {
    pub login: String,
    pub website_url: Option<String>,
    pub email: Option<String>,
    pub domain_verified: bool,
    pub shared_members: String,
}

/// A repository with its releases.
#[derive(Debug, PartialEq, Eq)]
pub struct Repository {
    pub name: String,
    pub stargazers_count: u32,
    pub language: Option<String>,
    pub created_at: String,
    pub updated_at: String,
    pub pushed_at: String,
    pub releases: Vec<Release>,
    pub description: Option<String>,
}

/// A `Repository` as plain values.
pub struct RepositoryRow {
    pub name: Seq<char>,
    pub stargazers_count: u32,
    pub language: Option<Seq<char>>,
    pub created_at: Seq<char>,
    pub updated_at: Seq<char>,
    pub pushed_at: Seq<char>,
    pub releases: Seq<ReleaseRow>,
    pub description: Option<Seq<char>>,
}

impl View for Repository {
    type V = RepositoryRow;

    open spec fn view(&self) -> RepositoryRow {
        RepositoryRow {
            name: self.name@,
            stargazers_count: self.stargazers_count,
            language: optional_text(self.language),
            created_at: self.created_at@,
            updated_at: self.updated_at@,
            pushed_at: self.pushed_at@,
            releases: views(self.releases@),
            description: optional_text(self.description),
        }
    }
}

/// A release of a repository.
#[derive(Debug, PartialEq, Eq)]
pub struct Release {
    pub tag_name: String,
    pub assets: Vec<Asset>,
}

/// A `Release` as plain values.
pub struct ReleaseRow {
    pub tag_name: Seq<char>,
    pub assets: Seq<AssetRow>,
}

impl View for Release {
    type V = ReleaseRow;

    open spec fn view(&self) -> ReleaseRow {
        ReleaseRow { tag_name: self.tag_name@, assets: views(self.assets@) }
    }
}

/// A file attached to a release.
#[derive(Debug, PartialEq, Eq)]
pub struct Asset {
    pub name: String,
}

/// An `Asset` as plain values.
pub struct AssetRow {
    pub name: Seq<char>,
}

impl View for Asset {
    type V = AssetRow;

    open spec fn view(&self) -> AssetRow {
        AssetRow { name: self.name@ }
    }
}

/// The logins of a list of organizations, in order.
pub open spec fn logins(orgs: Seq<OrgRow>) -> Seq<Seq<char>> {
    orgs.map_values(|o: OrgRow| o.login)
}

} // verus!
