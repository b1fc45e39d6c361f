//! The package listing operation and its query construction.
//!
//! The operation is a builder over optional filters; only the fields
//! that are actually set become query parameters, absent fields are
//! omitted entirely.  The parameter list is built explicitly, field by
//! field, in a fixed documented order.

use crate::models::SortDirection;
use crate::numfmt::{dec_digits, u64_to_dec};
use vstd::prelude::*;

verus! {

/// The field a package listing is ordered by.
#[derive(Debug, Clone, Copy, PartialEq, Eq, Structural)]
pub enum ProjectPackageListOrderBy {
    CreatedAt,
    Name,
    Version,
    Type,
}

impl ProjectPackageListOrderBy {
    /// The wire form of the ordering field.
    pub open spec fn spec_query_value(self) -> Seq<char> {
        match self {
            ProjectPackageListOrderBy::CreatedAt => "created_at"@,
            ProjectPackageListOrderBy::Name => "name"@,
            ProjectPackageListOrderBy::Version => "version"@,
            ProjectPackageListOrderBy::Type => "type"@,
        }
    }

    /// Renders the ordering field as it appears in the query string.
    pub fn query_value(&self) -> (r: &'static str)
        ensures
            r@ == self.spec_query_value(),
    {
        match self {
            ProjectPackageListOrderBy::CreatedAt => "created_at",
            ProjectPackageListOrderBy::Name => "name",
            ProjectPackageListOrderBy::Version => "version",
            ProjectPackageListOrderBy::Type => "type",
        }
    }
}

impl SortDirection {
    /// The wire form of the sort direction.
    pub open spec fn spec_query_value(self) -> Seq<char> {
        match self {
            SortDirection::Asc => "asc"@,
            SortDirection::Desc => "desc"@,
        }
    }

    /// Renders the sort direction as it appears in the query string.
    pub fn query_value(&self) -> (r: &'static str)
        ensures
            r@ == self.spec_query_value(),
    {
        match self {
            SortDirection::Asc => "asc",
            SortDirection::Desc => "desc",
        }
    }
}

/// The type of a package.
#[derive(Debug, Clone, Copy, PartialEq, Eq, Structural)]
pub enum PackageType {
    Conan,
    Maven,
    Npm,
    Pypi,
    Composer,
    Nuget,
    Helm,
    TerraformModule,
    Golang,
}

impl PackageType {
    /// The wire form of the package type.
    pub open spec fn spec_query_value(self) -> Seq<char> {
        match self {
            PackageType::Conan => "conan"@,
            PackageType::Maven => "maven"@,
            PackageType::Npm => "npm"@,
            PackageType::Pypi => "pypi"@,
            PackageType::Composer => "composer"@,
            PackageType::Nuget => "nuget"@,
            PackageType::Helm => "helm"@,
            PackageType::TerraformModule => "terraform_module"@,
            PackageType::Golang => "golang"@,
        }
    }

    /// Renders the package type as it appears in the query string.
    pub fn query_value(&self) -> (r: &'static str)
        ensures
            r@ == self.spec_query_value(),
    {
        match self {
            PackageType::Conan => "conan",
            PackageType::Maven => "maven",
            PackageType::Npm => "npm",
            PackageType::Pypi => "pypi",
            PackageType::Composer => "composer",
            PackageType::Nuget => "nuget",
            PackageType::Helm => "helm",
            PackageType::TerraformModule => "terraform_module",
            PackageType::Golang => "golang",
        }
    }
}

/// The status of a package.
#[derive(Debug, Clone, Copy, PartialEq, Eq, Structural)]
pub enum PackageStatus {
    Default,
    Hidden,
    Processing,
    Error,
    PendingDestruction,
}

impl PackageStatus {
    /// The wire form of the package status.
    pub open spec fn spec_query_value(self) -> Seq<char> {
        match self {
            PackageStatus::Default => "default"@,
            PackageStatus::Hidden => "hidden"@,
            PackageStatus::Processing => "processing"@,
            PackageStatus::Error => "error"@,
            PackageStatus::PendingDestruction => "pending_destruction"@,
        }
    }

    /// Renders the package status as it appears in the query string.
    pub fn query_value(&self) -> (r: &'static str)
        ensures
            r@ == self.spec_query_value(),
    {
        match self {
            PackageStatus::Default => "default",
            PackageStatus::Hidden => "hidden",
            PackageStatus::Processing => "processing",
            PackageStatus::Error => "error",
            PackageStatus::PendingDestruction => "pending_destruction",
        }
    }
}

/// The wire form of a boolean query value.
pub open spec fn spec_bool_value(b: bool) -> Seq<char> {
    if b {
        "true"@
    } else {
        "false"@
    }
}

/// Renders a boolean as it appears in the query string.
pub fn bool_value(b: bool) -> (r: &'static str)
    ensures
        r@ == spec_bool_value(b),
{
    if b {
        "true"
    } else {
        "false"
    }
}

/// Configuration for listing the packages of a project.  Only the set
/// optional fields are serialized into the query string.
#[derive(Debug)]
pub struct ProjectPackageListOp {
    /// ID or URL-encoded path of the project; spliced into the URL
    /// path, never into the query string.
    pub id: String,
    /// The field to order by; the server default is creation time.
    pub order_by: Option<ProjectPackageListOrderBy>,
    /// The direction of the order; the server default is ascending.
    pub sort: Option<SortDirection>,
    /// Filter by package type.
    pub package_type: Option<PackageType>,
    /// Fuzzy filter by package name.
    pub package_name: Option<String>,
    /// Filter by package version.
    pub package_version: Option<String>,
    /// When true, versionless packages are included.
    pub include_versionless: Option<bool>,
    /// Filter by package status.
    pub status: Option<PackageStatus>,
    /// Number of items per page.
    pub per_page: Option<u64>,
    /// Page number.
    pub page: Option<u64>,
}

/// The view of an assembled query parameter list: each pair of strings
/// as its pair of character sequences.
pub open spec fn pairs_view(v: Seq<(String, String)>) -> Seq<(Seq<char>, Seq<char>)> {
    Seq::new(v.len(), |i: int| (v[i].0@, v[i].1@))
}

/// The query parameters of a listing operation, in the fixed order
/// `order_by`, `sort`, `package_type`, `package_name`,
/// `package_version`, `include_versionless`, `status`, `per_page`,
/// `page`; absent fields contribute nothing.
pub open spec fn spec_query_pairs(op: ProjectPackageListOp) -> Seq<(Seq<char>, Seq<char>)> {
    spec_order_by_piece(op) + spec_sort_piece(op) + spec_package_type_piece(op)
        + spec_package_name_piece(op) + spec_package_version_piece(op)
        + spec_include_versionless_piece(op) + spec_status_piece(op) + spec_per_page_piece(op)
        + spec_page_piece(op)
}

pub open spec fn spec_order_by_piece(op: ProjectPackageListOp) -> Seq<(Seq<char>, Seq<char>)> {
    if op.order_by is Some {
        seq![("order_by"@, op.order_by->0.spec_query_value())]
    } else {
        Seq::empty()
    }
}

pub open spec fn spec_sort_piece(op: ProjectPackageListOp) -> Seq<(Seq<char>, Seq<char>)> {
    if op.sort is Some {
        seq![("sort"@, op.sort->0.spec_query_value())]
    } else {
        Seq::empty()
    }
}

pub open spec fn spec_package_type_piece(op: ProjectPackageListOp) -> Seq<(Seq<char>, Seq<char>)> {
    if op.package_type is Some {
        seq![("package_type"@, op.package_type->0.spec_query_value())]
    } else {
        Seq::empty()
    }
}

pub open spec fn spec_package_name_piece(op: ProjectPackageListOp) -> Seq<(Seq<char>, Seq<char>)> {
    if op.package_name is Some {
        seq![("package_name"@, op.package_name->0@)]
    } else {
        Seq::empty()
    }
}

pub open spec fn spec_package_version_piece(op: ProjectPackageListOp) -> Seq<
    (Seq<char>, Seq<char>),
> {
    if op.package_version is Some {
        seq![("package_version"@, op.package_version->0@)]
    } else {
        Seq::empty()
    }
}

pub open spec fn spec_include_versionless_piece(op: ProjectPackageListOp) -> Seq<
    (Seq<char>, Seq<char>),
> {
    if op.include_versionless is Some {
        seq![("include_versionless"@, spec_bool_value(op.include_versionless->0))]
    } else {
        Seq::empty()
    }
}

pub open spec fn spec_status_piece(op: ProjectPackageListOp) -> Seq<(Seq<char>, Seq<char>)> {
    if op.status is Some {
        seq![("status"@, op.status->0.spec_query_value())]
    } else {
        Seq::empty()
    }
}

pub open spec fn spec_per_page_piece(op: ProjectPackageListOp) -> Seq<(Seq<char>, Seq<char>)> {
    if op.per_page is Some {
        seq![("per_page"@, dec_digits(op.per_page->0 as nat))]
    } else {
        Seq::empty()
    }
}

pub open spec fn spec_page_piece(op: ProjectPackageListOp) -> Seq<(Seq<char>, Seq<char>)> {
    if op.page is Some {
        seq![("page"@, dec_digits(op.page->0 as nat))]
    } else {
        Seq::empty()
    }
}

impl ProjectPackageListOp {
    /// A fresh listing operation for a project, with the page size the
    /// client always starts from and every filter unset.
    pub fn new(id: &str) -> (r: Self)
        ensures
            r.id@ == id@,
            r.order_by is None,
            r.sort is None,
            r.package_type is None,
            r.package_name is None,
            r.package_version is None,
            r.include_versionless is None,
            r.status is None,
            r.per_page == Some(100u64),
            r.page is None,
    {
        ProjectPackageListOp {
            id: String::from_str(id),
            order_by: None,
            sort: None,
            package_type: None,
            package_name: None,
            package_version: None,
            include_versionless: None,
            status: None,
            per_page: Some(100),
            page: None,
        }
    }

    /// Sets the ordering field.
    pub fn order_by(self, order_by: Option<ProjectPackageListOrderBy>) -> (r: Self)
        ensures
            r == (ProjectPackageListOp { order_by, ..self }),
    {
        ProjectPackageListOp { order_by, ..self }
    }

    /// Sets the sort direction.
    pub fn sort(self, sort: Option<SortDirection>) -> (r: Self)
        ensures
            r == (ProjectPackageListOp { sort, ..self }),
    {
        ProjectPackageListOp { sort, ..self }
    }

    /// Sets the package type filter.
    pub fn package_type(self, package_type: Option<PackageType>) -> (r: Self)
        ensures
            r == (ProjectPackageListOp { package_type, ..self }),
    {
        ProjectPackageListOp { package_type, ..self }
    }

    /// Sets the package name filter.
    pub fn package_name(self, package_name: Option<String>) -> (r: Self)
        ensures
            r == (ProjectPackageListOp { package_name, ..self }),
    {
        ProjectPackageListOp { package_name, ..self }
    }

    /// Sets the package version filter.
    pub fn package_version(self, package_version: Option<String>) -> (r: Self)
        ensures
            r == (ProjectPackageListOp { package_version, ..self }),
    {
        ProjectPackageListOp { package_version, ..self }
    }

    /// Sets whether versionless packages are included.
    pub fn include_versionless(self, include_versionless: Option<bool>) -> (r: Self)
        ensures
            r == (ProjectPackageListOp { include_versionless, ..self }),
    {
        ProjectPackageListOp { include_versionless, ..self }
    }

    /// Sets the package status filter.
    pub fn status(self, status: Option<PackageStatus>) -> (r: Self)
        ensures
            r == (ProjectPackageListOp { status, ..self }),
    {
        ProjectPackageListOp { status, ..self }
    }

    /// Sets the page size.
    pub fn per_page(self, per_page: Option<u64>) -> (r: Self)
        ensures
            r == (ProjectPackageListOp { per_page, ..self }),
    {
        ProjectPackageListOp { per_page, ..self }
    }

    /// Sets the page number.
    pub fn page(self, page: Option<u64>) -> (r: Self)
        ensures
            r == (ProjectPackageListOp { page, ..self }),
    {
        ProjectPackageListOp { page, ..self }
    }

    /// Narrows the listing to the single most recently created package:
    /// newest first by creation time, one item, first page.
    pub fn latest(&mut self)
        ensures
            final(self).sort == Some(SortDirection::Desc),
            final(self).order_by == Some(ProjectPackageListOrderBy::CreatedAt),
            final(self).per_page == Some(1u64),
            final(self).page == Some(1u64),
            final(self).id == old(self).id,
            final(self).package_type == old(self).package_type,
            final(self).package_name == old(self).package_name,
            final(self).package_version == old(self).package_version,
            final(self).include_versionless == old(self).include_versionless,
            final(self).status == old(self).status,
    {
        self.sort = Some(SortDirection::Desc);
        self.order_by = Some(ProjectPackageListOrderBy::CreatedAt);
        self.per_page = Some(1);
        self.page = Some(1);
    }

    fn push_order_by(&self, out: &mut Vec<(String, String)>)
        ensures
            pairs_view(final(out)@) == pairs_view(old(out)@) + spec_order_by_piece(*self),
    {
        if let Some(v) = &self.order_by {
            out.push((String::from_str("order_by"), String::from_str(v.query_value())));
        }
        assert(pairs_view(out@) =~= pairs_view(old(out)@) + spec_order_by_piece(*self));
    }

    fn push_sort(&self, out: &mut Vec<(String, String)>)
        ensures
            pairs_view(final(out)@) == pairs_view(old(out)@) + spec_sort_piece(*self),
    {
        if let Some(v) = &self.sort {
            out.push((String::from_str("sort"), String::from_str(v.query_value())));
        }
        assert(pairs_view(out@) =~= pairs_view(old(out)@) + spec_sort_piece(*self));
    }

    fn push_package_type(&self, out: &mut Vec<(String, String)>)
        ensures
            pairs_view(final(out)@) == pairs_view(old(out)@) + spec_package_type_piece(*self),
    {
        if let Some(v) = &self.package_type {
            out.push((String::from_str("package_type"), String::from_str(v.query_value())));
        }
        assert(pairs_view(out@) =~= pairs_view(old(out)@) + spec_package_type_piece(*self));
    }

    fn push_package_name(&self, out: &mut Vec<(String, String)>)
        ensures
            pairs_view(final(out)@) == pairs_view(old(out)@) + spec_package_name_piece(*self),
    {
        if let Some(v) = &self.package_name {
            out.push((String::from_str("package_name"), v.clone()));
        }
        assert(pairs_view(out@) =~= pairs_view(old(out)@) + spec_package_name_piece(*self));
    }

    fn push_package_version(&self, out: &mut Vec<(String, String)>)
        ensures
            pairs_view(final(out)@) == pairs_view(old(out)@) + spec_package_version_piece(*self),
    {
        if let Some(v) = &self.package_version {
            out.push((String::from_str("package_version"), v.clone()));
        }
        assert(pairs_view(out@) =~= pairs_view(old(out)@) + spec_package_version_piece(*self));
    }

    fn push_include_versionless(&self, out: &mut Vec<(String, String)>)
        ensures
            pairs_view(final(out)@) == pairs_view(old(out)@) + spec_include_versionless_piece(
                *self,
            ),
    {
        if let Some(v) = &self.include_versionless {
            out.push((String::from_str("include_versionless"), String::from_str(bool_value(*v))));
        }
        assert(pairs_view(out@) =~= pairs_view(old(out)@) + spec_include_versionless_piece(*self));
    }

    fn push_status(&self, out: &mut Vec<(String, String)>)
        ensures
            pairs_view(final(out)@) == pairs_view(old(out)@) + spec_status_piece(*self),
    {
        if let Some(v) = &self.status {
            out.push((String::from_str("status"), String::from_str(v.query_value())));
        }
        assert(pairs_view(out@) =~= pairs_view(old(out)@) + spec_status_piece(*self));
    }

    fn push_per_page(&self, out: &mut Vec<(String, String)>)
        ensures
            pairs_view(final(out)@) == pairs_view(old(out)@) + spec_per_page_piece(*self),
    {
        if let Some(v) = &self.per_page {
            out.push((String::from_str("per_page"), u64_to_dec(*v)));
        }
        assert(pairs_view(out@) =~= pairs_view(old(out)@) + spec_per_page_piece(*self));
    }

    fn push_page(&self, out: &mut Vec<(String, String)>)
        ensures
            pairs_view(final(out)@) == pairs_view(old(out)@) + spec_page_piece(*self),
    {
        if let Some(v) = &self.page {
            out.push((String::from_str("page"), u64_to_dec(*v)));
        }
        assert(pairs_view(out@) =~= pairs_view(old(out)@) + spec_page_piece(*self));
    }

    /// Assembles the query parameter list: exactly the set fields, as
    /// key/value strings, in the fixed documented order.
    pub fn query_params(&self) -> (r: Vec<(String, String)>)
        ensures
            pairs_view(r@) == spec_query_pairs(*self),
    {
        let mut out: Vec<(String, String)> = Vec::new();
        proof {
            assert(pairs_view(out@) =~= Seq::<(Seq<char>, Seq<char>)>::empty());
        }
        self.push_order_by(&mut out);
        self.push_sort(&mut out);
        self.push_package_type(&mut out);
        self.push_package_name(&mut out);
        self.push_package_version(&mut out);
        self.push_include_versionless(&mut out);
        self.push_status(&mut out);
        self.push_per_page(&mut out);
        self.push_page(&mut out);
        proof {
            assert(Seq::<(Seq<char>, Seq<char>)>::empty() + spec_order_by_piece(*self)
                =~= spec_order_by_piece(*self));
        }
        out
    }
}

} // verus!
