//! Records of the catalog: datasets (packages), their resources, and the
//! results of searches and autocomplete lookups.
use vstd::prelude::*;

verus! {

/// The text of an optional string.
pub open spec fn opt_view(o: Option<String>) -> Option<Seq<char>> {
    match o {
        Some(s) => Some(s@),
        None => None,
    }
}

/// A copy of an optional string.
pub fn copy_opt(o: &Option<String>) -> (r: Option<String>)
    ensures
        opt_view(r) == opt_view(*o),
{
    match o {
        Some(s) => Some(s.clone()),
        None => None,
    }
}

/// A single downloadable file or link that belongs to a dataset.
#[derive(Debug, Clone)]
pub struct Resource {
    pub id: Option<String>,
    pub name: Option<String>,
    pub url: Option<String>,
    pub format: Option<String>,
    pub size: Option<i64>,
    pub description: Option<String>,
    pub url_type: Option<String>,
}

/// What a resource holds, as text.
pub struct ResourceView {
    pub id: Option<Seq<char>>,
    pub name: Option<Seq<char>>,
    pub url: Option<Seq<char>>,
    pub format: Option<Seq<char>>,
    pub size: Option<i64>,
    pub description: Option<Seq<char>>,
    pub url_type: Option<Seq<char>>,
}

impl View for Resource {
    type V = ResourceView;

    open spec fn view(&self) -> ResourceView {
        ResourceView {
            id: opt_view(self.id),
            name: opt_view(self.name),
            url: opt_view(self.url),
            format: opt_view(self.format),
            size: self.size,
            description: opt_view(self.description),
            url_type: opt_view(self.url_type),
        }
    }
}

impl Resource {
    /// A resource with only a name, a URL and a format; the other fields are empty.
    pub fn new(name: Option<String>, url: Option<String>, format: Option<String>) -> (r: Resource)
        ensures
            r.name == name,
            r.url == url,
            r.format == format,
            r.id is None,
            r.size is None,
            r.description is None,
            r.url_type is None,
    {
        Resource { id: None, name, url, format, size: None, description: None, url_type: None }
    }

    /// A copy of this resource, field for field.
    pub fn duplicate(&self) -> (r: Resource)
        ensures
            r@ == self@,
    {
        Resource {
            id: copy_opt(&self.id),
            name: copy_opt(&self.name),
            url: copy_opt(&self.url),
            format: copy_opt(&self.format),
            size: self.size,
            description: copy_opt(&self.description),
            url_type: copy_opt(&self.url_type),
        }
    }
}

/// Lifecycle state of a dataset.
#[derive(Debug, Clone, Copy, PartialEq, Eq, Structural)]
pub enum PackageState {
    Active,
    Deleted,
    Draft,
}

/// A dataset (a package, in the catalog's words): a read-only projection of
/// the server's record.
#[derive(Debug, Clone)]
pub struct Package {
    pub id: Option<String>,
    pub name: String,
    pub title: Option<String>,
    pub notes: Option<String>,
    pub license_title: Option<String>,
    pub author: Option<String>,
    pub maintainer: Option<String>,
    pub organization: Option<String>,
    pub resources: Option<Vec<Resource>>,
    pub state: Option<PackageState>,
}

impl Package {
    /// A dataset with a name and resources; the other fields are empty.
    pub fn new(name: String, resources: Option<Vec<Resource>>) -> (r: Package)
        ensures
            r.name == name,
            r.resources == resources,
            r.id is None,
            r.title is None,
            r.notes is None,
            r.state is None,
    {
        Package {
            id: None,
            name,
            title: None,
            notes: None,
            license_title: None,
            author: None,
            maintainer: None,
            organization: None,
            resources,
            state: None,
        }
    }
}

/// The payload of a `package_search` action.
#[derive(Debug, Clone)]
pub struct PackageSearchResult {
    pub count: Option<i32>,
    pub results: Option<Vec<Package>>,
}

/// One suggestion of a dataset autocomplete lookup.
#[derive(Debug, Clone)]
pub struct DatasetAutocomplete {
    pub name: Option<String>,
    pub title: Option<String>,
    pub match_field: Option<String>,
    pub match_displayed: Option<String>,
}

/// One suggestion of an organization autocomplete lookup.
#[derive(Debug, Clone)]
pub struct OrganizationAutocomplete {
    pub id: Option<String>,
    pub name: Option<String>,
    pub title: Option<String>,
}

/// One suggestion of a group autocomplete lookup.
#[derive(Debug, Clone)]
pub struct GroupAutocomplete {
    pub id: Option<String>,
    pub name: Option<String>,
    pub title: Option<String>,
}

/// One suggestion of a user autocomplete lookup.
#[derive(Debug, Clone)]
pub struct UserAutocomplete {
    pub id: Option<String>,
    pub name: Option<String>,
    pub fullname: Option<String>,
}

#[verifier::external_type_specification]
#[verifier::external_body]
pub struct ExJsonValue(serde_json::Value);

/// An extra key-value pair of a dataset's metadata; the value is any JSON value.
#[derive(Debug)]
pub struct Extra {
    pub key: String,
    pub value: serde_json::Value,
}

impl Extra {
    /// A pair of the given key and value.
    pub fn new(key: String, value: serde_json::Value) -> (r: Extra)
        ensures
            r.key == key,
            r.value == value,
    {
        Extra { key, value }
    }
}

/// The names of the organization suggestions that carry one, in order.
pub open spec fn named_orgs(s: Seq<OrganizationAutocomplete>) -> Seq<Seq<char>>
    decreases s.len(),
{
    if s.len() == 0 {
        seq![]
    } else {
        let init = named_orgs(s.drop_last());
        match s.last().name {
            Some(n) => init.push(n@),
            None => init,
        }
    }
}

/// The names of the dataset suggestions that carry one, in order.
pub open spec fn named_datasets(s: Seq<DatasetAutocomplete>) -> Seq<Seq<char>>
    decreases s.len(),
{
    if s.len() == 0 {
        seq![]
    } else {
        let init = named_datasets(s.drop_last());
        match s.last().name {
            Some(n) => init.push(n@),
            None => init,
        }
    }
}

/// The names carried by dataset suggestions, in order; those without one are left out.
pub fn dataset_suggestion_names(s: &Vec<DatasetAutocomplete>) -> (r: Vec<String>)
    ensures
        r@.map_values(|x: String| x@) == named_datasets(s@),
{
    let mut r: Vec<String> = Vec::new();
    let mut i: usize = 0;
    while i < s.len()
        invariant
            i <= s@.len(),
            r@.map_values(|x: String| x@) == named_datasets(s@.subrange(0, i as int)),
        decreases s@.len() - i,
    {
        assert(s@.subrange(0, i + 1).drop_last() =~= s@.subrange(0, i as int));
        match &s[i].name {
            Some(n) => {
                r.push(n.clone());
            },
            None => {},
        }
        assert(r@.map_values(|x: String| x@) =~= named_datasets(s@.subrange(0, i + 1)));
        i = i + 1;
    }
    assert(s@.subrange(0, s@.len() as int) =~= s@);
    r
}

/// The names carried by organization suggestions, in order; those without one are left out.
pub fn organization_suggestion_names(s: &Vec<OrganizationAutocomplete>) -> (r: Vec<String>)
    ensures
        r@.map_values(|x: String| x@) == named_orgs(s@),
{
    let mut r: Vec<String> = Vec::new();
    let mut i: usize = 0;
    while i < s.len()
        invariant
            i <= s@.len(),
            r@.map_values(|x: String| x@) == named_orgs(s@.subrange(0, i as int)),
        decreases s@.len() - i,
    {
        assert(s@.subrange(0, i + 1).drop_last() =~= s@.subrange(0, i as int));
        match &s[i].name {
            Some(n) => {
                r.push(n.clone());
            },
            None => {},
        }
        assert(r@.map_values(|x: String| x@) =~= named_orgs(s@.subrange(0, i + 1)));
        i = i + 1;
    }
    assert(s@.subrange(0, s@.len() as int) =~= s@);
    r
}

} // verus!
