//! What the list command shows: the configured plugins, or the catalog of
//! known plugins by category.

use vstd::prelude::*;
use crate::config::{texts, Config, ConfigError};
use crate::text::same_text;

verus! {

/// A plugin of the catalog, with a short description.
pub struct CatalogItem {
    pub name: String,
    pub description: String,
}

/// The plugins of one category of the catalog.
pub struct CatalogSection {
    pub category: String,
    pub items: Vec<CatalogItem>,
}

/// A catalog item as (plugin, description).
pub open spec fn item_view(i: CatalogItem) -> (Seq<char>, Seq<char>) {
    (i.name@, i.description@)
}

/// A catalog section as (category, items).
pub open spec fn section_view(s: CatalogSection) -> (Seq<char>, Seq<(Seq<char>, Seq<char>)>) {
    (s.category@, s.items@.map_values(|i: CatalogItem| item_view(i)))
}

/// The views of a sequence of catalog sections.
pub open spec fn sections_view(v: Seq<CatalogSection>) -> Seq<
    (Seq<char>, Seq<(Seq<char>, Seq<char>)>),
> {
    v.map_values(|s: CatalogSection| section_view(s))
}

/// The catalog of known plugins: category, then (plugin, description).
pub open spec fn catalog_table() -> Seq<(Seq<char>, Seq<(Seq<char>, Seq<char>)>)> {
    seq![
        (
            "security"@,
            seq![
                ("trivy"@, "Security scanner"@),
                ("grype"@, "Vulnerability scanner"@),
                ("syft"@, "SBOM generator"@),
                ("cosign"@, "Container signing"@),
                ("gitleaks"@, "Secret scanning"@),
                ("age"@, "File encryption"@)
            ],
        ),
        (
            "database"@,
            seq![
                ("arangodb"@, "Multi-model database"@),
                ("mariadb"@, "MySQL fork"@),
                ("neo4j"@, "Graph database"@)
            ],
        ),
        (
            "config"@,
            seq![
                ("nickel"@, "Configuration language"@),
                ("dhall"@, "Programmable config"@),
                ("cue"@, "Data validation"@),
                ("yq"@, "YAML processor"@),
                ("taplo"@, "TOML toolkit"@)
            ],
        ),
        (
            "network"@,
            seq![
                ("coredns"@, "DNS server"@),
                ("envoy"@, "Proxy"@),
                ("pomerium"@, "Access proxy"@)
            ],
        ),
        (
            "crypto"@,
            seq![
                ("step-ca"@, "Certificate authority"@),
                ("cfssl"@, "PKI toolkit"@),
                ("lego"@, "ACME client"@)
            ],
        ),
    ]
}

/// A catalog item.
fn item(name: &str, description: &str) -> (r: CatalogItem)
    ensures
        item_view(r) == (name@, description@),
{
    CatalogItem { name: String::from_str(name), description: String::from_str(description) }
}

/// The whole catalog, in its fixed order.
pub fn catalog() -> (r: Vec<CatalogSection>)
    ensures
        sections_view(r@) == catalog_table(),
{
    let mut r: Vec<CatalogSection> = Vec::new();
    let mut items: Vec<CatalogItem> = Vec::new();
    items.push(item("trivy", "Security scanner"));
    items.push(item("grype", "Vulnerability scanner"));
    items.push(item("syft", "SBOM generator"));
    items.push(item("cosign", "Container signing"));
    items.push(item("gitleaks", "Secret scanning"));
    items.push(item("age", "File encryption"));
    r.push(CatalogSection { category: String::from_str("security"), items });
    let mut items: Vec<CatalogItem> = Vec::new();
    items.push(item("arangodb", "Multi-model database"));
    items.push(item("mariadb", "MySQL fork"));
    items.push(item("neo4j", "Graph database"));
    r.push(CatalogSection { category: String::from_str("database"), items });
    let mut items: Vec<CatalogItem> = Vec::new();
    items.push(item("nickel", "Configuration language"));
    items.push(item("dhall", "Programmable config"));
    items.push(item("cue", "Data validation"));
    items.push(item("yq", "YAML processor"));
    items.push(item("taplo", "TOML toolkit"));
    r.push(CatalogSection { category: String::from_str("config"), items });
    let mut items: Vec<CatalogItem> = Vec::new();
    items.push(item("coredns", "DNS server"));
    items.push(item("envoy", "Proxy"));
    items.push(item("pomerium", "Access proxy"));
    r.push(CatalogSection { category: String::from_str("network"), items });
    let mut items: Vec<CatalogItem> = Vec::new();
    items.push(item("step-ca", "Certificate authority"));
    items.push(item("cfssl", "PKI toolkit"));
    items.push(item("lego", "ACME client"));
    r.push(CatalogSection { category: String::from_str("crypto"), items });
    assert(sections_view(r@) =~~= catalog_table());
    r
}

/// A section of category `cat` is shown under `filter`.
pub open spec fn shown(filter: Option<&str>, cat: Seq<char>) -> bool {
    match filter {
        None => true,
        Some(f) => cat == f@,
    }
}

/// The catalog as shown under a category filter.
pub struct CatalogListing {
    pub sections: Vec<CatalogSection>,
    /// Whether to suggest filtering by category.
    pub filter_hint: bool,
}

/// The catalog sections of category `category`, or all of them.
pub fn list_all_available(category: Option<&str>) -> (r: CatalogListing)
    ensures
        sections_view(r.sections@) == catalog_table().filter(
            |s: (Seq<char>, Seq<(Seq<char>, Seq<char>)>)| shown(category, s.0),
        ),
        r.filter_hint == category is None,
{
    let all = catalog();
    let ghost p = |s: (Seq<char>, Seq<(Seq<char>, Seq<char>)>)| shown(category, s.0);
    let mut sections: Vec<CatalogSection> = Vec::new();
    let mut rest = all;
    let ghost t = sections_view(rest@);
    let mut taken: usize = 0;
    let n = rest.len();
    // Sections are taken from the front of `rest`, which shrinks as they go.
    while rest.len() > 0
        invariant
            t == catalog_table(),
            p == (|s: (Seq<char>, Seq<(Seq<char>, Seq<char>)>)| shown(category, s.0)),
            n == t.len(),
            taken + rest@.len() == n,
            sections_view(rest@) == t.subrange(taken as int, n as int),
            sections_view(sections@) == t.subrange(0, taken as int).filter(p),
        decreases rest@.len(),
    {
        let ghost before = rest@;
        let s = rest.remove(0);
        assert(section_view(s) == t[taken as int]) by {
            assert(sections_view(before)[0] == section_view(before[0]));
        }
        let keep = match category {
            None => true,
            Some(f) => same_text(s.category.as_str(), f),
        };
        assert(keep == p(t[taken as int]));
        let ghost done = t.subrange(0, taken as int);
        let ghost next = t.subrange(0, taken + 1);
        assert(next.drop_last() =~= done);
        assert(next.last() == t[taken as int]);
        assert(next.filter(p) == if p(t[taken as int]) {
            done.filter(p).push(t[taken as int])
        } else {
            done.filter(p)
        }) by {
            reveal(Seq::filter);
        }
        if keep {
            let ghost kept = sections@;
            sections.push(s);
            assert(sections_view(sections@) =~= sections_view(kept).push(section_view(s)));
        }
        taken = taken + 1;
        assert forall|i: int| 0 <= i < rest@.len() implies #[trigger] sections_view(rest@)[i]
            == t[taken + i] by {
            assert(rest@[i] == before[i + 1]);
            assert(sections_view(before)[i + 1] == section_view(before[i + 1]));
        }
        assert(sections_view(rest@) =~= t.subrange(taken as int, n as int));
    }
    assert(t.subrange(0, n as int) =~= t);
    CatalogListing { sections, filter_hint: category.is_none() }
}

/// A configured plugin as listed.
pub struct ListedPlugin {
    pub name: String,
    pub version: String,
    pub optional: bool,
    /// Post-install commands, shown only in verbose mode.
    pub commands: Vec<String>,
}

/// `l` lists entry `e` of a configuration.
pub open spec fn lists(e: crate::config::PluginEntry, l: ListedPlugin, verbose: bool) -> bool {
    &&& l.name@ == e.name@
    &&& l.version@ == e.spec.version@
    &&& l.optional == e.spec.optional
    &&& texts(l.commands@) == if verbose {
        texts(e.spec.post_install@)
    } else {
        Seq::empty()
    }
}

/// The configured plugins in order, with their post-install commands when
/// `verbose`.
pub fn list_configured(config: &Config, verbose: bool) -> (r: Vec<ListedPlugin>)
    ensures
        r@.len() == config.plugins@.len(),
        forall|i: int| 0 <= i < r@.len() ==> lists(config.plugins@[i], #[trigger] r@[i], verbose),
{
    let mut r: Vec<ListedPlugin> = Vec::new();
    let mut i: usize = 0;
    while i < config.plugins.len()
        invariant
            i <= config.plugins@.len(),
            r@.len() == i,
            forall|k: int| 0 <= k < i ==> lists(config.plugins@[k], #[trigger] r@[k], verbose),
        decreases config.plugins@.len() - i,
    {
        let e = &config.plugins[i];
        let mut commands: Vec<String> = Vec::new();
        if verbose {
            let mut k: usize = 0;
            while k < e.spec.post_install.len()
                invariant
                    k <= e.spec.post_install@.len(),
                    commands@.len() == k,
                    forall|j: int| 0 <= j < k ==> commands@[j]@ == e.spec.post_install@[j]@,
                decreases e.spec.post_install@.len() - k,
            {
                commands.push(e.spec.post_install[k].clone());
                k = k + 1;
            }
            assert(texts(commands@) =~= texts(e.spec.post_install@));
        } else {
            assert(texts(commands@) =~= Seq::empty());
        }
        r.push(
            ListedPlugin {
                name: e.name.clone(),
                version: e.spec.version.clone(),
                optional: e.spec.optional,
                commands,
            },
        );
        i = i + 1;
    }
    r
}

/// What the list command shows.
pub enum Listing {
    /// There is no configuration file: advice on how to create one.
    NoConfig,
    /// The configured plugins; their number is the total shown.
    Configured(Vec<ListedPlugin>),
    /// The catalog.
    Catalog(CatalogListing),
}

/// `l` is the catalog as shown under `category`.
pub open spec fn shows_catalog(l: CatalogListing, category: Option<&str>) -> bool {
    &&& sections_view(l.sections@) == catalog_table().filter(
        |s: (Seq<char>, Seq<(Seq<char>, Seq<char>)>)| shown(category, s.0),
    )
    &&& l.filter_hint == category is None
}

/// `r` is what the list command shows for the loaded configuration `config`.
pub open spec fn answers(
    config: &Result<Config, ConfigError>,
    all: bool,
    category: Option<&str>,
    verbose: bool,
    r: Result<Listing, ConfigError>,
) -> bool {
    if all {
        r matches Ok(Listing::Catalog(l)) && shows_catalog(l, category)
    } else {
        match config {
            Err(ConfigError::NotFound) => r matches Ok(Listing::NoConfig),
            Err(ConfigError::Parse(m)) => r matches Err(ConfigError::Parse(e)) && e@ == m@,
            Ok(c) => match r {
                Ok(Listing::Configured(v)) => {
                    &&& v@.len() == c.plugins@.len()
                    &&& forall|i: int|
                        0 <= i < v@.len() ==> lists(c.plugins@[i], #[trigger] v@[i], verbose)
                },
                _ => false,
            },
        }
    }
}

/// Decides the list command: the catalog when `all`, else the configured
/// plugins. A missing configuration only brings advice; one that did not
/// decode is an error.
pub fn run(config: Result<Config, ConfigError>, all: bool, category: Option<&str>, verbose: bool) -> (r:
    Result<Listing, ConfigError>)
    ensures
        answers(&config, all, category, verbose, r),
{
    if all {
        return Ok(Listing::Catalog(list_all_available(category)));
    }
    match config {
        Err(ConfigError::NotFound) => Ok(Listing::NoConfig),
        Err(ConfigError::Parse(m)) => Err(ConfigError::Parse(m)),
        Ok(c) => Ok(Listing::Configured(list_configured(&c, verbose))),
    }
}

} // verus!
