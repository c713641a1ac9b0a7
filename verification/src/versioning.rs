//! Multi-version site generation.
//!
//! When versioning is configured, separate version directories (e.g. `v1.0/`, `v2.0/`)
//! are built, with a version switcher included in each page.
use vstd::prelude::*;

use crate::text::{
    chars_end_with, chars_lt, chars_of, ends_with, lemma_lex_order, lex_lt, str_eq, string_from_chars,
    sub_chars, views,
};

verus! {

broadcast use vstd::string::group_string_axioms;

/// The `[versioning]` section of the site configuration.
#[derive(Debug, Clone)]
pub struct VersioningConfig {
    /// The version built at the site root; the last listed version when absent.
    pub default: Option<String>,
    /// All versions, oldest first.
    pub versions: Vec<String>,
}

impl Default for VersioningConfig {
    fn default() -> (r: Self)
        ensures
            r.default is None,
            r.versions@.len() == 0,
    {
        VersioningConfig { default: None, versions: Vec::new() }
    }
}

/// Resolved versioning state.
#[derive(Debug, Clone)]
pub struct VersioningState {
    /// All available versions (e.g., ["v1.0", "v2.0"])
    pub versions: Vec<String>,
    /// The default version to build at the root (e.g., "v2.0")
    pub default_version: String,
    /// Whether versioning is enabled
    pub enabled: bool,
}

pub open spec fn string_views(v: Seq<String>) -> Seq<Seq<char>> {
    v.map_values(|s: String| s@)
}

fn clone_strings(v: &Vec<String>) -> (r: Vec<String>)
    ensures
        r@ == v@,
{
    let mut r: Vec<String> = Vec::new();
    let mut i: usize = 0;
    while i < v.len()
        invariant
            i <= v@.len(),
            r@ == v@.take(i as int),
        decreases v@.len() - i,
    {
        r.push(v[i].clone());
        i = i + 1;
        assert(v@.take(i as int) =~= v@.take(i - 1).push(v@[i - 1]));
    }
    assert(v@.take(i as int) =~= v@);
    r
}

/// The ending of the file name of an archived version.
pub const ARCHIVE_SUFFIX: &'static str = ".rdx.archive";

/// The versions named by archive files, in the order of the names: each name that
/// ends with `.rdx.archive`, without that ending.
pub open spec fn archive_versions(names: Seq<Seq<char>>) -> Seq<Seq<char>>
    decreases names.len(),
{
    if names.len() == 0 {
        Seq::empty()
    } else {
        let rest = archive_versions(names.drop_last());
        let n = names.last();
        if ends_with(n, ARCHIVE_SUFFIX@) {
            rest.push(n.take(n.len() - ARCHIVE_SUFFIX@.len()))
        } else {
            rest
        }
    }
}

/// Newest first: no version comes before a greater one (in the order of `str`).
pub open spec fn newest_first(v: Seq<Seq<char>>) -> bool {
    forall|a: int, b: int| 0 <= a < b < v.len() ==> !lex_lt(v[a], v[b])
}

proof fn lemma_insert_to_multiset<A>(s: Seq<A>, i: int, x: A)
    requires
        0 <= i <= s.len(),
    ensures
        s.insert(i, x).to_multiset() =~= s.to_multiset().insert(x),
{
    broadcast use vstd::seq_lib::group_to_multiset_ensures, vstd::multiset::group_multiset_axioms;

    let t = s.insert(i, x);
    assert(t.remove(i) =~= s);
    assert(t[i] == x);
    assert(t.contains(x));
}

/// Inserts `x` into `sorted`, newest first, after the versions not less than it.
fn insert_newest_first(sorted: &mut Vec<Vec<char>>, x: Vec<char>)
    requires
        newest_first(views(old(sorted)@)),
    ensures
        newest_first(views(final(sorted)@)),
        views(final(sorted)@).to_multiset() =~= views(old(sorted)@).to_multiset().insert(x@),
{
    let ghost s = views(sorted@);
    let mut p: usize = 0;
    while p < sorted.len() && !chars_lt(sorted[p].as_slice(), x.as_slice())
        invariant
            p <= sorted@.len(),
            s == views(sorted@),
            forall|j: int| 0 <= j < p ==> !lex_lt(#[trigger] s[j], x@),
        decreases sorted@.len() - p,
    {
        p = p + 1;
    }
    let ghost xv = x@;
    sorted.insert(p, x);
    proof {
        let t = views(sorted@);
        assert(t =~= s.insert(p as int, xv));
        lemma_insert_to_multiset(s, p as int, xv);
        assert forall|a: int, b: int| 0 <= a < b < t.len() implies !lex_lt(t[a], t[b]) by {
            if b < p {
            } else if b == p {
            } else if a < p {
                assert(t[b] == s[b - 1]);
            } else if a == p {
                assert(t[b] == s[b - 1]);
                assert(lex_lt(s[p as int], xv));
                lemma_lex_order(s[b - 1], s[p as int], xv);
                lemma_lex_order(xv, s[b - 1], xv);
                if s[b - 1] != s[p as int] {
                    lemma_lex_order(s[p as int], s[b - 1], s[p as int]);
                }
            } else {
                assert(t[a] == s[a - 1] && t[b] == s[b - 1]);
            }
        }
    }
}

/// The archived versions named by `file_names`, newest first: each name that ends with
/// `.rdx.archive`, without that ending, the greater versions (in the order of `str`)
/// first.
pub fn archived_versions(file_names: &[String]) -> (r: Vec<String>)
    ensures
        newest_first(string_views(r@)),
        string_views(r@).to_multiset() =~= archive_versions(string_views(file_names@)).to_multiset(),
{
    let suffix = chars_of(ARCHIVE_SUFFIX);
    let mut sorted: Vec<Vec<char>> = Vec::new();
    let mut i: usize = 0;
    assert(views(sorted@) =~= Seq::<Seq<char>>::empty());
    assert(archive_versions(string_views(file_names@).take(0)) =~= Seq::<Seq<char>>::empty());
    while i < file_names.len()
        invariant
            i <= file_names@.len(),
            suffix@ == ARCHIVE_SUFFIX@,
            newest_first(views(sorted@)),
            views(sorted@).to_multiset() =~= archive_versions(string_views(file_names@).take(i as int)).to_multiset(),
        decreases file_names@.len() - i,
    {
        let name = chars_of(file_names[i].as_str());
        proof {
            assert(string_views(file_names@).take(i + 1).drop_last() =~= string_views(file_names@).take(i as int));
            assert(string_views(file_names@).take(i + 1).last() == file_names@[i as int]@);
        }
        if chars_end_with(name.as_slice(), suffix.as_slice()) {
            let version = sub_chars(name.as_slice(), 0, name.len() - suffix.len());
            assert(version@ =~= name@.take(name@.len() - ARCHIVE_SUFFIX@.len()));
            insert_newest_first(&mut sorted, version);
            proof {
                broadcast use vstd::seq_lib::group_to_multiset_ensures;
            }
        }
        i = i + 1;
    }
    assert(string_views(file_names@).take(i as int) =~= string_views(file_names@));
    let mut r: Vec<String> = Vec::new();
    let mut k: usize = 0;
    while k < sorted.len()
        invariant
            k <= sorted@.len(),
            string_views(r@) =~= views(sorted@).take(k as int),
        decreases sorted@.len() - k,
    {
        r.push(string_from_chars(sorted[k].as_slice()));
        k = k + 1;
        assert(views(sorted@).take(k as int) =~= views(sorted@).take(k - 1).push(sorted@[k - 1]@));
    }
    assert(views(sorted@).take(k as int) =~= views(sorted@));
    r
}

impl VersioningState {
    /// Create versioning state from config: disabled when no versions are listed;
    /// otherwise all listed versions, with the configured default or else the last one.
    pub fn from_config(config: &VersioningConfig) -> (r: Self)
        ensures
            config.versions@.len() == 0 ==> !r.enabled && r.versions@.len() == 0
                && r.default_version@ == Seq::<char>::empty(),
            config.versions@.len() > 0 ==> r.enabled && r.versions@ == config.versions@
                && r.default_version == (match config.default {
                Some(d) => d,
                None => config.versions@.last(),
            }),
    {
        if config.versions.len() == 0 {
            return VersioningState {
                versions: Vec::new(),
                default_version: String::new(),
                enabled: false,
            };
        }
        let default_version = match &config.default {
            Some(d) => d.clone(),
            None => config.versions[config.versions.len() - 1].clone(),
        };
        VersioningState {
            versions: clone_strings(&config.versions),
            default_version,
            enabled: true,
        }
    }

    /// Create versioning state from config and the archived versions found for the
    /// project (newest first). Listed versions in the config take precedence; with
    /// none listed but archives present, the current build (labelled `current_label`,
    /// "latest" by default) comes first and is the default.
    pub fn from_config_with_archives(
        config: &VersioningConfig,
        archived: Vec<String>,
        current_label: Option<&str>,
    ) -> (r: Self)
        ensures
            config.versions@.len() == 0 && archived@.len() == 0 ==> !r.enabled
                && r.versions@.len() == 0 && r.default_version@ == Seq::<char>::empty(),
            config.versions@.len() > 0 ==> r.enabled && r.versions@ == config.versions@
                && r.default_version == (match config.default {
                Some(d) => d,
                None => config.versions@.last(),
            }),
            config.versions@.len() == 0 && archived@.len() > 0 ==> r.enabled
                && r.default_version@ == (match current_label {
                Some(l) => l@,
                None => "latest"@,
            }) && r.versions@ == seq![r.default_version] + archived@,
    {
        if config.versions.len() == 0 && archived.len() == 0 {
            return VersioningState {
                versions: Vec::new(),
                default_version: String::new(),
                enabled: false,
            };
        }
        if config.versions.len() > 0 {
            return Self::from_config(config);
        }
        let current = match current_label {
            Some(l) => String::from_str(l),
            None => String::from_str("latest"),
        };
        let mut versions = archived;
        versions.insert(0, current.clone());
        assert(versions@ =~= seq![current] + archived@);
        VersioningState { versions, default_version: current, enabled: true }
    }

    /// All subdirectories where versions should be built: each version, then the root
    /// (`""`); just the root when versioning is disabled.
    pub fn build_dirs(&self) -> (r: Vec<String>)
        ensures
            !self.enabled ==> string_views(r@) == seq![Seq::<char>::empty()],
            self.enabled ==> string_views(r@) == string_views(self.versions@).push(
                Seq::<char>::empty(),
            ),
    {
        if !self.enabled {
            let mut r: Vec<String> = Vec::new();
            r.push(String::new());
            assert(string_views(r@) =~= seq![Seq::<char>::empty()]);
            return r;
        }
        let mut dirs = clone_strings(&self.versions);
        let ghost before = dirs@;
        dirs.push(String::new());
        assert(string_views(dirs@) =~= string_views(before).push(Seq::<char>::empty()));
        dirs
    }
}

pub const SWITCHER_OPEN: &'static str = "<div class=\"oxidoc-version-switcher\" data-versions='";

pub const SWITCHER_TOGGLE: &'static str = "'><button class=\"oxidoc-version-switcher-toggle\" aria-label=\"Select documentation version\" aria-expanded=\"false\" onclick=\"this.parentElement.classList.toggle('open');this.setAttribute('aria-expanded',this.parentElement.classList.contains('open'))\">";

pub const CHEVRON_SVG: &'static str = "<svg xmlns=\"http://www.w3.org/2000/svg\" viewBox=\"0 0 10 10\" fill=\"none\" stroke=\"currentColor\" stroke-width=\"2\" stroke-linecap=\"round\" stroke-linejoin=\"round\"><path d=\"M2 4l3 3 3-3\"/></svg>";

pub const MENU_OPEN: &'static str = "</button><ul class=\"oxidoc-version-switcher-menu\">";

pub const ITEM_OPEN: &'static str = "<li><a href=\"";

pub const ITEM_CLASS: &'static str = "\" class=\"oxidoc-version-link";

pub const ITEM_DATA: &'static str = "\" data-version=\"";

pub const ITEM_SCRIPT: &'static str = "\" onclick=\"(function(a,e){e.preventDefault();var p=location.pathname.replace(/^\\/+|\\/$/g,'');if(p.endsWith('.html'))p=p.slice(0,-5);var parts=p?p.split('/'):[]; var vs=JSON.parse(a.closest('.oxidoc-version-switcher').dataset.versions);if(parts.length>0&&vs.indexOf(parts[0])!==-1)parts.shift();var slug=parts.join('/');var base=a.getAttribute('href').replace(/\\/+$/,'');window.location.href=base+(slug?'/'+slug:'/')})(this,event)\">";

pub const ITEM_CLOSE: &'static str = "</a></li>";

pub const SWITCHER_CLOSE: &'static str = "</ul><script>(function(){var d=document.querySelector('.oxidoc-version-switcher');if(!d)return;document.addEventListener('click',function(e){if(!d.contains(e.target))d.classList.remove('open')})})()</script></div>";

/// The JSON array of the version names, each in double quotes (as written, without
/// escaping).
pub open spec fn versions_json(versions: Seq<Seq<char>>) -> Seq<char>
    decreases versions.len(),
{
    seq!['['] + quoted_list(versions) + seq![']']
}

pub open spec fn quoted_list(versions: Seq<Seq<char>>) -> Seq<char>
    decreases versions.len(),
{
    if versions.len() == 0 {
        Seq::<char>::empty()
    } else if versions.len() == 1 {
        seq!['"'] + versions[0] + seq!['"']
    } else {
        quoted_list(versions.drop_last()) + seq![','] + seq!['"'] + versions.last() + seq!['"']
    }
}

/// The link to one version: `/` for the default version, `/<version>/` otherwise.
pub open spec fn version_url(version: Seq<char>, default_version: Seq<char>) -> Seq<char> {
    if version == default_version {
        "/"@
    } else {
        "/"@ + version + "/"@
    }
}

/// The menu entry for one version.
pub open spec fn version_item(version: Seq<char>, current: Seq<char>, default_version: Seq<char>) -> Seq<char> {
    ITEM_OPEN@ + version_url(version, default_version) + ITEM_CLASS@ + (if version == current {
        " active"@
    } else {
        Seq::<char>::empty()
    }) + ITEM_DATA@ + version + ITEM_SCRIPT@ + version + ITEM_CLOSE@
}

pub open spec fn version_items(versions: Seq<Seq<char>>, current: Seq<char>, default_version: Seq<char>) -> Seq<char>
    decreases versions.len(),
{
    if versions.len() == 0 {
        Seq::<char>::empty()
    } else {
        version_items(versions.drop_last(), current, default_version) + version_item(
            versions.last(),
            current,
            default_version,
        )
    }
}

/// The version switcher: empty unless versioning is enabled with at least two versions.
pub open spec fn version_switcher(s: VersioningState, current: Seq<char>) -> Seq<char> {
    if !s.enabled || s.versions@.len() < 2 {
        Seq::<char>::empty()
    } else {
        SWITCHER_OPEN@ + versions_json(string_views(s.versions@)) + SWITCHER_TOGGLE@ + current
            + seq![' '] + CHEVRON_SVG@ + MENU_OPEN@ + version_items(
            string_views(s.versions@),
            current,
            s.default_version@,
        ) + SWITCHER_CLOSE@
    }
}

fn version_item_html(version: &str, current: &str, default_version: &str) -> (r: String)
    ensures
        r@ == version_item(version@, current@, default_version@),
{
    let mut html = String::from_str(ITEM_OPEN);
    if str_eq(version, default_version) {
        html.append("/");
    } else {
        html.append("/");
        html.append(version);
        html.append("/");
    }
    html.append(ITEM_CLASS);
    if str_eq(version, current) {
        html.append(" active");
    }
    html.append(ITEM_DATA);
    html.append(version);
    html.append(ITEM_SCRIPT);
    html.append(version);
    html.append(ITEM_CLOSE);
    html
}

impl VersioningState {
    /// HTML for the version switcher, with `current_version` shown on its toggle and
    /// marked active in the menu; the links keep the current page path when switching.
    /// Empty when versioning is disabled or there are fewer than two versions.
    pub fn render_version_switcher(&self, current_version: &str) -> (r: String)
        ensures
            r@ == version_switcher(*self, current_version@),
    {
        if !self.enabled || self.versions.len() < 2 {
            return String::new();
        }
        let ghost vs = string_views(self.versions@);
        let mut html = String::from_str(SWITCHER_OPEN);
        html.append("[");
        let ghost start = html@;
        let mut i: usize = 0;
        while i < self.versions.len()
            invariant
                vs == string_views(self.versions@),
                i <= vs.len(),
                html@ == start + quoted_list(vs.take(i as int)),
            decreases vs.len() - i,
        {
            if i > 0 {
                html.append(",");
            }
            html.append("\"");
            html.append(self.versions[i].as_str());
            html.append("\"");
            i = i + 1;
            proof {
                reveal_strlit(",");
                reveal_strlit("\"");
                assert(vs.take(i as int).drop_last() =~= vs.take(i - 1));
                if i == 1 {
                    assert(vs.take(0) =~= Seq::<Seq<char>>::empty());
                }
            }
        }
        assert(vs.take(i as int) =~= vs);
        html.append("]");
        proof {
            reveal_strlit("[");
            reveal_strlit("]");
            reveal_strlit(" ");
        }
        html.append(SWITCHER_TOGGLE);
        html.append(current_version);
        html.append(" ");
        html.append(CHEVRON_SVG);
        html.append(MENU_OPEN);
        let ghost start2 = html@;
        let mut j: usize = 0;
        while j < self.versions.len()
            invariant
                vs == string_views(self.versions@),
                j <= vs.len(),
                html@ == start2 + version_items(vs.take(j as int), current_version@, self.default_version@),
            decreases vs.len() - j,
        {
            let version = &self.versions[j];
            let item = version_item_html(version.as_str(), current_version, self.default_version.as_str());
            html.append(item.as_str());
            j = j + 1;
            proof {
                assert(vs.take(j as int).drop_last() =~= vs.take(j - 1));
                assert(vs.take(j as int).last() == version@);
            }
        }
        assert(vs.take(j as int) =~= vs);
        html.append(SWITCHER_CLOSE);
        html
    }
}

} // verus!
