//! Devcontainer configuration values and the pure bookkeeping behind the
//! project scanner: collected file types and the feature URLs they map to.

use vstd::prelude::*;

verus! {

/// Version pin of one devcontainer feature.
#[derive(Debug, Clone)]
pub struct FeatureData {
    pub version: Option<String>,
}

/// A devcontainer configuration: a display name, a base image, and the
/// features to install, each keyed by its feature URL.
#[derive(Debug, Clone)]
pub struct DevContainer {
    pub name: String,
    pub image: String,
    pub features: Vec<(String, Option<FeatureData>)>,
}

/// The set of file types found by scanning a project tree.
#[derive(Debug, Clone)]
pub struct ImageInfo {
    pub file_types: Vec<String>,
}

/// No file type is recorded twice.
pub open spec fn unique_strings(s: Seq<String>) -> bool {
    forall|i: int, j: int| 0 <= i < j < s.len() ==> s[i]@ != s[j]@
}

/// Whether a list of strings holds one with this content.
pub open spec fn spec_contains_string(s: Seq<String>, x: Seq<char>) -> bool {
    exists|i: int| 0 <= i < s.len() && s[i]@ == x
}

fn contains_string(haystack: &Vec<String>, needle: &String) -> (found: bool)
    ensures
        found == spec_contains_string(haystack@, needle@),
{
    let mut i: usize = 0;
    while i < haystack.len()
        invariant
            i <= haystack@.len(),
            forall|j: int| 0 <= j < i ==> haystack@[j]@ != needle@,
        decreases haystack@.len() - i,
    {
        if haystack[i] == *needle {
            return true;
        }
        i = i + 1;
    }
    false
}

impl ImageInfo {
    pub fn new() -> (info: ImageInfo)
        ensures
            info.file_types@ =~= Seq::<String>::empty(),
            unique_strings(info.file_types@),
    {
        ImageInfo { file_types: Vec::new() }
    }

    /// Record one file type; a type already recorded is not repeated.
    /// Returns whether the type was new.
    pub fn insert_file_type(&mut self, file_type: String) -> (inserted: bool)
        requires
            unique_strings(old(self).file_types@),
        ensures
            unique_strings(final(self).file_types@),
            inserted == !spec_contains_string(old(self).file_types@, file_type@),
            inserted ==> final(self).file_types@ =~= old(self).file_types@.push(file_type),
            !inserted ==> final(self).file_types@ =~= old(self).file_types@,
            spec_contains_string(final(self).file_types@, file_type@),
    {
        if contains_string(&self.file_types, &file_type) {
            proof {
                let i = choose|i: int|
                    0 <= i < self.file_types@.len() && self.file_types@[i]@ == file_type@;
                assert(self.file_types@[i]@ == file_type@);
            }
            false
        } else {
            self.file_types.push(file_type);
            proof {
                assert(self.file_types@[self.file_types@.len() - 1]@ == file_type@);
            }
            true
        }
    }
}

/// The first URL a lookup table gives for a file type.
pub open spec fn spec_find_url(table: Seq<(Seq<char>, Seq<char>)>, key: Seq<char>) -> Option<
    Seq<char>,
>
    decreases table.len(),
{
    if table.len() == 0 {
        None
    } else if table[0].0 == key {
        Some(table[0].1)
    } else {
        spec_find_url(table.drop_first(), key)
    }
}

/// The feature URLs of a list of file types, in order, skipping the types
/// the table does not know.
pub open spec fn spec_feature_urls(
    file_types: Seq<Seq<char>>,
    table: Seq<(Seq<char>, Seq<char>)>,
) -> Seq<Seq<char>>
    decreases file_types.len(),
{
    if file_types.len() == 0 {
        Seq::empty()
    } else {
        let rest = spec_feature_urls(file_types.drop_last(), table);
        match spec_find_url(table, file_types.last()) {
            Some(url) => rest.push(url),
            None => rest,
        }
    }
}

fn find_url(table: &Vec<(String, String)>, key: &String) -> (url: Option<String>)
    ensures
        match url {
            Some(u) => spec_find_url(table.deep_view(), key@) == Some(u@),
            None => spec_find_url(table.deep_view(), key@) is None,
        },
{
    let ghost full = table.deep_view();
    let mut i: usize = 0;
    proof {
        assert(full.skip(0) =~= full);
    }
    while i < table.len()
        invariant
            full == table.deep_view(),
            i <= full.len(),
            full.len() == table@.len(),
            spec_find_url(full, key@) == spec_find_url(full.skip(i as int), key@),
        decreases full.len() - i,
    {
        proof {
            assert(full.skip(i as int)[0] == full[i as int]);
        }
        if table[i].0 == *key {
            return Some(table[i].1.clone());
        }
        proof {
            assert(full.skip(i as int).drop_first() =~= full.skip(i + 1));
        }
        i = i + 1;
    }
    proof {
        assert(full.skip(full.len() as int) =~= Seq::<(Seq<char>, Seq<char>)>::empty());
    }
    None
}

/// The feature URLs to install for the file types found in a project, read
/// off a lookup table from file type to feature URL: the first matching
/// entry decides, in the order the types were collected.
pub fn lookup_feature_urls(file_types: &Vec<String>, table: &Vec<(String, String)>) -> (urls: Vec<
    String,
>)
    ensures
        urls.deep_view() == spec_feature_urls(file_types.deep_view(), table.deep_view()),
{
    let ghost types_full = file_types.deep_view();
    let mut urls: Vec<String> = Vec::new();
    let mut i: usize = 0;
    proof {
        assert(types_full.take(0) =~= Seq::<Seq<char>>::empty());
    }
    while i < file_types.len()
        invariant
            types_full == file_types.deep_view(),
            types_full.len() == file_types@.len(),
            i <= types_full.len(),
            urls.deep_view() == spec_feature_urls(types_full.take(i as int), table.deep_view()),
        decreases types_full.len() - i,
    {
        proof {
            assert(types_full.take(i + 1).drop_last() =~= types_full.take(i as int));
            assert(types_full.take(i + 1).last() == types_full[i as int]);
        }
        match find_url(table, &file_types[i]) {
            Some(url) => {
                urls.push(url);
            },
            None => {},
        }
        i = i + 1;
    }
    proof {
        assert(types_full.take(types_full.len() as int) =~= types_full);
    }
    urls
}

/// A feature pin that asks for the latest version.
pub open spec fn spec_latest_feature(feature: Option<FeatureData>) -> bool {
    match feature {
        Some(data) => match data.version {
            Some(v) => v@ == "latest"@,
            None => false,
        },
        None => false,
    }
}

/// The devcontainer configuration generated for a project: a fixed name and
/// base image, and one latest-pinned feature per discovered feature URL.
pub fn build_devcontainer_config(feature_urls: &Vec<String>) -> (dc: DevContainer)
    ensures
        dc.name@ == "My Dev Container"@,
        dc.image@ == "ubuntu:latest"@,
        dc.features@.len() == feature_urls@.len(),
        forall|i: int|
            0 <= i < feature_urls@.len() ==> (#[trigger] dc.features@[i]).0@ == feature_urls@[i]@
                && spec_latest_feature(dc.features@[i].1),
{
    let mut features: Vec<(String, Option<FeatureData>)> = Vec::new();
    let mut i: usize = 0;
    while i < feature_urls.len()
        invariant
            i <= feature_urls@.len(),
            features@.len() == i,
            forall|j: int|
                0 <= j < i ==> (#[trigger] features@[j]).0@ == feature_urls@[j]@
                    && spec_latest_feature(features@[j].1),
        decreases feature_urls@.len() - i,
    {
        let data = FeatureData { version: Some("latest".to_owned()) };
        features.push((feature_urls[i].clone(), Some(data)));
        i = i + 1;
    }
    DevContainer { name: "My Dev Container".to_owned(), image: "ubuntu:latest".to_owned(), features }
}

} // verus!
