//! How services are discovered below a directory: each directory with a
//! `README.md` in it is one. Walking the directories is the caller's part.

use vstd::prelude::*;
use crate::text::str_eq;
use crate::text::views;

verus! {

/// A service that was discovered.
#[derive(Debug, Clone)]
pub struct DiscoveredService {
    pub name: String,
    pub path: String,
    pub docs: Vec<String>,
}

/// One entry that the walk came by.
#[derive(Debug, Clone)]
pub struct WalkEntry {
    pub is_file: bool,
    pub file_name: String,
    pub path: String,
    /// The directory of the entry, where it has one.
    pub parent_path: Option<String>,
    /// The name of that directory, where it has one.
    pub parent_name: Option<String>,
}

/// Whether an entry shows a service: it is a file `README.md` in a
/// directory that has a name.
pub open spec fn shows_service(entry: WalkEntry) -> bool {
    entry.is_file && entry.file_name@ == "README.md"@ && entry.parent_path is Some
        && entry.parent_name is Some
}

/// What a [`DiscoveredService`] stands for.
pub ghost struct DiscoveredServiceModel {
    pub name: Seq<char>,
    pub path: Seq<char>,
    pub docs: Seq<Seq<char>>,
}

impl View for DiscoveredService {
    type V = DiscoveredServiceModel;

    open spec fn view(&self) -> DiscoveredServiceModel {
        DiscoveredServiceModel { name: self.name@, path: self.path@, docs: views(self.docs@) }
    }
}

/// The models of `services`, one for one.
pub open spec fn service_models(services: Seq<DiscoveredService>) -> Seq<DiscoveredServiceModel> {
    Seq::new(services.len(), |i: int| services[i]@)
}

/// The service that an entry shows: it has the name and the path of the
/// directory, and the file as its one document.
pub open spec fn service_of(entry: WalkEntry) -> DiscoveredServiceModel {
    DiscoveredServiceModel {
        name: entry.parent_name->0@,
        path: entry.parent_path->0@,
        docs: seq![entry.path@],
    }
}

/// The services that `entries` show, in the order of the entries.
pub open spec fn discovered(entries: Seq<WalkEntry>) -> Seq<DiscoveredServiceModel>
    decreases entries.len(),
{
    if entries.len() == 0 {
        Seq::empty()
    } else if shows_service(entries.last()) {
        discovered(entries.drop_last()).push(service_of(entries.last()))
    } else {
        discovered(entries.drop_last())
    }
}

/// Discovers services below a directory.
#[derive(Debug, Clone)]
pub struct ServiceDiscovery {
    base_path: String,
}

impl ServiceDiscovery {
    /// The directory below which services are looked for.
    pub closed spec fn base(&self) -> Seq<char> {
        self.base_path@
    }

    /// A discovery below `base_path`.
    pub fn new(base_path: String) -> (discovery: Self)
        ensures
            discovery.base() == base_path@,
    {
        Self { base_path }
    }

    /// The directory below which services are looked for.
    pub fn base_path(&self) -> (path: &str)
        ensures
            path@ == self.base(),
    {
        self.base_path.as_str()
    }

    /// How deep the walk goes.
    pub fn max_depth() -> (depth: usize)
        ensures
            depth == 2,
    {
        2
    }

    /// The service that an entry shows, if it shows one.
    pub fn service_of(entry: &WalkEntry) -> (service: Option<DiscoveredService>)
        ensures
            match service {
                Some(s) => shows_service(*entry) && s@ == service_of(*entry),
                None => !shows_service(*entry),
            },
    {
        if !entry.is_file || !str_eq(entry.file_name.as_str(), "README.md") {
            return None;
        }
        match (&entry.parent_path, &entry.parent_name) {
            (Some(path), Some(name)) => {
                let mut docs: Vec<String> = Vec::new();
                docs.push(entry.path.clone());
                let service = DiscoveredService { name: name.clone(), path: path.clone(), docs };
                proof {
                    assert(service@.docs =~= seq![entry.path@]);
                }
                Some(service)
            },
            _ => None,
        }
    }

    /// The services that the entries of a walk show, in the order of the
    /// walk: one for each entry that shows one.
    pub fn discover(&self, entries: &Vec<WalkEntry>) -> (services: Vec<DiscoveredService>)
        ensures
            service_models(services@) == discovered(entries@),
    {
        let mut services: Vec<DiscoveredService> = Vec::new();
        let mut i: usize = 0;
        while i < entries.len()
            invariant
                i <= entries.len(),
                service_models(services@) == discovered(entries@.take(i as int)),
            decreases entries.len() - i,
        {
            proof {
                assert(entries@.take(i + 1).drop_last() =~= entries@.take(i as int));
                assert(entries@.take(i + 1).last() == entries@[i as int]);
            }
            match Self::service_of(&entries[i]) {
                Some(service) => {
                    let ghost before = services@;
                    services.push(service);
                    proof {
                        assert(service_models(services@) =~= service_models(before).push(service@));
                    }
                },
                None => {},
            }
            i += 1;
        }
        proof {
            assert(entries@.take(entries.len() as int) =~= entries@);
        }
        services
    }
}

} // verus!
