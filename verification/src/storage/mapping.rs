//! The mappings from services to the places of their documentation.

use vstd::prelude::*;
use crate::error::KtmeError;
use crate::error::KtmeErrorModel;
use crate::text::str_eq;
use crate::text::views;

verus! {

/// Where one document is: the kind of place and the place.
#[derive(Debug, Clone)]
pub struct DocumentLocation {
    pub doc_type: String,
    pub location: String,
}

/// A service and the places of its documents.
#[derive(Debug, Clone)]
pub struct ServiceMapping {
    pub name: String,
    pub path: Option<String>,
    pub docs: Vec<DocumentLocation>,
}

/// All the mappings, with the version of their format and the time of the
/// last change.
#[derive(Debug, Clone)]
pub struct Mappings {
    pub version: String,
    pub last_updated: String,
    pub services: Vec<ServiceMapping>,
}

/// What a [`DocumentLocation`] stands for.
pub ghost struct DocumentLocationModel {
    pub doc_type: Seq<char>,
    pub location: Seq<char>,
}

impl View for DocumentLocation {
    type V = DocumentLocationModel;

    open spec fn view(&self) -> DocumentLocationModel {
        DocumentLocationModel { doc_type: self.doc_type@, location: self.location@ }
    }
}

/// What a [`ServiceMapping`] stands for.
pub ghost struct ServiceMappingModel {
    pub name: Seq<char>,
    pub path: Option<Seq<char>>,
    pub docs: Seq<DocumentLocationModel>,
}

/// The models of `docs`, one for one.
pub open spec fn location_models(docs: Seq<DocumentLocation>) -> Seq<DocumentLocationModel> {
    Seq::new(docs.len(), |i: int| docs[i]@)
}

impl View for ServiceMapping {
    type V = ServiceMappingModel;

    open spec fn view(&self) -> ServiceMappingModel {
        ServiceMappingModel {
            name: self.name@,
            path: match self.path {
                Some(p) => Some(p@),
                None => None,
            },
            docs: location_models(self.docs@),
        }
    }
}

/// The models of `services`, one for one.
pub open spec fn mapping_models(services: Seq<ServiceMapping>) -> Seq<ServiceMappingModel> {
    Seq::new(services.len(), |i: int| services[i]@)
}

/// The index of the first of `services` from `from` on whose name is
/// `name`.
pub open spec fn service_from(services: Seq<ServiceMappingModel>, name: Seq<char>, from: int) -> Option<
    int,
>
    decreases services.len() - from,
{
    if from < 0 || from >= services.len() {
        None
    } else if services[from].name == name {
        Some(from)
    } else {
        service_from(services, name, from + 1)
    }
}

/// The mappings with one more place for the documents of `name`: at the
/// first service of that name, or at a new service at the end where there
/// is none.
pub open spec fn with_place(
    services: Seq<ServiceMappingModel>,
    name: Seq<char>,
    place: DocumentLocationModel,
) -> Seq<ServiceMappingModel> {
    match service_from(services, name, 0) {
        Some(at) => services.update(
            at,
            ServiceMappingModel {
                name: services[at].name,
                path: services[at].path,
                docs: services[at].docs.push(place),
            },
        ),
        None => services.push(ServiceMappingModel { name, path: None, docs: seq![place] }),
    }
}

/// The services whose name is not `name`, in their order.
pub open spec fn without(services: Seq<ServiceMappingModel>, name: Seq<char>) -> Seq<
    ServiceMappingModel,
>
    decreases services.len(),
{
    if services.len() == 0 {
        Seq::empty()
    } else if services.last().name == name {
        without(services.drop_last(), name)
    } else {
        without(services.drop_last(), name).push(services.last())
    }
}

/// The names of `services`, one for one.
pub open spec fn names_of(services: Seq<ServiceMappingModel>) -> Seq<Seq<char>> {
    Seq::new(services.len(), |i: int| services[i].name)
}

/// The failure for a service that has no mapping.
pub open spec fn mapping_not_found(name: Seq<char>) -> KtmeErrorModel {
    KtmeErrorModel::MappingNotFound(name)
}

impl DocumentLocation {
    /// A copy of this place.
    pub fn duplicate(&self) -> (copy: DocumentLocation)
        ensures
            copy@ == self@,
    {
        DocumentLocation { doc_type: self.doc_type.clone(), location: self.location.clone() }
    }
}

impl ServiceMapping {
    /// A copy of this mapping.
    pub fn duplicate(&self) -> (copy: ServiceMapping)
        ensures
            copy@ == self@,
    {
        let mut docs: Vec<DocumentLocation> = Vec::new();
        let mut i: usize = 0;
        while i < self.docs.len()
            invariant
                i <= self.docs.len(),
                docs.len() == i,
                forall|k: int| 0 <= k < i ==> docs@[k]@ == self.docs@[k]@,
            decreases self.docs.len() - i,
        {
            docs.push(self.docs[i].duplicate());
            i += 1;
        }
        let path = match &self.path {
            Some(p) => Some(p.clone()),
            None => None,
        };
        let copy = ServiceMapping { name: self.name.clone(), path, docs };
        proof {
            assert(copy@.docs =~= self@.docs);
        }
        copy
    }
}

impl Mappings {
    /// What the services stand for.
    pub open spec fn models(&self) -> Seq<ServiceMappingModel> {
        mapping_models(self.services@)
    }

    /// No mappings, in the format `1.0`, last changed at `now`.
    pub fn new(now: String) -> (mappings: Self)
        ensures
            mappings.version@ == "1.0"@,
            mappings.last_updated == now,
            mappings.services@.len() == 0,
    {
        Self { version: "1.0".to_string(), last_updated: now, services: Vec::new() }
    }

    /// The index of the first service of this name.
    pub fn find(&self, service: &str) -> (index: Option<usize>)
        ensures
            match index {
                Some(i) => service_from(self.models(), service@, 0) == Some(i as int) && i
                    < self.services.len(),
                None => service_from(self.models(), service@, 0) is None,
            },
    {
        let mut i: usize = 0;
        while i < self.services.len()
            invariant
                i <= self.services.len(),
                service_from(self.models(), service@, 0) == service_from(
                    self.models(),
                    service@,
                    i as int,
                ),
            decreases self.services.len() - i,
        {
            if str_eq(self.services[i].name.as_str(), service) {
                return Some(i);
            }
            i += 1;
        }
        None
    }

    /// Adds a place to the documents of `service`: to the first service of
    /// that name, or to a new service at the end where there is none. The
    /// time of the last change becomes `now`.
    pub fn add_mapping(&mut self, service: String, doc_type: String, location: String, now: String)
        ensures
            final(self).version == old(self).version,
            final(self).last_updated == now,
            final(self).models() == with_place(
                old(self).models(),
                service@,
                DocumentLocationModel { doc_type: doc_type@, location: location@ },
            ),
    {
        let place = DocumentLocation { doc_type, location };
        let ghost before = self.services@;
        match self.find(service.as_str()) {
            Some(at) => {
                let mut entry = self.services.remove(at);
                entry.docs.push(place);
                self.services.insert(at, entry);
                proof {
                    let expected = with_place(mapping_models(before), service@, place@);
                    assert(self.services@.len() == before.len());
                    assert forall|k: int| 0 <= k < before.len() implies mapping_models(
                        self.services@,
                    )[k] == expected[k] by {
                        if k == at {
                            assert(self.services@[k]@.docs =~= before[k]@.docs.push(place@));
                        } else {
                            assert(self.services@[k] == before[k]);
                        }
                    }
                    assert(mapping_models(self.services@) =~= expected);
                }
            },
            None => {
                let mut docs: Vec<DocumentLocation> = Vec::new();
                docs.push(place);
                let entry = ServiceMapping { name: service, path: None, docs };
                proof {
                    assert(entry@.docs =~= seq![place@]);
                }
                self.services.push(entry);
                proof {
                    assert(mapping_models(self.services@) =~= mapping_models(before).push(entry@));
                }
            },
        }
        self.last_updated = now;
    }

    /// The mapping of `service`: the first of that name. A service without
    /// one is refused.
    pub fn get_mapping(&self, service: &str) -> (mapping: Result<&ServiceMapping, KtmeError>)
        ensures
            match mapping {
                Ok(m) => service_from(self.models(), service@, 0) is Some && m@
                    == self.models()[service_from(self.models(), service@, 0)->0],
                Err(e) => service_from(self.models(), service@, 0) is None && e@
                    == mapping_not_found(service@),
            },
    {
        match self.find(service) {
            Some(at) => Ok(&self.services[at]),
            None => Err(KtmeError::MappingNotFound(service.to_string())),
        }
    }

    /// Takes every service of this name away. The time of the last change
    /// becomes `now`.
    pub fn remove_mapping(&mut self, service: &str, now: String)
        ensures
            final(self).version == old(self).version,
            final(self).last_updated == now,
            final(self).models() == without(old(self).models(), service@),
    {
        let mut kept: Vec<ServiceMapping> = Vec::new();
        let mut i: usize = 0;
        while i < self.services.len()
            invariant
                i <= self.services.len(),
                self.services@ == old(self).services@,
                self.version == old(self).version,
                mapping_models(kept@) == without(self.models().take(i as int), service@),
            decreases self.services.len() - i,
        {
            proof {
                assert(self.models().take(i + 1).drop_last() =~= self.models().take(i as int));
                assert(self.models().take(i + 1).last() == self.services@[i as int]@);
            }
            if !str_eq(self.services[i].name.as_str(), service) {
                let ghost before = kept@;
                let copy = self.services[i].duplicate();
                kept.push(copy);
                proof {
                    assert(mapping_models(kept@) =~= mapping_models(before).push(copy@));
                }
            }
            i += 1;
        }
        proof {
            assert(self.models().take(self.services.len() as int) =~= self.models());
        }
        self.services = kept;
        self.last_updated = now;
    }

    /// The names of the services, in their order.
    pub fn list_services(&self) -> (names: Vec<String>)
        ensures
            views(names@) == names_of(self.models()),
    {
        let mut names: Vec<String> = Vec::new();
        let mut i: usize = 0;
        while i < self.services.len()
            invariant
                i <= self.services.len(),
                names.len() == i,
                forall|k: int| 0 <= k < i ==> names@[k]@ == self.services@[k].name@,
            decreases self.services.len() - i,
        {
            names.push(self.services[i].name.clone());
            i += 1;
        }
        proof {
            assert(views(names@) =~= names_of(self.models()));
        }
        names
    }
}

/// Where the mappings are kept and whether a database is in use.
#[derive(Debug, Clone)]
pub struct StorageManager {
    pub mappings_file: String,
    pub use_sqlite: bool,
    pub has_database: bool,
}

/// Whether a database is ready, or why it is not.
pub open spec fn database_state(use_sqlite: bool, has_database: bool) -> Result<
    (),
    KtmeErrorModel,
> {
    if use_sqlite {
        if has_database {
            Ok(())
        } else {
            Err(KtmeErrorModel::Storage("SQLite not initialized"@))
        }
    } else {
        Err(KtmeErrorModel::Storage("SQLite not enabled in configuration"@))
    }
}

impl StorageManager {
    /// A manager of the mappings in `mappings_file`.
    pub fn new(mappings_file: String, use_sqlite: bool, has_database: bool) -> (manager: Self)
        ensures
            manager.mappings_file == mappings_file,
            manager.use_sqlite == use_sqlite,
            manager.has_database == has_database,
    {
        Self { mappings_file, use_sqlite, has_database }
    }

    /// The file of the mappings.
    pub fn mappings_file_path(&self) -> (path: &str)
        ensures
            path@ == self.mappings_file@,
    {
        self.mappings_file.as_str()
    }

    /// Whether the database is ready.
    pub fn initialize_database(&self) -> (state: Result<(), KtmeError>)
        ensures
            match state {
                Ok(_) => database_state(self.use_sqlite, self.has_database) is Ok,
                Err(e) => database_state(self.use_sqlite, self.has_database) == Err::<
                    (),
                    KtmeErrorModel,
                >(e@),
            },
    {
        if self.use_sqlite {
            if self.has_database {
                Ok(())
            } else {
                Err(KtmeError::Storage("SQLite not initialized".to_string()))
            }
        } else {
            Err(KtmeError::Storage("SQLite not enabled in configuration".to_string()))
        }
    }

    /// Whether statistics can be had: only of a database.
    pub fn get_database_stats(&self) -> (state: Result<(), KtmeError>)
        ensures
            match state {
                Ok(_) => self.has_database,
                Err(e) => !self.has_database && e@ == KtmeErrorModel::Storage(
                    "Database not initialized"@,
                ),
            },
    {
        if self.has_database {
            Ok(())
        } else {
            Err(KtmeError::Storage("Database not initialized".to_string()))
        }
    }
}

} // verus!
