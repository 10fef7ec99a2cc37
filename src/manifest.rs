use vstd::prelude::*;
use crate::error::ManifestError;
use crate::version::{release_id, MinecraftVersion};

verus! {

/// The list of game versions that the vanilla launcher service publishes.
pub struct VanillaManifestV2 {
    pub latest: VanillaManifestV2Latest,
    pub versions: Vec<VanillaManifestV2Version>,
}

pub struct VanillaManifestV2Latest {
    pub release: String,
    pub snapshot: String,
}

/// One entry of the version list.
pub struct VanillaManifestV2Version {
    pub id: String,
    pub mc_type: String,
    pub url: String,
    pub time: String,
    pub release_time: String,
    pub sha1: String,
    pub compliance_level: u32,
}

/// The description of one release, with its downloads.
pub struct VanillaReleaseManifest {
    pub downloads: VanillaReleaseManifestDownloads,
}

pub struct VanillaReleaseManifestDownloads {
    pub client: VanillaReleaseManifestDownloadsItem,
    pub client_mappings: VanillaReleaseManifestDownloadsItem,
    pub server: VanillaReleaseManifestDownloadsItem,
    pub server_mappings: VanillaReleaseManifestDownloadsItem,
}

pub struct VanillaReleaseManifestDownloadsItem {
    pub sha1: String,
    pub size: u32,
    pub url: String,
}

impl VanillaManifestV2Version {
    /// Whether two entries hold the same values.
    pub open spec fn same_as(&self, o: &Self) -> bool {
        &&& self.id@ == o.id@
        &&& self.mc_type@ == o.mc_type@
        &&& self.url@ == o.url@
        &&& self.time@ == o.time@
        &&& self.release_time@ == o.release_time@
        &&& self.sha1@ == o.sha1@
        &&& self.compliance_level == o.compliance_level
    }

    pub fn duplicate(&self) -> (r: Self)
        ensures
            r.same_as(self),
    {
        VanillaManifestV2Version {
            id: self.id.clone(),
            mc_type: self.mc_type.clone(),
            url: self.url.clone(),
            time: self.time.clone(),
            release_time: self.release_time.clone(),
            sha1: self.sha1.clone(),
            compliance_level: self.compliance_level,
        }
    }
}

impl VanillaReleaseManifest {
    /// Where the server archive of this release is downloaded from.
    pub fn server_url(&self) -> (r: String)
        ensures
            r@ == self.downloads.server.url@,
    {
        self.downloads.server.url.clone()
    }
}

impl VanillaManifestV2 {
    /// The entry whose id is that of `version`, if any; an unknown version
    /// matches no entry.
    pub fn find(&self, version: MinecraftVersion) -> (r: Result<
        Option<VanillaManifestV2Version>,
        ManifestError,
    >)
        ensures
            version is Unknown ==> r == Ok::<Option<VanillaManifestV2Version>, ManifestError>(
                None,
            ),
            version is Release ==> (r matches Ok(found) && self.is_lookup(
                release_id(version->Release_0.parts()),
                found,
            )),
    {
        match version.id() {
            None => Ok(None),
            Some(id) => self.find_id(&id),
        }
    }

    /// Whether `found` is what a lookup of `id` gives: a copy of the first
    /// entry with that id, or nothing when no entry has it.
    pub open spec fn is_lookup(&self, id: Seq<char>, found: Option<VanillaManifestV2Version>) -> bool {
        match found {
            Some(v) => exists|i: int|
                0 <= i < self.versions@.len() && self.versions@[i].id@ == id && (forall|j: int|
                    0 <= j < i ==> self.versions@[j].id@ != id) && v.same_as(&self.versions@[i]),
            None => forall|j: int| 0 <= j < self.versions@.len() ==> self.versions@[j].id@ != id,
        }
    }

    /// The first entry whose id is `id`, if any.
    pub fn find_id(&self, id: &String) -> (r: Result<
        Option<VanillaManifestV2Version>,
        ManifestError,
    >)
        ensures
            r matches Ok(found) && self.is_lookup(id@, found),
    {
        let mut i: usize = 0;
        while i < self.versions.len()
            invariant
                0 <= i <= self.versions@.len(),
                forall|j: int| 0 <= j < i ==> self.versions@[j].id@ != id@,
            decreases self.versions@.len() - i,
        {
            if self.versions[i].id == *id {
                let found = self.versions[i].duplicate();
                return Ok(Some(found));
            }
            i = i + 1;
        }
        Ok(None)
    }
}

} // verus!
