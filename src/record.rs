use std::collections::HashMap;
use vstd::prelude::*;

verus! {

/// One service instance on one node, as the catalog's service lookup
/// returns it: node fields and flat service fields.
#[derive(Debug, PartialEq, Eq)]
pub struct ServiceRecord {
    pub datacenter: String,
    pub id: String,
    pub node: String,
    pub address: String,
    pub tagged_addresses: HashMap<String, String>,
    pub node_meta: HashMap<String, String>,
    pub service_id: String,
    pub service_name: String,
    pub service_tags: Vec<String>,
    pub service_port: i32,
}

/// The service part of a registration: what the lookup holds in its
/// `service_*` fields, nested.
#[derive(Debug, PartialEq, Eq)]
pub struct EntityService {
    pub id: String,
    pub service: String,
    pub tags: Vec<String>,
    pub port: i32,
}

/// A node with one service, as the catalog's registration takes it.
#[derive(Debug, PartialEq, Eq)]
pub struct EntityRecord {
    pub datacenter: String,
    pub id: String,
    pub node: String,
    pub address: String,
    pub tagged_addresses: HashMap<String, String>,
    pub node_meta: HashMap<String, String>,
    pub service: EntityService,
}


impl ServiceRecord {
    /// Appends `tags` after the record's own tags, keeping those and their
    /// order, and reshapes the record into a registration. Every other field
    /// passes through unchanged.
    pub fn into_entity(self, tags: Vec<String>) -> (e: EntityRecord)
        ensures
            e.datacenter == self.datacenter,
            e.id == self.id,
            e.node == self.node,
            e.address == self.address,
            e.tagged_addresses == self.tagged_addresses,
            e.node_meta == self.node_meta,
            e.service.id == self.service_id,
            e.service.service == self.service_name,
            e.service.port == self.service_port,
            e.service.tags@ == self.service_tags@ + tags@,
    {
        let mut service_tags = self.service_tags;
        let mut added = tags;
        service_tags.append(&mut added);
        EntityRecord {
            datacenter: self.datacenter,
            id: self.id,
            node: self.node,
            address: self.address,
            tagged_addresses: self.tagged_addresses,
            node_meta: self.node_meta,
            service: EntityService {
                id: self.service_id,
                service: self.service_name,
                tags: service_tags,
                port: self.service_port,
            },
        }
    }
}

} // verus!
