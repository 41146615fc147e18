//! What the discovery service tells of an environment.

use vstd::prelude::*;

verus! {

#[derive(Debug)]
pub struct DiscoveryInstance {
    pub id: String,
    pub url: String,
    pub unique_name: String,
    pub friendly_name: String,
    pub region: String,
    pub version: String,
    pub state: i32,
}

impl Clone for DiscoveryInstance {
    fn clone(&self) -> (r: DiscoveryInstance)
        ensures
            r == *self,
    {
        DiscoveryInstance {
            id: self.id.clone(),
            url: self.url.clone(),
            unique_name: self.unique_name.clone(),
            friendly_name: self.friendly_name.clone(),
            region: self.region.clone(),
            version: self.version.clone(),
            state: self.state,
        }
    }
}

#[derive(Debug, Clone)]
pub struct DiscoveryResponse {
    pub value: Vec<DiscoveryInstance>,
}

} // verus!
