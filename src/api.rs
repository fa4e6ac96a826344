//! Addressing: the descriptor of each resource kind, and a typed client that
//! pairs a kind with its descriptor and a transport handle.
use crate::config_map::v1ConfigMap;
use crate::event::v1Event;
use crate::meta::KubeObject;
use crate::secret::v1Secret;
use core::marker::PhantomData;
use vstd::prelude::*;

verus! {

/// Where a resource kind lives in the API: its group (empty for the core
/// group), version, plural resource name, and whether it is namespaced.
#[derive(Debug, Clone)]
pub struct RawApi {
    pub group: String,
    pub version: String,
    pub resource: String,
    pub namespaced: bool,
}

pub struct RawApiView {
    pub group: Seq<char>,
    pub version: Seq<char>,
    pub resource: Seq<char>,
    pub namespaced: bool,
}

impl View for RawApi {
    type V = RawApiView;

    open spec fn view(&self) -> RawApiView {
        RawApiView {
            group: self.group@,
            version: self.version@,
            resource: self.resource@,
            namespaced: self.namespaced,
        }
    }
}

/// A namespaced kind of the core group, version v1.
pub open spec fn core_v1(resource: Seq<char>) -> RawApiView {
    RawApiView { group: Seq::empty(), version: "v1"@, resource, namespaced: true }
}

impl RawApi {
    fn core_v1(resource: &str) -> (r: RawApi)
        ensures
            r@ == core_v1(resource@),
    {
        let group = String::new();
        let version = "v1".to_owned();
        RawApi { group, version, resource: resource.to_owned(), namespaced: true }
    }

    pub fn v1Event() -> (r: RawApi)
        ensures
            r@ == core_v1("events"@),
    {
        RawApi::core_v1("events")
    }

    pub fn v1Secret() -> (r: RawApi)
        ensures
            r@ == core_v1("secrets"@),
    {
        RawApi::core_v1("secrets")
    }

    pub fn v1ConfigMap() -> (r: RawApi)
        ensures
            r@ == core_v1("configmaps"@),
    {
        RawApi::core_v1("configmaps")
    }
}

/// A client for one resource kind `K`, over a transport handle `C`. It holds
/// no mutable state, so copies of it may be shared freely.
pub struct Api<K: KubeObject, C> {
    pub api: RawApi,
    pub client: C,
    pub phantom: PhantomData<K>,
}

impl<K: KubeObject, C: Clone> Clone for Api<K, C> {
    fn clone(&self) -> Self {
        Api { api: self.api.clone(), client: self.client.clone(), phantom: PhantomData }
    }
}

impl<C> Api<v1Event, C> {
    /// The client for events over `client`.
    pub fn v1Event(client: C) -> (r: Self)
        ensures
            r.api@ == core_v1("events"@),
            r.client == client,
    {
        Api { api: RawApi::v1Event(), client, phantom: PhantomData }
    }
}

impl<C> Api<v1Secret, C> {
    /// The client for secrets over `client`.
    pub fn v1Secret(client: C) -> (r: Self)
        ensures
            r.api@ == core_v1("secrets"@),
            r.client == client,
    {
        Api { api: RawApi::v1Secret(), client, phantom: PhantomData }
    }
}

impl<C> Api<v1ConfigMap, C> {
    /// The client for config maps over `client`.
    pub fn v1ConfigMap(client: C) -> (r: Self)
        ensures
            r.api@ == core_v1("configmaps"@),
            r.client == client,
    {
        Api { api: RawApi::v1ConfigMap(), client, phantom: PhantomData }
    }
}

} // verus!
