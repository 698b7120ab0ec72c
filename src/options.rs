//! Optional parameters of registry requests.
use crate::query::{with_param, flag_text, lemma_union_with_param, Dto, QueryParams};
use crate::text::option_view;
use vstd::prelude::*;

verus! {

/// The optional parameters for removing an instance.
#[derive(Debug)]
pub struct RemoveInstanceOption {
    pub cluster_name: Option<String>,
    pub namespace_id: Option<String>,
}

impl RemoveInstanceOption {
    pub fn set_cluster_name(&mut self, cluster_name: Option<String>)
        ensures
            *final(self) == (RemoveInstanceOption { cluster_name, ..*old(self) }),
    {
        self.cluster_name = cluster_name;
    }

    pub fn set_namespace_id(&mut self, namespace_id: Option<String>)
        ensures
            *final(self) == (RemoveInstanceOption { namespace_id, ..*old(self) }),
    {
        self.namespace_id = namespace_id;
    }

    pub fn cluster_name(&self) -> (r: &Option<String>)
        ensures
            *r == self.cluster_name,
    {
        &self.cluster_name
    }

    pub fn namespace_id(&self) -> (r: &Option<String>)
        ensures
            *r == self.namespace_id,
    {
        &self.namespace_id
    }
}

impl Default for RemoveInstanceOption {
    fn default() -> (r: RemoveInstanceOption)
        ensures
            r.cluster_name is None,
            r.namespace_id is None,
    {
        RemoveInstanceOption { cluster_name: None, namespace_id: None }
    }
}

impl Dto for RemoveInstanceOption {
    open spec fn params(&self) -> Map<Seq<char>, Seq<char>> {
        with_param(
            with_param(Map::empty(), "clusterName"@, option_view(self.cluster_name)),
            "namespaceId"@,
            option_view(self.namespace_id),
        )
    }

    fn mapping(&self, map: &mut QueryParams) {
        let ghost start = map@;
        map.insert_present("clusterName", &self.cluster_name);
        map.insert_present("namespaceId", &self.namespace_id);
        proof {
            let empty = Map::<Seq<char>, Seq<char>>::empty();
            assert(start.union_prefer_right(empty) =~= start);
            lemma_union_with_param(start, empty, "clusterName"@, option_view(self.cluster_name));
            lemma_union_with_param(
                start,
                with_param(empty, "clusterName"@, option_view(self.cluster_name)),
                "namespaceId"@,
                option_view(self.namespace_id),
            );
        }
    }
}

/// The optional parameters for querying instances.
#[derive(Debug)]
pub struct GetInstanceOption {
    pub namespace_id: Option<String>,
    /// Cluster names, separated by commas.
    pub clusters: Option<String>,
    /// Whether to list healthy instances only.
    pub healthy_only: Option<bool>,
}

/// How an optional flag is written in a request.
pub open spec fn flag_view(b: Option<bool>) -> Option<Seq<char>> {
    match b {
        Some(b) => Some(flag_text(b)),
        None => None,
    }
}

impl GetInstanceOption {
    pub fn set_namespace_id(&mut self, namespace_id: Option<String>)
        ensures
            *final(self) == (GetInstanceOption { namespace_id, ..*old(self) }),
    {
        self.namespace_id = namespace_id;
    }

    pub fn set_clusters(&mut self, clusters: Option<String>)
        ensures
            *final(self) == (GetInstanceOption { clusters, ..*old(self) }),
    {
        self.clusters = clusters;
    }

    pub fn set_healthy_only(&mut self, healthy_only: Option<bool>)
        ensures
            *final(self) == (GetInstanceOption { healthy_only, ..*old(self) }),
    {
        self.healthy_only = healthy_only;
    }

    pub fn namespace_id(&self) -> (r: &Option<String>)
        ensures
            *r == self.namespace_id,
    {
        &self.namespace_id
    }

    pub fn clusters(&self) -> (r: &Option<String>)
        ensures
            *r == self.clusters,
    {
        &self.clusters
    }

    pub fn healthy_only(&self) -> (r: Option<bool>)
        ensures
            r == self.healthy_only,
    {
        self.healthy_only
    }
}

impl Default for GetInstanceOption {
    fn default() -> (r: GetInstanceOption)
        ensures
            r.namespace_id is None,
            r.clusters is None,
            r.healthy_only is None,
    {
        GetInstanceOption { namespace_id: None, clusters: None, healthy_only: None }
    }
}

impl Dto for GetInstanceOption {
    open spec fn params(&self) -> Map<Seq<char>, Seq<char>> {
        with_param(
            with_param(
                with_param(Map::empty(), "namespaceId"@, option_view(self.namespace_id)),
                "clusters"@,
                option_view(self.clusters),
            ),
            "healthyOnly"@,
            flag_view(self.healthy_only),
        )
    }

    fn mapping(&self, map: &mut QueryParams) {
        let ghost start = map@;
        map.insert_present("namespaceId", &self.namespace_id);
        map.insert_present("clusters", &self.clusters);
        map.insert_flag("healthyOnly", self.healthy_only);
        proof {
            let empty = Map::<Seq<char>, Seq<char>>::empty();
            let m1 = with_param(empty, "namespaceId"@, option_view(self.namespace_id));
            let m2 = with_param(m1, "clusters"@, option_view(self.clusters));
            assert(start.union_prefer_right(empty) =~= start);
            lemma_union_with_param(start, empty, "namespaceId"@, option_view(self.namespace_id));
            lemma_union_with_param(start, m1, "clusters"@, option_view(self.clusters));
            lemma_union_with_param(start, m2, "healthyOnly"@, flag_view(self.healthy_only));
        }
    }
}

/// The optional parameters for deleting a service.
#[derive(Debug)]
pub struct DeleteServiceOption {
    pub group_name: Option<String>,
    pub namespace_id: Option<String>,
}

impl DeleteServiceOption {
    pub fn set_group_name(&mut self, group_name: Option<String>)
        ensures
            *final(self) == (DeleteServiceOption { group_name, ..*old(self) }),
    {
        self.group_name = group_name;
    }

    pub fn set_namespace_id(&mut self, namespace_id: Option<String>)
        ensures
            *final(self) == (DeleteServiceOption { namespace_id, ..*old(self) }),
    {
        self.namespace_id = namespace_id;
    }

    pub fn group_name(&self) -> (r: &Option<String>)
        ensures
            *r == self.group_name,
    {
        &self.group_name
    }

    pub fn namespace_id(&self) -> (r: &Option<String>)
        ensures
            *r == self.namespace_id,
    {
        &self.namespace_id
    }
}

impl Default for DeleteServiceOption {
    fn default() -> (r: DeleteServiceOption)
        ensures
            r.group_name is None,
            r.namespace_id is None,
    {
        DeleteServiceOption { group_name: None, namespace_id: None }
    }
}

/// The parameters of a group name and a namespace, when present.
pub open spec fn group_namespace_params(group_name: Option<String>, namespace_id: Option<String>) -> Map<
    Seq<char>,
    Seq<char>,
> {
    with_param(
        with_param(Map::empty(), "groupName"@, option_view(group_name)),
        "namespaceId"@,
        option_view(namespace_id),
    )
}

fn map_group_namespace(map: &mut QueryParams, group_name: &Option<String>, namespace_id: &Option<String>)
    requires
        old(map).wf(),
    ensures
        final(map).wf(),
        final(map)@ == old(map)@.union_prefer_right(group_namespace_params(*group_name, *namespace_id)),
{
    let ghost start = map@;
    map.insert_present("groupName", group_name);
    map.insert_present("namespaceId", namespace_id);
    proof {
        let empty = Map::<Seq<char>, Seq<char>>::empty();
        assert(start.union_prefer_right(empty) =~= start);
        lemma_union_with_param(start, empty, "groupName"@, option_view(*group_name));
        lemma_union_with_param(
            start,
            with_param(empty, "groupName"@, option_view(*group_name)),
            "namespaceId"@,
            option_view(*namespace_id),
        );
    }
}

impl Dto for DeleteServiceOption {
    open spec fn params(&self) -> Map<Seq<char>, Seq<char>> {
        group_namespace_params(self.group_name, self.namespace_id)
    }

    fn mapping(&self, map: &mut QueryParams) {
        map_group_namespace(map, &self.group_name, &self.namespace_id);
    }
}

/// The optional parameters for reading a service.
#[derive(Debug)]
pub struct GetServiceOption {
    pub group_name: Option<String>,
    pub namespace_id: Option<String>,
}

impl GetServiceOption {
    pub fn set_group_name(&mut self, group_name: Option<String>)
        ensures
            *final(self) == (GetServiceOption { group_name, ..*old(self) }),
    {
        self.group_name = group_name;
    }

    pub fn set_namespace_id(&mut self, namespace_id: Option<String>)
        ensures
            *final(self) == (GetServiceOption { namespace_id, ..*old(self) }),
    {
        self.namespace_id = namespace_id;
    }

    pub fn group_name(&self) -> (r: &Option<String>)
        ensures
            *r == self.group_name,
    {
        &self.group_name
    }

    pub fn namespace_id(&self) -> (r: &Option<String>)
        ensures
            *r == self.namespace_id,
    {
        &self.namespace_id
    }
}

impl Default for GetServiceOption {
    fn default() -> (r: GetServiceOption)
        ensures
            r.group_name is None,
            r.namespace_id is None,
    {
        GetServiceOption { group_name: None, namespace_id: None }
    }
}

impl Dto for GetServiceOption {
    open spec fn params(&self) -> Map<Seq<char>, Seq<char>> {
        group_namespace_params(self.group_name, self.namespace_id)
    }

    fn mapping(&self, map: &mut QueryParams) {
        map_group_namespace(map, &self.group_name, &self.namespace_id);
    }
}

/// The optional parameters for publishing a configuration: there are none yet.
#[derive(Debug)]
pub struct PostConfigsOption {}

impl Default for PostConfigsOption {
    fn default() -> (r: PostConfigsOption) {
        PostConfigsOption {  }
    }
}

impl Dto for PostConfigsOption {
    open spec fn params(&self) -> Map<Seq<char>, Seq<char>> {
        Map::empty()
    }

    fn mapping(&self, map: &mut QueryParams) {
        assert(map@.union_prefer_right(Map::empty()) =~= map@);
    }
}

} // verus!
