//! The request parameters of the registry's service and configuration
//! endpoints. Sending the requests is the caller's part.
use crate::model::{config_params, instance_params, DeployConfig, ServerConfig};
use crate::options::GetInstanceOption;
use crate::query::{catch_mapping, with_param, Dto, QueryParams};
use crate::text::{decimal, decimal_string, option_view};
use vstd::prelude::*;

verus! {

/// The parameters of a request about one service: its name, and the
/// parameters of `option`, when there is one.
pub open spec fn service_params<T: Dto>(service_name: Seq<char>, option: Option<T>) -> Map<
    Seq<char>,
    Seq<char>,
> {
    let base = Map::empty().insert("serviceName"@, service_name);
    match option {
        Some(o) => base.union_prefer_right(o.params()),
        None => base,
    }
}

/// The parameters of a request about one service.
pub fn service_query<T: Dto>(service_name: &str, option: &Option<T>) -> (r: QueryParams)
    ensures
        r.wf(),
        r@ == service_params(service_name@, *option),
{
    let mut map = QueryParams::new();
    map.insert("serviceName".to_owned(), service_name.to_owned());
    catch_mapping(&mut map, option);
    map
}

/// The parameters that fetch one instance's descriptor: service name,
/// address and port, then those of `option`.
pub open spec fn instance_detail_params(
    service_name: Seq<char>,
    ip: Seq<char>,
    port: u16,
    option: Option<GetInstanceOption>,
) -> Map<Seq<char>, Seq<char>> {
    let base = Map::empty().insert("serviceName"@, service_name).insert("ip"@, ip).insert(
        "port"@,
        decimal(port as nat),
    );
    match option {
        Some(o) => base.union_prefer_right(o.params()),
        None => base,
    }
}

/// The service operations of the registry, for one instance identity.
pub struct NacosServiceApi {
    pub server_config: ServerConfig,
}

impl NacosServiceApi {
    pub fn new(config: ServerConfig) -> (r: NacosServiceApi)
        ensures
            r.server_config == config,
    {
        NacosServiceApi { server_config: config }
    }

    pub fn config(&self) -> (r: &ServerConfig)
        ensures
            *r == self.server_config,
    {
        &self.server_config
    }

    pub fn config_mut(&mut self) -> (r: &mut ServerConfig)
        ensures
            *r == old(self).server_config,
            final(self).server_config == *final(r),
    {
        &mut self.server_config
    }

    /// The parameters of a beat: the instance's identity, and its full
    /// descriptor when the beat carries one.
    pub fn beat_query(&self, payload: &Option<String>) -> (r: QueryParams)
        ensures
            r.wf(),
            r@ == with_param(
                instance_params(
                    self.server_config.server_ip@,
                    self.server_config.server_port,
                    self.server_config.server_name@,
                    self.server_config.ephemeral,
                    option_view(self.server_config.group_name),
                ),
                "beat"@,
                option_view(*payload),
            ),
    {
        let mut map = self.server_config.init_map();
        map.insert_present("beat", payload);
        map
    }

    /// The parameters that fetch one instance's descriptor.
    pub fn instance_query(
        service_name: &str,
        service_ip: &str,
        service_port: u16,
        option: &Option<GetInstanceOption>,
    ) -> (r: QueryParams)
        ensures
            r.wf(),
            r@ == instance_detail_params(service_name@, service_ip@, service_port, *option),
    {
        let mut map = QueryParams::new();
        map.insert("serviceName".to_owned(), service_name.to_owned());
        map.insert("ip".to_owned(), service_ip.to_owned());
        map.insert("port".to_owned(), decimal_string(service_port as u64));
        catch_mapping(&mut map, option);
        map
    }
}

impl Clone for NacosServiceApi {
    fn clone(&self) -> (r: NacosServiceApi)
        ensures
            r == *self,
    {
        NacosServiceApi { server_config: self.server_config.clone() }
    }
}

/// The parameters that publish a configuration: where it is stored, its
/// content, and its type when given.
pub open spec fn upload_params(
    config: DeployConfig,
    content: Seq<char>,
    types: Option<Seq<char>>,
) -> Map<Seq<char>, Seq<char>> {
    with_param(
        config_params(config.data_id@, config.group@, option_view(config.tenant)).insert(
            "content"@,
            content,
        ),
        "type"@,
        types,
    )
}

/// The configuration operations of the registry, for one stored configuration.
pub struct NacosConfigApi {
    pub deploy_config: DeployConfig,
}

impl NacosConfigApi {
    pub fn new(config: DeployConfig) -> (r: NacosConfigApi)
        ensures
            r.deploy_config == config,
    {
        NacosConfigApi { deploy_config: config }
    }

    pub fn deploy_config(&self) -> (r: &DeployConfig)
        ensures
            *r == self.deploy_config,
    {
        &self.deploy_config
    }

    /// The parameters that publish `content` as the configuration `config`.
    pub fn upload_query(config: &DeployConfig, content: &str, types: &Option<String>) -> (r: QueryParams)
        ensures
            r.wf(),
            r@ == upload_params(*config, content@, option_view(*types)),
    {
        let mut map = config.init_map();
        map.insert("content".to_owned(), content.to_owned());
        map.insert_present("type", types);
        map
    }
}

impl Clone for NacosConfigApi {
    fn clone(&self) -> (r: NacosConfigApi)
        ensures
            r == *self,
    {
        NacosConfigApi { deploy_config: self.deploy_config.clone() }
    }
}

} // verus!
