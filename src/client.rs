//! The clients that a hosting application holds.
use crate::api::{NacosConfigApi, NacosServiceApi};
use crate::model::{DeployConfig, NacosConfig, ServerConfig};
use vstd::prelude::*;

verus! {

/// The client of the registry for one instance: where the registry is, and
/// the instance's service operations.
pub struct NacosClient {
    pub nacos_config: NacosConfig,
    pub service_api: NacosServiceApi,
}

impl NacosClient {
    pub fn new(nacos_config: &NacosConfig, server_config: ServerConfig) -> (r: NacosClient)
        ensures
            r.nacos_config == *nacos_config,
            r.service_api.server_config == server_config,
    {
        NacosClient { nacos_config: nacos_config.clone(), service_api: NacosServiceApi::new(server_config) }
    }

    pub fn nacos_config(&self) -> (r: &NacosConfig)
        ensures
            *r == self.nacos_config,
    {
        &self.nacos_config
    }

    pub fn service_api(&self) -> (r: &NacosServiceApi)
        ensures
            *r == self.service_api,
    {
        &self.service_api
    }

    pub fn nacos_config_mut(&mut self) -> (r: &mut NacosConfig)
        ensures
            *r == old(self).nacos_config,
            *final(self) == (NacosClient { nacos_config: *final(r), ..*old(self) }),
    {
        &mut self.nacos_config
    }

    pub fn service_api_mut(&mut self) -> (r: &mut NacosServiceApi)
        ensures
            *r == old(self).service_api,
            *final(self) == (NacosClient { service_api: *final(r), ..*old(self) }),
    {
        &mut self.service_api
    }
}

impl Clone for NacosClient {
    fn clone(&self) -> (r: NacosClient)
        ensures
            r == *self,
    {
        NacosClient { nacos_config: self.nacos_config.clone(), service_api: self.service_api.clone() }
    }
}

/// The client of one stored configuration.
pub struct NacosConfigClient {
    pub config_api: NacosConfigApi,
}

impl NacosConfigClient {
    pub fn new(data_id: &str, group: &str, tenant: Option<String>) -> (r: NacosConfigClient)
        ensures
            r.config_api.deploy_config.data_id@ == data_id@,
            r.config_api.deploy_config.group@ == group@,
            r.config_api.deploy_config.tenant == tenant,
    {
        NacosConfigClient { config_api: NacosConfigApi::new(DeployConfig::new(data_id, group, tenant)) }
    }

    pub fn from(config_api: NacosConfigApi) -> (r: NacosConfigClient)
        ensures
            r.config_api == config_api,
    {
        NacosConfigClient { config_api }
    }

    pub fn config_api(&self) -> (r: &NacosConfigApi)
        ensures
            *r == self.config_api,
    {
        &self.config_api
    }
}

impl Clone for NacosConfigClient {
    fn clone(&self) -> (r: NacosConfigClient)
        ensures
            r == *self,
    {
        NacosConfigClient { config_api: self.config_api.clone() }
    }
}

} // verus!
