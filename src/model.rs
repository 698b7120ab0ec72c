//! Where the registry lives, and who this process is to it.
use crate::query::QueryParams;
use crate::text::{decimal, push_decimal, decimal_string, option_view};
use vstd::prelude::*;

verus! {

/// A copy of an optional string.
pub fn clone_option(o: &Option<String>) -> (r: Option<String>)
    ensures
        r == *o,
{
    match o {
        Some(s) => Some(s.clone()),
        None => None,
    }
}

/// The path under the registry's root for `target`: `target` itself when it
/// starts with a slash, else `target` behind one.
pub open spec fn sub_path(target: Seq<char>) -> Seq<char> {
    if target.len() > 0 && target[0] == '/' {
        target
    } else {
        seq!['/'] + target
    }
}

/// Scheme, host and port of the registry and configuration service.
pub struct NacosConfig {
    pub scheme: String,
    pub nacos_ip: String,
    pub nacos_port: u32,
}

impl NacosConfig {
    pub fn new(scheme: &str, nacos_ip: &str, nacos_port: u32) -> (r: NacosConfig)
        ensures
            r.scheme@ == scheme@,
            r.nacos_ip@ == nacos_ip@,
            r.nacos_port == nacos_port,
    {
        NacosConfig { scheme: scheme.to_owned(), nacos_ip: nacos_ip.to_owned(), nacos_port }
    }

    /// Takes the place of `ex` and returns what was there before.
    pub fn exchange(&mut self, ex: NacosConfig) -> (r: NacosConfig)
        ensures
            *final(self) == ex,
            r == *old(self),
    {
        let mut prev = ex;
        std::mem::swap(self, &mut prev);
        prev
    }

    /// The full URL of `target` on the registry:
    /// `scheme://host:port/nacos/target`.
    pub fn addr(&self, target: &str) -> (r: String)
        ensures
            r@ == self.scheme@ + "://"@ + self.nacos_ip@ + ":"@ + decimal(self.nacos_port as nat)
                + "/nacos"@ + sub_path(target@),
    {
        let mut r = self.scheme.clone();
        r.append("://");
        r.append(self.nacos_ip.as_str());
        r.append(":");
        push_decimal(&mut r, self.nacos_port as u64);
        r.append("/nacos");
        let rooted = !target.is_empty() && target.get_char(0) == '/';
        if !rooted {
            proof {
                reveal_strlit("/");
            }
            r.append("/");
        }
        r.append(target);
        proof {
            if !rooted {
                assert("/"@ == seq!['/']);
            }
        }
        r
    }
}

impl Clone for NacosConfig {
    fn clone(&self) -> (r: NacosConfig)
        ensures
            r == *self,
    {
        NacosConfig {
            scheme: self.scheme.clone(),
            nacos_ip: self.nacos_ip.clone(),
            nacos_port: self.nacos_port,
        }
    }
}

impl Default for NacosConfig {
    /// A registry on this host, on its usual port.
    fn default() -> (r: NacosConfig)
        ensures
            r.scheme@ == "http"@,
            r.nacos_ip@ == "127.0.0.1"@,
            r.nacos_port == 8848,
    {
        NacosConfig { scheme: "http".to_owned(), nacos_ip: "127.0.0.1".to_owned(), nacos_port: 8848 }
    }
}


/// The parameters that name a registered instance.
pub open spec fn instance_params(
    ip: Seq<char>,
    port: u16,
    service_name: Seq<char>,
    ephemeral: bool,
    group_name: Option<Seq<char>>,
) -> Map<Seq<char>, Seq<char>> {
    let base = Map::empty().insert("ip"@, ip).insert("port"@, decimal(port as nat)).insert(
        "serviceName"@,
        service_name,
    );
    let with_ephemeral = if ephemeral {
        base.insert("ephemeral"@, "true"@)
    } else {
        base
    };
    match group_name {
        Some(g) => with_ephemeral.insert("groupName"@, g),
        None => with_ephemeral,
    }
}

/// The identity under which this process registers: address, service name,
/// whether the instance is ephemeral, and its group.
pub struct ServerConfig {
    pub server_ip: String,
    pub server_port: u16,
    pub server_name: String,
    pub ephemeral: bool,
    pub group_name: Option<String>,
}

impl ServerConfig {
    pub fn set_server_ip(&mut self, server_ip: String)
        ensures
            *final(self) == (ServerConfig { server_ip, ..*old(self) }),
    {
        self.server_ip = server_ip;
    }

    pub fn set_server_port(&mut self, server_port: u16)
        ensures
            *final(self) == (ServerConfig { server_port, ..*old(self) }),
    {
        self.server_port = server_port;
    }

    pub fn set_server_name(&mut self, server_name: String)
        ensures
            *final(self) == (ServerConfig { server_name, ..*old(self) }),
    {
        self.server_name = server_name;
    }

    pub fn set_ephemeral(&mut self, ephemeral: bool)
        ensures
            *final(self) == (ServerConfig { ephemeral, ..*old(self) }),
    {
        self.ephemeral = ephemeral;
    }

    pub fn set_group_name(&mut self, group_name: Option<String>)
        ensures
            *final(self) == (ServerConfig { group_name, ..*old(self) }),
    {
        self.group_name = group_name;
    }

    pub fn server_ip(&self) -> (r: &str)
        ensures
            r@ == self.server_ip@,
    {
        self.server_ip.as_str()
    }

    pub fn server_port(&self) -> (r: u16)
        ensures
            r == self.server_port,
    {
        self.server_port
    }

    pub fn server_name(&self) -> (r: &str)
        ensures
            r@ == self.server_name@,
    {
        self.server_name.as_str()
    }

    pub fn ephemeral(&self) -> (r: bool)
        ensures
            r == self.ephemeral,
    {
        self.ephemeral
    }

    pub fn group_name(&self) -> (r: &Option<String>)
        ensures
            *r == self.group_name,
    {
        &self.group_name
    }

    /// A non-ephemeral instance in no particular group.
    pub fn new(server_ip: &str, server_port: u16, server_name: &str) -> (r: ServerConfig)
        ensures
            r.server_ip@ == server_ip@,
            r.server_port == server_port,
            r.server_name@ == server_name@,
            !r.ephemeral,
            r.group_name is None,
    {
        ServerConfig {
            server_ip: server_ip.to_owned(),
            server_port,
            server_name: server_name.to_owned(),
            ephemeral: false,
            group_name: None,
        }
    }

    /// The parameters that name this instance in a request.
    pub fn init_map(&self) -> (r: QueryParams)
        ensures
            r.wf(),
            r@ == instance_params(
                self.server_ip@,
                self.server_port,
                self.server_name@,
                self.ephemeral,
                option_view(self.group_name),
            ),
    {
        let mut map = QueryParams::new();
        map.insert("ip".to_owned(), self.server_ip.clone());
        map.insert("port".to_owned(), decimal_string(self.server_port as u64));
        map.insert("serviceName".to_owned(), self.server_name.clone());
        if self.ephemeral {
            map.insert("ephemeral".to_owned(), "true".to_owned());
        }
        if let Some(g) = &self.group_name {
            map.insert("groupName".to_owned(), g.clone());
        }
        map
    }
}

impl Clone for ServerConfig {
    fn clone(&self) -> (r: ServerConfig)
        ensures
            r == *self,
    {
        ServerConfig {
            server_ip: self.server_ip.clone(),
            server_port: self.server_port,
            server_name: self.server_name.clone(),
            ephemeral: self.ephemeral,
            group_name: clone_option(&self.group_name),
        }
    }
}

impl Default for ServerConfig {
    /// Empty address and name, port 0, not ephemeral, no group.
    fn default() -> (r: ServerConfig)
        ensures
            r.server_ip@.len() == 0,
            r.server_port == 0,
            r.server_name@.len() == 0,
            !r.ephemeral,
            r.group_name is None,
    {
        ServerConfig {
            server_ip: String::new(),
            server_port: 0,
            server_name: String::new(),
            ephemeral: false,
            group_name: None,
        }
    }
}

/// The parameters that name a stored configuration.
pub open spec fn config_params(data_id: Seq<char>, group: Seq<char>, tenant: Option<Seq<char>>) -> Map<
    Seq<char>,
    Seq<char>,
> {
    let base = Map::empty().insert("dataId"@, data_id).insert("group"@, group);
    match tenant {
        Some(t) => base.insert("tenant"@, t),
        None => base,
    }
}

/// Where a configuration is stored: its data id, group and tenant.
pub struct DeployConfig {
    pub data_id: String,
    pub group: String,
    pub tenant: Option<String>,
}

impl DeployConfig {
    pub fn new(data_id: &str, group: &str, tenant: Option<String>) -> (r: DeployConfig)
        ensures
            r.data_id@ == data_id@,
            r.group@ == group@,
            r.tenant == tenant,
    {
        DeployConfig { data_id: data_id.to_owned(), group: group.to_owned(), tenant }
    }

    /// The parameters that name this configuration in a request.
    pub fn init_map(&self) -> (r: QueryParams)
        ensures
            r.wf(),
            r@ == config_params(self.data_id@, self.group@, option_view(self.tenant)),
    {
        let mut map = QueryParams::new();
        map.insert("dataId".to_owned(), self.data_id.clone());
        map.insert("group".to_owned(), self.group.clone());
        if let Some(tenant) = &self.tenant {
            map.insert("tenant".to_owned(), tenant.clone());
        }
        map
    }

    pub fn data_id(&self) -> (r: &str)
        ensures
            r@ == self.data_id@,
    {
        self.data_id.as_str()
    }

    pub fn group(&self) -> (r: &str)
        ensures
            r@ == self.group@,
    {
        self.group.as_str()
    }

    pub fn tenant(&self) -> (r: &Option<String>)
        ensures
            *r == self.tenant,
    {
        &self.tenant
    }
}

impl Clone for DeployConfig {
    fn clone(&self) -> (r: DeployConfig)
        ensures
            r == *self,
    {
        DeployConfig {
            data_id: self.data_id.clone(),
            group: self.group.clone(),
            tenant: clone_option(&self.tenant),
        }
    }
}

impl Default for DeployConfig {
    /// Empty data id and group, no tenant.
    fn default() -> (r: DeployConfig)
        ensures
            r.data_id@.len() == 0,
            r.group@.len() == 0,
            r.tenant is None,
    {
        DeployConfig { data_id: String::new(), group: String::new(), tenant: None }
    }
}

} // verus!
