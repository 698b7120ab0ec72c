//! Choice of an instance to call among those the registry reports.
use crate::error::{ErrorKind, NacosError};
use crate::text::{signed_decimal, push_signed_decimal};
use vstd::prelude::*;

verus! {

/// An instance as the registry reports it, reduced to what the choice reads.
#[derive(Debug)]
pub struct HealthHost {
    pub ip: String,
    pub port: i32,
    pub healthy: bool,
}

impl Clone for HealthHost {
    fn clone(&self) -> (r: HealthHost)
        ensures
            r == *self,
    {
        HealthHost { ip: self.ip.clone(), port: self.port, healthy: self.healthy }
    }
}

/// The hosts of `hosts` that are healthy, in their order.
pub open spec fn healthy_of(hosts: Seq<HealthHost>) -> Seq<HealthHost> {
    hosts.filter(|h: HealthHost| h.healthy)
}

/// The hosts that a query result offers: its healthy hosts; none when the
/// result holds no list.
pub open spec fn candidates(hosts: Option<Vec<HealthHost>>) -> Seq<HealthHost> {
    match hosts {
        Some(v) => healthy_of(v@),
        None => Seq::empty(),
    }
}

/// The base address of a host: `http://ip:port`.
pub open spec fn address(host: HealthHost) -> Seq<char> {
    "http://"@ + host.ip@ + ":"@ + signed_decimal(host.port as int)
}

/// Relies on `rand::Rng::gen_range` of the thread's generator: a value in
/// `0..n`, which it documents to panic on an empty range.
#[verifier::external_body]
fn random_below(n: usize) -> (r: usize)
    requires
        n > 0,
    ensures
        r < n,
{
    rand::Rng::gen_range(&mut rand::thread_rng(), 0..n)
}

/// The base address of `host`.
pub fn address_of(host: &HealthHost) -> (r: String)
    ensures
        r@ == address(*host),
{
    let mut r = "http://".to_owned();
    r.append(host.ip.as_str());
    r.append(":");
    push_signed_decimal(&mut r, host.port as i64);
    r
}

/// Copies of the healthy hosts of `hosts`, in their order.
pub fn healthy_hosts(hosts: &Vec<HealthHost>) -> (r: Vec<HealthHost>)
    ensures
        r@ == healthy_of(hosts@),
{
    let mut r: Vec<HealthHost> = Vec::new();
    let mut i: usize = 0;
    while i < hosts.len()
        invariant
            i <= hosts@.len(),
            r@ == healthy_of(hosts@.subrange(0, i as int)),
        decreases hosts@.len() - i,
    {
        let ghost before = hosts@.subrange(0, i as int);
        if hosts[i].healthy {
            r.push(hosts[i].clone());
        }
        proof {
            reveal(Seq::filter);
            let next = hosts@.subrange(0, i as int + 1);
            assert(next.drop_last() =~= before);
            assert(next.last() == hosts@[i as int]);
        }
        i += 1;
    }
    proof {
        assert(hosts@.subrange(0, hosts@.len() as int) =~= hosts@);
    }
    r
}

/// The candidate at position `draw`, counted round the list; the
/// no-healthy-instance error when there is none.
pub fn select_at(candidates: &Vec<HealthHost>, draw: usize) -> (r: Result<&HealthHost, NacosError>)
    ensures
        candidates@.len() == 0 ==> (r matches Err(e) && e.kind == ErrorKind::NoHealthyInstance),
        candidates@.len() > 0 ==> (r matches Ok(h) && *h == candidates@[draw as int
            % candidates@.len() as int]),
{
    if candidates.len() == 0 {
        Err(NacosError::no_healthy_instance())
    } else {
        Ok(&candidates[draw % candidates.len()])
    }
}

/// One of `candidates`, chosen uniformly at random; the no-healthy-instance
/// error when there is none.
pub fn select(candidates: &Vec<HealthHost>) -> (r: Result<&HealthHost, NacosError>)
    ensures
        candidates@.len() == 0 ==> (r matches Err(e) && e.kind == ErrorKind::NoHealthyInstance),
        candidates@.len() > 0 ==> (r matches Ok(h) && candidates@.contains(*h)),
{
    if candidates.len() == 0 {
        return Err(NacosError::no_healthy_instance());
    }
    let draw = random_below(candidates.len());
    let r = select_at(candidates, draw);
    proof {
        let i = draw as int % candidates@.len() as int;
        assert(0 <= i < candidates@.len());
    }
    r
}

/// The address of the healthy host at position `draw` of a query result,
/// counted round its healthy hosts; the no-healthy-instance error when it
/// has none, or holds no list.
pub fn resolve_address_at(hosts: &Option<Vec<HealthHost>>, draw: usize) -> (r: Result<String, NacosError>)
    ensures
        candidates(*hosts).len() == 0 ==> (r matches Err(e) && e.kind == ErrorKind::NoHealthyInstance),
        candidates(*hosts).len() > 0 ==> (r matches Ok(a) && a@ == address(
            candidates(*hosts)[draw as int % candidates(*hosts).len() as int],
        )),
{
    match hosts {
        None => Err(NacosError::no_healthy_instance()),
        Some(list) => {
            let healthy = healthy_hosts(list);
            match select_at(&healthy, draw) {
                Ok(host) => Ok(address_of(host)),
                Err(e) => Err(e),
            }
        },
    }
}

/// The address of a healthy host of a query result, chosen uniformly at
/// random; the no-healthy-instance error when it has none, or holds no list.
pub fn resolve_address(hosts: &Option<Vec<HealthHost>>) -> (r: Result<String, NacosError>)
    ensures
        candidates(*hosts).len() == 0 ==> (r matches Err(e) && e.kind == ErrorKind::NoHealthyInstance),
        candidates(*hosts).len() > 0 ==> (r matches Ok(a) && exists|i: int|
            0 <= i < candidates(*hosts).len() && a@ == #[trigger] address(candidates(*hosts)[i])),
{
    match hosts {
        None => Err(NacosError::no_healthy_instance()),
        Some(list) => {
            let healthy = healthy_hosts(list);
            match select(&healthy) {
                Ok(host) => {
                    let a = address_of(host);
                    proof {
                        let i = choose|i: int| 0 <= i < healthy@.len() && healthy@[i] == *host;
                        assert(a@ == address(candidates(*hosts)[i]));
                    }
                    Ok(a)
                },
                Err(e) => Err(e),
            }
        },
    }
}

} // verus!
