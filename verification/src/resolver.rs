//! The endpoint resolver: from streaming credentials to the ordered list of
//! authenticated connection URLs.

use vstd::prelude::*;
use vstd::string::*;
use crate::connector::ConnectError;
use crate::models::{ChannelsData, InstanceServer};

verus! {

/// The connection URL of one server: its endpoint, the token as the `token`
/// query parameter, and the fixed client id.
pub open spec fn endpoint_url(endpoint: Seq<char>, token: Seq<char>) -> Seq<char> {
    endpoint + "?token="@ + token + "&[connectId=_crypto-connector]"@
}

/// The connection URLs of the servers, in their order.
pub open spec fn endpoint_urls(servers: Seq<InstanceServer>, token: Seq<char>) -> Seq<Seq<char>> {
    Seq::new(servers.len(), |i: int| endpoint_url(servers[i].endpoint@, token))
}

/// The texts of a list of strings.
pub open spec fn texts(strings: Seq<String>) -> Seq<Seq<char>> {
    Seq::new(strings.len(), |i: int| strings[i]@)
}

/// Builds the connection URL of one server.
pub fn connection_url(endpoint: &str, token: &str) -> (url: String)
    ensures
        url@ == endpoint_url(endpoint@, token@),
{
    let mut url = endpoint.to_owned();
    url.append("?token=");
    url.append(token);
    url.append("&[connectId=_crypto-connector]");
    url
}

/// Resolves credentials into connection URLs, one per server and in the
/// servers' order, which is the exchange's order of preference. Credentials
/// that name no server are refused.
pub fn resolve_endpoints(credentials: &ChannelsData) -> (r: Result<Vec<String>, ConnectError>)
    ensures
        match r {
            Ok(urls) => {
                &&& credentials.instance_servers@.len() > 0
                &&& texts(urls@) == endpoint_urls(credentials.instance_servers@, credentials.token@)
                &&& urls@.len() == credentials.instance_servers@.len()
                &&& forall|i: int|
                    0 <= i < urls@.len() ==> (#[trigger] urls@[i])@ == endpoint_url(
                        credentials.instance_servers@[i].endpoint@,
                        credentials.token@,
                    )
            },
            Err(error) => credentials.instance_servers@.len() == 0 && error
                == ConnectError::NoEndpointsAvailable,
        },
{
    let servers = &credentials.instance_servers;
    if servers.len() == 0 {
        return Err(ConnectError::NoEndpointsAvailable);
    }
    let mut urls: Vec<String> = Vec::new();
    let mut i: usize = 0;
    while i < servers.len()
        invariant
            i <= servers.len(),
            urls@.len() == i,
            forall|j: int|
                0 <= j < i ==> (#[trigger] urls@[j])@ == endpoint_url(
                    servers@[j].endpoint@,
                    credentials.token@,
                ),
        decreases servers.len() - i,
    {
        urls.push(connection_url(servers[i].endpoint.as_str(), credentials.token.as_str()));
        i += 1;
    }
    assert(texts(urls@) =~= endpoint_urls(servers@, credentials.token@));
    Ok(urls)
}

} // verus!
