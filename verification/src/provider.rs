//! The services that are told of a new address, and the request each one gets.

use crate::error::{Error, ErrorView};
use crate::reply::{Reply, ReplyView};
use crate::view::result_view;
use vstd::prelude::*;

verus! {

/// What every request of this program sends as its user agent.
pub const APP_USER_AGENT: &'static str = "ddns_notify/0.1.0";

/// The credentials of one DNS record at Google Domains.
#[derive(Debug, PartialEq, Eq)]
pub struct GoogleConfig {
    pub username: String,
    pub password: String,
    pub hostname: String,
}

/// A [`GoogleConfig`] with its texts as sequences of characters.
pub struct GoogleConfigView {
    pub username: Seq<char>,
    pub password: Seq<char>,
    pub hostname: Seq<char>,
}

impl View for GoogleConfig {
    type V = GoogleConfigView;

    open spec fn view(&self) -> GoogleConfigView {
        GoogleConfigView {
            username: self.username@,
            password: self.password@,
            hostname: self.hostname@,
        }
    }
}

impl GoogleConfigView {
    /// The update URL for `ip`: credentials in the authority, record and address in the query.
    pub open spec fn endpoint(self, ip: Seq<char>) -> Seq<char> {
        "https://"@ + self.username + ":"@ + self.password
            + "@domains.google.com/nic/update?hostname="@ + self.hostname + "&myip="@ + ip
    }
}

impl GoogleConfig {
    /// The update URL that sets this record to `ip`.
    pub fn endpoint(&self, ip: &str) -> (url: String)
        ensures
            url@ == self@.endpoint(ip@),
    {
        let mut url = String::from_str("https://");
        url.append(self.username.as_str());
        url.append(":");
        url.append(self.password.as_str());
        url.append("@domains.google.com/nic/update?hostname=");
        url.append(self.hostname.as_str());
        url.append("&myip=");
        url.append(ip);
        url
    }
}

impl Clone for GoogleConfig {
    fn clone(&self) -> (copy: Self)
        ensures
            copy@ == self@,
    {
        GoogleConfig {
            username: self.username.clone(),
            password: self.password.clone(),
            hostname: self.hostname.clone(),
        }
    }
}

/// A service to notify, with what it needs to be reached.
#[derive(Debug, PartialEq, Eq)]
pub enum Service {
    GoogleDomainsDNS(GoogleConfig),
}

/// A [`Service`] with its texts as sequences of characters.
pub enum ServiceView {
    GoogleDomainsDNS(GoogleConfigView),
}

impl View for Service {
    type V = ServiceView;

    open spec fn view(&self) -> ServiceView {
        match self {
            Service::GoogleDomainsDNS(config) => ServiceView::GoogleDomainsDNS(config@),
        }
    }
}

impl ServiceView {
    /// The URL that tells this service of `ip`.
    pub open spec fn endpoint(self, ip: Seq<char>) -> Seq<char> {
        match self {
            ServiceView::GoogleDomainsDNS(config) => config.endpoint(ip),
        }
    }
}

impl Clone for Service {
    fn clone(&self) -> (copy: Self)
        ensures
            copy@ == self@,
    {
        match self {
            Service::GoogleDomainsDNS(config) => Service::GoogleDomainsDNS(config.clone()),
        }
    }
}

/// One HTTPS GET that tells a service of the new address.
#[derive(Debug, PartialEq, Eq)]
pub struct UpdateRequest {
    pub url: String,
    pub user_agent: String,
}

/// An [`UpdateRequest`] with its texts as sequences of characters.
pub struct UpdateRequestView {
    pub url: Seq<char>,
    pub user_agent: Seq<char>,
}

impl View for UpdateRequest {
    type V = UpdateRequestView;

    open spec fn view(&self) -> UpdateRequestView {
        UpdateRequestView { url: self.url@, user_agent: self.user_agent@ }
    }
}

impl Clone for UpdateRequest {
    fn clone(&self) -> (copy: Self)
        ensures
            copy@ == self@,
    {
        UpdateRequest { url: self.url.clone(), user_agent: self.user_agent.clone() }
    }
}

/// Whether `reqwest::Url::parse` accepts `text` as an absolute URL.
pub uninterp spec fn url_parses(text: Seq<char>) -> bool;

/// Calls `reqwest::Url::parse` on `text` and says whether it returned a URL.
/// What the parser accepts is not stated here: the result is only given its name.
#[verifier::external_body]
fn parses_as_url(text: &str) -> (accepted: bool)
    ensures
        accepted == url_parses(text@),
{
    match reqwest::Url::parse(text) {
        Ok(_) => true,
        Err(_) => false,
    }
}

/// What is said of an endpoint that is no URL.
pub open spec fn malformed_endpoint() -> ErrorView {
    ErrorView::ConfigError("endpoint is not a valid URL"@)
}

/// The request for `endpoint`, given whether it parses as a URL.
pub open spec fn request_for_spec(endpoint: Seq<char>, parses: bool) -> Result<
    UpdateRequestView,
    ErrorView,
> {
    if parses {
        Ok(UpdateRequestView { url: endpoint, user_agent: APP_USER_AGENT@ })
    } else {
        Err(malformed_endpoint())
    }
}

/// What `tell_service` returns for `service` and `ip`.
pub open spec fn tell_service_spec(ip: Seq<char>, service: ServiceView) -> Result<
    UpdateRequestView,
    ErrorView,
> {
    request_for_spec(service.endpoint(ip), url_parses(service.endpoint(ip)))
}

/// The GET for `endpoint` under the application's user agent, or a
/// configuration error where `parses` says that the endpoint is no URL.
pub fn request_for(endpoint: String, parses: bool) -> (planned: Result<UpdateRequest, Error>)
    ensures
        result_view(planned) == request_for_spec(endpoint@, parses),
{
    if parses {
        Ok(UpdateRequest { url: endpoint, user_agent: String::from_str(APP_USER_AGENT) })
    } else {
        Err(Error::ConfigError(String::from_str("endpoint is not a valid URL")))
    }
}

/// The request that tells `service` that the address is now `ip`. It is
/// refused with a configuration error where the service's endpoint is no URL.
pub fn tell_service(ip: &str, service: &Service) -> (planned: Result<UpdateRequest, Error>)
    ensures
        result_view(planned) == tell_service_spec(ip@, service@),
{
    let endpoint = match service {
        Service::GoogleDomainsDNS(config) => config.endpoint(ip),
    };
    let parses = parses_as_url(endpoint.as_str());
    request_for(endpoint, parses)
}

/// What a service answered: the body as it came. A call that failed is a network error.
pub open spec fn provider_response_spec(reply: ReplyView) -> Result<Seq<char>, ErrorView> {
    match reply {
        Ok(body) => Ok(body),
        Err(message) => Err(ErrorView::NetworkError(message)),
    }
}

/// The answer of a service to an update request, from the `reply` to its GET.
pub fn provider_response(reply: Reply) -> (response: Result<String, Error>)
    ensures
        result_view(response) == provider_response_spec(result_view(reply)),
{
    match reply {
        Ok(body) => Ok(body),
        Err(message) => Err(Error::NetworkError(message)),
    }
}

} // verus!
