use vstd::prelude::*;
use vstd::string::StringExecFns;
use crate::text::same_text;

verus! {

/// The back-end services that requests are routed to.
#[derive(Clone, Copy, Debug, PartialEq, Eq, Structural)]
pub enum Service {
    Users,
    Stores,
}

/// The name under which a service is known.
pub open spec fn service_name(service: Service) -> Seq<char> {
    match service {
        Service::Users => "users"@,
        Service::Stores => "stores"@,
    }
}

/// A service name that no service has.
#[derive(Clone, Debug)]
pub struct UnknownService {
    pub name: String,
}

/// The details reported for an unknown service name.
pub open spec fn unknown_service_details(name: Seq<char>) -> Seq<char> {
    "Can not resolve service name. Unknown service: '"@ + name + "'"@
}

/// The error code reported for an unknown service name.
pub const UNKNOWN_SERVICE_CODE: i32 = 300;

impl UnknownService {
    /// The short message of the error.
    pub fn message(&self) -> (r: String)
        ensures
            r@ == "Unknown service"@,
    {
        "Unknown service".to_owned()
    }

    /// The error code of the error.
    pub fn code(&self) -> (r: i32)
        ensures
            r == UNKNOWN_SERVICE_CODE,
    {
        UNKNOWN_SERVICE_CODE
    }

    /// The details of the error, naming the service that was asked for.
    pub fn details(&self) -> (r: String)
        ensures
            r@ == unknown_service_details(self.name@),
    {
        let mut s = "Can not resolve service name. Unknown service: '".to_owned();
        s.append(self.name.as_str());
        s.append("'");
        s
    }
}

impl Service {
    /// The name of the service.
    pub fn to_string(&self) -> (r: String)
        ensures
            r@ == service_name(*self),
    {
        match self {
            Service::Users => "users".to_owned(),
            Service::Stores => "stores".to_owned(),
        }
    }

    /// The service with the given name; an error naming `s` when there is none.
    pub fn from_name(s: &str) -> (r: Result<Service, UnknownService>)
        ensures
            match r {
                Ok(service) => service_name(service) == s@,
                Err(e) => e.name@ == s@ && forall|service: Service| service_name(service) != s@,
            },
    {
        if same_text(s, "users") {
            Ok(Service::Users)
        } else if same_text(s, "stores") {
            Ok(Service::Stores)
        } else {
            Err(UnknownService { name: s.to_owned() })
        }
    }
}

/// Different services have different names, so that reading back the name of a
/// service gives that service.
pub proof fn lemma_service_names_distinct(a: Service, b: Service)
    ensures
        service_name(a) == service_name(b) ==> a == b,
{
    reveal_strlit("users");
    reveal_strlit("stores");
    assert(service_name(Service::Users).len() != service_name(Service::Stores).len());
}

impl std::str::FromStr for Service {
    type Err = UnknownService;

    fn from_str(s: &str) -> (r: Result<Service, UnknownService>)
        ensures
            match r {
                Ok(service) => service_name(service) == s@,
                Err(e) => e.name@ == s@ && forall|service: Service| service_name(service) != s@,
            },
    {
        Service::from_name(s)
    }
}

} // verus!
