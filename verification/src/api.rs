//! The resources of the service, and the table of their routes.

use vstd::prelude::*;
use crate::api::data::data_cfg;
use crate::api::gps::gps_cfg;
use crate::api::led_test::led_test_cfg;
use crate::api::paths::paths_cfg;
use crate::api::trips::trips_cfg;

pub mod data;
pub mod gps;
pub mod paths;
pub mod trips;

verus! {

/// The method of a request.
#[derive(Clone, Copy, Debug, PartialEq, Eq, Structural)]
pub enum Method {
    Get,
    Post,
}

/// An operation of the service.
#[derive(Clone, Copy, Debug, PartialEq, Eq, Structural)]
pub enum Operation {
    GetData,
    PostData,
    GetGps,
    AddGps,
    GetColour,
    SetColour,
    GetPaths,
    RegisterPath,
    GetPath,
    GetTrips,
    StartTrip,
}

/// One route: the operation that answers the requests of one method whose
/// path is the route's scope followed by what matches its pattern.
#[derive(Debug, PartialEq)]
pub struct Route {
    pub method: Method,
    pub scope: String,
    pub pattern: String,
    pub operation: Operation,
}

/// What a route holds.
pub struct RouteView {
    pub method: Method,
    pub scope: Seq<char>,
    pub pattern: Seq<char>,
    pub operation: Operation,
}

impl View for Route {
    type V = RouteView;

    open spec fn view(&self) -> RouteView {
        RouteView {
            method: self.method,
            scope: self.scope@,
            pattern: self.pattern@,
            operation: self.operation,
        }
    }
}

/// The table of routes, as it is being filled: the routes entered so far,
/// in the order in which they were entered, and the prefix under which the
/// next ones are entered.
#[derive(Debug, PartialEq)]
pub struct ServiceConfig {
    pub prefix: String,
    pub routes: Vec<Route>,
}

impl ServiceConfig {
    /// What the routes entered so far hold.
    pub open spec fn table(&self) -> Seq<RouteView> {
        Seq::new(self.routes@.len(), |i: int| self.routes@[i]@)
    }

    /// An empty table, with an empty prefix.
    pub fn new() -> (cfg: ServiceConfig)
        ensures
            cfg.prefix@ == Seq::<char>::empty(),
            cfg.table() == Seq::<RouteView>::empty(),
    {
        let cfg = ServiceConfig { prefix: String::new(), routes: Vec::new() };
        proof {
            assert(cfg.table() =~= Seq::<RouteView>::empty());
        }
        cfg
    }

    /// Enters one route under the scope `scope` below the prefix.
    pub fn route(&mut self, scope: &str, method: Method, pattern: &str, operation: Operation)
        ensures
            final(self).prefix@ == old(self).prefix@,
            final(self).table() == old(self).table().push(
                RouteView { method, scope: old(self).prefix@ + scope@, pattern: pattern@, operation },
            ),
    {
        let full = self.prefix.clone().concat(scope);
        self.routes.push(Route { method, scope: full, pattern: String::from_str(pattern), operation });
        proof {
            assert(self.table() =~= old(self).table().push(
                RouteView {
                    method,
                    scope: old(self).prefix@ + scope@,
                    pattern: pattern@,
                    operation,
                },
            ));
        }
    }
}

/// The routes of the whole API below a prefix: those of the five resources,
/// under `/api`.
pub open spec fn api_routes(prefix: Seq<char>) -> Seq<RouteView> {
    let api = prefix + "/api"@;
    data::data_routes(api) + trips::trips_routes(api) + gps::gps_routes(api)
        + led_test::led_test_routes(api) + paths::paths_routes(api)
}

/// Configuration function for the API resources.
pub fn api_cfg(cfg: &mut ServiceConfig)
    ensures
        final(cfg).prefix@ == old(cfg).prefix@,
        final(cfg).table() == old(cfg).table() + api_routes(old(cfg).prefix@),
{
    let outer = cfg.prefix.clone();
    cfg.prefix = outer.clone().concat("/api");
    data_cfg(cfg);
    trips_cfg(cfg);
    gps_cfg(cfg);
    led_test_cfg(cfg);
    paths_cfg(cfg);
    cfg.prefix = outer;
    proof {
        assert(cfg.table() =~= old(cfg).table() + api_routes(old(cfg).prefix@));
    }
}

} // verus!
