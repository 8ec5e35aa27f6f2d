use vstd::prelude::*;
use crate::state::{count_increase, AppState};

verus! {

/// What the health route reports about the running service.
pub struct HealthInfo {
    pub app_name: String,
    pub connections_number: usize,
    pub total_request_recibed: usize,
    pub is_alive: bool,
}

/// Counts the health request and reports the service's name, its
/// connections, the requests received so far (this one included) and
/// whether it is alive.
pub fn healthchecker(data: &mut AppState, is_alive: bool) -> (info: HealthInfo)
    requires
        old(data).n_requests_recibed < usize::MAX,
    ensures
        final(data).n_requests_recibed == old(data).n_requests_recibed + 1,
        final(data).n_requests_errrors == old(data).n_requests_errrors,
        final(data).n_connections == old(data).n_connections,
        final(data).n_connections_errors == old(data).n_connections_errors,
        final(data).app_name == old(data).app_name,
        final(data).app_desc == old(data).app_desc,
        old(data).counts_consistent() ==> final(data).counts_consistent(),
        info.app_name@ == old(data).app_name@,
        info.connections_number == old(data).n_connections,
        info.total_request_recibed == final(data).n_requests_recibed,
        info.is_alive == is_alive,
{
    count_increase(data);
    HealthInfo {
        app_name: data.app_name.clone(),
        connections_number: data.n_connections,
        total_request_recibed: data.n_requests_recibed,
        is_alive,
    }
}

} // verus!
