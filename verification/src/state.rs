use vstd::prelude::*;

verus! {

/// Counters and descriptive texts that the service keeps while it runs.
pub struct AppState {
    pub app_name: String,
    pub app_desc: String,
    pub n_connections: usize,
    pub n_connections_errors: usize,
    pub n_requests_recibed: usize,
    pub n_requests_errrors: usize,
}

/// Name under which the service presents itself.
pub open spec fn spec_app_name() -> Seq<char> {
    "Practica API Rest con Actix-Web"@
}

/// Description under which the service presents itself.
pub open spec fn spec_app_desc() -> Seq<char> {
    "Ruta de pruebas: app/test/ | Ruta de la app: app/"@
}

/// The received and failed request counts after one status request, given
/// the counts before it and whether the database failed to answer.
pub open spec fn spec_state_counts(received: int, errors: int, failed: bool) -> (int, int) {
    (received + 1, if failed {
        errors + 1
    } else {
        errors
    })
}

/// The received and failed request counts of a fresh state after a run of
/// status requests, one per outcome in order, `true` where the database failed.
pub open spec fn spec_counts_after(failures: Seq<bool>) -> (int, int)
    decreases failures.len(),
{
    if failures.len() == 0 {
        (0, 0)
    } else {
        let before = spec_counts_after(failures.drop_last());
        spec_state_counts(before.0, before.1, failures.last())
    }
}

impl AppState {
    /// No more requests have failed than have been received.
    pub open spec fn counts_consistent(&self) -> bool {
        self.n_requests_errrors <= self.n_requests_recibed
    }

    /// A fresh state: the service's name and description, every counter at zero.
    pub fn new() -> (s: AppState)
        ensures
            s.app_name@ == spec_app_name(),
            s.app_desc@ == spec_app_desc(),
            s.n_connections == 0,
            s.n_connections_errors == 0,
            s.n_requests_recibed == 0,
            s.n_requests_errrors == 0,
            s.counts_consistent(),
    {
        AppState {
            app_name: "Practica API Rest con Actix-Web".to_owned(),
            app_desc: "Ruta de pruebas: app/test/ | Ruta de la app: app/".to_owned(),
            n_connections: 0,
            n_connections_errors: 0,
            n_requests_recibed: 0,
            n_requests_errrors: 0,
        }
    }
}

/// Adds one to a request counter.
pub fn update_state_number(counter: &mut usize)
    requires
        *old(counter) < usize::MAX,
    ensures
        *final(counter) == *old(counter) + 1,
{
    *counter += 1;
}

/// Counts one more received request in the state.
pub fn count_increase(data: &mut AppState)
    requires
        old(data).n_requests_recibed < usize::MAX,
    ensures
        final(data).n_requests_recibed == old(data).n_requests_recibed + 1,
        final(data).n_requests_errrors == old(data).n_requests_errrors,
        final(data).n_connections == old(data).n_connections,
        final(data).n_connections_errors == old(data).n_connections_errors,
        final(data).app_name == old(data).app_name,
        final(data).app_desc == old(data).app_desc,
        old(data).counts_consistent() ==> final(data).counts_consistent(),
{
    update_state_number(&mut data.n_requests_recibed);
}

} // verus!
