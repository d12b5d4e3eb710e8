//! Configuration read from environment variables.
//!
//! Reading a variable is done by the caller; this module decides what the
//! outcomes of reading all variables amount to and holds the values the
//! configuration falls back to.
use vstd::prelude::*;

verus! {

/// The errors among `results`, in order.
pub open spec fn env_errors<E>(results: Seq<Result<(), E>>) -> Seq<E>
    decreases results.len(),
{
    if results.len() == 0 {
        Seq::empty()
    } else {
        let rest = env_errors(results.drop_first());
        match results[0] {
            Ok(()) => rest,
            Err(e) => seq![e] + rest,
        }
    }
}

/// Gathers the outcomes of loading every declared environment variable, so
/// that all errors are reported at once: `Ok` when every variable loaded,
/// otherwise every error, in the order the variables were loaded.
pub fn load_env<E>(results: Vec<Result<(), E>>) -> (res: Result<(), Vec<E>>)
    ensures
        match res {
            Ok(()) => env_errors(results@).len() == 0,
            Err(errors) => errors@ == env_errors(results@) && errors@.len() > 0,
        },
{
    let ghost all = results@;
    let mut rest = results;
    let mut errors: Vec<E> = Vec::new();
    while rest.len() > 0
        invariant
            errors@ + env_errors(rest@) == env_errors(all),
        decreases rest.len(),
    {
        let ghost before = rest@;
        let r = rest.remove(0);
        assert(rest@ == before.drop_first());
        match r {
            Ok(()) => {},
            Err(e) => {
                errors.push(e);
                assert(errors@ + env_errors(rest@) =~= errors@.drop_last() + env_errors(before));
            },
        }
    }
    assert(errors@ + env_errors(rest@) =~= errors@);
    if errors.len() == 0 {
        Ok(())
    } else {
        Err(errors)
    }
}

/// The error an outcome carries, if it is one.
pub open spec fn error_of<E>(r: Result<(), E>) -> Option<E> {
    match r {
        Ok(()) => None,
        Err(e) => Some(e),
    }
}

/// The errors among the outcomes of two runs of variables, one after the
/// other, are those of the first run followed by those of the second.
proof fn lemma_env_errors_split<E>(a: Seq<Result<(), E>>, b: Seq<Result<(), E>>)
    ensures
        env_errors(a + b) == env_errors(a) + env_errors(b),
    decreases a.len(),
{
    if a.len() == 0 {
        assert(a + b =~= b);
        assert(env_errors(a) + env_errors(b) =~= env_errors(b));
    } else {
        lemma_env_errors_split(a.drop_first(), b);
        assert((a + b).drop_first() =~= a.drop_first() + b);
        match a[0] {
            Ok(()) => {},
            Err(e) => {
                assert(seq![e] + (env_errors(a.drop_first()) + env_errors(b)) =~= (seq![e]
                    + env_errors(a.drop_first())) + env_errors(b));
            },
        }
    }
}

/// `env_errors` picks exactly the errors, in order.
proof fn lemma_env_errors_are_the_errors<E>(results: Seq<Result<(), E>>)
    ensures
        env_errors(results) == results.filter_map(|r: Result<(), E>| error_of(r)),
        env_errors(results).len() == 0 <==> forall|i: int|
            0 <= i < results.len() ==> results[i] is Ok,
    decreases results.len(),
{
    let f = |r: Result<(), E>| error_of(r);
    if results.len() == 0 {
        assert(results.filter_map(f) =~= Seq::<E>::empty());
    } else {
        let init = results.drop_last();
        let last = results.last();
        lemma_env_errors_are_the_errors(init);
        lemma_env_errors_split(init, seq![last]);
        assert(init + seq![last] =~= results);
        assert(seq![last].drop_first() =~= Seq::<Result<(), E>>::empty());
        assert(env_errors(Seq::<Result<(), E>>::empty()) =~= Seq::<E>::empty());
        match last {
            Ok(()) => {
                assert(env_errors(seq![last]) =~= Seq::<E>::empty());
                assert(env_errors(results) =~= env_errors(init));
                assert forall|i: int| 0 <= i < results.len() && (forall|j: int|
                    0 <= j < init.len() ==> init[j] is Ok) implies results[i] is Ok by {
                    if i < init.len() {
                        assert(results[i] == init[i]);
                    }
                }
            },
            Err(e) => {
                assert(env_errors(seq![last]) =~= seq![e]);
                assert(env_errors(results).len() > 0);
                assert(!(results[results.len() - 1] is Ok));
            },
        }
        assert(env_errors(results) =~= results.filter_map(f));
    }
}

/// Every variable that failed to load is reported, and nothing else: the
/// outcome is `Ok` exactly when every variable loaded, and otherwise it
/// holds the error of each variable that failed, in the order the variables
/// were loaded, one for each failure wherever it stands.
pub proof fn law_load_env_reports_every_error<E>(
    results: Vec<Result<(), E>>,
    res: Result<(), Vec<E>>,
)
    requires
        call_ensures(load_env::<E>, (results,), res),
    ensures
        res is Ok <==> forall|i: int| 0 <= i < results@.len() ==> results@[i] is Ok,
        res matches Err(errors) ==> errors@ == results@.filter_map(|r: Result<(), E>| error_of(r)),
{
    lemma_env_errors_are_the_errors(results@);
}

/// The database user when `POSTGRES_USER` is not set.
pub fn default_postgres_user() -> (res: String)
    ensures
        res@ == seq!['p', 'o', 's', 't', 'g', 'r', 'e', 's'],
{
    let res = "postgres".to_owned();
    proof {
        reveal_strlit("postgres");
    }
    res
}

/// The database password when `POSTGRES_PASSWORD` is not set: empty.
pub fn default_postgres_password() -> (res: String)
    ensures
        res@ == Seq::<char>::empty(),
{
    String::new()
}

/// Connection settings for the postgres database.
pub struct PostgresConfig {
    /// The database name.
    pub name: String,
    /// The host the database runs on.
    pub host: String,
    /// The port the database listens on.
    pub port: u16,
    /// The user to connect as.
    pub user: String,
    /// The user's password.
    pub password: String,
}

/// The database settings: the configured name, user and password, on the
/// host `postgres`, port 5432.
pub fn database_config(name: String, user: String, password: String) -> (res: PostgresConfig)
    ensures
        res.name@ == name@,
        res.host@ == seq!['p', 'o', 's', 't', 'g', 'r', 'e', 's'],
        res.port == 5432,
        res.user@ == user@,
        res.password@ == password@,
{
    let host = "postgres".to_owned();
    proof {
        reveal_strlit("postgres");
    }
    PostgresConfig { name, host, port: 5432, user, password }
}

} // verus!
