use vstd::prelude::*;
use crate::errors::VarName;
use crate::errors::spec_var_key;
use crate::errors::var_key;

verus! {

/// The three values a database session is opened with. All three must be
/// resolved before any connection is attempted.
pub struct Credentials {
    pub user: String,
    pub password: String,
    pub address: String,
}

/// The view of resolved credentials: the three texts.
pub open spec fn spec_creds_view(c: &Credentials) -> (Seq<char>, Seq<char>, Seq<char>) {
    (c.user@, c.password@, c.address@)
}

/// The value of the first assignment of a key, or nothing where no
/// assignment names it. The first assignment wins: a later assignment of
/// a key already set does not replace the earlier one.
pub open spec fn spec_lookup(entries: Seq<(Seq<char>, Seq<char>)>, key: Seq<char>) -> Option<
    Seq<char>,
>
    decreases entries.len(),
{
    if entries.len() == 0 {
        None
    } else if entries[0].0 == key {
        Some(entries[0].1)
    } else {
        spec_lookup(entries.drop_first(), key)
    }
}

/// Looks a key up among the assignments; the first assignment wins.
pub fn lookup(entries: &Vec<(String, String)>, key: &String) -> (r: Option<String>)
    ensures
        match r {
            Some(v) => spec_lookup(
                entries@.map_values(|e: (String, String)| (e.0@, e.1@)),
                key@,
            ) == Some(v@),
            None => spec_lookup(
                entries@.map_values(|e: (String, String)| (e.0@, e.1@)),
                key@,
            ) is None,
        },
{
    let ghost ev = entries@.map_values(|e: (String, String)| (e.0@, e.1@));
    proof {
        assert(ev.skip(0) =~~= ev);
    }
    let mut j: usize = 0;
    while j < entries.len()
        invariant
            ev == entries@.map_values(|e: (String, String)| (e.0@, e.1@)),
            0 <= j <= entries.len(),
            spec_lookup(ev, key@) == spec_lookup(ev.skip(j as int), key@),
        decreases entries.len() - j,
    {
        proof {
            assert(ev.skip(j as int)[0] == ev[j as int]);
            assert(ev.skip(j as int).drop_first() =~~= ev.skip(j + 1 as int));
        }
        if entries[j].0 == *key {
            return Some(entries[j].1.clone());
        }
        j += 1;
    }
    proof {
        assert(ev.skip(entries@.len() as int) =~~= Seq::<(Seq<char>, Seq<char>)>::empty());
    }
    None
}

/// Which credentials three optional values yield: all three present, or
/// else the first absent variable, checked in the order username,
/// password, address.
pub open spec fn spec_resolve3(
    u: Option<Seq<char>>,
    p: Option<Seq<char>>,
    a: Option<Seq<char>>,
) -> Result<(Seq<char>, Seq<char>, Seq<char>), VarName> {
    match u {
        None => Err(VarName::User),
        Some(uv) => match p {
            None => Err(VarName::Password),
            Some(pv) => match a {
                None => Err(VarName::Address),
                Some(av) => Ok((uv, pv, av)),
            },
        },
    }
}

/// The view of an optional text.
pub open spec fn spec_opt_view(o: Option<String>) -> Option<Seq<char>> {
    match o {
        None => None,
        Some(s) => Some(s@),
    }
}

/// Resolves the credentials from three values read from the ambient
/// process environment. Succeeds exactly when all three variables were
/// set; otherwise names the first absent one.
pub fn resolve_from_values(
    user: Option<String>,
    password: Option<String>,
    address: Option<String>,
) -> (r: Result<Credentials, VarName>)
    ensures
        match r {
            Ok(c) => spec_resolve3(
                spec_opt_view(user),
                spec_opt_view(password),
                spec_opt_view(address),
            ) == Ok::<_, VarName>(spec_creds_view(&c)),
            Err(n) => spec_resolve3(
                spec_opt_view(user),
                spec_opt_view(password),
                spec_opt_view(address),
            ) == Err::<(Seq<char>, Seq<char>, Seq<char>), _>(n),
        },
{
    match user {
        None => Err(VarName::User),
        Some(u) => match password {
            None => Err(VarName::Password),
            Some(p) => match address {
                None => Err(VarName::Address),
                Some(a) => Ok(Credentials { user: u, password: p, address: a }),
            },
        },
    }
}

/// What resolving the credentials from the assignments of an env-file
/// yields: each variable looked up among the assignments alone.
pub open spec fn spec_resolve_entries(entries: Seq<(Seq<char>, Seq<char>)>) -> Result<
    (Seq<char>, Seq<char>, Seq<char>),
    VarName,
> {
    spec_resolve3(
        spec_lookup(entries, spec_var_key(VarName::User)),
        spec_lookup(entries, spec_var_key(VarName::Password)),
        spec_lookup(entries, spec_var_key(VarName::Address)),
    )
}

/// Resolves the credentials from the assignments of an env-file.
/// Succeeds exactly when the file assigns all three variables; otherwise
/// names the first absent one.
pub fn resolve_from_entries(entries: &Vec<(String, String)>) -> (r: Result<Credentials, VarName>)
    ensures
        match r {
            Ok(c) => spec_resolve_entries(
                entries@.map_values(|e: (String, String)| (e.0@, e.1@)),
            ) == Ok::<_, VarName>(spec_creds_view(&c)),
            Err(n) => spec_resolve_entries(
                entries@.map_values(|e: (String, String)| (e.0@, e.1@)),
            ) == Err::<(Seq<char>, Seq<char>, Seq<char>), _>(n),
        },
{
    let ku = var_key(VarName::User);
    let kp = var_key(VarName::Password);
    let ka = var_key(VarName::Address);
    let u = lookup(entries, &ku);
    let p = lookup(entries, &kp);
    let a = lookup(entries, &ka);
    resolve_from_values(u, p, a)
}

/// A process environment, each set variable mapped to its value.
pub open spec fn spec_clear_credentials(env: Map<Seq<char>, Seq<char>>) -> Map<
    Seq<char>,
    Seq<char>,
> {
    env.remove(spec_var_key(VarName::User)).remove(spec_var_key(VarName::Password)).remove(
        spec_var_key(VarName::Address),
    )
}

/// An environment after the assignments of an env-file are loaded into
/// it, in file order, each one setting its variable only where the
/// variable is not set yet.
pub open spec fn spec_load_entries(
    env: Map<Seq<char>, Seq<char>>,
    entries: Seq<(Seq<char>, Seq<char>)>,
) -> Map<Seq<char>, Seq<char>>
    decreases entries.len(),
{
    if entries.len() == 0 {
        env
    } else {
        let e = entries[0];
        let env1 = if env.dom().contains(e.0) {
            env
        } else {
            env.insert(e.0, e.1)
        };
        spec_load_entries(env1, entries.drop_first())
    }
}

/// A variable that the environment already holds keeps its value through
/// a load.
proof fn lemma_load_keeps_existing(
    env: Map<Seq<char>, Seq<char>>,
    entries: Seq<(Seq<char>, Seq<char>)>,
    key: Seq<char>,
)
    requires
        env.dom().contains(key),
    ensures
        spec_load_entries(env, entries).dom().contains(key),
        spec_load_entries(env, entries)[key] == env[key],
    decreases entries.len(),
{
    if entries.len() > 0 {
        let e = entries[0];
        let env1 = if env.dom().contains(e.0) {
            env
        } else {
            env.insert(e.0, e.1)
        };
        lemma_load_keeps_existing(env1, entries.drop_first(), key);
    }
}

/// A variable that the environment does not hold ends, after a load,
/// with the value of the file's first assignment of it — or stays unset
/// where the file never assigns it.
proof fn lemma_load_fresh_is_lookup(
    env: Map<Seq<char>, Seq<char>>,
    entries: Seq<(Seq<char>, Seq<char>)>,
    key: Seq<char>,
)
    requires
        !env.dom().contains(key),
    ensures
        spec_load_entries(env, entries).dom().contains(key) <==> spec_lookup(
            entries,
            key,
        ) is Some,
        spec_load_entries(env, entries).dom().contains(key) ==> spec_load_entries(env, entries)[key]
            == spec_lookup(entries, key)->Some_0,
    decreases entries.len(),
{
    if entries.len() > 0 {
        let e = entries[0];
        if e.0 == key {
            lemma_load_keeps_existing(env.insert(key, e.1), entries.drop_first(), key);
        } else {
            let env1 = if env.dom().contains(e.0) {
                env
            } else {
                env.insert(e.0, e.1)
            };
            lemma_load_fresh_is_lookup(env1, entries.drop_first(), key);
        }
    }
}

/// Once an env-file is given, stale ambient credentials never leak
/// through: the three credential variables are cleared before the file
/// is loaded, so each one afterwards holds exactly what the file's first
/// assignment of it says — whatever the ambient environment held. Every
/// other variable keeps its ambient value.
pub proof fn lemma_env_file_overrides_ambient(
    ambient: Map<Seq<char>, Seq<char>>,
    entries: Seq<(Seq<char>, Seq<char>)>,
    name: VarName,
)
    ensures
        spec_load_entries(spec_clear_credentials(ambient), entries).dom().contains(
            spec_var_key(name),
        ) <==> spec_lookup(entries, spec_var_key(name)) is Some,
        spec_lookup(entries, spec_var_key(name)) is Some ==> spec_load_entries(
            spec_clear_credentials(ambient),
            entries,
        )[spec_var_key(name)] == spec_lookup(entries, spec_var_key(name))->Some_0,
{
    reveal_strlit("ORACLE_USER");
    reveal_strlit("ORACLE_PASSWORD");
    reveal_strlit("ORACLE_ADRES");
    let cleared = spec_clear_credentials(ambient);
    assert(!cleared.dom().contains(spec_var_key(name)));
    lemma_load_fresh_is_lookup(cleared, entries, spec_var_key(name));
}

} // verus!
