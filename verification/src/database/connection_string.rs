//! The connection URLs that the PostgreSQL, MySQL and SQLite backends are
//! opened with.

use crate::database::{pairs_view, DatabaseConfig, DatabaseResult};
use crate::text::{chars_of, concat2, decimal, owned, str_eq, u64_to_string};
use vstd::prelude::*;

verus! {

/// `key=value`.
pub open spec fn param_text(p: (Seq<char>, Seq<char>)) -> Seq<char> {
    p.0 + "="@ + p.1
}

/// Parameters appended in order, the first after `?` and the others after `&`.
pub open spec fn query_suffix(ps: Seq<(Seq<char>, Seq<char>)>) -> Seq<char>
    decreases ps.len(),
{
    if ps.len() == 0 {
        Seq::empty()
    } else {
        query_suffix(ps.drop_last()) + (if ps.len() == 1 { "?"@ } else { "&"@ }) + param_text(ps.last())
    }
}

/// Parameters appended in order to `acc`, each after `&` when the text built
/// so far already holds a `?`, and after `?` otherwise.
pub open spec fn append_params_checking(acc: Seq<char>, ps: Seq<(Seq<char>, Seq<char>)>) -> Seq<char>
    decreases ps.len(),
{
    if ps.len() == 0 {
        acc
    } else {
        let prev = append_params_checking(acc, ps.drop_last());
        prev + (if prev.contains('?') { "&"@ } else { "?"@ }) + param_text(ps.last())
    }
}

/// `user[:password]@`, or nothing without a user name.
pub open spec fn userinfo(c: DatabaseConfig) -> Seq<char> {
    match c.username {
        Some(u) => u@ + (match c.password {
            Some(p) => ":"@ + p@,
            None => Seq::empty(),
        }) + "@"@,
        None => Seq::empty(),
    }
}

/// `host:port/database`, with the given defaults for host and port.
pub open spec fn host_port_db(c: DatabaseConfig, default_port: u16) -> Seq<char> {
    let host = match c.host {
        Some(h) => h@,
        None => "localhost"@,
    };
    let port = match c.port {
        Some(p) => p,
        None => default_port,
    };
    host + ":"@ + decimal(port as nat) + "/"@ + c.database@
}

/// The PostgreSQL URL for a configuration.
pub open spec fn postgres_url(c: DatabaseConfig) -> Seq<char> {
    let base = "postgres://"@ + userinfo(c) + host_port_db(c, 5432) + match c.ssl_mode {
        Some(m) => "?sslmode="@ + m@,
        None => Seq::empty(),
    };
    append_params_checking(base, pairs_view(c.extra_params@))
}

/// The MySQL URL for a configuration.
pub open spec fn mysql_url(c: DatabaseConfig) -> Seq<char> {
    "mysql://"@ + userinfo(c) + host_port_db(c, 3306) + query_suffix(pairs_view(c.extra_params@))
}

/// The SQLite URL for a configuration.
pub open spec fn sqlite_url(c: DatabaseConfig) -> Seq<char> {
    (if c.database@ == ":memory:"@ {
        "sqlite::memory:"@
    } else {
        "sqlite:"@ + c.database@
    }) + query_suffix(pairs_view(c.extra_params@))
}

/// Whether a text holds the character `c`.
pub fn contains_char(s: &str, c: char) -> (r: bool)
    ensures
        r == s@.contains(c),
{
    let v = chars_of(s);
    let mut i: usize = 0;
    while i < v.len()
        invariant
            v@ == s@,
            0 <= i <= v.len(),
            forall|j: int| 0 <= j < i ==> v@[j] != c,
        decreases v.len() - i,
    {
        if v[i] == c {
            return true;
        }
        i = i + 1;
    }
    false
}

/// Appends `user[:password]@` and `host:port/database`.
fn push_authority(s: &mut String, config: &DatabaseConfig, default_port: u16)
    ensures
        final(s)@ == old(s)@ + userinfo(*config) + host_port_db(*config, default_port),
{
    let ghost start = s@;
    match &config.username {
        Some(u) => {
            s.append(u.as_str());
            match &config.password {
                Some(p) => {
                    s.append(":");
                    s.append(p.as_str());
                },
                None => {},
            }
            s.append("@");
        },
        None => {},
    }
    assert(s@ =~= start + userinfo(*config));
    let ghost mid = s@;
    match &config.host {
        Some(h) => s.append(h.as_str()),
        None => s.append("localhost"),
    }
    let port = match config.port {
        Some(p) => p,
        None => default_port,
    };
    s.append(":");
    let port_text = u64_to_string(port as u64);
    s.append(port_text.as_str());
    s.append("/");
    s.append(config.database.as_str());
    assert(s@ =~= mid + host_port_db(*config, default_port));
}

/// Appends `key=value` pairs, the first after `?` and the others after `&`.
fn push_params(s: &mut String, params: &Vec<(String, String)>)
    ensures
        final(s)@ == old(s)@ + query_suffix(pairs_view(params@)),
{
    let ghost start = s@;
    let mut i: usize = 0;
    while i < params.len()
        invariant
            0 <= i <= params.len(),
            s@ == start + query_suffix(pairs_view(params@.take(i as int))),
        decreases params.len() - i,
    {
        let ghost before = s@;
        if i == 0 {
            s.append("?");
        } else {
            s.append("&");
        }
        s.append(params[i].0.as_str());
        s.append("=");
        s.append(params[i].1.as_str());
        proof {
            let ps = pairs_view(params@.take(i + 1));
            assert(ps.drop_last() =~= pairs_view(params@.take(i as int)));
            assert(ps.last() == (params@[i as int].0@, params@[i as int].1@));
            assert(s@ =~= before + (if ps.len() == 1 { "?"@ } else { "&"@ }) + param_text(ps.last()));
        }
        i = i + 1;
    }
    assert(params@.take(params.len() as int) =~= params@);
}

/// The PostgreSQL connection URL: `postgres://[user[:password]@]host:port/database`
/// (host `localhost` and port 5432 by default), then `?sslmode=..` when an SSL
/// mode is set, then each extra parameter after `&` when the URL built so far
/// holds a `?` and after `?` otherwise.
pub fn build_postgres_connection_string(config: &DatabaseConfig) -> (r: DatabaseResult<String>)
    ensures
        r matches Ok(s) && s@ == postgres_url(*config),
{
    let mut s = owned("postgres://");
    push_authority(&mut s, config, 5432);
    match &config.ssl_mode {
        Some(m) => {
            s.append("?sslmode=");
            s.append(m.as_str());
        },
        None => {},
    }
    let ghost base = s@;
    assert(base =~= "postgres://"@ + userinfo(*config) + host_port_db(*config, 5432) + match config.ssl_mode {
        Some(m) => "?sslmode="@ + m@,
        None => Seq::empty(),
    });
    let mut i: usize = 0;
    while i < config.extra_params.len()
        invariant
            0 <= i <= config.extra_params.len(),
            s@ == append_params_checking(base, pairs_view(config.extra_params@.take(i as int))),
        decreases config.extra_params.len() - i,
    {
        let ghost before = s@;
        if contains_char(s.as_str(), '?') {
            s.append("&");
        } else {
            s.append("?");
        }
        s.append(config.extra_params[i].0.as_str());
        s.append("=");
        s.append(config.extra_params[i].1.as_str());
        proof {
            let ps = pairs_view(config.extra_params@.take(i + 1));
            assert(ps.drop_last() =~= pairs_view(config.extra_params@.take(i as int)));
            assert(ps.last() == (config.extra_params@[i as int].0@, config.extra_params@[i as int].1@));
            assert(s@ =~= before + (if before.contains('?') { "&"@ } else { "?"@ }) + param_text(ps.last()));
        }
        i = i + 1;
    }
    assert(config.extra_params@.take(config.extra_params.len() as int) =~= config.extra_params@);
    Ok(s)
}

/// The MySQL connection URL: `mysql://[user[:password]@]host:port/database`
/// (host `localhost` and port 3306 by default), then the extra parameters,
/// the first after `?` and the others after `&`.
pub fn build_mysql_connection_string(config: &DatabaseConfig) -> (r: DatabaseResult<String>)
    ensures
        r matches Ok(s) && s@ == mysql_url(*config),
{
    let mut s = owned("mysql://");
    push_authority(&mut s, config, 3306);
    push_params(&mut s, &config.extra_params);
    Ok(s)
}

/// The SQLite connection URL: `sqlite::memory:` for the database `:memory:`
/// and `sqlite:<path>` otherwise, then the extra parameters, the first after
/// `?` and the others after `&`.
pub fn build_sqlite_connection_string(config: &DatabaseConfig) -> (r: DatabaseResult<String>)
    ensures
        r matches Ok(s) && s@ == sqlite_url(*config),
{
    let mut s = if str_eq(config.database.as_str(), ":memory:") {
        owned("sqlite::memory:")
    } else {
        concat2("sqlite:", config.database.as_str())
    };
    push_params(&mut s, &config.extra_params);
    Ok(s)
}

} // verus!
