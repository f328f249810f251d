//! The application settings and what is derived from them: the name of the
//! settings file for a run mode, the database URL and the pool limits.

use vstd::prelude::*;
use vstd::string::*;
use crate::error::ErrorApp;
use crate::rsa_crypt::{decrypt, decryption, key_view};
use crate::text::{decimal_i16, i16_to_decimal, replace_all, replace_str, str_eq, trim, trim_str};

verus! {

/// The application's name, description and port.
pub struct App {
    pub name: String,
    pub desc: String,
    pub port: i16,
}

/// Where and how to reach the database.
pub struct Database {
    pub driver: String,
    pub host: String,
    pub port: i16,
    pub name: String,
    pub schema: String,
    pub username: String,
    pub password: String,
    pub sslmode: String,
    pub min_conn: i16,
    pub max_conn: i16,
    pub idle_timeout: i16,
    pub acquire_timeout: i16,
    /// Whether `password` holds the encrypted password rather than the password.
    pub encrypt: bool,
}

pub struct Datasource {
    pub db: Database,
}

pub struct Setting {
    pub app: App,
    pub datasource: Datasource,
}

/// The limits a connection pool is opened with.
pub struct PoolOptions {
    pub min_connections: u32,
    pub max_connections: u32,
    pub acquire_timeout_secs: u64,
    pub idle_timeout_secs: u64,
}

/// The settings file for the resources directory and the run mode, where one
/// is set: `<resources>/application.yaml`, or, for a run mode that is neither
/// blank nor `local`, `<resources>/application-<mode>.yaml` with each `,` of
/// the mode written as `-`.
pub open spec fn settings_file(resources: Seq<char>, run_mode: Option<Seq<char>>) -> Seq<char> {
    let base = resources + "/application"@;
    match run_mode {
        Some(m) => if trim(m) != Seq::<char>::empty() && trim(m) != "local"@ {
            base + "-"@ + replace_all(m, ","@, "-"@) + ".yaml"@
        } else {
            base + ".yaml"@
        },
        None => base + ".yaml"@,
    }
}

/// The name of the settings file to load (see `settings_file`).
pub fn config_file_name(resources_path: &str, run_mode: Option<&str>) -> (r: String)
    ensures
        r@ == settings_file(
            resources_path@,
            match run_mode {
                Some(m) => Some(m@),
                None => None,
            },
        ),
{
    proof {
        reveal_strlit(",");
        reveal_strlit("local");
    }
    let mut r = String::from_str(resources_path);
    r.append("/application");
    match run_mode {
        Some(m) => {
            let t = trim_str(m);
            if !t.as_str().is_empty() && !str_eq(t.as_str(), "local") {
                proof {
                    assert(t@ != Seq::<char>::empty());
                }
                let joined = replace_str(m, ",", "-");
                r.append("-");
                r.append(joined.as_str());
            } else {
                proof {
                    if t@.len() == 0 {
                        assert(t@ =~= Seq::<char>::empty());
                    }
                }
            }
        },
        None => {},
    }
    r.append(".yaml");
    r
}

impl Database {
    /// The connection URL: `<driver>://<username>:<password>@<host>:<port>/<name>`
    /// followed by `?search_path=<schema>&sslmode=<sslmode>`.
    pub open spec fn url(&self) -> Seq<char> {
        self.driver@ + "://"@ + self.username@ + ":"@ + self.password@ + "@"@ + self.host@ + ":"@
            + decimal_i16(self.port) + "/"@ + self.name@ + "?search_path="@ + self.schema@
            + "&sslmode="@ + self.sslmode@
    }

    /// The connection URL (see `url`).
    pub fn connection_url(&self) -> (r: String)
        ensures
            r@ == self.url(),
    {
        let mut r = self.driver.clone();
        r.append("://");
        r.append(self.username.as_str());
        r.append(":");
        r.append(self.password.as_str());
        r.append("@");
        r.append(self.host.as_str());
        r.append(":");
        let port = i16_to_decimal(self.port);
        r.append(port.as_str());
        r.append("/");
        r.append(self.name.as_str());
        r.append("?search_path=");
        r.append(self.schema.as_str());
        r.append("&sslmode=");
        r.append(self.sslmode.as_str());
        r
    }

    /// Replaces an encrypted password by the password it decrypts to, with the
    /// private key given as the bytes of its PKCS#1 DER document or as the
    /// reason they could not be read; a password that is not marked encrypted
    /// is left as it is. On failure the settings are left unchanged.
    pub fn resolve_password(&mut self, private_key_der: Result<Vec<u8>, String>) -> (r: Result<
        (),
        ErrorApp,
    >)
        ensures
            final(self).driver == old(self).driver,
            final(self).host == old(self).host,
            final(self).port == old(self).port,
            final(self).name == old(self).name,
            final(self).schema == old(self).schema,
            final(self).username == old(self).username,
            final(self).sslmode == old(self).sslmode,
            final(self).min_conn == old(self).min_conn,
            final(self).max_conn == old(self).max_conn,
            final(self).idle_timeout == old(self).idle_timeout,
            final(self).acquire_timeout == old(self).acquire_timeout,
            final(self).encrypt == old(self).encrypt,
            !old(self).encrypt ==> r is Ok && final(self).password == old(self).password,
            r is Err ==> final(self).password == old(self).password,
            r matches Err(e) ==> e is OtherErr,
            old(self).encrypt ==> match decryption(old(self).password@, key_view(private_key_der)) {
                Ok(p) => r is Ok && final(self).password@ == p,
                Err(m) => r matches Err(ErrorApp::OtherErr(e)) && e@ == m,
            },
    {
        if self.encrypt {
            let plain = decrypt(self.password.as_str(), private_key_der)?;
            self.password = plain;
        }
        Ok(())
    }

    /// The pool limits, each setting converted as `as` converts it.
    pub fn pool_options(&self) -> (r: PoolOptions)
        ensures
            r.min_connections == self.min_conn as u32,
            r.max_connections == self.max_conn as u32,
            r.acquire_timeout_secs == self.acquire_timeout as u64,
            r.idle_timeout_secs == self.idle_timeout as u64,
    {
        PoolOptions {
            min_connections: self.min_conn as u32,
            max_connections: self.max_conn as u32,
            acquire_timeout_secs: self.acquire_timeout as u64,
            idle_timeout_secs: self.idle_timeout as u64,
        }
    }
}


/// For a run mode that is neither blank nor `local`, the settings file is
/// `<resources>/application-<x>.yaml`, where `x` is the mode character for
/// character with every `,` written as `-` (so `x` holds no `,`).
pub proof fn law_run_mode_file(resources: Seq<char>, mode: Seq<char>)
    requires
        trim(mode) != Seq::<char>::empty(),
        trim(mode) != "local"@,
    ensures
        exists|x: Seq<char>|
            {
                &&& settings_file(resources, Some(mode)) == resources + "/application-"@ + x
                    + ".yaml"@
                &&& x.len() == mode.len()
                &&& forall|i: int|
                    0 <= i < mode.len() ==> #[trigger] x[i] == if mode[i] == ',' {
                        '-'
                    } else {
                        mode[i]
                    }
                &&& forall|i: int| 0 <= i < x.len() ==> #[trigger] x[i] != ','
            },
{
    reveal_strlit(",");
    reveal_strlit("-");
    assert(","@ =~= seq![',']);
    assert("-"@ =~= seq!['-']);
    let x = replace_all(mode, ","@, "-"@);
    crate::text::lemma_replace_char(mode, ',', '-');
    assert(resources + "/application"@ + "-"@ + x + ".yaml"@ =~= resources + "/application-"@ + x
        + ".yaml"@) by {
        reveal_strlit("/application");
        reveal_strlit("/application-");
    }
    assert forall|i: int| 0 <= i < x.len() implies #[trigger] x[i] != ',' by {
        assert(x[i] == if mode[i] == ',' {
            '-'
        } else {
            mode[i]
        });
    }
}

} // verus!
