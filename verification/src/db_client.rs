//! The database client library a configuration resolves to, and the exact
//! install commands each client contributes.

use vstd::prelude::*;
use crate::config::{Language, ScaffoldConfig};
use crate::dialogue::Database;
use crate::module::{
    cargo_install_cmd, cargo_install_command, npm_install_cmd, npm_install_command, Module,
    ModuleView,
};
use crate::pipeline::{args1, args2, plain_command, CommandSpec, CommandSpecView};
use crate::latest_version;

verus! {

/// The data-access libraries the decision table can select.
#[derive(Debug, Clone, Copy, PartialEq, Eq, Structural)]
pub enum DbClient {
    Diesel,
    Sqlx,
    Prisma,
    Slonik,
    BetterSqlite,
    MongoDb,
    Mongoose,
}

/// The package each client installs.
pub open spec fn client_package(c: DbClient) -> Seq<char> {
    match c {
        DbClient::Diesel => "diesel"@,
        DbClient::Sqlx => "sqlx"@,
        DbClient::Prisma => "prisma"@,
        DbClient::Slonik => "slonik"@,
        DbClient::BetterSqlite => "better-sqlite3"@,
        DbClient::MongoDb => "mongodb"@,
        DbClient::Mongoose => "mongoose"@,
    }
}

/// Whether a client installs as a development dependency.
pub open spec fn client_dev(c: DbClient) -> bool {
    match c {
        DbClient::Prisma => true,
        DbClient::Slonik => true,
        _ => false,
    }
}

/// The feature list a client's install command carries for a database.
pub open spec fn client_features(c: DbClient, db: Database) -> Option<Seq<Seq<char>>> {
    match c {
        DbClient::Diesel => match db {
            Database::Postgres => Option::Some(seq!["postgres"@]),
            Database::Sqlite => Option::Some(seq!["sqlite"@]),
            Database::Mongo => Option::None,
        },
        DbClient::Sqlx => match db {
            Database::Postgres => Option::Some(
                seq!["runtime-tokio"@, "tls-native-tls"@, "time"@, "migrate"@, "postgres"@],
            ),
            Database::Sqlite => Option::Some(
                seq!["runtime-tokio"@, "tls-native-tls"@, "time"@, "migrate"@, "sqlite"@],
            ),
            Database::Mongo => Option::Some(
                seq!["runtime-tokio"@, "tls-native-tls"@, "time"@, "migrate"@],
            ),
        },
        _ => Option::None,
    }
}

/// The dependency record a resolved client adds to its ecosystem's list.
pub open spec fn client_dep(c: DbClient, db: Database) -> ModuleView {
    ModuleView {
        name: client_package(c),
        version: latest_version(),
        dev: client_dev(c),
        features: client_features(c, db),
        then_cmds: Option::None,
    }
}

/// The ecosystem whose dependency list a client belongs to.
pub open spec fn client_ecosystem(c: DbClient, rust: bool) -> Seq<char> {
    match c {
        DbClient::Diesel => "cargo"@,
        DbClient::Sqlx => "cargo"@,
        DbClient::MongoDb => if rust {
            "cargo"@
        } else {
            "npm"@
        },
        _ => "npm"@,
    }
}

/// The commands a client needs beyond installing its own package.
pub open spec fn client_setup_cmds(c: DbClient) -> Seq<CommandSpecView> {
    match c {
        DbClient::Prisma => seq![plain_command("bunx"@, seq!["prisma"@, "init"@])],
        _ => Seq::empty(),
    }
}

/// All install commands of a client: its package install through its
/// ecosystem's package manager, then its setup commands.
pub open spec fn db_client_cmds(c: DbClient, db: Database, rust: bool) -> Seq<CommandSpecView> {
    (if client_ecosystem(c, rust) == "cargo"@ {
        seq![cargo_install_cmd(client_dep(c, db))]
    } else {
        seq![npm_install_cmd(client_dep(c, db))]
    }) + client_setup_cmds(c)
}

/// The database engines a client can have been resolved against: exactly
/// those the decision table pairs it with.
pub open spec fn client_consistent(c: DbClient, db: Database) -> bool {
    match c {
        DbClient::Diesel => db == Database::Postgres || db == Database::Sqlite,
        DbClient::Sqlx => db == Database::Postgres || db == Database::Sqlite,
        DbClient::Prisma => db == Database::Postgres || db == Database::Sqlite,
        DbClient::Slonik => db == Database::Postgres,
        DbClient::BetterSqlite => db == Database::Sqlite,
        DbClient::MongoDb => db == Database::Mongo,
        DbClient::Mongoose => db == Database::Mongo,
    }
}

impl DbClient {
    /// Builds the dependency record this client adds for a database.
    pub fn client_dependency(&self, db: &Database) -> (r: Module)
        ensures
            r@ == client_dep(*self, *db),
            r.wf(),
    {
        let features: Option<Vec<String>> = match self {
            DbClient::Diesel => match db {
                Database::Postgres => Option::Some(args1("postgres")),
                Database::Sqlite => Option::Some(args1("sqlite")),
                Database::Mongo => Option::None,
            },
            DbClient::Sqlx => {
                let mut fs = crate::pipeline::args4(
                    "runtime-tokio",
                    "tls-native-tls",
                    "time",
                    "migrate",
                );
                let ghost pre = fs.deep_view();
                match db {
                    Database::Postgres => {
                        fs.push("postgres".to_owned());
                        proof {
                            assert(fs.deep_view() =~= pre.push("postgres"@));
                        }
                    },
                    Database::Sqlite => {
                        fs.push("sqlite".to_owned());
                        proof {
                            assert(fs.deep_view() =~= pre.push("sqlite"@));
                        }
                    },
                    Database::Mongo => (),
                }
                proof {
                    assert(fs.deep_view() =~= client_features(*self, *db)->Some_0);
                }
                Option::Some(fs)
            },
            _ => Option::None,
        };
        let name: String = match self {
            DbClient::Diesel => "diesel".to_owned(),
            DbClient::Sqlx => "sqlx".to_owned(),
            DbClient::Prisma => "prisma".to_owned(),
            DbClient::Slonik => "slonik".to_owned(),
            DbClient::BetterSqlite => "better-sqlite3".to_owned(),
            DbClient::MongoDb => "mongodb".to_owned(),
            DbClient::Mongoose => "mongoose".to_owned(),
        };
        let dev: bool = match self {
            DbClient::Prisma => true,
            DbClient::Slonik => true,
            _ => false,
        };
        Module::new(name, "latest".to_owned(), dev, Option::None, features)
    }

    /// The commands that install this client for the configuration's
    /// database, in order: the package install, then any setup commands.
    pub fn get_install_commands(&self, config: &ScaffoldConfig) -> (r: Vec<CommandSpec>)
        requires
            config.db matches Option::Some(d) && client_consistent(*self, d),
        ensures
            r.deep_view() == db_client_cmds(
                *self,
                config.db->Some_0,
                config.languages@.contains(Language::Rust),
            ),
    {
        let db: &Database = match &config.db {
            Option::Some(d) => d,
            Option::None => unreached(),
        };
        let dep = self.client_dependency(db);
        let rust = config.has_language(&Language::Rust);
        let cargo_side: bool = match self {
            DbClient::Diesel => true,
            DbClient::Sqlx => true,
            DbClient::MongoDb => rust,
            _ => false,
        };
        proof {
            reveal_strlit("cargo");
            reveal_strlit("npm");
            assert("npm"@.len() == 3);
            assert("cargo"@.len() == 5);
            assert("npm"@ != "cargo"@);
            assert(cargo_side == (client_ecosystem(*self, rust) == "cargo"@));
        }
        let mut cmds: Vec<CommandSpec> = Vec::new();
        if cargo_side {
            let c = cargo_install_command(&dep);
            let ghost cv = c@;
            cmds.push(c);
            proof {
                assert(cmds.deep_view() =~= seq![cv]);
            }
        } else {
            let c = npm_install_command(&dep);
            let ghost cv = c@;
            cmds.push(c);
            proof {
                assert(cmds.deep_view() =~= seq![cv]);
            }
        }
        let ghost first = cmds.deep_view();
        match self {
            DbClient::Prisma => {
                let c = CommandSpec::new("bunx".to_owned(), args2("prisma", "init"));
                let ghost cv = c@;
                cmds.push(c);
                proof {
                    assert(cmds.deep_view() =~= first.push(cv));
                }
            },
            _ => (),
        }
        proof {
            assert(cmds.deep_view() =~= db_client_cmds(
                *self,
                config.db->Some_0,
                config.languages@.contains(Language::Rust),
            ));
        }
        cmds
    }
}

} // verus!
