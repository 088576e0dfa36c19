//! The schema version of the wallet database, and what opening a database
//! does about it.
//!
//! The schema version is an integer raised each time a new type is stored in
//! the database or a stored type changes; the latter needs a migration of
//! the stored data.
use vstd::prelude::*;

verus! {

/// The schema version of the wallet database that this code reads and
/// writes. The very first version was 0.
pub const SCHEMA_VERSION: u16 = 1;

/// What opening a wallet database does about its schema version.
#[derive(Debug, Clone, Copy, PartialEq, Eq, Structural)]
pub enum SchemaAction {
    /// A brand-new database: record the present schema version.
    SetNewVersion,
    /// The database has the present schema version: nothing to do.
    UpToDate,
    /// The database has an older schema version: migrate it, then record the
    /// present version.
    Migrate { from: u16, to: u16 },
    /// The database comes from a newer release, which this code cannot read.
    TooNew { expected: u16, found: u16 },
}

/// The action for a database of schema version `stored`, `is_default_label`
/// saying whether its sync label is the default digest. A database is new
/// when its version is 0 and it was never synced (a version was not stored
/// before version 1).
pub open spec fn schema_action_spec(stored: u16, is_default_label: bool) -> SchemaAction {
    if stored == 0 && is_default_label {
        SchemaAction::SetNewVersion
    } else if stored == SCHEMA_VERSION {
        SchemaAction::UpToDate
    } else if stored < SCHEMA_VERSION {
        SchemaAction::Migrate { from: stored, to: SCHEMA_VERSION }
    } else {
        SchemaAction::TooNew { expected: SCHEMA_VERSION, found: stored }
    }
}

/// The action for a database of schema version `stored` (see
/// [`schema_action_spec`]).
pub fn schema_action(stored: u16, is_default_label: bool) -> (r: SchemaAction)
    ensures
        r == schema_action_spec(stored, is_default_label),
{
    if stored == 0 && is_default_label {
        SchemaAction::SetNewVersion
    } else if stored == SCHEMA_VERSION {
        SchemaAction::UpToDate
    } else if stored < SCHEMA_VERSION {
        SchemaAction::Migrate { from: stored, to: SCHEMA_VERSION }
    } else {
        SchemaAction::TooNew { expected: SCHEMA_VERSION, found: stored }
    }
}

/// The schema versions that a migration is known for: the move from 0 to 1.
pub open spec fn migration_known(v: u16) -> bool {
    v == 1
}

/// Whether a migration is known to reach schema version `v`.
pub fn is_migration_known(v: u16) -> (r: bool)
    ensures
        r == migration_known(v),
{
    v == 1
}

/// The versions that migrating from `version_from` to `version_to` applies,
/// one after the other: each version above `version_from` up to and
/// including `version_to`. Every one of them must have a known migration.
pub fn migration_steps(version_from: u16, version_to: u16) -> (r: Vec<u16>)
    requires
        version_from < version_to,
        forall|v: u16| version_from < v <= version_to ==> migration_known(v),
    ensures
        r@ == Seq::new((version_to - version_from) as nat, |k: int| (version_from + 1 + k) as u16),
{
    let mut steps: Vec<u16> = Vec::new();
    let mut i = version_from;
    while i < version_to
        invariant
            version_from <= i <= version_to,
            steps@ == Seq::new((i - version_from) as nat, |k: int| (version_from + 1 + k) as u16),
        decreases version_to - i,
    {
        let apply_version = i + 1;
        steps.push(apply_version);
        i = i + 1;
        assert(steps@ =~= Seq::new((i - version_from) as nat, |k: int| (version_from + 1 + k) as u16));
    }
    steps
}

/// Opening a database and acting on its schema version leaves it at the
/// present version, unless it is too new: a new database gets the version,
/// an up-to-date one keeps it, and an old one is migrated to exactly it.
pub proof fn lemma_open_reaches_present_version(stored: u16, is_default_label: bool)
    ensures
        match schema_action_spec(stored, is_default_label) {
            SchemaAction::SetNewVersion => true,
            SchemaAction::UpToDate => stored == SCHEMA_VERSION,
            SchemaAction::Migrate { from, to } => from == stored && to == SCHEMA_VERSION && from < to,
            SchemaAction::TooNew { expected, found } => found > expected,
        },
{
}

} // verus!
