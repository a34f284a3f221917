//! The database schema: the migrations that build it, in order, and which
//! of them a database still needs.
use vstd::prelude::*;

verus! {

/// One step of the schema.
#[derive(Debug, Clone)]
pub struct Migration {
    pub version: i32,
    pub description: String,
    pub sql: String,
}

/// The table that records the migrations applied.
pub const SCHEMA_MIGRATIONS_SQL: &'static str = "CREATE TABLE IF NOT EXISTS schema_migrations (version INTEGER PRIMARY KEY, description TEXT NOT NULL, applied_at TEXT NOT NULL)";

/// Activities, their segments, categories and the mappings to them.
pub const CREATE_TABLES_SQL: &'static str = "CREATE TABLE IF NOT EXISTS activity_entries (id TEXT PRIMARY KEY, start_time TEXT NOT NULL, end_time TEXT, app_name TEXT NOT NULL, app_bundle_id TEXT, window_title TEXT NOT NULL, url TEXT, category TEXT NOT NULL);
CREATE INDEX IF NOT EXISTS idx_activity_entries_start_time ON activity_entries (start_time);
CREATE TABLE IF NOT EXISTS activity_segments (id TEXT PRIMARY KEY, activity_id TEXT NOT NULL REFERENCES activity_entries (id) ON DELETE CASCADE, start_time TEXT NOT NULL, end_time TEXT, segment_type TEXT NOT NULL, title TEXT NOT NULL, url TEXT, file_path TEXT, metadata TEXT);
CREATE TABLE IF NOT EXISTS user_categories (id TEXT PRIMARY KEY, name TEXT NOT NULL, color TEXT NOT NULL, parent_id TEXT, created_at TEXT NOT NULL, updated_at TEXT NOT NULL);
CREATE TABLE IF NOT EXISTS app_mappings (id TEXT PRIMARY KEY, app_pattern TEXT NOT NULL, category_id TEXT NOT NULL, is_custom INTEGER NOT NULL DEFAULT 0, created_at TEXT NOT NULL, updated_at TEXT NOT NULL, UNIQUE (app_pattern, category_id));
CREATE TABLE IF NOT EXISTS url_mappings (id TEXT PRIMARY KEY, url_pattern TEXT NOT NULL, category_id TEXT NOT NULL, is_custom INTEGER NOT NULL DEFAULT 0, created_at TEXT NOT NULL, updated_at TEXT NOT NULL, UNIQUE (url_pattern, category_id));";

/// Focus-mode settings, allowed categories and allowed applications.
pub const FOCUS_MODE_PREFERENCES_SQL: &'static str = "CREATE TABLE IF NOT EXISTS focus_mode_settings (key TEXT PRIMARY KEY, value TEXT NOT NULL);
CREATE TABLE IF NOT EXISTS focus_mode_allowed_categories (category_id TEXT PRIMARY KEY);
CREATE TABLE IF NOT EXISTS focus_mode_allowed_apps (app_pattern TEXT PRIMARY KEY, expires_at INTEGER);
INSERT OR IGNORE INTO focus_mode_settings (key, value) VALUES ('enabled', '0');";

/// The application- and website-blocking switches, on by default.
pub const BLOCKING_PREFERENCES_SQL: &'static str = "INSERT OR IGNORE INTO focus_mode_settings (key, value) VALUES ('app_blocking_enabled', '1');
INSERT OR IGNORE INTO focus_mode_settings (key, value) VALUES ('website_blocking_enabled', '1');";

/// The proxy port, 62828 by default.
pub const PROXY_PORT_SQL: &'static str = "INSERT OR IGNORE INTO focus_mode_settings (key, value) VALUES ('proxy_port', '62828');";

/// Pomodoro sessions and settings, with the default settings.
pub const POMODORO_TABLES_SQL: &'static str = "CREATE TABLE IF NOT EXISTS pomodoro_sessions (id TEXT PRIMARY KEY, session_type TEXT NOT NULL, start_time TEXT NOT NULL, end_time TEXT, duration_minutes INTEGER NOT NULL, actual_duration_seconds INTEGER, work_description TEXT, completed INTEGER NOT NULL DEFAULT 0, focus_mode_enabled INTEGER NOT NULL DEFAULT 0, app_tracking_enabled INTEGER NOT NULL DEFAULT 0);
CREATE TABLE IF NOT EXISTS pomodoro_settings (id TEXT PRIMARY KEY, work_duration_minutes INTEGER NOT NULL DEFAULT 25, break_duration_minutes INTEGER NOT NULL DEFAULT 5, enable_focus_mode INTEGER NOT NULL DEFAULT 1, enable_app_tracking INTEGER NOT NULL DEFAULT 1, auto_start_breaks INTEGER NOT NULL DEFAULT 0, auto_start_work INTEGER NOT NULL DEFAULT 0, updated_at TEXT NOT NULL);
INSERT OR IGNORE INTO pomodoro_settings (id, updated_at) VALUES ('default', '1970-01-01T00:00:00+00:00');";

/// The migrations, by version, description and statements.
pub open spec fn migrations_spec() -> Seq<(i32, Seq<char>, Seq<char>)> {
    seq![
        (1i32, "create_initial_tables"@, CREATE_TABLES_SQL@),
        (2i32, "create_focus_mode_preferences"@, FOCUS_MODE_PREFERENCES_SQL@),
        (3i32, "add_blocking_preferences"@, BLOCKING_PREFERENCES_SQL@),
        (4i32, "add_proxy_port"@, PROXY_PORT_SQL@),
        (5i32, "create_pomodoro_tables"@, POMODORO_TABLES_SQL@),
    ]
}

/// The abstract form of a migration.
pub open spec fn migration_view(m: Migration) -> (i32, Seq<char>, Seq<char>) {
    (m.version, m.description@, m.sql@)
}

/// The views of migrations.
pub open spec fn migrations_view(v: Seq<Migration>) -> Seq<(i32, Seq<char>, Seq<char>)> {
    v.map_values(|m: Migration| migration_view(m))
}

/// Builds a migration.
fn migration(version: i32, description: &str, sql: &str) -> (res: Migration)
    ensures
        migration_view(res) == (version, description@, sql@),
{
    Migration { version, description: String::from_str(description), sql: String::from_str(sql) }
}

/// The migrations to apply to the database, in order.
pub fn get_migrations() -> (res: Vec<Migration>)
    ensures
        migrations_view(res@) == migrations_spec(),
{
    let mut v: Vec<Migration> = Vec::new();
    v.push(migration(1, "create_initial_tables", CREATE_TABLES_SQL));
    v.push(migration(2, "create_focus_mode_preferences", FOCUS_MODE_PREFERENCES_SQL));
    v.push(migration(3, "add_blocking_preferences", BLOCKING_PREFERENCES_SQL));
    v.push(migration(4, "add_proxy_port", PROXY_PORT_SQL));
    v.push(migration(5, "create_pomodoro_tables", POMODORO_TABLES_SQL));
    assert(migrations_view(v@) =~= migrations_spec());
    v
}

/// The migrations of `all` whose versions are not in `applied`, in order.
pub open spec fn pending_spec(all: Seq<(i32, Seq<char>, Seq<char>)>, applied: Seq<i32>) -> Seq<
    (i32, Seq<char>, Seq<char>),
>
    decreases all.len(),
{
    if all.len() == 0 {
        Seq::empty()
    } else {
        let p = pending_spec(all.drop_last(), applied);
        if applied.contains(all.last().0) {
            p
        } else {
            p.push(all.last())
        }
    }
}

/// The migrations still to apply to a database that recorded the versions
/// `applied`, in order.
pub fn pending_migrations(applied: &Vec<i32>) -> (res: Vec<Migration>)
    ensures
        migrations_view(res@) == pending_spec(migrations_spec(), applied@),
{
    let all = get_migrations();
    let mut res: Vec<Migration> = Vec::new();
    let mut i: usize = 0;
    assert(migrations_view(all@).take(0) =~= Seq::<(i32, Seq<char>, Seq<char>)>::empty());
    while i < all.len()
        invariant
            i <= all@.len(),
            migrations_view(all@) == migrations_spec(),
            migrations_view(res@) == pending_spec(migrations_view(all@).take(i as int), applied@),
        decreases all@.len() - i,
    {
        let v = all[i].version;
        let mut found = false;
        let mut k: usize = 0;
        while k < applied.len()
            invariant
                k <= applied@.len(),
                found == (exists|j: int| 0 <= j < k && applied@[j] == v),
            decreases applied@.len() - k,
        {
            if applied[k] == v {
                found = true;
            }
            k = k + 1;
        }
        let ghost before = migrations_view(res@);
        assert(migrations_view(all@).take(i + 1).drop_last() =~= migrations_view(all@).take(i as int));
        assert(migrations_view(all@).take(i + 1).last() == migration_view(all@[i as int]));
        if !found {
            let m = &all[i];
            res.push(Migration { version: m.version, description: m.description.clone(), sql: m.sql.clone() });
            assert(migrations_view(res@) =~= before.push(migration_view(all@[i as int])));
        } else {
            assert(applied@.contains(v));
        }
        i = i + 1;
    }
    assert(migrations_view(all@).take(i as int) =~= migrations_view(all@));
    res
}

} // verus!
