//! Backups of a project's database.

use vstd::prelude::*;
use vstd::string::*;

use crate::config::Config;
use crate::paths;
use crate::runner::launch;
use crate::text;

verus! {

/// The name of the file that a project's backup is put in.
pub open spec fn backup_name_of(project_name: Seq<char>) -> Seq<char> {
    project_name + "-backup.db"@
}

/// The name of the file that a project's backup is put in.
pub fn backup_name(project_name: &str) -> (r: String)
    ensures
        r@ == backup_name_of(project_name@),
{
    project_name.to_owned().concat("-backup.db")
}

/// The path that a project's database is copied to.
pub open spec fn backup_path_of(temp_dir: Seq<char>, project_name: Seq<char>) -> Seq<char> {
    paths::joined(temp_dir, backup_name_of(project_name))
}

/// The path that a project's database is copied to.
pub fn backup_path(temp_dir: &str, project_name: &str) -> (r: String)
    ensures
        r@ == backup_path_of(temp_dir@, project_name@),
{
    paths::join(temp_dir, backup_name(project_name).as_str())
}

/// The header that names the file to the client.
pub fn content_disposition(project_name: &str) -> (r: String)
    ensures
        r@ == "attachment; filename=\""@ + backup_name_of(project_name@) + "\""@,
{
    "attachment; filename=\"".to_owned().concat(backup_name(project_name).as_str()).concat("\"")
}

/// What stands between the quotes of an SQL string literal with this value.
pub open spec fn escaped(value: Seq<char>) -> Seq<char> {
    text::substituted(value, '\'', "''"@)
}

/// The value of an SQL string literal, given what stands between its quotes; `None` where a quote
/// would end the literal before its time.
pub open spec fn literal_value(s: Seq<char>) -> Option<Seq<char>>
    decreases s.len(),
{
    if s.len() == 0 {
        Some(Seq::empty())
    } else if s[0] != '\'' {
        match literal_value(s.drop_first()) {
            Some(rest) => Some(seq![s[0]] + rest),
            None => None,
        }
    } else if s.len() >= 2 && s[1] == '\'' {
        match literal_value(s.skip(2)) {
            Some(rest) => Some(seq!['\''] + rest),
            None => None,
        }
    } else {
        None
    }
}

/// The statement that copies a database into a file.
pub fn vacuum_statement(path: &str) -> (r: String)
    ensures
        r@ == "VACUUM INTO '"@ + escaped(path@) + "'"@,
{
    let quoted = text::replace_char(path, '\'', "''");
    "VACUUM INTO '".to_owned().concat(quoted.as_str()).concat("'")
}

/// Escaping goes character by character.
proof fn lemma_escaped_from_the_front(value: Seq<char>)
    requires
        value.len() > 0,
    ensures
        escaped(value) == (if value[0] == '\'' {
            "''"@
        } else {
            seq![value[0]]
        }) + escaped(value.drop_first()),
    decreases value.len(),
{
    let first = if value[0] == '\'' {
        "''"@
    } else {
        seq![value[0]]
    };
    if value.len() == 1 {
        assert(value.drop_last() =~= Seq::empty());
        assert(value.drop_first() =~= Seq::empty());
        assert(escaped(Seq::empty()) =~= Seq::empty());
        assert(escaped(value) =~= first);
        assert(first + Seq::empty() =~= first);
    } else {
        lemma_escaped_from_the_front(value.drop_last());
        assert(value.drop_last().drop_first() =~= value.drop_first().drop_last());
        assert(escaped(value) =~= first + escaped(value.drop_first()));
    }
}

/// Whatever the path, the statement names that path: the literal ends where it should and has the
/// path as its value.
pub proof fn law_vacuum_names_the_path(path: Seq<char>)
    ensures
        literal_value(escaped(path)) == Some(path),
    decreases path.len(),
{
    if path.len() == 0 {
        assert(escaped(path) =~= Seq::empty());
    } else {
        lemma_escaped_from_the_front(path);
        law_vacuum_names_the_path(path.drop_first());
        reveal_strlit("''");
        let e = escaped(path);
        let rest = escaped(path.drop_first());
        if path[0] == '\'' {
            assert(e[0] == '\'' && e[1] == '\'');
            assert(e.skip(2) =~= rest);
        } else {
            assert(e[0] == path[0]);
            assert(e.drop_first() =~= rest);
        }
        assert(seq![path[0]] + path.drop_first() =~= path);
    }
}

// ---------------------------------------------------------------------------------------------
// One backup after another
// ---------------------------------------------------------------------------------------------

/// The files on disk once a database was copied. SQLite does not copy into a file that is there.
pub open spec fn copied<T>(files: Map<Seq<char>, T>, database: Seq<char>, copy: Seq<char>) -> Option<
    Map<Seq<char>, T>,
> {
    if files.contains_key(copy) {
        None
    } else {
        Some(files.insert(copy, files[database]))
    }
}

/// The copy of a project's database is never the database itself.
proof fn lemma_copy_beside_database(config: Config, temp_dir: Seq<char>, name: Seq<char>)
    ensures
        backup_path_of(temp_dir, name) != launch::database_path_of(config, name),
{
    reveal_strlit("-backup.db");
    reveal_strlit("app.db");
    let copy = backup_path_of(temp_dir, name);
    let database = launch::database_path_of(config, name);
    assert(copy[copy.len() - 5] == 'u');
    assert(database[database.len() - 5] == 'p');
}

/// However often a project's database is backed up, and whatever an earlier backup left: once the
/// last copy was removed, the copy is made, it holds what the database holds now, and the database
/// is as it was. Afterwards the copy can be removed again, which leaves all else as it was.
pub proof fn law_every_backup_is_made<T>(
    files: Map<Seq<char>, T>,
    config: Config,
    temp_dir: Seq<char>,
    name: Seq<char>,
)
    requires
        files.contains_key(launch::database_path_of(config, name)),
    ensures
        ({
            let database = launch::database_path_of(config, name);
            let copy = backup_path_of(temp_dir, name);
            &&& copied(files.remove(copy), database, copy) matches Some(after)
            &&& after[copy] == files[database]
            &&& after.contains_key(database)
            &&& after[database] == files[database]
            &&& after.remove(copy) == files.remove(copy)
        }),
{
    lemma_copy_beside_database(config, temp_dir, name);
    let database = launch::database_path_of(config, name);
    let copy = backup_path_of(temp_dir, name);
    let after = copied(files.remove(copy), database, copy)->0;
    assert(after.remove(copy) =~= files.remove(copy));
}

} // verus!
