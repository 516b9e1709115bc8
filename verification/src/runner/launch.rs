//! How a project's process is started: its binary, its environment and its limits.

use vstd::prelude::*;
use vstd::string::*;

use crate::config::Config;
use crate::db::models;
use crate::db::models::Project;
use crate::ident;
use crate::paths;
use crate::runner::bundle;
use crate::runner::bundle::BinaryError;
use crate::runner::logs;
use crate::runner::logs::FileOp;
use crate::text;
use crate::text_laws;
use crate::tree;
use crate::tree::Entry;

verus! {

// ---------------------------------------------------------------------------------------------
// The S3 server of a project
// ---------------------------------------------------------------------------------------------

/// How far a project's S3 port lies above its own.
pub const S3_PORT_OFFSET: u16 = 10_000;

/// True where a project has an S3 port: the low 16 bits of its port leave room for the offset.
pub open spec fn has_s3_port(port: i64) -> bool {
    #[verifier::truncate] (port as u16) + S3_PORT_OFFSET <= u16::MAX
}

/// The port of a project's S3 server.
pub open spec fn s3_port_of(port: i64) -> int {
    #[verifier::truncate] (port as u16) + S3_PORT_OFFSET
}

/// True where a project has an S3 port.
pub fn s3_port_exists(port: i64) -> (r: bool)
    ensures
        r == has_s3_port(port),
{
    let low: u16 = #[verifier::truncate] (port as u16);
    low <= 55_535
}

/// The port of a project's S3 server.
pub fn s3_port(port: i64) -> (r: u16)
    requires
        has_s3_port(port),
    ensures
        r == s3_port_of(port),
{
    let low: u16 = #[verifier::truncate] (port as u16);
    low + S3_PORT_OFFSET
}

/// What was found of the file that holds a project's S3 secret.
#[derive(Debug)]
pub enum SecretFile {
    Missing,
    Unreadable,
    Holds(String),
}

/// The S3 secret of a project, and whether it has to be written to its file. `fresh` is a new
/// secret, used where the file gives none.
pub fn secret_from(file: SecretFile, fresh: String) -> (r: (String, bool))
    ensures
        r == (match file {
            SecretFile::Holds(secret) => (secret, false),
            SecretFile::Unreadable => (fresh, false),
            SecretFile::Missing => (fresh, true),
        }),
{
    match file {
        SecretFile::Holds(secret) => (secret, false),
        SecretFile::Unreadable => (fresh, false),
        SecretFile::Missing => (fresh, true),
    }
}

/// The S3 secret of a project, and whether it has to be written to its file. A file that is not
/// there gets a random secret; one that cannot be read is left alone.
pub fn s3_secret(file: SecretFile) -> (r: (String, bool))
    ensures
        match file {
            SecretFile::Holds(secret) => r == (secret, false),
            SecretFile::Unreadable => ident::is_uuid(r.0@) && !r.1,
            SecretFile::Missing => ident::is_uuid(r.0@) && r.1,
        },
{
    match file {
        SecretFile::Holds(secret) => (secret, false),
        _ => secret_from(file, ident::new_uuid()),
    }
}

/// The path of the file that holds a project's S3 secret.
pub open spec fn secret_path_of(config: Config, project_name: Seq<char>) -> Seq<char> {
    paths::joined(config.spec_project_data_dir(project_name), ".s3_secret"@)
}

/// The path of the file that holds a project's S3 secret.
pub fn secret_path(config: &Config, project_name: &str) -> (r: String)
    ensures
        r@ == secret_path_of(*config, project_name@),
{
    paths::join(config.project_data_dir(project_name).as_str(), ".s3_secret")
}

/// The path of the file with a project's own environment variables.
pub open spec fn env_path_of(config: Config, project_name: Seq<char>) -> Seq<char> {
    paths::joined(config.spec_project_data_dir(project_name), ".env"@)
}

/// The path of the file with a project's own environment variables.
pub fn env_path(config: &Config, project_name: &str) -> (r: String)
    ensures
        r@ == env_path_of(*config, project_name@),
{
    paths::join(config.project_data_dir(project_name).as_str(), ".env")
}

/// The path of a project's database.
pub open spec fn database_path_of(config: Config, project_name: Seq<char>) -> Seq<char> {
    paths::joined(config.spec_project_data_dir(project_name), "app.db"@)
}

/// The path of a project's database.
pub fn database_path(config: &Config, project_name: &str) -> (r: String)
    ensures
        r@ == database_path_of(*config, project_name@),
{
    paths::join(config.project_data_dir(project_name).as_str(), "app.db")
}

// ---------------------------------------------------------------------------------------------
// The environment
// ---------------------------------------------------------------------------------------------

/// A variable and its value.
pub type Assignment = (Seq<char>, Seq<char>);

/// The assignments that a list of pairs of strings stands for.
pub open spec fn assignments(pairs: Seq<(String, String)>) -> Seq<Assignment> {
    pairs.map_values(|p: (String, String)| (p.0@, p.1@))
}

/// What a list of assignments, made in order, leaves each variable at.
pub open spec fn environment(list: Seq<Assignment>) -> Map<Seq<char>, Seq<char>>
    decreases list.len(),
{
    if list.len() == 0 {
        Map::empty()
    } else {
        environment(list.drop_last()).insert(list.last().0, list.last().1)
    }
}

/// The assignment that a line of a project's `.env` file makes. Blank lines, comments and lines
/// without `=` make none, and none sets `PORT`, which is not the project's to choose.
pub open spec fn assignment_of(line: Seq<char>) -> Option<Assignment> {
    let t = text::trimmed(line);
    if t.len() == 0 || t[0] == '#' {
        None
    } else {
        match text::cut_once(t, '=') {
            Some((k, v)) => if text::trimmed(k) == "PORT"@ {
                None
            } else {
                Some((text::trimmed(k), text::trimmed(v)))
            },
            None => None,
        }
    }
}

/// The assignments that lines of a project's `.env` file make, in order.
pub open spec fn assignments_in(lines: Seq<Seq<char>>) -> Seq<Assignment>
    decreases lines.len(),
{
    if lines.len() == 0 {
        Seq::empty()
    } else {
        match assignment_of(lines.last()) {
            Some(a) => assignments_in(lines.drop_last()).push(a),
            None => assignments_in(lines.drop_last()),
        }
    }
}

/// The assignments that a project's `.env` file makes, in order. No file makes none.
pub open spec fn dotenv(content: Option<String>) -> Seq<Assignment> {
    match content {
        Some(s) => assignments_in(text::lines_of(s@)),
        None => Seq::empty(),
    }
}

/// The assignment that a line makes.
fn parse_assignment(line: &str) -> (r: Option<(String, String)>)
    ensures
        match r {
            Some((k, v)) => assignment_of(line@) == Some((k@, v@)),
            None => assignment_of(line@) is None,
        },
{
    let t = text::trim(line);
    if t.unicode_len() == 0 || t.get_char(0) == '#' {
        return None;
    }
    match text::split_once(t, '=') {
        Some((k, v)) => {
            let key = text::trim(k);
            if text::same(key, "PORT") {
                None
            } else {
                Some((key.to_owned(), text::trim(v).to_owned()))
            }
        },
        None => None,
    }
}

/// The assignments that a project's `.env` file makes, in order.
pub fn parse_dotenv(content: &str) -> (r: Vec<(String, String)>)
    ensures
        assignments(r@) == assignments_in(text::lines_of(content@)),
{
    let lines = text::lines(content);
    let mut r: Vec<(String, String)> = Vec::new();
    let mut i: usize = 0;
    assert(text::views(lines@).take(0) =~= Seq::empty());
    assert(assignments(r@) =~= Seq::empty());
    while i < lines.len()
        invariant
            i <= lines@.len(),
            assignments(r@) == assignments_in(text::views(lines@).take(i as int)),
        decreases lines@.len() - i,
    {
        let ghost before = r@;
        proof {
            let done = text::views(lines@).take(i as int + 1);
            assert(done.drop_last() =~= text::views(lines@).take(i as int));
            assert(done.last() == lines@[i as int]@);
        }
        match parse_assignment(lines[i].as_str()) {
            Some(pair) => {
                r.push(pair);
                assert(assignments(r@) =~= assignments(before).push((pair.0@, pair.1@)));
            },
            None => {},
        }
        i += 1;
    }
    assert(text::views(lines@).take(lines@.len() as int) =~= text::views(lines@));
    r
}

/// What every project's environment is set to before its own `.env` file is taken in.
pub open spec fn provided(config: Config, project: Project, secret: Seq<char>) -> Seq<Assignment> {
    seq![
        ("DATABASE_URL"@, "sqlite://"@ + database_path_of(config, project.name@)),
        (
            "S3_ENDPOINT"@,
            "http://127.0.0.1:"@ + text::decimal(s3_port_of(project.port) as nat),
        ),
        ("S3_BUCKET"@, models::bucket_name_of(project.name@)),
        ("AWS_ACCESS_KEY_ID"@, project.id@),
        ("AWS_SECRET_ACCESS_KEY"@, secret),
        ("AWS_REGION"@, "us-east-1"@),
        ("PORT"@, text::decimal_int(project.port as int)),
        ("APP_NAME"@, project.name@),
    ]
}

/// The assignments that make up the environment of a project's process, in order.
pub fn process_env(
    config: &Config,
    project: &Project,
    secret: &str,
    dotenv_content: Option<&String>,
) -> (r: Vec<(String, String)>)
    requires
        has_s3_port(project.port),
    ensures
        assignments(r@) == provided(*config, *project, secret@) + dotenv(
            match dotenv_content {
                Some(s) => Some(*s),
                None => None,
            },
        ),
{
    let database_url = "sqlite://".to_owned().concat(
        database_path(config, project.name.as_str()).as_str(),
    );
    let s3_endpoint = "http://127.0.0.1:".to_owned().concat(
        text::decimal_of(s3_port(project.port) as u64).as_str(),
    );
    let mut r: Vec<(String, String)> = Vec::new();
    r.push(("DATABASE_URL".to_owned(), database_url));
    r.push(("S3_ENDPOINT".to_owned(), s3_endpoint));
    r.push(("S3_BUCKET".to_owned(), models::bucket_name(project.name.as_str())));
    r.push(("AWS_ACCESS_KEY_ID".to_owned(), project.id.clone()));
    r.push(("AWS_SECRET_ACCESS_KEY".to_owned(), secret.to_owned()));
    r.push(("AWS_REGION".to_owned(), "us-east-1".to_owned()));
    r.push(("PORT".to_owned(), text::decimal_of_signed(project.port)));
    r.push(("APP_NAME".to_owned(), project.name.clone()));
    let ghost first = r@;
    assert(assignments(first) =~= provided(*config, *project, secret@));
    match dotenv_content {
        Some(content) => {
            let mut own = parse_dotenv(content.as_str());
            let ghost second = own@;
            r.append(&mut own);
            assert(assignments(r@) =~= assignments(first) + assignments(second));
        },
        None => {
            assert(assignments(first) + Seq::empty() =~= assignments(first));
        },
    }
    r
}

/// No assignment of a `.env` file sets `PORT`.
proof fn lemma_port_not_set(lines: Seq<Seq<char>>, i: int)
    requires
        0 <= i < assignments_in(lines).len(),
    ensures
        assignments_in(lines)[i].0 != "PORT"@,
    decreases lines.len(),
{
    if lines.len() > 0 {
        if i < assignments_in(lines.drop_last()).len() {
            lemma_port_not_set(lines.drop_last(), i);
        }
    }
}

/// A variable that the second list does not set keeps what the first list left it at; one that it
/// sets is left at what the second list alone leaves it at.
proof fn lemma_environment_of_both(first: Seq<Assignment>, second: Seq<Assignment>, k: Seq<char>)
    ensures
        ({
            let both = environment(first + second);
            if environment(second).contains_key(k) {
                both.contains_key(k) && both[k] == environment(second)[k]
            } else {
                both.contains_key(k) == environment(first).contains_key(k) && (both.contains_key(k)
                    ==> both[k] == environment(first)[k])
            }
        }),
    decreases second.len(),
{
    if second.len() == 0 {
        assert(first + second =~= first);
    } else {
        assert((first + second).drop_last() =~= first + second.drop_last());
        assert((first + second).last() == second.last());
        lemma_environment_of_both(first, second.drop_last(), k);
    }
}

/// A list that assigns nothing to a variable leaves it unset.
proof fn lemma_environment_without(list: Seq<Assignment>, k: Seq<char>)
    requires
        forall|i: int| 0 <= i < list.len() ==> (#[trigger] list[i]).0 != k,
    ensures
        !environment(list).contains_key(k),
    decreases list.len(),
{
    if list.len() > 0 {
        lemma_environment_without(list.drop_last(), k);
        assert(list.last() == list[list.len() - 1]);
    }
}

/// Whatever a project's `.env` file says, `PORT` is the project's port.
pub proof fn law_port_is_the_projects(
    config: Config,
    project: Project,
    secret: Seq<char>,
    content: Option<String>,
)
    ensures
        ({
            let env = environment(provided(config, project, secret) + dotenv(content));
            env.contains_key("PORT"@) && env["PORT"@] == text::decimal_int(project.port as int)
        }),
{
    let first = provided(config, project, secret);
    let second = dotenv(content);
    assert forall|i: int| 0 <= i < second.len() implies (#[trigger] second[i]).0 != "PORT"@ by {
        lemma_port_not_set(text::lines_of(content->0@), i);
    }
    lemma_environment_without(second, "PORT"@);
    lemma_environment_of_both(first, second, "PORT"@);
    reveal_strlit("PORT");
    reveal_strlit("APP_NAME");
    assert("PORT"@.len() == 4 && "APP_NAME"@.len() == 8);
    let upto = first.drop_last();
    assert(upto.last() == ("PORT"@, text::decimal_int(project.port as int)));
    assert(first.last().0 == "APP_NAME"@);
    assert(environment(first) == environment(upto).insert("APP_NAME"@, project.name@));
    assert(environment(upto) == environment(upto.drop_last()).insert(
        "PORT"@,
        text::decimal_int(project.port as int),
    ));
}

/// Each variable but `PORT` that a project's `.env` file sets has the value that the file gives it
/// last; each one that the file does not set has the provided value, if it is one of those.
pub proof fn law_dotenv_overrides(
    config: Config,
    project: Project,
    secret: Seq<char>,
    content: Option<String>,
    k: Seq<char>,
)
    ensures
        ({
            let own = environment(dotenv(content));
            let given = environment(provided(config, project, secret));
            let env = environment(provided(config, project, secret) + dotenv(content));
            if own.contains_key(k) {
                env.contains_key(k) && env[k] == own[k]
            } else {
                env.contains_key(k) == given.contains_key(k) && (given.contains_key(k) ==> env[k]
                    == given[k])
            }
        }),
{
    lemma_environment_of_both(provided(config, project, secret), dotenv(content), k);
}

/// A line that sets a variable other than `PORT` sets it to exactly what stands behind the first
/// `=`, whatever that holds: more of `=`, a `#`, quotes or spaces inside it. White space around the
/// variable, around the value and around the line does not count.
pub proof fn law_line_assigns(
    a: Seq<char>,
    k: Seq<char>,
    b: Seq<char>,
    c: Seq<char>,
    v: Seq<char>,
    d: Seq<char>,
)
    requires
        k.len() > 0,
        !k.contains('='),
        k[0] != '#',
        k != "PORT"@,
        !text::is_white_space(k[0]) && !text::is_white_space(k.last()),
        v.len() > 0 ==> !text::is_white_space(v[0]) && !text::is_white_space(v.last()),
        forall|i: int| 0 <= i < a.len() ==> text::is_white_space(#[trigger] a[i]),
        forall|i: int| 0 <= i < b.len() ==> text::is_white_space(#[trigger] b[i]),
        forall|i: int| 0 <= i < c.len() ==> text::is_white_space(#[trigger] c[i]),
        forall|i: int| 0 <= i < d.len() ==> text::is_white_space(#[trigger] d[i]),
    ensures
        assignment_of(k + "="@ + v) == Some((k, v)),
        assignment_of(a + k + b + "="@ + c + v + d) == Some((k, v)),
{
    reveal_strlit("=");
    let none = Seq::<char>::empty();
    lemma_tight_line_assigns(k, none, none, v);
    assert(k + none + "="@ + none + v =~= k + "="@ + v);
    let line = a + k + b + "="@ + c + v + d;
    if v.len() > 0 {
        let inner = k + b + "="@ + c + v;
        assert(line =~= a + inner + d);
        assert(inner[0] == k[0]);
        assert(inner.last() == v.last());
        text_laws::law_trimmed_inside(a, inner, d);
        text::lemma_trimmed_already(inner);
        lemma_tight_line_assigns(k, b, c, v);
    } else {
        let inner = k + b + "="@;
        let behind = c + d;
        assert(line =~= a + inner + behind);
        assert(inner[0] == k[0]);
        assert(inner.last() == '=');
        assert forall|i: int| 0 <= i < behind.len() implies text::is_white_space(
            #[trigger] behind[i],
        ) by {
            if i < c.len() {
                assert(behind[i] == c[i]);
            } else {
                assert(behind[i] == d[i - c.len()]);
            }
        }
        text_laws::law_trimmed_inside(a, inner, behind);
        text::lemma_trimmed_already(inner);
        lemma_tight_line_assigns(k, b, none, v);
        assert(k + b + "="@ + none + v =~= inner);
    }
}

/// A line without white space around it sets a variable to what stands behind the first `=`.
proof fn lemma_tight_line_assigns(k: Seq<char>, b: Seq<char>, c: Seq<char>, v: Seq<char>)
    requires
        k.len() > 0,
        !k.contains('='),
        k[0] != '#',
        k != "PORT"@,
        !text::is_white_space(k[0]) && !text::is_white_space(k.last()),
        v.len() > 0 ==> !text::is_white_space(v[0]) && !text::is_white_space(v.last()),
        v.len() == 0 ==> c.len() == 0,
        forall|i: int| 0 <= i < b.len() ==> text::is_white_space(#[trigger] b[i]),
        forall|i: int| 0 <= i < c.len() ==> text::is_white_space(#[trigger] c[i]),
    ensures
        assignment_of(k + b + "="@ + c + v) == Some((k, v)),
{
    reveal_strlit("=");
    let none = Seq::<char>::empty();
    let line = k + b + "="@ + c + v;
    let name = k + b;
    let value = c + v;
    assert(line[0] == k[0]);
    assert(line.last() == (if v.len() > 0 {
        v.last()
    } else {
        '='
    }));
    text::lemma_trimmed_already(line);
    assert forall|i: int| 0 <= i < name.len() implies name[i] != '=' by {
        if i < k.len() {
            assert(k.contains(name[i]));
        } else {
            assert(name[i] == b[i - k.len()]);
        }
    }
    text_laws::law_cut_once(name, value, '=');
    assert(line =~= name + seq!['='] + value);
    assert(none + k + b =~= name);
    text_laws::law_trimmed_inside(none, k, b);
    assert(c + v + none =~= value);
    text_laws::law_trimmed_inside(c, v, none);
}

/// Blank lines, comments and lines without `=` set nothing, and no line sets `PORT`.
pub proof fn law_line_sets_nothing(a: Seq<char>, s: Seq<char>, v: Seq<char>)
    requires
        forall|i: int| 0 <= i < a.len() ==> text::is_white_space(#[trigger] a[i]),
    ensures
        assignment_of(a) is None,
        assignment_of(a + "#"@ + s) is None,
        !s.contains('=') ==> assignment_of(s) is None,
        assignment_of("PORT="@ + v) is None,
{
    text::lemma_blank_is_trimmed_away(a);
    reveal_strlit("#");
    let comment = a + "#"@ + s;
    lemma_comment_stays(a, s);
    if !s.contains('=') {
        let t = text::trimmed(s);
        text::law_trimmed(s);
        assert forall|i: int| 0 <= i < t.len() implies t[i] != '=' by {
            let (x, y) = choose|x: int, y: int|
                0 <= x <= y <= s.len() && t == #[trigger] s.subrange(x, y);
            assert(t[i] == s[x + i]);
            assert(s.contains(s[x + i]));
        }
        text_laws::law_cut_once(t, Seq::empty(), '=');
    }
    reveal_strlit("PORT=");
    reveal_strlit("PORT");
    let line = "PORT="@ + v;
    text::law_trimmed(line);
    let t = text::trimmed(line);
    let (x, y) = choose|x: int, y: int|
        {
            &&& 0 <= x <= y <= line.len()
            &&& t == #[trigger] line.subrange(x, y)
            &&& forall|i: int|
                0 <= i < x || y <= i < line.len() ==> text::is_white_space(#[trigger] line[i])
        };
    assert(line[0] == 'P' && line[4] == '=');
    assert(x == 0);
    assert(y >= 5);
    let rest = line.subrange(5, y);
    let port = "PORT"@;
    assert(t =~= port + seq!['='] + rest);
    assert(!port.contains('='));
    text_laws::law_cut_once(port, rest, '=');
    text::lemma_trimmed_already(port);
}

proof fn lemma_comment_stays(a: Seq<char>, s: Seq<char>)
    requires
        forall|i: int| 0 <= i < a.len() ==> text::is_white_space(#[trigger] a[i]),
    ensures
        assignment_of(a + "#"@ + s) is None,
{
    reveal_strlit("#");
    let line = a + "#"@ + s;
    let n = a.len() as int;
    text::law_trimmed(line);
    let t = text::trimmed(line);
    let (x, y) = choose|x: int, y: int|
        {
            &&& 0 <= x <= y <= line.len()
            &&& t == #[trigger] line.subrange(x, y)
            &&& forall|i: int|
                0 <= i < x || y <= i < line.len() ==> text::is_white_space(#[trigger] line[i])
        };
    assert(line[n] == '#');
    assert(x <= n < y);
    assert(t[0] == line[x]);
    if x < n {
        assert(line[x] == a[x]);
    }
}

/// A `.env` file that consists of one line makes the assignment of that line, and of several, the
/// assignments of each in their order.
pub proof fn law_dotenv_by_lines(line: Seq<char>, rest: Seq<char>)
    requires
        !line.contains('\n'),
    ensures
        !(line.len() > 0 && line.last() == '\r') ==> assignments_in(
            text::lines_of(line + seq!['\n'] + rest),
        ) == assignments_in(seq![line]) + assignments_in(text::lines_of(rest)),
        assignments_in(text::lines_of(line + seq!['\r', '\n'] + rest)) == assignments_in(seq![line])
            + assignments_in(text::lines_of(rest)),
        line.len() > 0 ==> assignments_in(text::lines_of(line)) == assignments_in(seq![line]),
        assignments_in(seq![line]) == (match assignment_of(line) {
            Some(a) => seq![a],
            None => Seq::empty(),
        }),
{
    text_laws::law_lines(line, rest);
    lemma_assignments_of_both(seq![line], text::lines_of(rest));
    assert(seq![line].drop_last() =~= Seq::<Seq<char>>::empty());
    assert(assignments_in(seq![line].drop_last()) =~= Seq::empty());
}

proof fn lemma_assignments_of_both(first: Seq<Seq<char>>, second: Seq<Seq<char>>)
    ensures
        assignments_in(first + second) == assignments_in(first) + assignments_in(second),
    decreases second.len(),
{
    if second.len() == 0 {
        assert(first + second =~= first);
    } else {
        assert((first + second).drop_last() =~= first + second.drop_last());
        assert((first + second).last() == second.last());
        lemma_assignments_of_both(first, second.drop_last());
    }
}

/// What a list of assignments leaves a variable at is the last value that it gives it.
pub proof fn law_last_assignment_counts(
    before: Seq<Assignment>,
    k: Seq<char>,
    v: Seq<char>,
    after: Seq<Assignment>,
)
    requires
        forall|i: int| 0 <= i < after.len() ==> (#[trigger] after[i]).0 != k,
    ensures
        ({
            let env = environment(before + seq![(k, v)] + after);
            env.contains_key(k) && env[k] == v
        }),
{
    let list = before + seq![(k, v)];
    lemma_environment_without(after, k);
    lemma_environment_of_both(list, after, k);
    assert(list.last() == (k, v));
}

/// What a project finds in its environment where its `.env` file does not say otherwise: its own
/// database, its own bucket on its own S3 server, which listens ten thousand ports above the
/// project, its own keys, its port and its name.
pub proof fn law_provided_environment(config: Config, project: Project, secret: Seq<char>)
    ensures
        ({
            let env = environment(provided(config, project, secret));
            &&& env.dom() =~= set![
                "DATABASE_URL"@,
                "S3_ENDPOINT"@,
                "S3_BUCKET"@,
                "AWS_ACCESS_KEY_ID"@,
                "AWS_SECRET_ACCESS_KEY"@,
                "AWS_REGION"@,
                "PORT"@,
                "APP_NAME"@,
            ]
            &&& env["DATABASE_URL"@] == "sqlite://"@ + paths::joined(
                config.spec_project_data_dir(project.name@),
                "app.db"@,
            )
            &&& 0 <= project.port <= 55_535 ==> env["S3_ENDPOINT"@] == "http://127.0.0.1:"@
                + text::decimal_int(project.port + 10_000)
            &&& env["S3_BUCKET"@] == "bucket-"@ + project.name@
            &&& env["AWS_ACCESS_KEY_ID"@] == project.id@
            &&& env["AWS_SECRET_ACCESS_KEY"@] == secret
            &&& env["AWS_REGION"@] == "us-east-1"@
            &&& env["PORT"@] == text::decimal_int(project.port as int)
            &&& env["APP_NAME"@] == project.name@
        }),
{
    let list = provided(config, project, secret);
    lemma_names_differ();
    let l7 = list.drop_last();
    let l6 = l7.drop_last();
    let l5 = l6.drop_last();
    let l4 = l5.drop_last();
    let l3 = l4.drop_last();
    let l2 = l3.drop_last();
    let l1 = l2.drop_last();
    assert(l1.drop_last() =~= Seq::empty());
    assert(environment(l1.drop_last()) == Map::<Seq<char>, Seq<char>>::empty());
    assert(environment(l1) == environment(l1.drop_last()).insert(list[0].0, list[0].1));
    assert(environment(l2) == environment(l1).insert(list[1].0, list[1].1));
    assert(environment(l3) == environment(l2).insert(list[2].0, list[2].1));
    assert(environment(l4) == environment(l3).insert(list[3].0, list[3].1));
    assert(environment(l5) == environment(l4).insert(list[4].0, list[4].1));
    assert(environment(l6) == environment(l5).insert(list[5].0, list[5].1));
    assert(environment(l7) == environment(l6).insert(list[6].0, list[6].1));
    assert(environment(list) == environment(l7).insert(list[7].0, list[7].1));
}

proof fn lemma_names_differ()
    ensures
        "DATABASE_URL"@.len() == 12 && "S3_ENDPOINT"@.len() == 11 && "S3_BUCKET"@.len() == 9
            && "AWS_ACCESS_KEY_ID"@.len() == 17 && "AWS_SECRET_ACCESS_KEY"@.len() == 21
            && "AWS_REGION"@.len() == 10 && "PORT"@.len() == 4 && "APP_NAME"@.len() == 8,
{
    reveal_strlit("DATABASE_URL");
    reveal_strlit("S3_ENDPOINT");
    reveal_strlit("S3_BUCKET");
    reveal_strlit("AWS_ACCESS_KEY_ID");
    reveal_strlit("AWS_SECRET_ACCESS_KEY");
    reveal_strlit("AWS_REGION");
    reveal_strlit("PORT");
    reveal_strlit("APP_NAME");
}

/// A project has an S3 port exactly where there is one ten thousand above its own, and that is it.
pub proof fn law_s3_port(port: i64)
    requires
        0 <= port <= u16::MAX,
    ensures
        has_s3_port(port) <==> port + 10_000 <= 65_535,
        s3_port_of(port) == port + 10_000,
{
}

// ---------------------------------------------------------------------------------------------
// The plan
// ---------------------------------------------------------------------------------------------

/// True where a memory limit can be told in bytes.
pub open spec fn limit_fits(limit_mb: Option<i64>) -> bool {
    match limit_mb {
        Some(mb) => #[verifier::truncate] (mb as u64) * 1_048_576 <= u64::MAX,
        None => true,
    }
}

/// A memory limit in bytes.
pub open spec fn limit_bytes(limit_mb: Option<i64>) -> Option<int> {
    match limit_mb {
        Some(mb) => Some(#[verifier::truncate] (mb as u64) * 1_048_576),
        None => None,
    }
}

/// True for a project that can be started: it has an S3 port, and its memory limit can be told in
/// bytes.
pub open spec fn startable(project: Project) -> bool {
    has_s3_port(project.port) && limit_fits(project.ram_limit_mb)
}

/// True for a project that can be started.
pub fn can_start(project: &Project) -> (r: bool)
    ensures
        r == startable(*project),
{
    let fits = match project.ram_limit_mb {
        Some(mb) => {
            let n: u64 = #[verifier::truncate] (mb as u64);
            n <= 17_592_186_044_415
        },
        None => true,
    };
    s3_port_exists(project.port) && fits
}

/// What was found on disk before a project is started.
#[derive(Debug)]
pub struct Surroundings {
    /// What the directory of the project's binary holds, if it is there.
    pub bin_entries: Option<Vec<Entry>>,
    /// Size of the log file; 0 where there is none.
    pub log_size: u64,
    /// Contents of the project's `.env` file, if it could be read.
    pub dotenv: Option<String>,
    /// True where the project has a workspace.
    pub has_workspace: bool,
}

/// How to start a project's process.
#[derive(Debug)]
pub struct LaunchPlan {
    /// Path of the binary.
    pub binary: String,
    /// Directory to run it in; that of the host where there is none.
    pub current_dir: Option<String>,
    /// Variables to set, in order.
    pub env: Vec<(String, String)>,
    /// Limit of its memory in bytes, if it has one.
    pub ram_limit: Option<u64>,
    /// File that its output is appended to.
    pub log_path: String,
    /// Changes on disk to make before that file is opened.
    pub log_ops: Vec<FileOp>,
    /// Port of its S3 server.
    pub s3_port: u16,
    /// Access key of its S3 server.
    pub s3_access_key: String,
}

impl LaunchPlan {
    /// True for the plan that starts a project with the given binary.
    pub open spec fn starts(
        self,
        config: Config,
        project: Project,
        found: Surroundings,
        secret: Seq<char>,
        binary: Seq<char>,
    ) -> bool {
        &&& self.binary@ == binary
        &&& tree::opt_view(self.current_dir) == (if found.has_workspace {
            Some(config.spec_project_workspace_dir(project.name@))
        } else {
            None
        })
        &&& assignments(self.env@) == provided(config, project, secret) + dotenv(found.dotenv)
        &&& match self.ram_limit {
            Some(bytes) => limit_bytes(project.ram_limit_mb) == Some(bytes as int),
            None => project.ram_limit_mb is None,
        }
        &&& self.log_path@ == config.spec_project_log_path(project.name@)
        &&& logs::changes(self.log_ops@) == logs::rotation(self.log_path@, found.log_size)
        &&& self.s3_port == s3_port_of(project.port)
        &&& self.s3_access_key@ == project.id@
    }
}

/// The binary that a project is started with.
pub open spec fn binary_of(bin_dir: Seq<char>, entries: Option<Vec<Entry>>) -> Option<Seq<char>> {
    match entries {
        Some(found) => match bundle::first_executable(bin_dir, found@) {
            Some(path) => Some(path),
            None => bundle::first_regular(bin_dir, found@),
        },
        None => None,
    }
}

/// How to start a project's process, given what was found on disk and the project's S3 secret.
/// Fails where there is no binary to run.
pub fn spawn_process(
    config: &Config,
    project: &Project,
    found: &Surroundings,
    secret: &str,
) -> (r: Result<LaunchPlan, BinaryError>)
    requires
        startable(*project),
    ensures
        match binary_of(config.spec_project_bin_dir(project.name@), found.bin_entries) {
            Some(binary) => r matches Ok(plan) && plan.starts(
                *config,
                *project,
                *found,
                secret@,
                binary,
            ),
            None => match found.bin_entries {
                Some(_) => r matches Err(BinaryError::NoBinary(dir)) && dir@
                    == config.spec_project_bin_dir(project.name@),
                None => r matches Err(BinaryError::NoDirectory(dir)) && dir@
                    == config.spec_project_bin_dir(project.name@),
            },
        },
{
    let name = project.name.as_str();
    let bin_dir = config.project_bin_dir(name);
    let binary = match bundle::find_binary(bin_dir.as_str(), found.bin_entries.as_ref()) {
        Ok(path) => path,
        Err(e) => return Err(e),
    };
    let current_dir = if found.has_workspace {
        Some(config.project_workspace_dir(name))
    } else {
        None
    };
    let env = process_env(config, project, secret, found.dotenv.as_ref());
    let ram_limit = match project.ram_limit_mb {
        Some(mb) => Some(#[verifier::truncate] (mb as u64) * 1_048_576),
        None => None,
    };
    let log_path = config.project_log_path(name);
    let log_ops = logs::rotate_log_if_needed(log_path.as_str(), found.log_size);
    Ok(
        LaunchPlan {
            binary,
            current_dir,
            env,
            ram_limit,
            log_path,
            log_ops,
            s3_port: s3_port(project.port),
            s3_access_key: project.id.clone(),
        },
    )
}

/// What a process is started with: the binary that was found, the workspace as its directory where
/// the project has one, the project's own log, and its memory limit in bytes, where it has one. Its
/// S3 server listens ten thousand ports above the project and takes the project's identifier as
/// the access key.
pub proof fn law_plan(
    plan: LaunchPlan,
    config: Config,
    project: Project,
    found: Surroundings,
    secret: Seq<char>,
    binary: Seq<char>,
)
    requires
        plan.starts(config, project, found, secret, binary),
        startable(project),
    ensures
        plan.binary@ == binary,
        plan.current_dir is Some <==> found.has_workspace,
        plan.current_dir matches Some(dir) ==> dir@ == config.spec_project_workspace_dir(
            project.name@,
        ),
        plan.ram_limit is Some <==> project.ram_limit_mb is Some,
        plan.ram_limit matches Some(bytes) ==> (project.ram_limit_mb matches Some(mb) && (mb >= 0
            ==> bytes == mb * 1024 * 1024)),
        plan.log_path@ == config.spec_project_log_path(project.name@),
        found.log_size < logs::LOG_MAX_BYTES ==> plan.log_ops@.len() == 0,
        0 <= project.port <= 55_535 ==> plan.s3_port == project.port + 10_000,
        plan.s3_access_key@ == project.id@,
        environment(assignments(plan.env@)).contains_key("PORT"@),
        environment(assignments(plan.env@))["PORT"@] == text::decimal_int(project.port as int),
        found.dotenv is None ==> assignments(plan.env@) == provided(config, project, secret),
        found.dotenv matches Some(content) ==> assignments(plan.env@) == provided(
            config,
            project,
            secret,
        ) + assignments_in(text::lines_of(content@)),
{
    law_port_is_the_projects(config, project, secret, found.dotenv);
    assert(provided(config, project, secret) + Seq::empty() =~= provided(config, project, secret));
    assert(logs::changes(plan.log_ops@).len() == plan.log_ops@.len());
}

/// A project can be started exactly where its S3 port exists and its memory limit, told in bytes,
/// is a number that the host can hold.
pub proof fn law_startable(project: Project)
    requires
        0 <= project.port <= u16::MAX,
        project.ram_limit_mb matches Some(mb) ==> mb >= 0,
    ensures
        startable(project) <==> project.port + 10_000 <= 65_535 && (
        project.ram_limit_mb matches Some(mb) ==> mb * 1024 * 1024 < 0x1_0000_0000_0000_0000),
{
}

/// A secret that is there is used as it is. Where none is, the new one is used, and written to the
/// file only where there is no file.
pub proof fn law_secret(
    secret: String,
    fresh: String,
    held: (String, bool),
    missing: (String, bool),
    unreadable: (String, bool),
)
    requires
        call_ensures(secret_from, (SecretFile::Holds(secret), fresh), held),
        call_ensures(secret_from, (SecretFile::Missing, fresh), missing),
        call_ensures(secret_from, (SecretFile::Unreadable, fresh), unreadable),
    ensures
        held.0 == secret && !held.1,
        missing.0 == fresh && missing.1,
        unreadable.0 == fresh && !unreadable.1,
{
}

/// A secret that is drawn for a project is random, and one that is there stays.
pub proof fn law_drawn_secret(
    secret: String,
    held: (String, bool),
    missing: (String, bool),
    unreadable: (String, bool),
)
    requires
        call_ensures(s3_secret, (SecretFile::Holds(secret),), held),
        call_ensures(s3_secret, (SecretFile::Missing,), missing),
        call_ensures(s3_secret, (SecretFile::Unreadable,), unreadable),
    ensures
        held.0 == secret && !held.1,
        ident::is_uuid(missing.0@) && missing.1,
        ident::is_uuid(unreadable.0@) && !unreadable.1,
{
}

/// What a `.env` file is read to is the assignments that its lines make: one of a single line that
/// sets a variable is that variable and that value.
pub proof fn law_read_dotenv(
    content: &str,
    k: Seq<char>,
    v: Seq<char>,
    r: Vec<(String, String)>,
)
    requires
        call_ensures(parse_dotenv, (content,), r),
        content@ == k + "="@ + v,
        k.len() > 0,
        !k.contains('='),
        k[0] != '#',
        k != "PORT"@,
        !text::is_white_space(k[0]) && !text::is_white_space(k.last()),
        v.len() > 0 ==> !text::is_white_space(v[0]) && !text::is_white_space(v.last()),
        !k.contains('\n') && !v.contains('\n'),
    ensures
        r@.len() == 1,
        r@[0].0@ == k,
        r@[0].1@ == v,
{
    reveal_strlit("=");
    let none = Seq::<char>::empty();
    law_line_assigns(none, k, none, none, v, none);
    let line = content@;
    assert forall|i: int| 0 <= i < line.len() implies line[i] != '\n' by {
        if i < k.len() {
            assert(k.contains(line[i]));
        } else if i > k.len() {
            assert(v.contains(line[i]));
        }
    }
    law_dotenv_by_lines(line, none);
    assert(assignments(r@) == seq![(k, v)]);
    assert(assignments(r@).len() == r@.len());
    assert(assignments(r@)[0] == (r@[0].0@, r@[0].1@));
}

/// A project is started exactly where there is something to start it with, and what is missing is
/// told by the directory that was searched.
pub proof fn law_spawn(
    config: Config,
    project: Project,
    found: Surroundings,
    secret: &str,
    r: Result<LaunchPlan, BinaryError>,
)
    requires
        call_ensures(spawn_process, (&config, &project, &found, secret), r),
    ensures
        ({
            let dir = config.spec_project_bin_dir(project.name@);
            &&& r is Ok <==> binary_of(dir, found.bin_entries) is Some
            &&& r matches Ok(plan) ==> plan.starts(
                config,
                project,
                found,
                secret@,
                binary_of(dir, found.bin_entries)->Some_0,
            )
            &&& r matches Err(BinaryError::NoDirectory(told)) ==> found.bin_entries is None && told@
                == dir
            &&& r matches Err(BinaryError::NoBinary(told)) ==> found.bin_entries is Some && told@
                == dir
        }),
{
}

/// The files of a project that are kept beside its data: its variables, its database and its
/// secret, in the data directory of that project.
pub proof fn law_data_files(
    config: Config,
    name: &str,
    env: String,
    database: String,
    secret: String,
)
    requires
        call_ensures(env_path, (&config, name), env),
        call_ensures(database_path, (&config, name), database),
        call_ensures(secret_path, (&config, name), secret),
        paths::is_component(name@),
    ensures
        env@ == config.spec_project_data_dir(name@) + "/.env"@,
        database@ == config.spec_project_data_dir(name@) + "/app.db"@,
        secret@ == config.spec_project_data_dir(name@) + "/.s3_secret"@,
{
    crate::config::lemma_project_dir(config, name@);
    let dir = config.spec_project_data_dir(name@);
    reveal_strlit("data");
    assert(dir.last() == 'a');
    reveal_strlit(".env");
    reveal_strlit("/.env");
    assert(dir.push('/') + ".env"@ =~= dir + "/.env"@);
    reveal_strlit("app.db");
    reveal_strlit("/app.db");
    assert(dir.push('/') + "app.db"@ =~= dir + "/app.db"@);
    reveal_strlit(".s3_secret");
    reveal_strlit("/.s3_secret");
    assert(dir.push('/') + ".s3_secret"@ =~= dir + "/.s3_secret"@);
}

} // verus!
