//! What holds of refusals, of names and ports, of credentials and of the web server's file.

use vstd::prelude::*;
use vstd::string::*;

use crate::api::access;
use crate::api::access::{AccessStep, AdminStep};
use crate::api::backup;
use crate::api::caddy;
use crate::api::deploy;
use crate::api::deploy::{
    Action, Command, CustomDomainPayload, DeployResponse, Event, Reply, ResourceLimitsPayload, Stage,
    UpdateEnvPayload,
};
use crate::api::form;
use crate::api::form::{DeployForm, FormField, Upload};
use crate::api::refusal::Refusal;
use crate::db::models::Project;
use crate::runner::bundle;
use crate::text;
use crate::text_laws;

verus! {

// ---------------------------------------------------------------------------------------------
// Refusals
// ---------------------------------------------------------------------------------------------

/// A refusal that has a cause tells it, whatever it is, behind the same words.
pub proof fn law_refusals_tell_the_cause(e: String, none: String)
    requires
        none@.len() == 0,
    ensures
        Refusal::Failed(e).text() == e@,
        Refusal::BinaryUnreadable(e).text() == Refusal::BinaryUnreadable(none).text() + e@,
        Refusal::NameUnreadable(e).text() == Refusal::NameUnreadable(none).text() + e@,
        Refusal::NotExtracted(e).text() == Refusal::NotExtracted(none).text() + e@,
        Refusal::NotWritten(e).text() == Refusal::NotWritten(none).text() + e@,
        Refusal::PortsUnknown(e).text() == Refusal::PortsUnknown(none).text() + e@,
        Refusal::NotStored(e).text() == Refusal::NotStored(none).text() + e@,
        Refusal::RedeployFailed(e).text() == Refusal::RedeployFailed(none).text() + e@,
        Refusal::DeployFailed(e).text() == Refusal::DeployFailed(none).text() + e@,
        Refusal::RestartFailed(e).text() == Refusal::RestartFailed(none).text() + e@,
        Refusal::BackupFailed(e).text() == Refusal::BackupFailed(none).text() + e@,
        Refusal::BackupTaskFailed(e).text() == Refusal::BackupTaskFailed(none).text() + e@,
        Refusal::BackupUnreadable(e).text() == Refusal::BackupUnreadable(none).text() + e@,
        Refusal::NoDataDir(e).text() == Refusal::NoDataDir(none).text() + e@,
        Refusal::EnvNotSaved(e).text() == Refusal::EnvNotSaved(none).text() + e@,
        Refusal::EnvRestartFailed(e).text() == Refusal::EnvRestartFailed(none).text() + e@,
        Refusal::SnapshotUnreadable(e).text() == Refusal::SnapshotUnreadable(none).text() + e@,
        Refusal::NotRestored(e).text() == Refusal::NotRestored(none).text() + e@,
        Refusal::RollbackFailed(e).text() == Refusal::RollbackFailed(none).text() + e@,
        Refusal::LimitRestartFailed(e).text() == Refusal::LimitRestartFailed(none).text() + e@,
{
}

/// What is refused without a cause of its own is told in the same words each time.
pub proof fn law_refusals_without_a_cause()
    ensures
        Refusal::Unauthenticated.text().is_prefix_of(Refusal::UnauthenticatedDeploy.text()),
        Refusal::DeployInProgress.text()
            == "A deploy is already in progress. Please wait and try again."@,
        Refusal::TooLarge.text() == "Upload exceeds 100 MB limit"@,
        Refusal::MissingBinary.text() == "Missing 'binary' field"@,
        Refusal::MissingName.text() == "Missing or empty 'name' field"@,
        Refusal::OwnedByAnother.text() == "A project with this name is owned by another user"@,
        Refusal::NoProject.text() == "Project not found"@,
        Refusal::NoDatabase.text() == "No database found for this project"@,
        Refusal::NoDeploy.text() == "Deploy entry not found"@,
        Refusal::NoSnapshot.text() == "Snapshot file not found on disk"@,
{
    reveal_strlit("Authentication required");
    reveal_strlit("Authentication required. Provide a valid session cookie or Bearer API key.");
    let short = "Authentication required"@;
    let long = "Authentication required. Provide a valid session cookie or Bearer API key."@;
    assert(long.subrange(0, short.len() as int) =~= short);
}

/// What failed is told before the cause, each failure in its own words.
pub proof fn law_refusals_with_a_cause(e: String)
    ensures
        Refusal::BinaryUnreadable(e).text() == "Failed to read binary: "@ + e@,
        Refusal::NameUnreadable(e).text() == "Failed to read name: "@ + e@,
        Refusal::NotExtracted(e).text() == "Failed to extract bundle: "@ + e@,
        Refusal::NotWritten(e).text() == "Failed to write binary: "@ + e@,
        Refusal::NotStored(e).text() == "DB error: "@ + e@,
        Refusal::RedeployFailed(e).text() == "Failed to restart process: "@ + e@,
        Refusal::DeployFailed(e).text() == "Failed to start process: "@ + e@,
        Refusal::RestartFailed(e).text() == "Restart failed: "@ + e@,
        Refusal::BackupFailed(e).text() == "Backup failed: "@ + e@,
        Refusal::BackupTaskFailed(e).text() == "Backup task failed: "@ + e@,
        Refusal::BackupUnreadable(e).text() == "Failed to read backup: "@ + e@,
        Refusal::NoDataDir(e).text() == "Failed to create data dir: "@ + e@,
        Refusal::EnvNotSaved(e).text() == "Failed to save .env: "@ + e@,
        Refusal::EnvRestartFailed(e).text() == "Saved but restart failed: "@ + e@,
        Refusal::SnapshotUnreadable(e).text() == "Failed to read snapshot: "@ + e@,
        Refusal::NotRestored(e).text() == "Failed to restore binary: "@ + e@,
        Refusal::RollbackFailed(e).text() == "Rollback failed to restart: "@ + e@,
        Refusal::LimitRestartFailed(e).text() == "Limit saved but restart failed: "@ + e@,
{
}

/// A refusal for want of a port names the range that was searched.
pub proof fn law_no_port_names_the_range(start: u16, end: u16, none: String)
    requires
        none@.len() == 0,
    ensures
        (Refusal::NoPort { start, end }).text() == Refusal::PortsUnknown(none).text()
            + "No available ports in range "@ + text::decimal_int(start as int) + "-"@
            + text::decimal_int(end as int),
{
    reveal_strlit("No ports available: ");
    reveal_strlit("No available ports in range ");
    reveal_strlit("No ports available: No available ports in range ");
    assert("No ports available: "@ + "No available ports in range "@
        =~= "No ports available: No available ports in range "@);
    assert("No ports available: "@ + none@ =~= "No ports available: "@);
}

/// The status of a refusal tells whose fault it is: who is not known is told so, and so is who
/// sends something that cannot be taken, who asks for what is not there, and who asks for what is
/// somebody else's. Everything else went wrong here.
pub proof fn law_status_tells_whose_fault(refusal: Refusal)
    ensures
        refusal.code() == 401 <==> refusal is Unauthenticated || refusal is UnauthenticatedDeploy,
        refusal.code() == 403 <==> refusal is OwnedByAnother,
        refusal.code() == 404 <==> refusal is NoProject || refusal is NoDatabase
            || refusal is NoDeploy || refusal is NoSnapshot,
        refusal.code() == 400 <==> refusal is MissingBinary || refusal is MissingName
            || refusal is InvalidName || refusal is BinaryUnreadable || refusal is NameUnreadable,
        refusal.code() == 413 <==> refusal is TooLarge,
        refusal.code() == 503 <==> refusal is DeployInProgress || refusal is NoPort
            || refusal is PortsUnknown,
        refusal.code() == 500 || refusal.code() == 503 || refusal.code() < 500,
{
}

/// What makes a new project is answered as created, and everything else as done.
pub proof fn law_created_means_new(reply: Reply)
    ensures
        reply.code() == 201 <==> (reply matches Reply::Deployed { fresh, .. } && fresh),
        reply.code() == 201 || reply.code() == 200,
{
}

// ---------------------------------------------------------------------------------------------
// Names and ports
// ---------------------------------------------------------------------------------------------

/// A project's name is made of small letters, digits and hyphens, at least one of them, and
/// neither starts nor ends in a hyphen.
pub proof fn law_project_names(name: Seq<char>)
    ensures
        form::is_project_name(name) <==> {
            &&& name.len() > 0
            &&& name[0] != '-'
            &&& name[name.len() - 1] != '-'
            &&& forall|i: int|
                0 <= i < name.len() ==> {
                    ||| 97 <= (#[trigger] name[i]) as int <= 122
                    ||| 48 <= name[i] as int <= 57
                    ||| name[i] as int == 45
                }
        },
        form::is_project_name(name) <==> name.len() > 0 && form::is_well_spelled(name),
{
    if name.len() > 0 {
        assert(name.last() == name[name.len() - 1]);
    }
    if form::is_project_name(name) {
        assert forall|i: int| 0 <= i < name.len() implies {
            ||| 97 <= (#[trigger] name[i]) as int <= 122
            ||| 48 <= name[i] as int <= 57
            ||| name[i] as int == 45
        } by {
            assert(form::is_name_char(name[i]));
        }
    }
}

/// The name that a text stands for is its lower case without the white space around it, and with a
/// hyphen for each space inside.
pub proof fn law_name_meant(a: Seq<char>, s: Seq<char>, b: Seq<char>, i: int)
    requires
        forall|j: int| 0 <= j < a.len() ==> text::is_white_space(#[trigger] a[j]),
        forall|j: int| 0 <= j < b.len() ==> text::is_white_space(#[trigger] b[j]),
        s.len() > 0 ==> !text::is_white_space(s[0]) && !text::is_white_space(s.last()),
    ensures
        form::name_meant(a + s + b).len() == text::lowercase(s).len(),
        0 <= i < text::lowercase(s).len() ==> form::name_meant(a + s + b)[i] == (if text::lowercase(
            s,
        )[i] == ' ' {
            '-'
        } else {
            text::lowercase(s)[i]
        }),
{
    text_laws::law_trimmed_inside(a, s, b);
    lemma_hyphens(text::lowercase(s), i);
}

proof fn lemma_hyphens(s: Seq<char>, i: int)
    ensures
        text::substituted(s, ' ', "-"@).len() == s.len(),
        0 <= i < s.len() ==> text::substituted(s, ' ', "-"@)[i] == (if s[i] == ' ' {
            '-'
        } else {
            s[i]
        }),
    decreases s.len(),
{
    reveal_strlit("-");
    if s.len() > 0 {
        lemma_hyphens(s.drop_last(), i);
    }
}

/// A port is free exactly where no row has it, and the one that is given out is the lowest of the
/// range that is.
pub proof fn law_ports(port: u16, start: u16, end: u16, used: Seq<i64>)
    requires
        forall|i: int| 0 <= i < used.len() ==> 0 <= #[trigger] used[i] <= 65_535,
    ensures
        form::is_free(port, used) <==> !used.contains(port as i64),
        form::is_first_free(port, start, end, used) <==> {
            &&& start <= port <= end
            &&& !used.contains(port as i64)
            &&& forall|p: u16| start <= p < port ==> #[trigger] used.contains(p as i64)
        },
{
    assert forall|p: u16| #[trigger] form::is_free(p, used) == !used.contains(p as i64) by {
        if used.contains(p as i64) {
            let i = used.index_of(p as i64);
            assert(#[verifier::truncate] (used[i] as u16) == p);
        }
    }
    if form::is_first_free(port, start, end, used) {
        assert forall|p: u16| start <= p < port implies #[trigger] used.contains(p as i64) by {
            assert(!form::is_free(p, used));
        }
    }
}

/// A port that a row has low in its bits is not free either.
pub proof fn law_low_bits_count(used: Seq<i64>, i: int)
    requires
        0 <= i < used.len(),
    ensures
        !form::is_free(form::low_port(used[i]), used),
        0 <= used[i] <= 65_535 ==> form::low_port(used[i]) == used[i],
{
}

/// A field that cannot be taken changes nothing of the form and is told with its cause; one that
/// can is kept in its own place, the binary as it was sent and the name as what it stands for. A
/// binary can be taken up to a hundred megabytes, and fields of other names do not count.
pub proof fn law_fields(form: &mut DeployForm, field: FormField, r: Option<Refusal>)
    requires
        call_ensures(DeployForm::take, (form, field), r),
    ensures
        r is Some ==> *final(form) == *old(form),
        field is Other ==> *final(form) == *old(form) && r is None,
        field matches FormField::Binary(Ok(bytes)) ==> {
            &&& r is None <==> bytes@.len() <= 100 * 1024 * 1024
            &&& r is Some ==> r == Some(Refusal::TooLarge)
            &&& r is None ==> final(form).binary == Some(bytes) && final(form).name == old(form).name
        },
        field matches FormField::Name(Ok(name)) ==> {
            &&& r is None
            &&& final(form).binary == old(form).binary
            &&& final(form).name matches Some(kept)
            &&& kept@ == form::name_meant(name@)
        },
        field matches FormField::Binary(Err(e)) ==> r == Some(Refusal::BinaryUnreadable(e)),
        field matches FormField::Name(Err(e)) ==> r == Some(Refusal::NameUnreadable(e)),
{
}

/// An upload counts as a bundle exactly where its bytes start with 1f 8b: under that kind it is
/// saved, entered in the history and put in place.
pub proof fn law_bundles(upload: Upload, bytes: &[u8], r: bool, s: bool)
    requires
        call_ensures(Upload::is_bundle, (&upload,), r),
        call_ensures(bundle::is_gzip, (bytes,), s),
    ensures
        r <==> upload.binary@.len() >= 2 && upload.binary@[0] == 0x1f && upload.binary@[1] == 0x8b,
        s <==> bytes@.len() >= 2 && bytes@[0] == 0x1f && bytes@[1] == 0x8b,
{
}

/// A form is taken exactly where it has a binary and a proper name, and then it is taken as it is.
/// What is missing is told before what is misspelled, and the binary before the name.
pub proof fn law_form(form: DeployForm, r: Result<Upload, Refusal>)
    requires
        call_ensures(DeployForm::finish, (form,), r),
    ensures
        r matches Ok(upload) ==> {
            &&& form.binary == Some(upload.binary)
            &&& form.name == Some(upload.name)
            &&& form::is_project_name(upload.name@)
        },
        r is Ok <==> (form.binary is Some && (form.name matches Some(name) && form::is_project_name(
            name@,
        ))),
        r matches Err(refusal) ==> {
            &&& refusal is MissingBinary <==> form.binary is None
            &&& refusal is MissingName <==> (form.binary is Some && !(form.name matches Some(name)
                && name@.len() > 0))
            &&& refusal is InvalidName <==> (form.binary is Some && (form.name matches Some(name)
                && name@.len() > 0))
        },
{
}

// ---------------------------------------------------------------------------------------------
// Credentials
// ---------------------------------------------------------------------------------------------

/// A key is what stands behind `Bearer` and a space in the header, and nothing else is one.
pub proof fn law_bearer_key(header: &str, key: Seq<char>)
    ensures
        access::bearer_key(Some(header)) == Some(key) <==> header@ == "Bearer "@ + key,
        access::bearer_key(None) is None,
{
    let head = "Bearer "@;
    if access::bearer_key(Some(header)) == Some(key) {
        assert(header@ =~= head + key);
    }
    if header@ == head + key {
        assert(head.is_prefix_of(header@));
        assert(header@.skip(head.len() as int) =~= key);
    }
}

/// Who sent a request is found by the key in its header, where it has one, and else by its cookie.
/// Where the key is nobody's, the cookie is tried, and where the session is nobody's or cannot be
/// looked up, nobody is known.
pub proof fn law_credentials(
    header: Option<&str>,
    cookie: Option<&str>,
    found: Result<Option<String>, String>,
    first: AccessStep,
    second: AccessStep,
    third: AccessStep,
)
    requires
        call_ensures(access::authenticate, (header, cookie), first),
        call_ensures(access::after_key, (found, cookie), second),
        call_ensures(access::after_session, (found,), third),
    ensures
        access::bearer_key(header) matches Some(key) ==> (first matches AccessStep::FindKey(k) && k@
            == key),
        access::bearer_key(header) is None ==> (cookie matches Some(c) ==> (
        first matches AccessStep::FindSession(id) && id@ == c@)),
        access::bearer_key(header) is None && cookie is None ==> first is Unknown,
        found matches Ok(Some(user)) ==> second == AccessStep::Known(user) && third
            == AccessStep::Known(user),
        !(found matches Ok(Some(_))) ==> third is Unknown && (if cookie is Some {
            second matches AccessStep::FindSession(id) && id@ == cookie->0@
        } else {
            second is Unknown
        }),
{
}

// ---------------------------------------------------------------------------------------------
// Backups and the web server
// ---------------------------------------------------------------------------------------------

/// A backup is named after its project, where it is made and where it is sent.
pub proof fn law_backup_names(temp_dir: &str, name: &str, path: String, told: String)
    requires
        call_ensures(backup::backup_path, (temp_dir, name), path),
        call_ensures(backup::content_disposition, (name,), told),
        temp_dir@.len() > 0,
        temp_dir@.last() != '/',
        name@.len() > 0,
        name@[0] != '/',
    ensures
        path@ == temp_dir@ + "/"@ + name@ + "-backup.db"@,
        told@ == "attachment; filename=\""@ + name@ + "-backup.db\""@,
{
    reveal_strlit("-backup.db");
    reveal_strlit("-backup.db\"");
    reveal_strlit("\"");
    reveal_strlit("/");
    assert((name@ + "-backup.db"@)[0] == name@[0]);
    assert(temp_dir@.push('/') + (name@ + "-backup.db"@) =~= temp_dir@ + "/"@ + name@
        + "-backup.db"@);
    assert("attachment; filename=\""@ + (name@ + "-backup.db"@) + "\""@
        =~= "attachment; filename=\""@ + name@ + "-backup.db\""@);
}

/// The head of the web server's file sends the domain and all its subdomains to the platform's own
/// port, and each custom domain goes there, too, under a comment that names the project.
pub proof fn law_caddy_blocks(
    domain: Seq<char>,
    port: u16,
    name: Seq<char>,
    custom: Seq<char>,
)
    ensures
        ({
            let to = " {\n\treverse_proxy localhost:"@ + text::decimal_int(port as int) + "\n}\n"@;
            let site = caddy::caddy_site(name, custom, port);
            let head = caddy::caddy_head(domain, port);
            &&& site == "\n# Custom domain for project '"@ + name + "'\n"@ + custom + to
            &&& (domain + to).is_suffix_of(head)
            &&& exists|start: int|
                {
                    &&& 0 <= start <= start + ("*."@ + domain + to).len() <= head.len()
                    &&& #[trigger] head.subrange(start, start + ("*."@ + domain + to).len()) == "*."@
                        + domain + to
                }
        }),
{
    let digits = text::decimal(port as nat);
    let to = " {\n\treverse_proxy localhost:"@ + digits + "\n}\n"@;
    assert(caddy::caddy_site(name, custom, port) =~= "\n# Custom domain for project '"@ + name
        + "'\n"@ + custom + to);
    let head = caddy::caddy_head(domain, port);
    let intro =
        "# RustPaaS — generated Caddyfile\n# Place this at /etc/caddy/Caddyfile and run: systemctl reload caddy\n\n# Wildcard cert covers all app subdomains\n*."@;
    let mid = "\n}\n\n# Main dashboard\n"@;
    let last = domain + to;
    reveal_strlit("*.");
    reveal_strlit("\n}\n");
    reveal_strlit("\n}\n\n# Main dashboard\n");
    reveal_strlit("# RustPaaS — generated Caddyfile\n# Place this at /etc/caddy/Caddyfile and run: systemctl reload caddy\n\n# Wildcard cert covers all app subdomains\n*.");
    let opening = " {\n\treverse_proxy localhost:"@;
    assert(head =~= intro + domain + opening + digits + mid + last);
    assert(head.subrange(head.len() - last.len(), head.len() as int) =~= last);
    let block = "*."@ + domain + to;
    let start = intro.len() - 2;
    assert(mid.take(3) =~= "\n}\n"@);
    assert(intro.subrange(start as int, intro.len() as int) =~= "*."@);
    assert forall|i: int| 0 <= i < block.len() implies head[start + i] == block[i] by {
        let k = 2 + domain.len() + opening.len() + digits.len();
        if i < 2 {
            assert(head[start + i] == intro[start + i]);
            assert(intro.subrange(start as int, intro.len() as int)[i] == "*."@[i]);
        } else if i < k {
        } else {
            assert(head[start + i] == mid[i - k]);
            assert(mid.take(3)[i - k] == "\n}\n"@[i - k]);
        }
    }
    assert(head.subrange(start as int, start + block.len()) =~= block);
}

/// The web server's file has a block for each project with a custom domain, in the order of the
/// projects, and none for any other.
pub proof fn law_caddy_sites(first: Project, projects: Seq<Project>, port: u16)
    ensures
        caddy::caddy_sites(Seq::empty(), port) == Seq::<char>::empty(),
        caddy::caddy_sites(seq![first] + projects, port) == (match first.custom_domain {
            Some(custom) => caddy::caddy_site(first.name@, custom@, port),
            None => Seq::empty(),
        }) + caddy::caddy_sites(projects, port),
    decreases projects.len(),
{
    let all = seq![first] + projects;
    if projects.len() == 0 {
        assert(all =~= seq![first]);
        assert(all.drop_last() =~= Seq::<Project>::empty());
        assert(caddy::caddy_sites(all.drop_last(), port) =~= Seq::empty());
    } else {
        law_caddy_sites(first, projects.drop_last(), port);
        assert(all.drop_last() =~= seq![first] + projects.drop_last());
        assert(all.last() == projects.last());
    }
}

/// The web server's file is its head and the blocks of the projects behind it.
pub proof fn law_caddyfile(domain: &str, port: u16, projects: Vec<Project>, r: String)
    requires
        call_ensures(caddy::caddyfile, (domain, port, &projects), r),
    ensures
        r@ == caddy::caddy_head(domain@, port) + caddy::caddy_sites(projects@, port),
{
}

/// The statement that copies a database names the path of the copy, whatever is in it: between the
/// quotes stands a literal whose value is the path.
pub proof fn law_vacuum_statement(path: &str, r: String)
    requires
        call_ensures(backup::vacuum_statement, (path,), r),
    ensures
        "VACUUM INTO '"@.is_prefix_of(r@),
        r@.last() == '\'',
        backup::literal_value(r@.subrange("VACUUM INTO '"@.len() as int, r@.len() - 1)) == Some(path@),
{
    backup::law_vacuum_names_the_path(path@);
    reveal_strlit("VACUUM INTO '");
    reveal_strlit("'");
    let head = "VACUUM INTO '"@;
    assert(r@.take(head.len() as int) =~= head);
    assert(r@.subrange(head.len() as int, r@.len() - 1) =~= backup::escaped(path@));
}

// ---------------------------------------------------------------------------------------------
// Requests
// ---------------------------------------------------------------------------------------------

/// Each request starts by finding out who it comes from, and is then carried out as what it is.
pub proof fn law_requests_start(
    id: String,
    other: String,
    start: u16,
    end: u16,
    deploying: (Stage, Action),
    deleting: (Stage, Action),
    restarting: (Stage, Action),
    stopping: (Stage, Action),
    rolling_back: (Stage, Action),
    backing_up: (Stage, Action),
)
    requires
        call_ensures(deploy::deploy, (start, end), deploying),
        call_ensures(deploy::delete_project, (id,), deleting),
        call_ensures(deploy::restart_project, (id,), restarting),
        call_ensures(deploy::stop_project, (id,), stopping),
        call_ensures(deploy::rollback_deploy, (id, other), rolling_back),
        call_ensures(deploy::download_backup, (id,), backing_up),
    ensures
        deploying.1 == Action::Authenticate && deploying.0 == (Stage::Authenticating {
            command: Command::Deploy { start, end },
        }),
        deleting.1 == Action::Authenticate && deleting.0 == (Stage::Authenticating {
            command: Command::DeleteProject { id },
        }),
        restarting.1 == Action::Authenticate && restarting.0 == (Stage::Authenticating {
            command: Command::RestartProject { id },
        }),
        stopping.1 == Action::Authenticate && stopping.0 == (Stage::Authenticating {
            command: Command::StopProject { id },
        }),
        rolling_back.1 == Action::Authenticate && rolling_back.0 == (Stage::Authenticating {
            command: Command::RollbackDeploy { id, deploy_id: other },
        }),
        backing_up.1 == Action::Authenticate && backing_up.0 == (Stage::Authenticating {
            command: Command::DownloadBackup { id },
        }),
{
}

/// Reading, listing and changing settings start in the same way, with what was sent.
pub proof fn law_settings_start(
    id: String,
    env: UpdateEnvPayload,
    domain: CustomDomainPayload,
    limits: ResourceLimitsPayload,
    getting_env: (Stage, Action),
    updating_env: (Stage, Action),
    setting_domain: (Stage, Action),
    setting_limits: (Stage, Action),
    listing: (Stage, Action),
    listing_deploys: (Stage, Action),
    measuring: (Stage, Action),
    configuring: (Stage, Action),
)
    requires
        call_ensures(deploy::get_env, (id,), getting_env),
        call_ensures(deploy::update_env, (id, env), updating_env),
        call_ensures(deploy::set_custom_domain, (id, domain), setting_domain),
        call_ensures(deploy::set_limits, (id, limits), setting_limits),
        call_ensures(deploy::list_projects, (), listing),
        call_ensures(deploy::list_deploys, (id,), listing_deploys),
        call_ensures(deploy::get_metrics, (id,), measuring),
        call_ensures(deploy::caddy_config, (), configuring),
    ensures
        getting_env.0 == (Stage::Authenticating { command: Command::GetEnv { id } }),
        updating_env.0 == (Stage::Authenticating {
            command: Command::UpdateEnv { id, content: env.env_content },
        }),
        setting_domain.0 == (Stage::Authenticating {
            command: Command::SetCustomDomain { id, domain: domain.domain },
        }),
        setting_limits.0 == (Stage::Authenticating {
            command: Command::SetLimits { id, ram_limit_mb: limits.ram_limit_mb },
        }),
        listing.0 == (Stage::Authenticating { command: Command::ListProjects }),
        listing_deploys.0 == (Stage::Authenticating { command: Command::ListDeploys { id } }),
        measuring.0 == (Stage::Authenticating { command: Command::GetMetrics { id } }),
        configuring.0 == (Stage::Authenticating { command: Command::CaddyConfig }),
        getting_env.1 == Action::Authenticate && updating_env.1 == Action::Authenticate,
        setting_domain.1 == Action::Authenticate && setting_limits.1 == Action::Authenticate,
        listing.1 == Action::Authenticate && listing_deploys.1 == Action::Authenticate,
        measuring.1 == Action::Authenticate && configuring.1 == Action::Authenticate,
{
}

/// A request is taken on by the steps that its run is made of, and an event is expected exactly
/// where there is such a step.
pub proof fn law_advance_steps(stage: Stage, event: Event, r: (Stage, Action), expected: bool)
    requires
        call_ensures(deploy::advance, (stage, event), r),
        call_ensures(Stage::is_expected, (&stage, &event), expected),
    ensures
        deploy::steps(stage, event, r.0, r.1),
        expected,
{
}

/// What the client is told of a deploy is what came of it, and whether the project is new.
pub proof fn law_deploy_response(
    project_id: String,
    name: String,
    port: u16,
    pid: u32,
    first: DeployResponse,
    again: DeployResponse,
)
    requires
        call_ensures(DeployResponse::of, (project_id, name, port, pid, true), first),
        call_ensures(DeployResponse::of, (project_id, name, port, pid, false), again),
    ensures
        first.project_id == project_id && again.project_id == project_id,
        first.name == name && again.name == name,
        first.port == port && again.port == port,
        first.pid == pid && again.pid == pid,
        again.message@ == "Re-d"@ + first.message@.skip(1),
{
    reveal_strlit("Deployed successfully");
    reveal_strlit("Re-deployed successfully");
    reveal_strlit("Re-d");
    assert(again.message@ =~= "Re-d"@ + first.message@.skip(1));
}

/// The text of the variables is what the file holds, and empty where there is none.
pub proof fn law_env_text(content: String, read: String, missing: String)
    requires
        call_ensures(deploy::env_text, (Some(content),), read),
        call_ensures(deploy::env_text, (None,), missing),
    ensures
        read == content,
        missing@.len() == 0,
{
}

/// There is an administrator afterwards: the one there was, untouched, or a new one.
pub proof fn law_admin(id: String, kept: AdminStep, made: AdminStep)
    requires
        call_ensures(access::ensure_admin_user, (Some(id),), kept),
        call_ensures(access::ensure_admin_user, (None,), made),
    ensures
        kept == AdminStep::Exists(id),
        made matches AdminStep::Create(user) && user.username@ == "admin"@ && (user.accepts(
            "admin123"@,
        ) || user.password_hash@.len() == 0),
{
}

} // verus!
