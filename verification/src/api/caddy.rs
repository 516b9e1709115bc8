//! A configuration for the Caddy web server that makes it serve this platform.

use vstd::prelude::*;
use vstd::string::*;

use crate::db::models::Project;
use crate::text;

verus! {

/// The start of a configuration: the subdomains of all projects, and the dashboard.
pub open spec fn caddy_head(domain: Seq<char>, port: u16) -> Seq<char> {
    "# RustPaaS — generated Caddyfile\n# Place this at /etc/caddy/Caddyfile and run: systemctl reload caddy\n\n# Wildcard cert covers all app subdomains\n*."@
        + domain + " {\n\treverse_proxy localhost:"@ + text::decimal(port as nat)
        + "\n}\n\n# Main dashboard\n"@ + domain + " {\n\treverse_proxy localhost:"@ + text::decimal(
        port as nat,
    ) + "\n}\n"@
}

/// The part of a configuration for a project's custom domain.
pub open spec fn caddy_site(name: Seq<char>, custom: Seq<char>, port: u16) -> Seq<char> {
    "\n# Custom domain for project '"@ + name + "'\n"@ + custom
        + " {\n\treverse_proxy localhost:"@ + text::decimal(port as nat) + "\n}\n"@
}

/// The parts of a configuration for the custom domains of projects, in order. A project without
/// one has no part.
pub open spec fn caddy_sites(projects: Seq<Project>, port: u16) -> Seq<char>
    decreases projects.len(),
{
    if projects.len() == 0 {
        Seq::empty()
    } else {
        caddy_sites(projects.drop_last(), port) + (match projects.last().custom_domain {
            Some(custom) => caddy_site(projects.last().name@, custom@, port),
            None => Seq::empty(),
        })
    }
}

/// A configuration that sends the domain, its subdomains and all custom domains to this platform.
pub fn caddyfile(domain: &str, port: u16, projects: &Vec<Project>) -> (r: String)
    ensures
        r@ == caddy_head(domain@, port) + caddy_sites(projects@, port),
{
    let number = text::decimal_of(port as u64);
    let mut r =
        "# RustPaaS — generated Caddyfile\n# Place this at /etc/caddy/Caddyfile and run: systemctl reload caddy\n\n# Wildcard cert covers all app subdomains\n*.".to_owned();
    r.append(domain);
    r.append(" {\n\treverse_proxy localhost:");
    r.append(number.as_str());
    r.append("\n}\n\n# Main dashboard\n");
    r.append(domain);
    r.append(" {\n\treverse_proxy localhost:");
    r.append(number.as_str());
    r.append("\n}\n");
    let ghost head = r@;
    assert(head == caddy_head(domain@, port));
    let mut i: usize = 0;
    assert(projects@.take(0) =~= Seq::empty());
    assert(head + caddy_sites(projects@.take(0), port) =~= head);
    while i < projects.len()
        invariant
            i <= projects@.len(),
            number@ == text::decimal(port as nat),
            r@ == head + caddy_sites(projects@.take(i as int), port),
        decreases projects@.len() - i,
    {
        let ghost before = r@;
        let project = &projects[i];
        proof {
            assert(projects@.take(i as int + 1).drop_last() =~= projects@.take(i as int));
            assert(projects@.take(i as int + 1).last() == *project);
        }
        match &project.custom_domain {
            Some(custom) => {
                r.append("\n# Custom domain for project '");
                r.append(project.name.as_str());
                r.append("'\n");
                r.append(custom.as_str());
                r.append(" {\n\treverse_proxy localhost:");
                r.append(number.as_str());
                r.append("\n}\n");
                assert(r@ =~= before + caddy_site(project.name@, custom@, port));
            },
            None => {},
        }
        assert(r@ =~= head + caddy_sites(projects@.take(i as int + 1), port));
        i += 1;
    }
    assert(projects@.take(projects@.len() as int) =~= projects@);
    r
}

/// Every project with a custom domain is served under it: its part stands in the configuration.
pub proof fn law_custom_domains_served(projects: Seq<Project>, port: u16, i: int) -> (start: int)
    requires
        0 <= i < projects.len(),
        projects[i].custom_domain is Some,
    ensures
        ({
            let site = caddy_site(projects[i].name@, projects[i].custom_domain->0@, port);
            &&& 0 <= start <= start + site.len() <= caddy_sites(projects, port).len()
            &&& caddy_sites(projects, port).subrange(start, start + site.len()) == site
        }),
    decreases projects.len(),
{
    let site = caddy_site(projects[i].name@, projects[i].custom_domain->0@, port);
    let all = caddy_sites(projects, port);
    let rest = caddy_sites(projects.drop_last(), port);
    if i == projects.len() - 1 {
        assert(all == rest + site);
        assert(all.subrange(rest.len() as int, rest.len() as int + site.len()) =~= site);
        rest.len() as int
    } else {
        let start = law_custom_domains_served(projects.drop_last(), port, i);
        assert(all.subrange(start, start + site.len()) =~= rest.subrange(
            start,
            start + site.len(),
        ));
        start
    }
}

} // verus!
