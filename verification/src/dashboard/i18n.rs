//! The texts of the dashboard, in Spanish and in English.

use vstd::prelude::*;
use vstd::string::*;
use vstd::utf8::*;

use crate::text;

verus! {

/// All texts of the dashboard in one language.
#[derive(Debug)]
pub struct Dict {
    // Navbar.
    pub nav_docs: &'static str,
    pub nav_dashboard: &'static str,
    pub nav_login: &'static str,
    pub nav_logout: &'static str,
    // Login.
    pub login_title: &'static str,
    pub login_user: &'static str,
    pub login_pass: &'static str,
    pub login_btn: &'static str,
    pub login_back: &'static str,
    pub login_err_pass: &'static str,
    pub login_err_user: &'static str,
    pub login_err_internal: &'static str,
    // Dashboard Index.
    pub idx_title: &'static str,
    pub idx_subtitle_apps: &'static str,
    pub idx_new_deploy: &'static str,
    pub idx_no_projects: &'static str,
    pub idx_deploy_first: &'static str,
    pub idx_col_name: &'static str,
    pub idx_col_subdomain: &'static str,
    pub idx_col_port: &'static str,
    pub idx_col_status: &'static str,
    pub idx_col_updated: &'static str,
    pub idx_col_actions: &'static str,
    pub idx_how_to_deploy: &'static str,
    // Project Detail.
    pub detail_title: &'static str,
    pub detail_status: &'static str,
    pub detail_port: &'static str,
    pub detail_subdomain: &'static str,
    pub detail_updated: &'static str,
    pub detail_buckets: &'static str,
    pub detail_logs: &'static str,
    // Landing.
    pub land_subtitle: &'static str,
    pub land_btn_dashboard: &'static str,
    pub land_btn_login: &'static str,
    pub land_btn_docs: &'static str,
    pub land_feat1_title: &'static str,
    pub land_feat1_desc: &'static str,
    pub land_feat2_title: &'static str,
    pub land_feat2_desc: &'static str,
    pub land_feat3_title: &'static str,
    pub land_feat3_desc: &'static str,
}

/// The texts in Spanish.
pub open spec fn spanish() -> Dict {
    Dict {
        nav_docs: "Documentación",
        nav_dashboard: "Dashboard",
        nav_login: "Iniciar Sesión",
        nav_logout: "Salir",
        login_title: "Acceder a ",
        login_user: "Usuario",
        login_pass: "Contraseña",
        login_btn: "Iniciar Sesión",
        login_back: "← Volver al inicio",
        login_err_pass: "Contraseña incorrecta",
        login_err_user: "Usuario no encontrado",
        login_err_internal: "Error interno",
        idx_title: "Proyectos",
        idx_subtitle_apps: "aplicaciones desplegadas",
        idx_new_deploy: "+ Nuevo Deploy",
        idx_no_projects: "Sin proyectos aún",
        idx_deploy_first: "Despliega tu primer binario con:",
        idx_col_name: "Nombre",
        idx_col_subdomain: "Subdominio",
        idx_col_port: "Puerto",
        idx_col_status: "Estado",
        idx_col_updated: "Actualizado",
        idx_col_actions: "Acciones",
        idx_how_to_deploy: "Cómo hacer deploy",
        detail_title: "Detalle del Proyecto",
        detail_status: "Estado",
        detail_port: "Puerto",
        detail_subdomain: "Subdominio",
        detail_updated: "Última Actualización",
        detail_buckets: "Buckets S3 Asociados",
        detail_logs: "Logs de la Aplicación",
        land_subtitle: "Tu Plataforma como Servicio personal, minimalista y ultrarrápida. Despliega tus aplicaciones, usa almacenamiento S3 integrado y bases de datos SQLite al instante.",
        land_btn_dashboard: "Ir al Dashboard",
        land_btn_login: "Acceder",
        land_btn_docs: "Leer Documentación",
        land_feat1_title: "🚀 Scale-to-Zero",
        land_feat1_desc: "Las aplicaciones sin tráfico se suspenden automáticamente liberando memoria, y se despiertan instantáneamente cuando llega una petición HTTP.",
        land_feat2_title: "🪣 Motor S3 Nativo",
        land_feat2_desc: "No necesitas AWS. Cada proyecto cuenta con un bucket S3 dedicado alojado directamente en el mismo servidor.",
        land_feat3_title: "🔄 Integración CI/CD",
        land_feat3_desc: "Haz push a GitHub y observa cómo tu código se compila y se despliega mágicamente en menos de un minuto usando nuestra plantilla de Actions.",
    }
}

/// The texts in English.
pub open spec fn english() -> Dict {
    Dict {
        nav_docs: "Documentation",
        nav_dashboard: "Dashboard",
        nav_login: "Sign In",
        nav_logout: "Logout",
        login_title: "Sign in to ",
        login_user: "Username",
        login_pass: "Password",
        login_btn: "Sign In",
        login_back: "← Back to home",
        login_err_pass: "Incorrect password",
        login_err_user: "User not found",
        login_err_internal: "Internal error",
        idx_title: "Projects",
        idx_subtitle_apps: "deployed applications",
        idx_new_deploy: "+ New Deploy",
        idx_no_projects: "No projects yet",
        idx_deploy_first: "Deploy your first binary with:",
        idx_col_name: "Name",
        idx_col_subdomain: "Subdomain",
        idx_col_port: "Port",
        idx_col_status: "Status",
        idx_col_updated: "Updated",
        idx_col_actions: "Actions",
        idx_how_to_deploy: "How to deploy",
        detail_title: "Project Detail",
        detail_status: "Status",
        detail_port: "Port",
        detail_subdomain: "Subdomain",
        detail_updated: "Last Updated",
        detail_buckets: "Associated S3 Buckets",
        detail_logs: "Application Logs",
        land_subtitle: "Your personal, minimalist and lightning-fast Platform as a Service. Deploy your apps, use built-in S3 storage and SQLite databases instantly.",
        land_btn_dashboard: "Go to Dashboard",
        land_btn_login: "Sign In",
        land_btn_docs: "Read Documentation",
        land_feat1_title: "🚀 Scale-to-Zero",
        land_feat1_desc: "Applications without traffic are automatically suspended freeing memory, and wake up instantly when an HTTP request arrives.",
        land_feat2_title: "🪣 Native S3 Engine",
        land_feat2_desc: "No AWS needed. Each project has a dedicated S3 bucket hosted directly on the same server.",
        land_feat3_title: "🔄 CI/CD Integration",
        land_feat3_desc: "Push to GitHub and watch your code magically build and deploy in under a minute using our Actions template.",
    }
}

/// The texts in Spanish.
pub fn es() -> (r: Dict)
    ensures
        r == spanish(),
{
    Dict {
        nav_docs: "Documentación",
        nav_dashboard: "Dashboard",
        nav_login: "Iniciar Sesión",
        nav_logout: "Salir",
        login_title: "Acceder a ",
        login_user: "Usuario",
        login_pass: "Contraseña",
        login_btn: "Iniciar Sesión",
        login_back: "← Volver al inicio",
        login_err_pass: "Contraseña incorrecta",
        login_err_user: "Usuario no encontrado",
        login_err_internal: "Error interno",
        idx_title: "Proyectos",
        idx_subtitle_apps: "aplicaciones desplegadas",
        idx_new_deploy: "+ Nuevo Deploy",
        idx_no_projects: "Sin proyectos aún",
        idx_deploy_first: "Despliega tu primer binario con:",
        idx_col_name: "Nombre",
        idx_col_subdomain: "Subdominio",
        idx_col_port: "Puerto",
        idx_col_status: "Estado",
        idx_col_updated: "Actualizado",
        idx_col_actions: "Acciones",
        idx_how_to_deploy: "Cómo hacer deploy",
        detail_title: "Detalle del Proyecto",
        detail_status: "Estado",
        detail_port: "Puerto",
        detail_subdomain: "Subdominio",
        detail_updated: "Última Actualización",
        detail_buckets: "Buckets S3 Asociados",
        detail_logs: "Logs de la Aplicación",
        land_subtitle: "Tu Plataforma como Servicio personal, minimalista y ultrarrápida. Despliega tus aplicaciones, usa almacenamiento S3 integrado y bases de datos SQLite al instante.",
        land_btn_dashboard: "Ir al Dashboard",
        land_btn_login: "Acceder",
        land_btn_docs: "Leer Documentación",
        land_feat1_title: "🚀 Scale-to-Zero",
        land_feat1_desc: "Las aplicaciones sin tráfico se suspenden automáticamente liberando memoria, y se despiertan instantáneamente cuando llega una petición HTTP.",
        land_feat2_title: "🪣 Motor S3 Nativo",
        land_feat2_desc: "No necesitas AWS. Cada proyecto cuenta con un bucket S3 dedicado alojado directamente en el mismo servidor.",
        land_feat3_title: "🔄 Integración CI/CD",
        land_feat3_desc: "Haz push a GitHub y observa cómo tu código se compila y se despliega mágicamente en menos de un minuto usando nuestra plantilla de Actions.",
    }
}

/// The texts in English.
pub fn en() -> (r: Dict)
    ensures
        r == english(),
{
    Dict {
        nav_docs: "Documentation",
        nav_dashboard: "Dashboard",
        nav_login: "Sign In",
        nav_logout: "Logout",
        login_title: "Sign in to ",
        login_user: "Username",
        login_pass: "Password",
        login_btn: "Sign In",
        login_back: "← Back to home",
        login_err_pass: "Incorrect password",
        login_err_user: "User not found",
        login_err_internal: "Internal error",
        idx_title: "Projects",
        idx_subtitle_apps: "deployed applications",
        idx_new_deploy: "+ New Deploy",
        idx_no_projects: "No projects yet",
        idx_deploy_first: "Deploy your first binary with:",
        idx_col_name: "Name",
        idx_col_subdomain: "Subdomain",
        idx_col_port: "Port",
        idx_col_status: "Status",
        idx_col_updated: "Updated",
        idx_col_actions: "Actions",
        idx_how_to_deploy: "How to deploy",
        detail_title: "Project Detail",
        detail_status: "Status",
        detail_port: "Port",
        detail_subdomain: "Subdomain",
        detail_updated: "Last Updated",
        detail_buckets: "Associated S3 Buckets",
        detail_logs: "Application Logs",
        land_subtitle: "Your personal, minimalist and lightning-fast Platform as a Service. Deploy your apps, use built-in S3 storage and SQLite databases instantly.",
        land_btn_dashboard: "Go to Dashboard",
        land_btn_login: "Sign In",
        land_btn_docs: "Read Documentation",
        land_feat1_title: "🚀 Scale-to-Zero",
        land_feat1_desc: "Applications without traffic are automatically suspended freeing memory, and wake up instantly when an HTTP request arrives.",
        land_feat2_title: "🪣 Native S3 Engine",
        land_feat2_desc: "No AWS needed. Each project has a dedicated S3 bucket hosted directly on the same server.",
        land_feat3_title: "🔄 CI/CD Integration",
        land_feat3_desc: "Push to GitHub and watch your code magically build and deploy in under a minute using our Actions template.",
    }
}

/// The language of a page.
#[derive(Debug)]
pub struct Lang(pub Dict);

/// The languages that a client asks for; Spanish where it does not say.
pub open spec fn asked_for(accept_language: Option<&str>) -> Seq<char> {
    match accept_language {
        Some(a) => a@,
        None => "es"@,
    }
}

impl Lang {
    /// The language for an `Accept-Language` header in lower case: English where it comes first,
    /// else Spanish.
    pub fn for_lowered(accept_language: &str) -> (r: Lang)
        ensures
            r.0 == (if "en"@.is_prefix_of(accept_language@) {
                english()
            } else {
                spanish()
            }),
    {
        if text::starts_with(accept_language, "en") {
            Lang(en())
        } else {
            Lang(es())
        }
    }

    /// The language for an `Accept-Language` header. Without one it is Spanish.
    pub fn from_header(accept_language: Option<&str>) -> (r: Lang)
        ensures
            r.0 == (if "en"@.is_prefix_of(text::lowercase(asked_for(accept_language))) {
                english()
            } else {
                spanish()
            }),
            is_ascii_chars(asked_for(accept_language)) ==> r.0 == (if "en"@.is_prefix_of(
                asked_for(accept_language).map_values(|c: char| text::ascii_lower(c)),
            ) {
                english()
            } else {
                spanish()
            }),
            accept_language is None ==> r.0 == spanish(),
    {
        let asked = match accept_language {
            Some(a) => a,
            None => "es",
        };
        let lowered = text::to_lowercase(asked);
        proof {
            reveal_strlit("es");
            reveal_strlit("en");
            if accept_language is None {
                assert(is_ascii_chars("es"@));
                let low = "es"@.map_values(|c: char| text::ascii_lower(c));
                assert(low[1] == 's');
                assert("en"@[1] == 'n');
                assert(low == lowered@);
                if "en"@.is_prefix_of(low) {
                    assert("en"@ =~= low.subrange(0, 2));
                    assert("en"@[1] == low.subrange(0, 2)[1]);
                }
            }
        }
        Lang::for_lowered(lowered.as_str())
    }
}

} // verus!
